use nes_core::cartridge::Cartridge;
use nes_core::nes::NES;
use nes_core::trace::hex_digit;

fn cart(prg: &[(usize, u8)]) -> Vec<u8> {
    let mut image = vec![0u8; 16 + 0x4000];
    image[4] = 1;
    for &(at, byte) in prg {
        image[16 + at] = byte;
    }
    image
}

fn staged(program: &[u8], at: u16) -> NES {
    let mut nes = NES::new(Cartridge::new(&cart(&[])).unwrap());
    nes.powerup();
    for (i, &byte) in program.iter().enumerate() {
        nes.bus.write_cpu(&mut nes.ppu, at + i as u16, byte);
    }
    nes.cpu.pc = at;
    nes.cpu.cycles_remaining = 0;
    nes
}

fn line(head: &str, operand: &str, registers: &str) -> Option<String> {
    Some(format!("{}{:<40}{}", head, operand, registers))
}

#[test]
fn trace_of_a_jump() {
    let image = cart(&[(0, 0x4C), (1, 0xF5), (2, 0xC5)]);
    let mut nes = NES::new(Cartridge::new(&image).unwrap());
    nes.powerup();
    assert_eq!(
        nes.trace_line(),
        line("C000  4C F5 C5   JMP ", "$C5F5", "A:00 X:00 Y:00 P:24 SP:FD CYC:7")
    );
    let text = nes.trace_line().unwrap();
    assert_eq!(text.len(), 21 + 40 + 31);
    assert_eq!(&text[..27], "C000  4C F5 C5   JMP $C5F5 ");
    assert_eq!(&text[61..], "A:00 X:00 Y:00 P:24 SP:FD CYC:7");
}

#[test]
fn trace_changes_nothing() {
    let mut nes = staged(&[0xAD, 0x00, 0x40], 0x0200);
    let before = nes.cpu;
    assert_eq!(
        nes.trace_line(),
        line("0200  AD 00 40   LDA ", "$4000 = 00", "A:00 X:00 Y:00 P:24 SP:FD CYC:7")
    );
    assert_eq!(nes.cpu, before);
    assert_eq!(nes.bus.faults(), 0);
    nes.single_step().unwrap();
    assert_eq!(nes.bus.faults(), 1);
}

#[test]
fn trace_of_each_addressing_mode() {
    let mut nes = staged(&[0xEA], 0x0200);
    nes.cpu.acc = 0x1A;
    nes.cpu.x = 0x2B;
    nes.cpu.y = 0x3C;
    nes.cpu.p = 0xE5;
    nes.cpu.sp = 0x08;
    nes.cpu.total_cycles = 12345;
    let registers = "A:1A X:2B Y:3C P:E5 SP:08 CYC:12345";
    assert_eq!(nes.trace_line(), line("0200  EA         NOP ", "", registers));

    let mut nes = staged(&[0x0A], 0x0200);
    nes.cpu.total_cycles = 0;
    assert_eq!(
        nes.trace_line(),
        line("0200  0A         ASL ", "A", "A:00 X:00 Y:00 P:24 SP:FD CYC:0")
    );

    let registers = "A:00 X:05 Y:02 P:24 SP:FD CYC:7";

    let mut nes = staged(&[0xA9, 0x00], 0x0200);
    nes.cpu.x = 0x05;
    nes.cpu.y = 0x02;
    assert_eq!(nes.trace_line(), line("0200  A9 00      LDA ", "#$00", registers));

    let mut nes = staged(&[0xA5, 0x80], 0x0200);
    nes.cpu.x = 0x05;
    nes.cpu.y = 0x02;
    nes.bus.write_cpu(&mut nes.ppu, 0x0080, 0xAB);
    assert_eq!(nes.trace_line(), line("0200  A5 80      LDA ", "$80 = AB", registers));

    let mut nes = staged(&[0xB5, 0x80], 0x0200);
    nes.cpu.x = 0x05;
    nes.cpu.y = 0x02;
    nes.bus.write_cpu(&mut nes.ppu, 0x0085, 0x02);
    assert_eq!(nes.trace_line(), line("0200  B5 80      LDA ", "$80,X @ $85 = 02", registers));

    let mut nes = staged(&[0xB6, 0xFF], 0x0200);
    nes.cpu.x = 0x05;
    nes.cpu.y = 0x02;
    nes.bus.write_cpu(&mut nes.ppu, 0x0001, 0x9F);
    assert_eq!(nes.trace_line(), line("0200  B6 FF      LDX ", "$FF,Y @ $01 = 9F", registers));

    let mut nes = staged(&[0xAD, 0x00, 0x04], 0x0200);
    nes.cpu.x = 0x05;
    nes.cpu.y = 0x02;
    assert_eq!(nes.trace_line(), line("0200  AD 00 04   LDA ", "$0400 = 00", registers));

    let mut nes = staged(&[0x20, 0x2D, 0xC7], 0x0200);
    nes.cpu.x = 0x05;
    nes.cpu.y = 0x02;
    assert_eq!(nes.trace_line(), line("0200  20 2D C7   JSR ", "$C72D", registers));

    let mut nes = staged(&[0xBD, 0xFE, 0x02], 0x0200);
    nes.cpu.x = 0x05;
    nes.cpu.y = 0x02;
    assert_eq!(nes.trace_line(), line("0200  BD FE 02   LDA ", "$02FE,X @ $0303", registers));

    let mut nes = staged(&[0xB9, 0xFE, 0x02], 0x0200);
    nes.cpu.x = 0x05;
    nes.cpu.y = 0x02;
    assert_eq!(nes.trace_line(), line("0200  B9 FE 02   LDA ", "$02FE,Y @ $0300", registers));

    let mut nes = staged(&[0x6C, 0xFF, 0x02], 0x0300);
    nes.cpu.x = 0x05;
    nes.cpu.y = 0x02;
    nes.bus.write_cpu(&mut nes.ppu, 0x02FF, 0x34);
    nes.bus.write_cpu(&mut nes.ppu, 0x0200, 0x12);
    assert_eq!(nes.trace_line(), line("0300  6C FF 02   JMP ", "($02FF) = $1234", registers));

    let mut nes = staged(&[0xA1, 0x40], 0x0200);
    nes.cpu.x = 0x05;
    nes.cpu.y = 0x02;
    nes.bus.write_cpu(&mut nes.ppu, 0x0045, 0x00);
    nes.bus.write_cpu(&mut nes.ppu, 0x0046, 0x04);
    nes.bus.write_cpu(&mut nes.ppu, 0x0400, 0x5B);
    assert_eq!(
        nes.trace_line(),
        line("0200  A1 40      LDA ", "($40,X) @ 45 = 0400 = 5B", registers)
    );

    let mut nes = staged(&[0xB1, 0x40], 0x0200);
    nes.cpu.x = 0x05;
    nes.cpu.y = 0x02;
    nes.bus.write_cpu(&mut nes.ppu, 0x0040, 0xFF);
    nes.bus.write_cpu(&mut nes.ppu, 0x0041, 0x03);
    nes.bus.write_cpu(&mut nes.ppu, 0x0401, 0x77);
    assert_eq!(
        nes.trace_line(),
        line("0200  B1 40      LDA ", "($40),Y @ [$03FF + Y] = $0401 = 77", registers)
    );

    let mut nes = staged(&[0xD0, 0xFB], 0x0200);
    nes.cpu.x = 0x05;
    nes.cpu.y = 0x02;
    assert_eq!(nes.trace_line(), line("0200  D0 FB      BNE ", "$FB", registers));
}

#[test]
fn trace_of_the_indexed_indirect_example() {
    let mut nes = staged(&[0xA1, 0x40], 0x0200);
    nes.bus.write_cpu(&mut nes.ppu, 0x0040, 0x00);
    nes.bus.write_cpu(&mut nes.ppu, 0x0041, 0x04);
    nes.bus.write_cpu(&mut nes.ppu, 0x0400, 0x5B);
    assert_eq!(
        nes.trace_line(),
        line(
            "0200  A1 40      LDA ",
            "($40,X) @ 40 = 0400 = 5B",
            "A:00 X:00 Y:00 P:24 SP:FD CYC:7"
        )
    );
}

#[test]
fn trace_marks_an_illegal_opcode() {
    let mut nes = staged(&[0xA7, 0x10], 0x0200);
    nes.bus.write_cpu(&mut nes.ppu, 0x0010, 0xC3);
    assert_eq!(
        nes.trace_line(),
        line("0200  A7 10     *LAX ", "$10 = C3", "A:00 X:00 Y:00 P:24 SP:FD CYC:7")
    );
    let nes = staged(&[0x04, 0xA9], 0x0200);
    assert_eq!(
        nes.trace_line(),
        line("0200  04 A9     *NOP ", "$A9 = 00", "A:00 X:00 Y:00 P:24 SP:FD CYC:7")
    );
}

#[test]
fn trace_of_an_unimplemented_opcode_is_nothing() {
    let nes = staged(&[0x02], 0x0200);
    assert_eq!(nes.trace_line(), None);
}

#[test]
fn trace_follows_the_program() {
    let mut nes = staged(&[0xA9, 0x80, 0x0A, 0x08], 0x0200);
    let mut lines = Vec::new();
    for _ in 0..3 {
        while !nes.sync() {
            nes.clock().unwrap();
        }
        lines.push(nes.trace_line().unwrap());
        nes.clock().unwrap();
    }
    assert_eq!(
        lines,
        vec![
            format!("0200  A9 80      LDA {:<40}A:00 X:00 Y:00 P:24 SP:FD CYC:7", "#$80"),
            format!("0202  0A         ASL {:<40}A:80 X:00 Y:00 P:A4 SP:FD CYC:9", "A"),
            format!("0203  08         PHP {:<40}A:00 X:00 Y:00 P:27 SP:FD CYC:11", ""),
        ]
    );
}

#[test]
fn a_traced_step_hands_out_the_line_of_what_it_executes() {
    let mut nes = staged(&[0xA9, 0x80, 0x0A, 0x02], 0x0200);
    nes.cpu.cycles_remaining = 3;
    assert_eq!(
        nes.traced_step(),
        Ok(format!("0200  A9 80      LDA {:<40}A:00 X:00 Y:00 P:24 SP:FD CYC:10", "#$80"))
    );
    assert_eq!(nes.cpu.acc, 0x80);
    assert_eq!(nes.cpu.total_cycles, 11);
    assert_eq!(
        nes.traced_step(),
        Ok(format!("0202  0A         ASL {:<40}A:80 X:00 Y:00 P:A4 SP:FD CYC:12", "A"))
    );
    assert_eq!(
        nes.traced_step(),
        Err(nes_core::cpu::UnimplementedOpcode { opcode: 0x02, pc: 0x0203 })
    );
    assert_eq!(nes.cpu.total_cycles, 15);
}

#[test]
fn a_traced_instruction_hands_out_its_line() {
    let mut nes = staged(&[0xA2, 0x07, 0x02], 0x0200);
    assert_eq!(
        nes.cpu.traced_execute(&mut nes.bus, &mut nes.ppu),
        Ok(format!("0200  A2 07      LDX {:<40}A:00 X:00 Y:00 P:24 SP:FD CYC:7", "#$07"))
    );
    assert_eq!(nes.cpu.x, 0x07);
    assert_eq!(nes.cpu.cycles_remaining, 2);
    assert_eq!(
        nes.cpu.traced_execute(&mut nes.bus, &mut nes.ppu),
        Err(nes_core::cpu::UnimplementedOpcode { opcode: 0x02, pc: 0x0202 })
    );
}

#[test]
fn hexadecimal_digits_are_upper_case() {
    let digits: String = (0..16u8).map(hex_digit).collect();
    assert_eq!(digits, "0123456789ABCDEF");
}

#[test]
fn the_tick_count_is_decimal() {
    let mut nes = staged(&[0xEA], 0x0200);
    for (cycles, text) in [
        (0u64, "0"),
        (9, "9"),
        (10, "10"),
        (8991, "8991"),
        (1_000_000, "1000000"),
        (u64::MAX, "18446744073709551615"),
    ] {
        nes.cpu.total_cycles = cycles;
        let line = nes.trace_line().unwrap();
        assert_eq!(&line[61..], format!("A:00 X:00 Y:00 P:24 SP:FD CYC:{}", text));
    }
}
