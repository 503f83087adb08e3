use nes_core::cartridge::Cartridge;
use nes_core::flags::{test_flag, Flag};
use nes_core::nes::NES;

fn image_with(prg: &[(usize, u8)]) -> Vec<u8> {
    let mut image = vec![0u8; 16 + 0x4000];
    image[0] = 0x4E;
    image[1] = 0x45;
    image[2] = 0x53;
    image[3] = 0x1A;
    image[4] = 1;
    image[5] = 0;
    for &(at, byte) in prg {
        image[16 + at] = byte;
    }
    image
}

/// A machine after power-up whose reset stall has passed, about to execute
/// `program` from `at` in internal memory.
fn machine_running(program: &[u8], at: u16) -> NES {
    let cartridge = Cartridge::new(&image_with(&[])).unwrap();
    let mut nes = NES::new(cartridge);
    nes.powerup();
    for (i, &byte) in program.iter().enumerate() {
        nes.bus.write_cpu(&mut nes.ppu, at + i as u16, byte);
    }
    nes.cpu.pc = at;
    nes.cpu.cycles_remaining = 0;
    nes
}

#[test]
fn load_immediate_twice() {
    let mut nes = machine_running(&[0xA9, 0x55, 0xA2, 0xAA], 0x0200);
    for _ in 0..4 {
        nes.clock().unwrap();
    }
    assert_eq!(nes.cpu.acc, 0x55);
    assert_eq!(nes.cpu.x, 0xAA);
    assert!(test_flag(nes.cpu.p, Flag::Negative));
    assert!(!test_flag(nes.cpu.p, Flag::Zero));
    assert_eq!(nes.cpu.pc, 0x0204);
    assert_eq!(nes.cpu.total_cycles, 11);
    assert_eq!(nes.cpu.cycles_remaining, 0);
}

#[test]
fn add_with_carry_wraps_to_zero() {
    let mut nes = machine_running(&[0x18, 0x69, 0xFF], 0x0200);
    nes.cpu.acc = 0x01;
    nes.single_step().unwrap();
    nes.single_step().unwrap();
    assert_eq!(nes.cpu.acc, 0x00);
    assert!(test_flag(nes.cpu.p, Flag::Carry));
    assert!(test_flag(nes.cpu.p, Flag::Zero));
    assert!(!test_flag(nes.cpu.p, Flag::Negative));
    assert!(!test_flag(nes.cpu.p, Flag::Overflow));
}

#[test]
fn subtract_with_borrow_wraps_to_ff() {
    let mut nes = machine_running(&[0x38, 0xE9, 0x01], 0x0200);
    nes.cpu.acc = 0x00;
    nes.single_step().unwrap();
    nes.single_step().unwrap();
    assert_eq!(nes.cpu.acc, 0xFF);
    assert!(!test_flag(nes.cpu.p, Flag::Carry));
    assert!(!test_flag(nes.cpu.p, Flag::Zero));
    assert!(test_flag(nes.cpu.p, Flag::Negative));
    assert!(!test_flag(nes.cpu.p, Flag::Overflow));
}

#[test]
fn shift_left_ejects_bit_seven() {
    let mut nes = machine_running(&[0xA9, 0x80, 0x0A], 0x0200);
    nes.single_step().unwrap();
    nes.single_step().unwrap();
    assert_eq!(nes.cpu.acc, 0x00);
    assert!(test_flag(nes.cpu.p, Flag::Carry));
    assert!(test_flag(nes.cpu.p, Flag::Zero));
    assert!(!test_flag(nes.cpu.p, Flag::Negative));
}

#[test]
fn call_and_return() {
    let image = image_with(&[(0, 0x20), (1, 0x05), (2, 0x80), (5, 0x60)]);
    let mut nes = NES::new(Cartridge::new(&image).unwrap());
    nes.powerup();
    nes.cpu.pc = 0x8000;
    nes.cpu.sp = 0xFD;
    nes.cpu.cycles_remaining = 0;
    nes.single_step().unwrap();
    assert_eq!(nes.cpu.pc, 0x8005);
    assert_eq!(nes.cpu.sp, 0xFB);
    assert_eq!(nes.bus.peek(&nes.ppu, 0x01FC), 0x02);
    assert_eq!(nes.bus.peek(&nes.ppu, 0x01FD), 0x80);
    nes.single_step().unwrap();
    assert_eq!(nes.cpu.sp, 0xFD);
    assert_eq!(nes.cpu.pc, 0x8003);
}

#[test]
fn indirect_jump_wraps_within_the_page() {
    let mut nes = machine_running(&[0x6C, 0xFF, 0x02], 0x0300);
    nes.bus.write_cpu(&mut nes.ppu, 0x02FF, 0x34);
    nes.bus.write_cpu(&mut nes.ppu, 0x0200, 0x12);
    nes.single_step().unwrap();
    assert_eq!(nes.cpu.absolute_addr, 0x1234);
    assert_eq!(nes.cpu.pc, 0x1234);
    assert_eq!(nes.cpu.cycles_remaining, 4);
}

#[test]
fn reset_state() {
    let mut nes = NES::new(Cartridge::new(&image_with(&[])).unwrap());
    nes.cpu.additional_cycles = 0;
    nes.powerup();
    assert_eq!(nes.cpu.acc, 0);
    assert_eq!(nes.cpu.x, 0);
    assert_eq!(nes.cpu.y, 0);
    assert_eq!(nes.cpu.sp, 0xFD);
    assert_eq!(nes.cpu.p, 0x24);
    assert_eq!(nes.cpu.pc, 0xC000);
    assert_eq!(nes.cpu.cycles_remaining, 6);
    assert_eq!(nes.cpu.total_cycles, 7);
}

#[test]
fn reset_through_the_vector() {
    let image = image_with(&[(0x3FFC, 0x34), (0x3FFD, 0x92)]);
    let mut nes = NES::new(Cartridge::new(&image).unwrap());
    nes.reset();
    assert_eq!(nes.cpu.pc, 0x9234);
    assert_eq!(nes.cpu.sp, 0xFD);
    assert_eq!(nes.cpu.p, 0x24);
    assert_eq!(nes.cpu.cycles_remaining, 6);
    assert_eq!(nes.cpu.total_cycles, 7);
}

#[test]
fn reset_stall_takes_six_ticks() {
    let image = image_with(&[(0x0000, 0xEA)]);
    let mut nes = NES::new(Cartridge::new(&image).unwrap());
    nes.powerup();
    for _ in 0..6 {
        assert!(!nes.sync());
        assert_eq!(nes.clock(), Ok(false));
    }
    assert!(nes.sync());
    assert_eq!(nes.cpu.total_cycles, 13);
    assert_eq!(nes.cpu.pc, 0xC000);
    assert_eq!(nes.clock(), Ok(true));
    assert_eq!(nes.cpu.pc, 0xC001);
    assert_eq!(nes.cpu.total_cycles, 14);
    assert_eq!(nes.cpu.cycles_remaining, 1);
}
