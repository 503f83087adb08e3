use nes_core::bus::Bus;
use nes_core::cartridge::Cartridge;
use nes_core::cpu::{pop, push, FetchType, CPU};
use nes_core::flags::{test_flag, Flag};
use nes_core::ppu::PPU;

fn blank_image() -> Vec<u8> {
    let mut image = vec![0u8; 16 + 0x4000];
    image[4] = 1;
    image
}

fn rig() -> (CPU, Bus, PPU) {
    let bus = Bus::new(Cartridge::new(&blank_image()).unwrap());
    let mut cpu = CPU::new();
    cpu.powerup();
    (cpu, bus, PPU::new())
}

/// A rig whose operand is the byte `operand`, stored at `0x0010`.
fn rig_with_operand(operand: u8) -> (CPU, Bus, PPU) {
    let (mut cpu, mut bus, mut ppu) = rig();
    bus.write_cpu(&mut ppu, 0x0010, operand);
    cpu.absolute_addr = 0x0010;
    cpu.fetch_type = FetchType::Mem;
    (cpu, bus, ppu)
}

fn flags_of(p: u8) -> (bool, bool, bool, bool) {
    (
        test_flag(p, Flag::Negative),
        test_flag(p, Flag::Overflow),
        test_flag(p, Flag::Zero),
        test_flag(p, Flag::Carry),
    )
}

#[test]
fn flag_operations_touch_one_flag() {
    let mut cpu = CPU::new();
    cpu.p = 0xFF;
    cpu.clc();
    assert_eq!(cpu.p, 0xFE);
    cpu.p = 0x00;
    cpu.sec();
    assert_eq!(cpu.p, 0x01);
    cpu.p = 0xFF;
    cpu.cli();
    assert_eq!(cpu.p, 0xFB);
    cpu.p = 0x00;
    cpu.sei();
    assert_eq!(cpu.p, 0x04);
    cpu.p = 0xFF;
    cpu.cld();
    assert_eq!(cpu.p, 0xF7);
    cpu.p = 0x00;
    cpu.sed();
    assert_eq!(cpu.p, 0x08);
    cpu.p = 0xFF;
    cpu.clv();
    assert_eq!(cpu.p, 0xBF);
}

#[test]
fn flag_operations_leave_the_registers() {
    let mut cpu = CPU::new();
    cpu.powerup();
    cpu.acc = 0x12;
    cpu.x = 0x34;
    cpu.y = 0x56;
    let before = cpu;
    cpu.sec();
    cpu.sed();
    assert_eq!(cpu, CPU { p: 0x24 | 0x01 | 0x08, ..before });
}

#[test]
fn transfers_set_zero_and_negative() {
    let mut cpu = CPU::new();
    cpu.p = 0x24;
    cpu.acc = 0x80;
    cpu.tax();
    assert_eq!(cpu.x, 0x80);
    assert_eq!(cpu.p, 0xA4);
    cpu.acc = 0x00;
    cpu.tay();
    assert_eq!(cpu.y, 0x00);
    assert_eq!(cpu.p, 0x26);
    cpu.sp = 0x7F;
    cpu.tsx();
    assert_eq!(cpu.x, 0x7F);
    assert_eq!(cpu.p, 0x24);
    cpu.x = 0xFF;
    cpu.txa();
    assert_eq!(cpu.acc, 0xFF);
    assert_eq!(cpu.p, 0xA4);
    cpu.y = 0x01;
    cpu.tya();
    assert_eq!(cpu.acc, 0x01);
    assert_eq!(cpu.p, 0x24);
}

#[test]
fn transfer_to_the_stack_pointer_sets_no_flag() {
    let mut cpu = CPU::new();
    cpu.p = 0x24;
    cpu.x = 0x00;
    cpu.sp = 0xFD;
    cpu.txs();
    assert_eq!(cpu.sp, 0x00);
    assert_eq!(cpu.p, 0x24);
    cpu.x = 0x80;
    cpu.txs();
    assert_eq!(cpu.sp, 0x80);
    assert_eq!(cpu.p, 0x24);
}

#[test]
fn register_steps_wrap() {
    let mut cpu = CPU::new();
    cpu.p = 0x24;
    cpu.x = 0xFF;
    cpu.inx();
    assert_eq!((cpu.x, cpu.p), (0x00, 0x26));
    cpu.dex();
    assert_eq!((cpu.x, cpu.p), (0xFF, 0xA4));
    cpu.y = 0x7F;
    cpu.iny();
    assert_eq!((cpu.y, cpu.p), (0x80, 0xA4));
    cpu.y = 0x01;
    cpu.dey();
    assert_eq!((cpu.y, cpu.p), (0x00, 0x26));
}

#[test]
fn loads_set_zero_and_negative() {
    let (mut cpu, mut bus, mut ppu) = rig_with_operand(0x00);
    cpu.lda(&mut bus, &mut ppu);
    assert_eq!((cpu.acc, cpu.p), (0x00, 0x26));
    let (mut cpu, mut bus, mut ppu) = rig_with_operand(0x91);
    cpu.ldx(&mut bus, &mut ppu);
    assert_eq!((cpu.x, cpu.p), (0x91, 0xA4));
    let (mut cpu, mut bus, mut ppu) = rig_with_operand(0x42);
    cpu.ldy(&mut bus, &mut ppu);
    assert_eq!((cpu.y, cpu.p), (0x42, 0x24));
}

#[test]
fn stores_write_and_drop_the_penalty() {
    let (mut cpu, mut bus, mut ppu) = rig();
    cpu.acc = 0x11;
    cpu.x = 0x22;
    cpu.y = 0x33;
    cpu.absolute_addr = 0x0040;
    cpu.additional_cycles = 1;
    cpu.sta(&mut bus, &mut ppu);
    assert_eq!(bus.peek(&ppu, 0x0040), 0x11);
    assert_eq!(cpu.additional_cycles, 0);
    cpu.absolute_addr = 0x0041;
    cpu.additional_cycles = 1;
    cpu.stx(&mut bus, &mut ppu);
    assert_eq!(bus.peek(&ppu, 0x0041), 0x22);
    assert_eq!(cpu.additional_cycles, 0);
    cpu.absolute_addr = 0x0042;
    cpu.additional_cycles = 1;
    cpu.sty(&mut bus, &mut ppu);
    assert_eq!(bus.peek(&ppu, 0x0042), 0x33);
    assert_eq!(cpu.additional_cycles, 0);
    assert_eq!(cpu.p, 0x24);
}

#[test]
fn compare_sets_zero_carry_negative() {
    let (mut cpu, mut bus, mut ppu) = rig_with_operand(0x40);
    cpu.acc = 0x40;
    cpu.cmp(&mut bus, &mut ppu);
    assert_eq!(flags_of(cpu.p), (false, false, true, true));
    assert_eq!(cpu.acc, 0x40);

    let (mut cpu, mut bus, mut ppu) = rig_with_operand(0x41);
    cpu.x = 0x40;
    cpu.cpx(&mut bus, &mut ppu);
    assert_eq!(flags_of(cpu.p), (true, false, false, false));

    let (mut cpu, mut bus, mut ppu) = rig_with_operand(0x01);
    cpu.y = 0x80;
    cpu.cpy(&mut bus, &mut ppu);
    assert_eq!(flags_of(cpu.p), (false, false, false, true));

    let (mut cpu, mut bus, mut ppu) = rig_with_operand(0xFF);
    cpu.acc = 0x7F;
    cpu.cmp(&mut bus, &mut ppu);
    assert_eq!(flags_of(cpu.p), (true, false, false, false));
}

#[test]
fn add_sets_carry_and_overflow() {
    let (mut cpu, mut bus, mut ppu) = rig_with_operand(0x50);
    cpu.acc = 0x50;
    cpu.adc(&mut bus, &mut ppu);
    assert_eq!(cpu.acc, 0xA0);
    assert_eq!(flags_of(cpu.p), (true, true, false, false));

    let (mut cpu, mut bus, mut ppu) = rig_with_operand(0x90);
    cpu.acc = 0xD0;
    cpu.adc(&mut bus, &mut ppu);
    assert_eq!(cpu.acc, 0x60);
    assert_eq!(flags_of(cpu.p), (false, true, false, true));

    let (mut cpu, mut bus, mut ppu) = rig_with_operand(0x10);
    cpu.acc = 0x20;
    cpu.p = 0x25;
    cpu.adc(&mut bus, &mut ppu);
    assert_eq!(cpu.acc, 0x31);
    assert_eq!(flags_of(cpu.p), (false, false, false, false));
}

#[test]
fn subtract_is_add_of_the_complement() {
    let (mut cpu, mut bus, mut ppu) = rig_with_operand(0xF0);
    cpu.acc = 0x50;
    cpu.p = 0x25;
    cpu.sbc(&mut bus, &mut ppu);
    assert_eq!(cpu.acc, 0x60);
    assert_eq!(flags_of(cpu.p), (false, false, false, false));

    let (mut cpu, mut bus, mut ppu) = rig_with_operand(0xB0);
    cpu.acc = 0x50;
    cpu.p = 0x25;
    cpu.sbc(&mut bus, &mut ppu);
    assert_eq!(cpu.acc, 0xA0);
    assert_eq!(flags_of(cpu.p), (true, true, false, false));

    let (mut cpu, mut bus, mut ppu) = rig_with_operand(0x10);
    cpu.acc = 0x30;
    cpu.p = 0x25;
    cpu.sbc(&mut bus, &mut ppu);
    assert_eq!(cpu.acc, 0x20);
    assert_eq!(flags_of(cpu.p), (false, false, false, true));

    let (mut cpu, mut bus, mut ppu) = rig_with_operand(0x10);
    cpu.acc = 0x30;
    cpu.p = 0x24;
    cpu.sbc(&mut bus, &mut ppu);
    assert_eq!(cpu.acc, 0x1F);
    assert_eq!(flags_of(cpu.p), (false, false, false, true));
}

#[test]
fn bitwise_operations_on_the_accumulator() {
    let (mut cpu, mut bus, mut ppu) = rig_with_operand(0x0F);
    cpu.acc = 0xF0;
    cpu.and(&mut bus, &mut ppu);
    assert_eq!((cpu.acc, cpu.p), (0x00, 0x26));

    let (mut cpu, mut bus, mut ppu) = rig_with_operand(0x0F);
    cpu.acc = 0xF0;
    cpu.ora(&mut bus, &mut ppu);
    assert_eq!((cpu.acc, cpu.p), (0xFF, 0xA4));

    let (mut cpu, mut bus, mut ppu) = rig_with_operand(0xFF);
    cpu.acc = 0xF0;
    cpu.eor(&mut bus, &mut ppu);
    assert_eq!((cpu.acc, cpu.p), (0x0F, 0x24));
}

#[test]
fn bit_test_copies_bits_seven_and_six() {
    let (mut cpu, mut bus, mut ppu) = rig_with_operand(0xC0);
    cpu.acc = 0x0F;
    cpu.bit(&mut bus, &mut ppu);
    assert_eq!(flags_of(cpu.p), (true, true, true, false));
    assert_eq!(cpu.acc, 0x0F);

    let (mut cpu, mut bus, mut ppu) = rig_with_operand(0x01);
    cpu.acc = 0xFF;
    cpu.p = 0xE4;
    cpu.bit(&mut bus, &mut ppu);
    assert_eq!(flags_of(cpu.p), (false, false, false, false));
}

#[test]
fn bit_test_reads_memory_whatever_the_fetch_type() {
    let (mut cpu, mut bus, mut ppu) = rig_with_operand(0x80);
    cpu.fetch_type = FetchType::Acc;
    cpu.acc = 0x7F;
    cpu.bit(&mut bus, &mut ppu);
    assert_eq!(flags_of(cpu.p), (true, false, true, false));
}

#[test]
fn shifts_and_rotates_in_memory() {
    let (mut cpu, mut bus, mut ppu) = rig_with_operand(0x81);
    cpu.asl(&mut bus, &mut ppu);
    assert_eq!(bus.peek(&ppu, 0x0010), 0x02);
    assert_eq!(flags_of(cpu.p), (false, false, false, true));

    let (mut cpu, mut bus, mut ppu) = rig_with_operand(0x01);
    cpu.lsr(&mut bus, &mut ppu);
    assert_eq!(bus.peek(&ppu, 0x0010), 0x00);
    assert_eq!(flags_of(cpu.p), (false, false, true, true));

    let (mut cpu, mut bus, mut ppu) = rig_with_operand(0x80);
    cpu.p = 0x25;
    cpu.rol(&mut bus, &mut ppu);
    assert_eq!(bus.peek(&ppu, 0x0010), 0x01);
    assert_eq!(flags_of(cpu.p), (false, false, false, true));

    let (mut cpu, mut bus, mut ppu) = rig_with_operand(0x01);
    cpu.p = 0x25;
    cpu.ror(&mut bus, &mut ppu);
    assert_eq!(bus.peek(&ppu, 0x0010), 0x80);
    assert_eq!(flags_of(cpu.p), (true, false, false, true));

    let (mut cpu, mut bus, mut ppu) = rig_with_operand(0x40);
    cpu.p = 0x24;
    cpu.rol(&mut bus, &mut ppu);
    assert_eq!(bus.peek(&ppu, 0x0010), 0x80);
    assert_eq!(flags_of(cpu.p), (true, false, false, false));
}

#[test]
fn shifts_and_rotates_of_the_accumulator() {
    let (mut cpu, mut bus, mut ppu) = rig_with_operand(0x55);
    cpu.acc();
    cpu.acc = 0x81;
    cpu.asl(&mut bus, &mut ppu);
    assert_eq!(cpu.acc, 0x02);
    assert_eq!(bus.peek(&ppu, 0x0010), 0x55);
    assert_eq!(flags_of(cpu.p), (false, false, false, true));
    cpu.ror(&mut bus, &mut ppu);
    assert_eq!(cpu.acc, 0x81);
    assert_eq!(flags_of(cpu.p), (true, false, false, false));
    cpu.lsr(&mut bus, &mut ppu);
    assert_eq!(cpu.acc, 0x40);
    assert_eq!(flags_of(cpu.p), (false, false, false, true));
}

#[test]
fn memory_steps_wrap() {
    let (mut cpu, mut bus, mut ppu) = rig_with_operand(0xFF);
    cpu.inc(&mut bus, &mut ppu);
    assert_eq!(bus.peek(&ppu, 0x0010), 0x00);
    assert_eq!(cpu.p, 0x26);
    cpu.dec(&mut bus, &mut ppu);
    assert_eq!(bus.peek(&ppu, 0x0010), 0xFF);
    assert_eq!(cpu.p, 0xA4);
}

#[test]
fn push_writes_then_steps_down_and_pop_steps_up_then_reads() {
    let (_, mut bus, mut ppu) = rig();
    let mut sp: u8 = 0xFD;
    push(&mut bus, &mut ppu, &mut sp, 0xAB);
    assert_eq!(sp, 0xFC);
    assert_eq!(bus.peek(&ppu, 0x01FD), 0xAB);
    assert_eq!(pop(&mut bus, &mut ppu, &mut sp), 0xAB);
    assert_eq!(sp, 0xFD);
}

#[test]
fn the_stack_pointer_wraps() {
    let (_, mut bus, mut ppu) = rig();
    let mut sp: u8 = 0x00;
    push(&mut bus, &mut ppu, &mut sp, 0x12);
    assert_eq!(sp, 0xFF);
    assert_eq!(bus.peek(&ppu, 0x0100), 0x12);
    push(&mut bus, &mut ppu, &mut sp, 0x34);
    assert_eq!(sp, 0xFE);
    assert_eq!(bus.peek(&ppu, 0x01FF), 0x34);
    assert_eq!(pop(&mut bus, &mut ppu, &mut sp), 0x34);
    assert_eq!(pop(&mut bus, &mut ppu, &mut sp), 0x12);
    assert_eq!(sp, 0x00);
}

#[test]
fn push_and_pull_of_the_accumulator() {
    let (mut cpu, mut bus, mut ppu) = rig();
    cpu.acc = 0x80;
    cpu.pha(&mut bus, &mut ppu);
    assert_eq!(cpu.sp, 0xFC);
    assert_eq!(cpu.p, 0x24);
    cpu.acc = 0x00;
    cpu.pla(&mut bus, &mut ppu);
    assert_eq!(cpu.acc, 0x80);
    assert_eq!(cpu.sp, 0xFD);
    assert_eq!(cpu.p, 0xA4);

    cpu.acc = 0x00;
    cpu.pha(&mut bus, &mut ppu);
    cpu.acc = 0x55;
    cpu.pla(&mut bus, &mut ppu);
    assert_eq!(cpu.acc, 0x00);
    assert_eq!(cpu.p, 0x26);
}

#[test]
fn pushed_status_has_break_and_the_unused_bit() {
    let (mut cpu, mut bus, mut ppu) = rig();
    cpu.p = 0xC5;
    cpu.php(&mut bus, &mut ppu);
    assert_eq!(bus.peek(&ppu, 0x01FD), 0xF5);
    assert_eq!(cpu.p, 0xC5);
    assert_eq!(cpu.sp, 0xFC);
}

#[test]
fn pulled_status_keeps_break_and_the_unused_bit() {
    let (mut cpu, mut bus, mut ppu) = rig();
    push(&mut bus, &mut ppu, &mut cpu.sp, 0xFF);
    cpu.p = 0x24;
    cpu.plp(&mut bus, &mut ppu);
    assert_eq!(cpu.p, 0xEF);
    assert!(!test_flag(cpu.p, Flag::Break));
    assert!(test_flag(cpu.p, Flag::Unused));

    push(&mut bus, &mut ppu, &mut cpu.sp, 0x00);
    cpu.p = 0x24;
    cpu.plp(&mut bus, &mut ppu);
    assert_eq!(cpu.p, 0x20);
}

#[test]
fn push_then_pull_of_the_status_restores_it() {
    let (mut cpu, mut bus, mut ppu) = rig();
    cpu.p = 0xE7;
    cpu.php(&mut bus, &mut ppu);
    cpu.p = 0x24;
    cpu.plp(&mut bus, &mut ppu);
    assert_eq!(cpu.p & 0xCF, 0xE7 & 0xCF);
    assert_eq!(cpu.p, 0xE7);
    assert_eq!(cpu.sp, 0xFD);
}

#[test]
fn jump_goes_to_the_operand() {
    let mut cpu = CPU::new();
    cpu.absolute_addr = 0xC5F5;
    cpu.jmp();
    assert_eq!(cpu.pc, 0xC5F5);
}

#[test]
fn call_pushes_the_address_of_its_last_byte() {
    let (mut cpu, mut bus, mut ppu) = rig();
    cpu.pc = 0x8003;
    cpu.absolute_addr = 0x9000;
    cpu.jsr(&mut bus, &mut ppu);
    assert_eq!(cpu.pc, 0x9000);
    assert_eq!(cpu.sp, 0xFB);
    assert_eq!(bus.peek(&ppu, 0x01FD), 0x80);
    assert_eq!(bus.peek(&ppu, 0x01FC), 0x02);
    cpu.rts(&mut bus, &mut ppu);
    assert_eq!(cpu.pc, 0x8003);
    assert_eq!(cpu.sp, 0xFD);
}

#[test]
fn return_from_interrupt_pulls_status_then_address() {
    let (mut cpu, mut bus, mut ppu) = rig();
    push(&mut bus, &mut ppu, &mut cpu.sp, 0x12);
    push(&mut bus, &mut ppu, &mut cpu.sp, 0x34);
    push(&mut bus, &mut ppu, &mut cpu.sp, 0xD3);
    cpu.p = 0x24;
    cpu.rti(&mut bus, &mut ppu);
    assert_eq!(cpu.pc, 0x1234);
    assert_eq!(cpu.p, 0xE3);
    assert_eq!(cpu.sp, 0xFD);
}

#[test]
fn nop_changes_nothing() {
    let mut cpu = CPU::new();
    cpu.powerup();
    let before = cpu;
    cpu.nop();
    assert_eq!(cpu, before);
}

#[test]
fn lax_loads_both_registers() {
    let (mut cpu, mut bus, mut ppu) = rig_with_operand(0x9C);
    cpu.lax(&mut bus, &mut ppu);
    assert_eq!((cpu.acc, cpu.x, cpu.p), (0x9C, 0x9C, 0xA4));
}

#[test]
fn sax_stores_the_conjunction() {
    let (mut cpu, mut bus, mut ppu) = rig();
    cpu.acc = 0xF3;
    cpu.x = 0x3C;
    cpu.absolute_addr = 0x0050;
    cpu.additional_cycles = 1;
    cpu.sax(&mut bus, &mut ppu);
    assert_eq!(bus.peek(&ppu, 0x0050), 0x30);
    assert_eq!(cpu.p, 0x24);
    assert_eq!(cpu.additional_cycles, 0);
}

#[test]
fn dcp_decrements_then_compares() {
    let (mut cpu, mut bus, mut ppu) = rig_with_operand(0x41);
    cpu.acc = 0x40;
    cpu.additional_cycles = 1;
    cpu.dcp(&mut bus, &mut ppu);
    assert_eq!(bus.peek(&ppu, 0x0010), 0x40);
    assert_eq!(flags_of(cpu.p), (false, false, true, true));
    assert_eq!(cpu.additional_cycles, 0);
}

#[test]
fn isc_increments_then_subtracts() {
    let (mut cpu, mut bus, mut ppu) = rig_with_operand(0x0F);
    cpu.acc = 0x30;
    cpu.p = 0x25;
    cpu.additional_cycles = 1;
    cpu.isc(&mut bus, &mut ppu);
    assert_eq!(bus.peek(&ppu, 0x0010), 0x10);
    assert_eq!(cpu.acc, 0x20);
    assert_eq!(flags_of(cpu.p), (false, false, false, true));
    assert_eq!(cpu.additional_cycles, 0);
}

#[test]
fn slo_shifts_then_ors() {
    let (mut cpu, mut bus, mut ppu) = rig_with_operand(0x81);
    cpu.acc = 0x10;
    cpu.additional_cycles = 1;
    cpu.slo(&mut bus, &mut ppu);
    assert_eq!(bus.peek(&ppu, 0x0010), 0x02);
    assert_eq!(cpu.acc, 0x12);
    assert_eq!(flags_of(cpu.p), (false, false, false, true));
    assert_eq!(cpu.additional_cycles, 0);
}

#[test]
fn rla_rotates_then_ands() {
    let (mut cpu, mut bus, mut ppu) = rig_with_operand(0x80);
    cpu.acc = 0xFF;
    cpu.p = 0x25;
    cpu.additional_cycles = 1;
    cpu.rla(&mut bus, &mut ppu);
    assert_eq!(bus.peek(&ppu, 0x0010), 0x01);
    assert_eq!(cpu.acc, 0x01);
    assert_eq!(flags_of(cpu.p), (false, false, false, true));
    assert_eq!(cpu.additional_cycles, 0);
}

#[test]
fn sre_shifts_then_exclusive_ors() {
    let (mut cpu, mut bus, mut ppu) = rig_with_operand(0x03);
    cpu.acc = 0x01;
    cpu.additional_cycles = 1;
    cpu.sre(&mut bus, &mut ppu);
    assert_eq!(bus.peek(&ppu, 0x0010), 0x01);
    assert_eq!(cpu.acc, 0x00);
    assert_eq!(flags_of(cpu.p), (false, false, true, true));
    assert_eq!(cpu.additional_cycles, 0);
}

#[test]
fn rra_rotates_then_adds() {
    let (mut cpu, mut bus, mut ppu) = rig_with_operand(0x03);
    cpu.acc = 0x10;
    cpu.p = 0x24;
    cpu.additional_cycles = 1;
    cpu.rra(&mut bus, &mut ppu);
    assert_eq!(bus.peek(&ppu, 0x0010), 0x01);
    assert_eq!(cpu.acc, 0x12);
    assert_eq!(flags_of(cpu.p), (false, false, false, false));
    assert_eq!(cpu.additional_cycles, 0);
}

#[test]
fn branches_test_their_flag() {
    let mut cpu = CPU::new();
    cpu.pc = 0x0202;
    cpu.relative_addr = 5;
    cpu.p = 0x24;
    cpu.bcc();
    assert_eq!((cpu.pc, cpu.additional_cycles), (0x0207, 1));
    cpu.additional_cycles = 0;
    cpu.bcs();
    assert_eq!((cpu.pc, cpu.additional_cycles), (0x0207, 0));
    cpu.p = 0x25;
    cpu.bcs();
    assert_eq!((cpu.pc, cpu.additional_cycles), (0x020C, 1));
    cpu.additional_cycles = 0;
    cpu.p = 0x26;
    cpu.bne();
    assert_eq!(cpu.pc, 0x020C);
    cpu.beq();
    assert_eq!(cpu.pc, 0x0211);
    cpu.p = 0xA4;
    cpu.bpl();
    assert_eq!(cpu.pc, 0x0211);
    cpu.bmi();
    assert_eq!(cpu.pc, 0x0216);
    cpu.p = 0x64;
    cpu.bvc();
    assert_eq!(cpu.pc, 0x0216);
    cpu.bvs();
    assert_eq!(cpu.pc, 0x021B);
    cpu.p = 0x24;
    cpu.bne();
    cpu.bpl();
    cpu.bvc();
    assert_eq!(cpu.pc, 0x022A);
}

#[test]
fn a_branch_backwards_across_a_page_costs_two() {
    let mut cpu = CPU::new();
    cpu.pc = 0x0202;
    cpu.relative_addr = -5;
    cpu.p = 0x24;
    cpu.bne();
    assert_eq!((cpu.pc, cpu.additional_cycles), (0x01FD, 2));
}

#[test]
fn a_branch_wraps_the_program_counter() {
    let mut cpu = CPU::new();
    cpu.pc = 0xFFFE;
    cpu.relative_addr = 4;
    cpu.p = 0x24;
    cpu.bne();
    assert_eq!((cpu.pc, cpu.additional_cycles), (0x0002, 2));
}

#[test]
fn operand_in_the_accumulator() {
    let (mut cpu, mut bus, mut ppu) = rig_with_operand(0x77);
    cpu.acc();
    cpu.acc = 0x05;
    assert_eq!(cpu.fetch(&mut bus, &mut ppu), 0x05);
    cpu.ditch(&mut bus, &mut ppu, 0x06);
    assert_eq!(cpu.acc, 0x06);
    assert_eq!(bus.peek(&ppu, 0x0010), 0x77);
    cpu.fetch_type = FetchType::Mem;
    assert_eq!(cpu.fetch(&mut bus, &mut ppu), 0x77);
    cpu.ditch(&mut bus, &mut ppu, 0x78);
    assert_eq!(cpu.acc, 0x06);
    assert_eq!(bus.peek(&ppu, 0x0010), 0x78);
}

#[test]
fn the_unused_bit_survives_every_operation() {
    let (mut cpu, mut bus, mut ppu) = rig_with_operand(0x00);
    push(&mut bus, &mut ppu, &mut cpu.sp, 0x00);
    cpu.plp(&mut bus, &mut ppu);
    assert!(test_flag(cpu.p, Flag::Unused));
    cpu.adc(&mut bus, &mut ppu);
    assert!(test_flag(cpu.p, Flag::Unused));
    cpu.cmp(&mut bus, &mut ppu);
    assert!(test_flag(cpu.p, Flag::Unused));
    cpu.clc();
    cpu.cld();
    cpu.cli();
    cpu.clv();
    assert!(test_flag(cpu.p, Flag::Unused));
    assert!(!test_flag(cpu.p, Flag::Break));
}
