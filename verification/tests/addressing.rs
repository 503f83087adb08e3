use nes_core::bus::Bus;
use nes_core::cartridge::Cartridge;
use nes_core::cpu::{FetchType, CPU};
use nes_core::instructions::AddressingMode;
use nes_core::ppu::PPU;

fn empty_image() -> Vec<u8> {
    let mut image = vec![0u8; 16 + 0x4000];
    image[4] = 1;
    image
}

/// A processor whose program counter stands on `operands`, planted at `at`.
fn rig_at(at: u16, operands: &[u8]) -> (CPU, Bus, PPU) {
    let mut bus = Bus::new(Cartridge::new(&empty_image()).unwrap());
    let mut ppu = PPU::new();
    for (i, &byte) in operands.iter().enumerate() {
        bus.write_cpu(&mut ppu, at + i as u16, byte);
    }
    let mut cpu = CPU::new();
    cpu.powerup();
    cpu.pc = at;
    cpu.fetch_type = FetchType::Acc;
    (cpu, bus, ppu)
}

#[test]
fn implied_changes_nothing() {
    let (mut cpu, _, _) = rig_at(0x0200, &[]);
    let before = cpu;
    cpu.imp();
    assert_eq!(cpu, before);
}

#[test]
fn accumulator_selects_the_accumulator() {
    let (mut cpu, _, _) = rig_at(0x0200, &[]);
    cpu.fetch_type = FetchType::Mem;
    let before = cpu;
    cpu.acc();
    assert_eq!(cpu, CPU { fetch_type: FetchType::Acc, ..before });
}

#[test]
fn immediate_points_at_the_operand() {
    let (mut cpu, _, _) = rig_at(0x0200, &[0x55]);
    cpu.imm();
    assert_eq!(cpu.absolute_addr, 0x0200);
    assert_eq!(cpu.pc, 0x0201);
    assert_eq!(cpu.fetch_type, FetchType::Mem);
}

#[test]
fn zero_page() {
    let (mut cpu, mut bus, mut ppu) = rig_at(0x0200, &[0x80]);
    cpu.zpg(&mut bus, &mut ppu);
    assert_eq!(cpu.absolute_addr, 0x0080);
    assert_eq!(cpu.pc, 0x0201);
    assert_eq!(cpu.fetch_type, FetchType::Mem);
}

#[test]
fn zero_page_indexed_wraps_within_the_page() {
    let (mut cpu, mut bus, mut ppu) = rig_at(0x0200, &[0x80]);
    cpu.x = 0x05;
    cpu.zpx(&mut bus, &mut ppu);
    assert_eq!(cpu.absolute_addr, 0x0085);
    assert_eq!(cpu.pc, 0x0201);

    let (mut cpu, mut bus, mut ppu) = rig_at(0x0200, &[0xFF]);
    cpu.x = 0x02;
    cpu.zpx(&mut bus, &mut ppu);
    assert_eq!(cpu.absolute_addr, 0x0001);
    assert_eq!(cpu.additional_cycles, 0);

    let (mut cpu, mut bus, mut ppu) = rig_at(0x0200, &[0xF0]);
    cpu.y = 0x20;
    cpu.x = 0x01;
    cpu.zpy(&mut bus, &mut ppu);
    assert_eq!(cpu.absolute_addr, 0x0010);
    assert_eq!(cpu.pc, 0x0201);
    assert_eq!(cpu.fetch_type, FetchType::Mem);
}

#[test]
fn absolute_is_little_endian() {
    let (mut cpu, mut bus, mut ppu) = rig_at(0x0200, &[0xF5, 0xC5]);
    cpu.abs(&mut bus, &mut ppu);
    assert_eq!(cpu.absolute_addr, 0xC5F5);
    assert_eq!(cpu.pc, 0x0202);
    assert_eq!(cpu.fetch_type, FetchType::Mem);
}

#[test]
fn absolute_indexed_pays_for_a_crossed_page() {
    let (mut cpu, mut bus, mut ppu) = rig_at(0x0200, &[0xF0, 0x02]);
    cpu.x = 0x0F;
    cpu.abx(&mut bus, &mut ppu);
    assert_eq!((cpu.absolute_addr, cpu.additional_cycles, cpu.pc), (0x02FF, 0, 0x0202));

    let (mut cpu, mut bus, mut ppu) = rig_at(0x0200, &[0xF0, 0x02]);
    cpu.x = 0x10;
    cpu.abx(&mut bus, &mut ppu);
    assert_eq!((cpu.absolute_addr, cpu.additional_cycles, cpu.pc), (0x0300, 1, 0x0202));

    let (mut cpu, mut bus, mut ppu) = rig_at(0x0200, &[0xFF, 0xFF]);
    cpu.y = 0x02;
    cpu.x = 0x00;
    cpu.aby(&mut bus, &mut ppu);
    assert_eq!((cpu.absolute_addr, cpu.additional_cycles), (0x0001, 1));

    let (mut cpu, mut bus, mut ppu) = rig_at(0x0200, &[0x00, 0x03]);
    cpu.y = 0xFF;
    cpu.aby(&mut bus, &mut ppu);
    assert_eq!((cpu.absolute_addr, cpu.additional_cycles), (0x03FF, 0));
}

#[test]
fn indirect_reads_the_pointer() {
    let (mut cpu, mut bus, mut ppu) = rig_at(0x0200, &[0x10, 0x03]);
    bus.write_cpu(&mut ppu, 0x0310, 0xCD);
    bus.write_cpu(&mut ppu, 0x0311, 0xAB);
    cpu.ind(&mut bus, &mut ppu);
    assert_eq!(cpu.absolute_addr, 0xABCD);
    assert_eq!(cpu.pc, 0x0202);
    assert_eq!(cpu.fetch_type, FetchType::Mem);
}

#[test]
fn indirect_takes_the_high_byte_from_the_same_page() {
    let (mut cpu, mut bus, mut ppu) = rig_at(0x0400, &[0xFF, 0x02]);
    bus.write_cpu(&mut ppu, 0x02FF, 0x34);
    bus.write_cpu(&mut ppu, 0x0300, 0x56);
    bus.write_cpu(&mut ppu, 0x0200, 0x12);
    cpu.ind(&mut bus, &mut ppu);
    assert_eq!(cpu.absolute_addr, 0x1234);
}

#[test]
fn indexed_indirect() {
    let (mut cpu, mut bus, mut ppu) = rig_at(0x0200, &[0x40]);
    cpu.x = 0x04;
    bus.write_cpu(&mut ppu, 0x0044, 0x00);
    bus.write_cpu(&mut ppu, 0x0045, 0x04);
    cpu.idx(&mut bus, &mut ppu);
    assert_eq!(cpu.absolute_addr, 0x0400);
    assert_eq!(cpu.pc, 0x0201);
    assert_eq!(cpu.additional_cycles, 0);
}

#[test]
fn indexed_indirect_wraps_within_page_zero() {
    let (mut cpu, mut bus, mut ppu) = rig_at(0x0200, &[0xFE]);
    cpu.x = 0x01;
    bus.write_cpu(&mut ppu, 0x00FF, 0x78);
    bus.write_cpu(&mut ppu, 0x0000, 0x06);
    bus.write_cpu(&mut ppu, 0x0100, 0x99);
    cpu.idx(&mut bus, &mut ppu);
    assert_eq!(cpu.absolute_addr, 0x0678);
}

#[test]
fn indirect_indexed_pays_for_a_crossed_page() {
    let (mut cpu, mut bus, mut ppu) = rig_at(0x0200, &[0x40]);
    cpu.y = 0x01;
    bus.write_cpu(&mut ppu, 0x0040, 0xFF);
    bus.write_cpu(&mut ppu, 0x0041, 0x02);
    cpu.idy(&mut bus, &mut ppu);
    assert_eq!((cpu.absolute_addr, cpu.additional_cycles, cpu.pc), (0x0300, 1, 0x0201));

    let (mut cpu, mut bus, mut ppu) = rig_at(0x0200, &[0x40]);
    cpu.y = 0x01;
    bus.write_cpu(&mut ppu, 0x0040, 0xFE);
    bus.write_cpu(&mut ppu, 0x0041, 0x02);
    cpu.idy(&mut bus, &mut ppu);
    assert_eq!((cpu.absolute_addr, cpu.additional_cycles), (0x02FF, 0));

    let (mut cpu, mut bus, mut ppu) = rig_at(0x0200, &[0xFF]);
    cpu.y = 0x00;
    bus.write_cpu(&mut ppu, 0x00FF, 0x21);
    bus.write_cpu(&mut ppu, 0x0000, 0x03);
    cpu.idy(&mut bus, &mut ppu);
    assert_eq!((cpu.absolute_addr, cpu.additional_cycles), (0x0321, 0));
}

#[test]
fn relative_reads_a_signed_displacement() {
    let (mut cpu, mut bus, mut ppu) = rig_at(0x0200, &[0xFB]);
    cpu.rel(&mut bus, &mut ppu);
    assert_eq!(cpu.relative_addr, -5);
    assert_eq!(cpu.pc, 0x0201);

    let (mut cpu, mut bus, mut ppu) = rig_at(0x0200, &[0x7F]);
    cpu.rel(&mut bus, &mut ppu);
    assert_eq!(cpu.relative_addr, 127);

    let (mut cpu, mut bus, mut ppu) = rig_at(0x0200, &[0x80]);
    cpu.rel(&mut bus, &mut ppu);
    assert_eq!(cpu.relative_addr, -128);
}

#[test]
fn the_program_counter_wraps() {
    let mut bus = Bus::new(Cartridge::new(&empty_image()).unwrap());
    let mut ppu = PPU::new();
    let mut cpu = CPU::new();
    cpu.pc = 0xFFFF;
    cpu.imm();
    assert_eq!(cpu.absolute_addr, 0xFFFF);
    assert_eq!(cpu.pc, 0x0000);
    cpu.pc = 0xFFFF;
    bus.write_cpu(&mut ppu, 0x0000, 0x12);
    cpu.abs(&mut bus, &mut ppu);
    assert_eq!(cpu.absolute_addr, 0x1200);
    assert_eq!(cpu.pc, 0x0001);
}

#[test]
fn every_mode_through_the_dispatcher() {
    let modes = [
        (AddressingMode::Imp, 0x0200u16),
        (AddressingMode::Acc, 0x0200),
        (AddressingMode::Imm, 0x0201),
        (AddressingMode::Zpg, 0x0201),
        (AddressingMode::Zpx, 0x0201),
        (AddressingMode::Zpy, 0x0201),
        (AddressingMode::Abs, 0x0202),
        (AddressingMode::Abx, 0x0202),
        (AddressingMode::Aby, 0x0202),
        (AddressingMode::Ind, 0x0202),
        (AddressingMode::Idx, 0x0201),
        (AddressingMode::Idy, 0x0201),
        (AddressingMode::Rel, 0x0201),
    ];
    for (mode, pc_after) in modes {
        let (mut cpu, mut bus, mut ppu) = rig_at(0x0200, &[0x10, 0x03]);
        cpu.address(&mut bus, &mut ppu, mode);
        assert_eq!(cpu.pc, pc_after);
        assert_eq!(cpu.pc, 0x0200 + (mode.length() as u16 - 1));
    }
}
