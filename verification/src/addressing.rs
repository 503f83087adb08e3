//! The thirteen addressing modes: how an instruction finds its operand.
//!
//! Each mode runs with the program counter on the byte after the opcode, and
//! leaves it on the next instruction.

use vstd::prelude::*;
use crate::bus::Bus;
use crate::bytes::{hi_byte, lo_byte, page_crossed, signed, word};
use crate::cpu::{machine, FetchType, State, CPU};
use crate::instructions::AddressingMode;
use crate::ppu::PPU;

verus! {

impl CPU {
    /// The processor with `addr` as the operand's address.
    pub open spec fn with_target(self, addr: u16) -> CPU {
        CPU { absolute_addr: addr, fetch_type: FetchType::Mem, ..self }
    }

    /// The processor with `base + index` as the operand's address, charged
    /// one cycle if that lies on another page than `base`.
    pub open spec fn with_indexed_target(self, base: u16, index: u8) -> CPU {
        let target = base.wrapping_add(index as u16);
        let charged = if page_crossed(base, target) {
            self.additional_cycles.wrapping_add(1)
        } else {
            self.additional_cycles
        };
        CPU { additional_cycles: charged, ..self.with_target(target) }
    }

    /// Implied: there is no operand, and nothing changes.
    pub open spec fn spec_imp(self) -> CPU {
        self
    }

    /// Accumulator: the operand is the accumulator.
    pub open spec fn spec_acc(self) -> CPU {
        CPU { fetch_type: FetchType::Acc, ..self }
    }

    /// Immediate: the operand is the byte at the program counter.
    pub open spec fn spec_imm(self) -> CPU {
        CPU { pc: self.pc.wrapping_add(1), ..self.with_target(self.pc) }
    }
}

impl State {
    /// The byte at the program counter.
    pub open spec fn operand(self) -> u8 {
        self.read(self.cpu.pc)
    }

    /// The state after the byte at the program counter was read: the program
    /// counter has moved past it.
    pub open spec fn past_operand(self) -> State {
        let s = self.after_read(self.cpu.pc);
        s.with_cpu(CPU { pc: self.cpu.pc.wrapping_add(1), ..s.cpu })
    }

    /// The little-endian word at the program counter.
    pub open spec fn operand_word(self) -> u16 {
        word(self.operand(), self.past_operand().operand())
    }

    /// The state after the word at the program counter was read.
    pub open spec fn past_operand_word(self) -> State {
        self.past_operand().past_operand()
    }

    /// The word stored in page zero at `zp`: its high byte comes from
    /// `zp + 1`, which wraps within the page.
    pub open spec fn zero_page_word(self, zp: u8) -> u16 {
        word(self.read(zp as u16), self.after_read(zp as u16).read(zp.wrapping_add(1) as u16))
    }

    /// The state after the word in page zero at `zp` was read.
    pub open spec fn past_zero_page_word(self, zp: u8) -> State {
        self.after_read(zp as u16).after_read(zp.wrapping_add(1) as u16)
    }

    /// Where an indirect jump through `ptr` finds the target's high byte: on
    /// the page of `ptr`, also when `ptr` is the page's last byte.
    pub open spec fn indirect_high(ptr: u16) -> u16 {
        word(lo_byte(ptr).wrapping_add(1), hi_byte(ptr))
    }

    /// The word that an indirect jump through `ptr` reads.
    pub open spec fn indirect_word(self, ptr: u16) -> u16 {
        word(self.read(ptr), self.after_read(ptr).read(Self::indirect_high(ptr)))
    }

    /// Implied.
    pub open spec fn imp(self) -> State {
        self.with_cpu(self.cpu.spec_imp())
    }

    /// Accumulator.
    pub open spec fn acc(self) -> State {
        self.with_cpu(self.cpu.spec_acc())
    }

    /// Immediate.
    pub open spec fn imm(self) -> State {
        self.with_cpu(self.cpu.spec_imm())
    }

    /// Zero page: the operand's address is the byte at the program counter.
    pub open spec fn zpg(self) -> State {
        let s = self.past_operand();
        s.with_cpu(s.cpu.with_target(self.operand() as u16))
    }

    /// Zero page indexed by a register: the sum wraps within page zero.
    pub open spec fn zp_indexed(self, index: u8) -> State {
        let s = self.past_operand();
        s.with_cpu(s.cpu.with_target(self.operand().wrapping_add(index) as u16))
    }

    /// Zero page, X.
    pub open spec fn zpx(self) -> State {
        self.zp_indexed(self.cpu.x)
    }

    /// Zero page, Y.
    pub open spec fn zpy(self) -> State {
        self.zp_indexed(self.cpu.y)
    }

    /// Absolute: the operand's address is the word at the program counter.
    pub open spec fn abs(self) -> State {
        let s = self.past_operand_word();
        s.with_cpu(s.cpu.with_target(self.operand_word()))
    }

    /// Absolute indexed by a register, with a cycle's penalty for a crossed
    /// page.
    pub open spec fn abs_indexed(self, index: u8) -> State {
        let s = self.past_operand_word();
        s.with_cpu(s.cpu.with_indexed_target(self.operand_word(), index))
    }

    /// Absolute, X.
    pub open spec fn abx(self) -> State {
        self.abs_indexed(self.cpu.x)
    }

    /// Absolute, Y.
    pub open spec fn aby(self) -> State {
        self.abs_indexed(self.cpu.y)
    }

    /// Indirect: the operand's address is the word stored where the word at
    /// the program counter points.
    pub open spec fn ind(self) -> State {
        let ptr = self.operand_word();
        let s = self.past_operand_word();
        let t = s.after_read(ptr).after_read(Self::indirect_high(ptr));
        t.with_cpu(t.cpu.with_target(s.indirect_word(ptr)))
    }

    /// Indexed indirect: the operand's address is the word stored in page
    /// zero at the operand plus X.
    pub open spec fn idx(self) -> State {
        let zp = self.operand().wrapping_add(self.cpu.x);
        let s = self.past_operand();
        let t = s.past_zero_page_word(zp);
        t.with_cpu(t.cpu.with_target(s.zero_page_word(zp)))
    }

    /// Indirect indexed: the operand's address is the word stored in page
    /// zero at the operand, plus Y, with a cycle's penalty for a crossed page.
    pub open spec fn idy(self) -> State {
        let zp = self.operand();
        let s = self.past_operand();
        let t = s.past_zero_page_word(zp);
        t.with_cpu(t.cpu.with_indexed_target(s.zero_page_word(zp), self.cpu.y))
    }

    /// Relative: the byte at the program counter is a signed displacement.
    pub open spec fn rel(self) -> State {
        let s = self.past_operand();
        s.with_cpu(
            CPU { relative_addr: signed(self.operand()), fetch_type: FetchType::Mem, ..s.cpu },
        )
    }

    /// The state after an addressing mode has run.
    #[verifier::opaque]
    pub open spec fn addressing(self, mode: AddressingMode) -> State {
        match mode {
            AddressingMode::Imp => self.imp(),
            AddressingMode::Acc => self.acc(),
            AddressingMode::Imm => self.imm(),
            AddressingMode::Zpg => self.zpg(),
            AddressingMode::Zpx => self.zpx(),
            AddressingMode::Zpy => self.zpy(),
            AddressingMode::Abs => self.abs(),
            AddressingMode::Abx => self.abx(),
            AddressingMode::Aby => self.aby(),
            AddressingMode::Ind => self.ind(),
            AddressingMode::Idx => self.idx(),
            AddressingMode::Idy => self.idy(),
            AddressingMode::Rel => self.rel(),
        }
    }
}

impl CPU {
    fn read_operand(&mut self, bus: &mut Bus, ppu: &mut PPU) -> (value: u8)
        ensures
            value == machine(*old(self), *old(bus), *old(ppu)).operand(),
            machine(*final(self), *final(bus), *final(ppu)) == machine(
                *old(self),
                *old(bus),
                *old(ppu),
            ).past_operand(),
    {
        let value = bus.read_cpu(ppu, self.pc);
        self.pc = self.pc.wrapping_add(1);
        value
    }

    fn read_operand_word(&mut self, bus: &mut Bus, ppu: &mut PPU) -> (value: u16)
        ensures
            value == machine(*old(self), *old(bus), *old(ppu)).operand_word(),
            machine(*final(self), *final(bus), *final(ppu)) == machine(
                *old(self),
                *old(bus),
                *old(ppu),
            ).past_operand_word(),
    {
        let lo = self.read_operand(bus, ppu);
        let hi = self.read_operand(bus, ppu);
        word(lo, hi)
    }

    fn read_zero_page_word(&mut self, bus: &mut Bus, ppu: &mut PPU, zp: u8) -> (value: u16)
        ensures
            value == machine(*old(self), *old(bus), *old(ppu)).zero_page_word(zp),
            machine(*final(self), *final(bus), *final(ppu)) == machine(
                *old(self),
                *old(bus),
                *old(ppu),
            ).past_zero_page_word(zp),
    {
        let lo = bus.read_cpu(ppu, zp as u16);
        let hi = bus.read_cpu(ppu, zp.wrapping_add(1) as u16);
        word(lo, hi)
    }

    fn set_target(&mut self, addr: u16)
        ensures
            *final(self) == old(self).with_target(addr),
    {
        self.absolute_addr = addr;
        self.fetch_type = FetchType::Mem;
    }

    fn set_indexed_target(&mut self, base: u16, index: u8)
        ensures
            *final(self) == old(self).with_indexed_target(base, index),
    {
        let target = base.wrapping_add(index as u16);
        if page_crossed(base, target) {
            self.additional_cycles = self.additional_cycles.wrapping_add(1);
        }
        self.set_target(target);
    }

    /// Implied.
    pub fn imp(&mut self)
        ensures
            *final(self) == old(self).spec_imp(),
    {
    }

    /// Accumulator.
    pub fn acc(&mut self)
        ensures
            *final(self) == old(self).spec_acc(),
    {
        self.fetch_type = FetchType::Acc;
    }

    /// Immediate.
    pub fn imm(&mut self)
        ensures
            *final(self) == old(self).spec_imm(),
    {
        self.set_target(self.pc);
        self.pc = self.pc.wrapping_add(1);
    }

    /// Zero page.
    pub fn zpg(&mut self, bus: &mut Bus, ppu: &mut PPU)
        ensures
            machine(*final(self), *final(bus), *final(ppu)) == machine(
                *old(self),
                *old(bus),
                *old(ppu),
            ).zpg(),
    {
        let operand = self.read_operand(bus, ppu);
        self.set_target(operand as u16);
    }

    /// Zero page, X.
    pub fn zpx(&mut self, bus: &mut Bus, ppu: &mut PPU)
        ensures
            machine(*final(self), *final(bus), *final(ppu)) == machine(
                *old(self),
                *old(bus),
                *old(ppu),
            ).zpx(),
    {
        let operand = self.read_operand(bus, ppu);
        self.set_target(operand.wrapping_add(self.x) as u16);
    }

    /// Zero page, Y.
    pub fn zpy(&mut self, bus: &mut Bus, ppu: &mut PPU)
        ensures
            machine(*final(self), *final(bus), *final(ppu)) == machine(
                *old(self),
                *old(bus),
                *old(ppu),
            ).zpy(),
    {
        let operand = self.read_operand(bus, ppu);
        self.set_target(operand.wrapping_add(self.y) as u16);
    }

    /// Absolute.
    pub fn abs(&mut self, bus: &mut Bus, ppu: &mut PPU)
        ensures
            machine(*final(self), *final(bus), *final(ppu)) == machine(
                *old(self),
                *old(bus),
                *old(ppu),
            ).abs(),
    {
        let target = self.read_operand_word(bus, ppu);
        self.set_target(target);
    }

    /// Absolute, X.
    pub fn abx(&mut self, bus: &mut Bus, ppu: &mut PPU)
        ensures
            machine(*final(self), *final(bus), *final(ppu)) == machine(
                *old(self),
                *old(bus),
                *old(ppu),
            ).abx(),
    {
        let base = self.read_operand_word(bus, ppu);
        self.set_indexed_target(base, self.x);
    }

    /// Absolute, Y.
    pub fn aby(&mut self, bus: &mut Bus, ppu: &mut PPU)
        ensures
            machine(*final(self), *final(bus), *final(ppu)) == machine(
                *old(self),
                *old(bus),
                *old(ppu),
            ).aby(),
    {
        let base = self.read_operand_word(bus, ppu);
        self.set_indexed_target(base, self.y);
    }

    /// Indirect. The pointer's high byte is read from the pointer's own page
    /// even when the pointer is that page's last byte.
    pub fn ind(&mut self, bus: &mut Bus, ppu: &mut PPU)
        ensures
            machine(*final(self), *final(bus), *final(ppu)) == machine(
                *old(self),
                *old(bus),
                *old(ppu),
            ).ind(),
    {
        let ptr = self.read_operand_word(bus, ppu);
        let lo = bus.read_cpu(ppu, ptr);
        let hi = bus.read_cpu(ppu, word(lo_byte(ptr).wrapping_add(1), hi_byte(ptr)));
        self.set_target(word(lo, hi));
    }

    /// Indexed indirect.
    pub fn idx(&mut self, bus: &mut Bus, ppu: &mut PPU)
        ensures
            machine(*final(self), *final(bus), *final(ppu)) == machine(
                *old(self),
                *old(bus),
                *old(ppu),
            ).idx(),
    {
        let operand = self.read_operand(bus, ppu);
        let target = self.read_zero_page_word(bus, ppu, operand.wrapping_add(self.x));
        self.set_target(target);
    }

    /// Indirect indexed.
    pub fn idy(&mut self, bus: &mut Bus, ppu: &mut PPU)
        ensures
            machine(*final(self), *final(bus), *final(ppu)) == machine(
                *old(self),
                *old(bus),
                *old(ppu),
            ).idy(),
    {
        let operand = self.read_operand(bus, ppu);
        let base = self.read_zero_page_word(bus, ppu, operand);
        self.set_indexed_target(base, self.y);
    }

    /// Relative.
    pub fn rel(&mut self, bus: &mut Bus, ppu: &mut PPU)
        ensures
            machine(*final(self), *final(bus), *final(ppu)) == machine(
                *old(self),
                *old(bus),
                *old(ppu),
            ).rel(),
    {
        let operand = self.read_operand(bus, ppu);
        self.relative_addr = signed(operand);
        self.fetch_type = FetchType::Mem;
    }

    /// Runs an addressing mode.
    pub fn address(&mut self, bus: &mut Bus, ppu: &mut PPU, mode: AddressingMode)
        ensures
            machine(*final(self), *final(bus), *final(ppu)) == machine(
                *old(self),
                *old(bus),
                *old(ppu),
            ).addressing(mode),
    {
        proof {
            reveal(State::addressing);
        }
        match mode {
            AddressingMode::Imp => self.imp(),
            AddressingMode::Acc => self.acc(),
            AddressingMode::Imm => self.imm(),
            AddressingMode::Zpg => self.zpg(bus, ppu),
            AddressingMode::Zpx => self.zpx(bus, ppu),
            AddressingMode::Zpy => self.zpy(bus, ppu),
            AddressingMode::Abs => self.abs(bus, ppu),
            AddressingMode::Abx => self.abx(bus, ppu),
            AddressingMode::Aby => self.aby(bus, ppu),
            AddressingMode::Ind => self.ind(bus, ppu),
            AddressingMode::Idx => self.idx(bus, ppu),
            AddressingMode::Idy => self.idy(bus, ppu),
            AddressingMode::Rel => self.rel(bus, ppu),
        }
    }
}

} // verus!
