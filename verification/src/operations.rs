//! What the instructions do to the registers, the flags and memory.

use vstd::prelude::*;
use crate::bus::Bus;
use crate::bytes::{hi_byte, lo_byte, page_crossed, word};
use crate::cpu::{machine, pop, push, Register, State, CPU};
use crate::flags::{
    flag, is_negative, pulled_status, pushed_status, set_flag_to, set_zn, test_flag, with_flag,
    with_zn, Flag, KEPT_ON_PULL, TAKEN_ON_PULL,
};
use crate::instructions::Operation;
use crate::ppu::PPU;

verus! {

/// The four shifts and rotates.
#[derive(Clone, Copy, PartialEq, Eq, Structural, Debug)]
pub enum Shift {
    /// Shift left: bit 7 leaves, zero enters at bit 0.
    Asl,
    /// Shift right: bit 0 leaves, zero enters at bit 7.
    Lsr,
    /// Rotate left: bit 7 leaves, Carry enters at bit 0.
    Rol,
    /// Rotate right: bit 0 leaves, Carry enters at bit 7.
    Ror,
}

/// The three bitwise operations on the accumulator.
#[derive(Clone, Copy, PartialEq, Eq, Structural, Debug)]
pub enum Logic {
    /// Bitwise and.
    And,
    /// Bitwise exclusive or.
    Eor,
    /// Bitwise or.
    Ora,
}

/// The bit that a shift or rotate of `value` ejects.
pub open spec fn spec_ejected(kind: Shift, value: u8) -> bool {
    match kind {
        Shift::Asl | Shift::Rol => value & 0x80 != 0,
        Shift::Lsr | Shift::Ror => value & 0x01 != 0,
    }
}

/// What a shift or rotate makes of `value`, with `carry` as the bit that a
/// rotate lets in.
pub open spec fn spec_shifted(kind: Shift, value: u8, carry: bool) -> u8 {
    match kind {
        Shift::Asl => value << 1,
        Shift::Lsr => value >> 1,
        Shift::Rol => (value << 1) | (if carry {
            0x01u8
        } else {
            0x00u8
        }),
        Shift::Ror => (value >> 1) | (if carry {
            0x80u8
        } else {
            0x00u8
        }),
    }
}

/// What a bitwise operation makes of the accumulator and the operand.
pub open spec fn spec_combined(kind: Logic, acc: u8, operand: u8) -> u8 {
    match kind {
        Logic::And => acc & operand,
        Logic::Eor => acc ^ operand,
        Logic::Ora => acc | operand,
    }
}

/// The sum of the accumulator, the operand and Carry, before it is cut to a
/// byte.
pub open spec fn spec_sum(acc: u8, operand: u8, carry: bool) -> int {
    acc + operand + (if carry {
        1int
    } else {
        0int
    })
}

/// Whether an addition overflowed as a signed one: both summands differ in
/// sign from the result.
pub open spec fn spec_signed_overflow(acc: u8, operand: u8, result: u8) -> bool {
    (acc ^ result) & (operand ^ result) & 0x80 != 0
}

#[verifier::when_used_as_spec(spec_ejected)]
pub fn ejected(kind: Shift, value: u8) -> (bit: bool)
    ensures
        bit == spec_ejected(kind, value),
{
    match kind {
        Shift::Asl | Shift::Rol => value & 0x80 != 0,
        Shift::Lsr | Shift::Ror => value & 0x01 != 0,
    }
}

#[verifier::when_used_as_spec(spec_shifted)]
pub fn shifted(kind: Shift, value: u8, carry: bool) -> (result: u8)
    ensures
        result == spec_shifted(kind, value, carry),
{
    match kind {
        Shift::Asl => value << 1,
        Shift::Lsr => value >> 1,
        Shift::Rol => (value << 1) | (if carry {
            0x01u8
        } else {
            0x00u8
        }),
        Shift::Ror => (value >> 1) | (if carry {
            0x80u8
        } else {
            0x00u8
        }),
    }
}

#[verifier::when_used_as_spec(spec_combined)]
pub fn combined(kind: Logic, acc: u8, operand: u8) -> (result: u8)
    ensures
        result == spec_combined(kind, acc, operand),
{
    match kind {
        Logic::And => acc & operand,
        Logic::Eor => acc ^ operand,
        Logic::Ora => acc | operand,
    }
}

impl CPU {
    /// The processor with one flag forced.
    pub open spec fn flag_forced(self, f: Flag, value: bool) -> CPU {
        CPU { p: with_flag(self.p, f, value), ..self }
    }

    /// The processor with Zero and Negative describing `value`.
    pub open spec fn marked(self, value: u8) -> CPU {
        CPU { p: with_zn(self.p, value), ..self }
    }

    /// The processor with `value` loaded into a register: Zero and Negative
    /// describe the value.
    pub open spec fn loaded(self, r: Register, value: u8) -> CPU {
        self.with_reg(r, value).marked(value)
    }

    /// The processor after a transfer between registers. Zero and Negative
    /// describe what arrived, unless it arrived in the stack pointer.
    pub open spec fn transferred(self, from: Register, to: Register) -> CPU {
        if to == Register::Sp {
            self.with_reg(to, self.spec_reg(from))
        } else {
            self.loaded(to, self.spec_reg(from))
        }
    }

    /// The processor with a register one up or one down, wrapping.
    pub open spec fn stepped(self, r: Register, up: bool) -> CPU {
        self.loaded(r, spec_step(self.spec_reg(r), up))
    }

    /// The processor after a register was compared with `operand`: Zero says
    /// that they are equal, Carry that the register is not below the operand,
    /// Negative is bit 7 of their difference.
    pub open spec fn compared(self, r: Register, operand: u8) -> CPU {
        let value = self.spec_reg(r);
        CPU {
            p: with_flag(
                with_flag(with_flag(self.p, Flag::Zero, value == operand), Flag::Carry, value >= operand),
                Flag::Negative,
                is_negative(value.wrapping_sub(operand)),
            ),
            ..self
        }
    }

    /// The processor after `operand` and Carry were added to the accumulator.
    /// Carry says that the sum passed `0xFF`, Overflow that it overflowed as
    /// a signed sum.
    pub open spec fn added(self, operand: u8) -> CPU {
        let sum = spec_sum(self.acc, operand, flag(self.p, Flag::Carry));
        let result = (sum % 256) as u8;
        CPU {
            acc: result,
            p: with_flag(
                with_zn(with_flag(self.p, Flag::Carry, sum > 0xFF), result),
                Flag::Overflow,
                spec_signed_overflow(self.acc, operand, result),
            ),
            ..self
        }
    }

    /// The processor after `operand` was subtracted from the accumulator
    /// with borrow: the sum with the operand's complement.
    pub open spec fn subtracted(self, operand: u8) -> CPU {
        self.added(!operand)
    }

    /// The processor after a bitwise operation of the accumulator with
    /// `operand`.
    pub open spec fn blended(self, kind: Logic, operand: u8) -> CPU {
        self.loaded(Register::A, spec_combined(kind, self.acc, operand))
    }

    /// The processor after a bit test: Negative and Overflow are bits 7 and 6
    /// of the operand, Zero says that it has no bit in common with the
    /// accumulator.
    pub open spec fn bit_tested(self, operand: u8) -> CPU {
        CPU {
            p: with_flag(
                with_flag(
                    with_flag(self.p, Flag::Negative, operand & 0x80 != 0),
                    Flag::Overflow,
                    operand & 0x40 != 0,
                ),
                Flag::Zero,
                self.acc & operand == 0,
            ),
            ..self
        }
    }

    /// The flags after a shift or rotate of `value`: Carry is the ejected
    /// bit, Zero and Negative describe the result.
    pub open spec fn shift_marked(self, kind: Shift, value: u8) -> CPU {
        CPU {
            p: with_zn(
                with_flag(self.p, Flag::Carry, spec_ejected(kind, value)),
                spec_shifted(kind, value, flag(self.p, Flag::Carry)),
            ),
            ..self
        }
    }

    /// Where a taken branch lands: the program counter plus the signed
    /// displacement.
    pub open spec fn branch_target(self) -> u16 {
        self.pc.wrapping_add_signed(self.relative_addr as i16)
    }

    /// The processor after a branch on flag `f` being `polarity`. A branch
    /// that is taken costs one cycle, and one more if it lands on another
    /// page than the next instruction.
    pub open spec fn branched(self, f: Flag, polarity: bool) -> CPU {
        if flag(self.p, f) == polarity {
            let target = self.branch_target();
            let penalty: u8 = if page_crossed(target, self.pc) {
                2
            } else {
                1
            };
            CPU {
                pc: target,
                additional_cycles: self.additional_cycles.wrapping_add(penalty),
                ..self
            }
        } else {
            self
        }
    }

    /// The processor after a jump to the operand's address.
    pub open spec fn jumped(self) -> CPU {
        CPU { pc: self.absolute_addr, ..self }
    }

    /// The processor after an instruction that does nothing.
    pub open spec fn idle(self) -> CPU {
        self
    }

    /// The processor with the addressing mode's penalty dropped.
    pub open spec fn at_fixed_cost(self) -> CPU {
        CPU { additional_cycles: 0, ..self }
    }

    /// The processor after the status was pulled as `popped`.
    pub open spec fn status_pulled(self, popped: u8) -> CPU {
        CPU { p: pulled_status(self.p, popped), ..self }
    }
}

/// A byte one up or one down, wrapping.
pub open spec fn spec_step(value: u8, up: bool) -> u8 {
    if up {
        value.wrapping_add(1)
    } else {
        value.wrapping_sub(1)
    }
}

#[verifier::when_used_as_spec(spec_step)]
pub fn step_byte(value: u8, up: bool) -> (result: u8)
    ensures
        result == spec_step(value, up),
{
    if up {
        value.wrapping_add(1)
    } else {
        value.wrapping_sub(1)
    }
}

impl State {
    /// The operand goes into a register.
    pub open spec fn load(self, r: Register) -> State {
        let s = self.after_fetch();
        s.with_cpu(s.cpu.loaded(r, self.fetched()))
    }

    /// A register goes to the operand's address, at the fixed cost.
    pub open spec fn store(self, r: Register) -> State {
        let s = self.after_write(self.cpu.absolute_addr, self.cpu.spec_reg(r));
        s.with_cpu(s.cpu.at_fixed_cost())
    }

    /// A register is compared with the operand.
    pub open spec fn compare(self, r: Register) -> State {
        let s = self.after_fetch();
        s.with_cpu(s.cpu.compared(r, self.fetched()))
    }

    /// The byte at the operand's address goes one up or one down, and Zero
    /// and Negative describe it.
    pub open spec fn step_memory(self, up: bool) -> State {
        let addr = self.cpu.absolute_addr;
        let result = spec_step(self.read(addr), up);
        let s = self.after_read(addr).after_write(addr, result);
        s.with_cpu(s.cpu.marked(result))
    }

    /// The operand is shifted or rotated and written back.
    pub open spec fn shift(self, kind: Shift) -> State {
        let value = self.fetched();
        let s = self.after_fetch();
        s.with_cpu(s.cpu.shift_marked(kind, value)).ditched(
            spec_shifted(kind, value, flag(self.cpu.p, Flag::Carry)),
        )
    }

    /// The operand and Carry are added to the accumulator.
    pub open spec fn adc(self) -> State {
        let s = self.after_fetch();
        s.with_cpu(s.cpu.added(self.fetched()))
    }

    /// The operand is subtracted from the accumulator, with borrow.
    pub open spec fn sbc(self) -> State {
        let s = self.after_fetch();
        s.with_cpu(s.cpu.subtracted(self.fetched()))
    }

    /// The operand is anded, ored or exclusive-ored into the accumulator.
    pub open spec fn logic(self, kind: Logic) -> State {
        let s = self.after_fetch();
        s.with_cpu(s.cpu.blended(kind, self.fetched()))
    }

    /// The byte at the operand's address is tested against the accumulator.
    pub open spec fn bit(self) -> State {
        let addr = self.cpu.absolute_addr;
        let s = self.after_read(addr);
        s.with_cpu(s.cpu.bit_tested(self.read(addr)))
    }

    /// The address of the jump's last byte is pushed, high byte first, and
    /// the program goes on at the operand's address.
    pub open spec fn jsr(self) -> State {
        let back = self.cpu.pc.wrapping_sub(1);
        let s = self.pushed(hi_byte(back)).pushed(lo_byte(back));
        s.with_cpu(s.cpu.jumped())
    }

    /// An address is popped, low byte first, and the program goes on one
    /// byte after it.
    pub open spec fn rts(self) -> State {
        let lo = self.top();
        let hi = self.popped().top();
        let s = self.popped().popped();
        s.with_cpu(CPU { pc: word(lo, hi).wrapping_add(1), ..s.cpu })
    }

    /// The status is pulled, then an address is popped, low byte first, and
    /// the program goes on there.
    pub open spec fn rti(self) -> State {
        let s = self.plp();
        let lo = s.top();
        let hi = s.popped().top();
        let t = s.popped().popped();
        t.with_cpu(CPU { pc: word(lo, hi), ..t.cpu })
    }

    /// The accumulator is pushed.
    pub open spec fn pha(self) -> State {
        self.pushed(self.cpu.acc)
    }

    /// The accumulator is popped, and Zero and Negative describe it.
    pub open spec fn pla(self) -> State {
        let s = self.popped();
        s.with_cpu(s.cpu.loaded(Register::A, self.top()))
    }

    /// The status is pushed with Break and the unused bit set.
    pub open spec fn php(self) -> State {
        self.pushed(pushed_status(self.cpu.p))
    }

    /// The status is popped, but for Break and the unused bit.
    pub open spec fn plp(self) -> State {
        let s = self.popped();
        s.with_cpu(s.cpu.status_pulled(self.top()))
    }

    /// The accumulator anded with X goes to the operand's address, at the
    /// fixed cost.
    pub open spec fn sax(self) -> State {
        let s = self.after_write(self.cpu.absolute_addr, self.cpu.acc & self.cpu.x);
        s.with_cpu(s.cpu.at_fixed_cost())
    }

    /// The state at the fixed cost.
    pub open spec fn at_fixed_cost(self) -> State {
        self.with_cpu(self.cpu.at_fixed_cost())
    }

    /// The operand goes into the accumulator and into X.
    pub open spec fn lax(self) -> State {
        self.load(Register::A).load(Register::X)
    }

    /// Memory goes one down and is compared with the accumulator.
    pub open spec fn dcp(self) -> State {
        self.step_memory(false).compare(Register::A).at_fixed_cost()
    }

    /// Memory goes one up and is subtracted from the accumulator.
    pub open spec fn isc(self) -> State {
        self.step_memory(true).sbc().at_fixed_cost()
    }

    /// The operand is shifted left and ored into the accumulator.
    pub open spec fn slo(self) -> State {
        self.shift(Shift::Asl).logic(Logic::Ora).at_fixed_cost()
    }

    /// The operand is rotated left and anded into the accumulator.
    pub open spec fn rla(self) -> State {
        self.shift(Shift::Rol).logic(Logic::And).at_fixed_cost()
    }

    /// The operand is shifted right and exclusive-ored into the accumulator.
    pub open spec fn sre(self) -> State {
        self.shift(Shift::Lsr).logic(Logic::Eor).at_fixed_cost()
    }

    /// The operand is rotated right and added to the accumulator.
    pub open spec fn rra(self) -> State {
        self.shift(Shift::Ror).adc().at_fixed_cost()
    }

    /// The state after an operation has run.
    #[verifier::opaque]
    pub open spec fn operation(self, op: Operation) -> State {
        match op {
            Operation::Adc => self.adc(),
            Operation::And => self.logic(Logic::And),
            Operation::Asl => self.shift(Shift::Asl),
            Operation::Bcc => self.with_cpu(self.cpu.branched(Flag::Carry, false)),
            Operation::Bcs => self.with_cpu(self.cpu.branched(Flag::Carry, true)),
            Operation::Beq => self.with_cpu(self.cpu.branched(Flag::Zero, true)),
            Operation::Bit => self.bit(),
            Operation::Bmi => self.with_cpu(self.cpu.branched(Flag::Negative, true)),
            Operation::Bne => self.with_cpu(self.cpu.branched(Flag::Zero, false)),
            Operation::Bpl => self.with_cpu(self.cpu.branched(Flag::Negative, false)),
            Operation::Bvc => self.with_cpu(self.cpu.branched(Flag::Overflow, false)),
            Operation::Bvs => self.with_cpu(self.cpu.branched(Flag::Overflow, true)),
            Operation::Clc => self.with_cpu(self.cpu.flag_forced(Flag::Carry, false)),
            Operation::Cld => self.with_cpu(self.cpu.flag_forced(Flag::Decimal, false)),
            Operation::Cli => self.with_cpu(self.cpu.flag_forced(Flag::Interrupt, false)),
            Operation::Clv => self.with_cpu(self.cpu.flag_forced(Flag::Overflow, false)),
            Operation::Cmp => self.compare(Register::A),
            Operation::Cpx => self.compare(Register::X),
            Operation::Cpy => self.compare(Register::Y),
            Operation::Dcp => self.dcp(),
            Operation::Dec => self.step_memory(false),
            Operation::Dex => self.with_cpu(self.cpu.stepped(Register::X, false)),
            Operation::Dey => self.with_cpu(self.cpu.stepped(Register::Y, false)),
            Operation::Eor => self.logic(Logic::Eor),
            Operation::Inc => self.step_memory(true),
            Operation::Inx => self.with_cpu(self.cpu.stepped(Register::X, true)),
            Operation::Iny => self.with_cpu(self.cpu.stepped(Register::Y, true)),
            Operation::Isc => self.isc(),
            Operation::Jmp => self.with_cpu(self.cpu.jumped()),
            Operation::Jsr => self.jsr(),
            Operation::Lax => self.lax(),
            Operation::Lda => self.load(Register::A),
            Operation::Ldx => self.load(Register::X),
            Operation::Ldy => self.load(Register::Y),
            Operation::Lsr => self.shift(Shift::Lsr),
            Operation::Nop => self.with_cpu(self.cpu.idle()),
            Operation::Ora => self.logic(Logic::Ora),
            Operation::Pha => self.pha(),
            Operation::Php => self.php(),
            Operation::Pla => self.pla(),
            Operation::Plp => self.plp(),
            Operation::Rla => self.rla(),
            Operation::Rol => self.shift(Shift::Rol),
            Operation::Ror => self.shift(Shift::Ror),
            Operation::Rra => self.rra(),
            Operation::Rti => self.rti(),
            Operation::Rts => self.rts(),
            Operation::Sax => self.sax(),
            Operation::Sbc => self.sbc(),
            Operation::Sec => self.with_cpu(self.cpu.flag_forced(Flag::Carry, true)),
            Operation::Sed => self.with_cpu(self.cpu.flag_forced(Flag::Decimal, true)),
            Operation::Sei => self.with_cpu(self.cpu.flag_forced(Flag::Interrupt, true)),
            Operation::Slo => self.slo(),
            Operation::Sre => self.sre(),
            Operation::Sta => self.store(Register::A),
            Operation::Stx => self.store(Register::X),
            Operation::Sty => self.store(Register::Y),
            Operation::Tax => self.with_cpu(self.cpu.transferred(Register::A, Register::X)),
            Operation::Tay => self.with_cpu(self.cpu.transferred(Register::A, Register::Y)),
            Operation::Tsx => self.with_cpu(self.cpu.transferred(Register::Sp, Register::X)),
            Operation::Txa => self.with_cpu(self.cpu.transferred(Register::X, Register::A)),
            Operation::Txs => self.with_cpu(self.cpu.transferred(Register::X, Register::Sp)),
            Operation::Tya => self.with_cpu(self.cpu.transferred(Register::Y, Register::A)),
        }
    }
}

impl CPU {
    /// Forces one flag.
    fn force_flag(&mut self, f: Flag, value: bool)
        ensures
            *final(self) == old(self).flag_forced(f, value),
    {
        self.p = set_flag_to(self.p, f, value);
    }

    /// Lets Zero and Negative describe `value`.
    fn mark(&mut self, value: u8)
        ensures
            *final(self) == old(self).marked(value),
    {
        self.p = set_zn(self.p, value);
    }

    /// Puts `value` in a register and lets Zero and Negative describe it.
    fn load_reg(&mut self, r: Register, value: u8)
        ensures
            *final(self) == old(self).loaded(r, value),
    {
        self.set_reg(r, value);
        self.mark(value);
    }

    /// Copies one register to another.
    fn transfer(&mut self, from: Register, to: Register)
        ensures
            *final(self) == old(self).transferred(from, to),
    {
        let value = self.reg(from);
        match to {
            Register::Sp => self.set_reg(to, value),
            _ => self.load_reg(to, value),
        }
    }

    /// Moves a register one up or one down.
    fn step(&mut self, r: Register, up: bool)
        ensures
            *final(self) == old(self).stepped(r, up),
    {
        let value = step_byte(self.reg(r), up);
        self.load_reg(r, value);
    }

    /// Compares a register with `operand`.
    fn compare_with(&mut self, r: Register, operand: u8)
        ensures
            *final(self) == old(self).compared(r, operand),
    {
        let value = self.reg(r);
        self.p = set_flag_to(self.p, Flag::Zero, value == operand);
        self.p = set_flag_to(self.p, Flag::Carry, value >= operand);
        self.p = set_flag_to(self.p, Flag::Negative, is_negative(value.wrapping_sub(operand)));
    }

    /// Adds `operand` and Carry to the accumulator.
    fn add(&mut self, operand: u8)
        ensures
            *final(self) == old(self).added(operand),
    {
        let carry: u16 = if test_flag(self.p, Flag::Carry) {
            1
        } else {
            0
        };
        let sum: u16 = self.acc as u16 + operand as u16 + carry;
        let result: u8 = (sum % 256) as u8;
        let overflow = (self.acc ^ result) & (operand ^ result) & 0x80 != 0;
        self.p = set_flag_to(self.p, Flag::Carry, sum > 0xFF);
        self.p = set_zn(self.p, result);
        self.p = set_flag_to(self.p, Flag::Overflow, overflow);
        self.acc = result;
    }

    /// Subtracts `operand` from the accumulator, with borrow.
    fn subtract(&mut self, operand: u8)
        ensures
            *final(self) == old(self).subtracted(operand),
    {
        self.add(!operand);
    }

    /// Combines `operand` bitwise with the accumulator.
    fn blend(&mut self, kind: Logic, operand: u8)
        ensures
            *final(self) == old(self).blended(kind, operand),
    {
        let result = combined(kind, self.acc, operand);
        self.load_reg(Register::A, result);
    }

    /// Tests `operand` against the accumulator.
    fn bit_test(&mut self, operand: u8)
        ensures
            *final(self) == old(self).bit_tested(operand),
    {
        self.p = set_flag_to(self.p, Flag::Negative, operand & 0x80 != 0);
        self.p = set_flag_to(self.p, Flag::Overflow, operand & 0x40 != 0);
        self.p = set_flag_to(self.p, Flag::Zero, self.acc & operand == 0);
    }

    /// Branches if flag `f` is `polarity`.
    fn branch_if(&mut self, f: Flag, polarity: bool)
        ensures
            *final(self) == old(self).branched(f, polarity),
    {
        if test_flag(self.p, f) == polarity {
            let target = self.pc.wrapping_add_signed(self.relative_addr as i16);
            let penalty: u8 = if page_crossed(target, self.pc) {
                2
            } else {
                1
            };
            self.additional_cycles = self.additional_cycles.wrapping_add(penalty);
            self.pc = target;
        }
    }

    /// Drops the penalty that the addressing mode charged.
    fn fix_cost(&mut self)
        ensures
            *final(self) == old(self).at_fixed_cost(),
    {
        self.additional_cycles = 0;
    }

    /// Takes the status from a popped byte, but for Break and the unused bit.
    fn pull_status(&mut self, popped: u8)
        ensures
            *final(self) == old(self).status_pulled(popped),
    {
        self.p = (self.p & KEPT_ON_PULL) | (popped & TAKEN_ON_PULL);
    }

    /// Loads a register with the operand.
    fn load(&mut self, bus: &mut Bus, ppu: &mut PPU, r: Register)
        ensures
            machine(*final(self), *final(bus), *final(ppu)) == machine(
                *old(self),
                *old(bus),
                *old(ppu),
            ).load(r),
    {
        let value = self.fetch(bus, ppu);
        self.load_reg(r, value);
    }

    /// Stores a register at the operand's address.
    fn store(&mut self, bus: &mut Bus, ppu: &mut PPU, r: Register)
        ensures
            machine(*final(self), *final(bus), *final(ppu)) == machine(
                *old(self),
                *old(bus),
                *old(ppu),
            ).store(r),
    {
        bus.write_cpu(ppu, self.absolute_addr, self.reg(r));
        self.fix_cost();
    }

    /// Compares a register with the operand.
    fn compare(&mut self, bus: &mut Bus, ppu: &mut PPU, r: Register)
        ensures
            machine(*final(self), *final(bus), *final(ppu)) == machine(
                *old(self),
                *old(bus),
                *old(ppu),
            ).compare(r),
    {
        let value = self.fetch(bus, ppu);
        self.compare_with(r, value);
    }

    /// Moves the byte at the operand's address one up or one down.
    fn step_memory(&mut self, bus: &mut Bus, ppu: &mut PPU, up: bool)
        ensures
            machine(*final(self), *final(bus), *final(ppu)) == machine(
                *old(self),
                *old(bus),
                *old(ppu),
            ).step_memory(up),
    {
        let value = step_byte(bus.read_cpu(ppu, self.absolute_addr), up);
        self.mark(value);
        bus.write_cpu(ppu, self.absolute_addr, value);
    }

    /// Shifts or rotates the operand.
    fn shift(&mut self, bus: &mut Bus, ppu: &mut PPU, kind: Shift)
        ensures
            machine(*final(self), *final(bus), *final(ppu)) == machine(
                *old(self),
                *old(bus),
                *old(ppu),
            ).shift(kind),
    {
        let value = self.fetch(bus, ppu);
        let result = shifted(kind, value, test_flag(self.p, Flag::Carry));
        self.p = set_flag_to(self.p, Flag::Carry, ejected(kind, value));
        self.p = set_zn(self.p, result);
        self.ditch(bus, ppu, result);
    }

    /// Combines the operand bitwise with the accumulator.
    fn logic(&mut self, bus: &mut Bus, ppu: &mut PPU, kind: Logic)
        ensures
            machine(*final(self), *final(bus), *final(ppu)) == machine(
                *old(self),
                *old(bus),
                *old(ppu),
            ).logic(kind),
    {
        let value = self.fetch(bus, ppu);
        self.blend(kind, value);
    }


    /// Ands the operand into the accumulator.
    pub fn and(&mut self, bus: &mut Bus, ppu: &mut PPU)
        ensures
            machine(*final(self), *final(bus), *final(ppu)) == machine(
                *old(self),
                *old(bus),
                *old(ppu),
            ).logic(Logic::And),
    {
        self.logic(bus, ppu, Logic::And);
    }

    /// Shifts the operand left.
    pub fn asl(&mut self, bus: &mut Bus, ppu: &mut PPU)
        ensures
            machine(*final(self), *final(bus), *final(ppu)) == machine(
                *old(self),
                *old(bus),
                *old(ppu),
            ).shift(Shift::Asl),
    {
        self.shift(bus, ppu, Shift::Asl);
    }

    /// Branches if Carry is clear.
    pub fn bcc(&mut self)
        ensures
            *final(self) == old(self).branched(Flag::Carry, false),
    {
        self.branch_if(Flag::Carry, false);
    }

    /// Branches if Carry is set.
    pub fn bcs(&mut self)
        ensures
            *final(self) == old(self).branched(Flag::Carry, true),
    {
        self.branch_if(Flag::Carry, true);
    }

    /// Branches if Zero is set.
    pub fn beq(&mut self)
        ensures
            *final(self) == old(self).branched(Flag::Zero, true),
    {
        self.branch_if(Flag::Zero, true);
    }

    /// Branches if Negative is set.
    pub fn bmi(&mut self)
        ensures
            *final(self) == old(self).branched(Flag::Negative, true),
    {
        self.branch_if(Flag::Negative, true);
    }

    /// Branches if Zero is clear.
    pub fn bne(&mut self)
        ensures
            *final(self) == old(self).branched(Flag::Zero, false),
    {
        self.branch_if(Flag::Zero, false);
    }

    /// Branches if Negative is clear.
    pub fn bpl(&mut self)
        ensures
            *final(self) == old(self).branched(Flag::Negative, false),
    {
        self.branch_if(Flag::Negative, false);
    }

    /// Branches if Overflow is clear.
    pub fn bvc(&mut self)
        ensures
            *final(self) == old(self).branched(Flag::Overflow, false),
    {
        self.branch_if(Flag::Overflow, false);
    }

    /// Branches if Overflow is set.
    pub fn bvs(&mut self)
        ensures
            *final(self) == old(self).branched(Flag::Overflow, true),
    {
        self.branch_if(Flag::Overflow, true);
    }

    /// Clears Carry.
    pub fn clc(&mut self)
        ensures
            *final(self) == old(self).flag_forced(Flag::Carry, false),
    {
        self.force_flag(Flag::Carry, false);
    }

    /// Clears Decimal.
    pub fn cld(&mut self)
        ensures
            *final(self) == old(self).flag_forced(Flag::Decimal, false),
    {
        self.force_flag(Flag::Decimal, false);
    }

    /// Clears Interrupt.
    pub fn cli(&mut self)
        ensures
            *final(self) == old(self).flag_forced(Flag::Interrupt, false),
    {
        self.force_flag(Flag::Interrupt, false);
    }

    /// Clears Overflow.
    pub fn clv(&mut self)
        ensures
            *final(self) == old(self).flag_forced(Flag::Overflow, false),
    {
        self.force_flag(Flag::Overflow, false);
    }

    /// Compares the accumulator with the operand.
    pub fn cmp(&mut self, bus: &mut Bus, ppu: &mut PPU)
        ensures
            machine(*final(self), *final(bus), *final(ppu)) == machine(
                *old(self),
                *old(bus),
                *old(ppu),
            ).compare(Register::A),
    {
        self.compare(bus, ppu, Register::A);
    }

    /// Compares X with the operand.
    pub fn cpx(&mut self, bus: &mut Bus, ppu: &mut PPU)
        ensures
            machine(*final(self), *final(bus), *final(ppu)) == machine(
                *old(self),
                *old(bus),
                *old(ppu),
            ).compare(Register::X),
    {
        self.compare(bus, ppu, Register::X);
    }

    /// Compares Y with the operand.
    pub fn cpy(&mut self, bus: &mut Bus, ppu: &mut PPU)
        ensures
            machine(*final(self), *final(bus), *final(ppu)) == machine(
                *old(self),
                *old(bus),
                *old(ppu),
            ).compare(Register::Y),
    {
        self.compare(bus, ppu, Register::Y);
    }

    /// Takes one from the byte at the operand's address.
    pub fn dec(&mut self, bus: &mut Bus, ppu: &mut PPU)
        ensures
            machine(*final(self), *final(bus), *final(ppu)) == machine(
                *old(self),
                *old(bus),
                *old(ppu),
            ).step_memory(false),
    {
        self.step_memory(bus, ppu, false);
    }

    /// Takes one from X.
    pub fn dex(&mut self)
        ensures
            *final(self) == old(self).stepped(Register::X, false),
    {
        self.step(Register::X, false);
    }

    /// Takes one from Y.
    pub fn dey(&mut self)
        ensures
            *final(self) == old(self).stepped(Register::Y, false),
    {
        self.step(Register::Y, false);
    }

    /// Exclusive-ors the operand into the accumulator.
    pub fn eor(&mut self, bus: &mut Bus, ppu: &mut PPU)
        ensures
            machine(*final(self), *final(bus), *final(ppu)) == machine(
                *old(self),
                *old(bus),
                *old(ppu),
            ).logic(Logic::Eor),
    {
        self.logic(bus, ppu, Logic::Eor);
    }

    /// Adds one to the byte at the operand's address.
    pub fn inc(&mut self, bus: &mut Bus, ppu: &mut PPU)
        ensures
            machine(*final(self), *final(bus), *final(ppu)) == machine(
                *old(self),
                *old(bus),
                *old(ppu),
            ).step_memory(true),
    {
        self.step_memory(bus, ppu, true);
    }

    /// Adds one to X.
    pub fn inx(&mut self)
        ensures
            *final(self) == old(self).stepped(Register::X, true),
    {
        self.step(Register::X, true);
    }

    /// Adds one to Y.
    pub fn iny(&mut self)
        ensures
            *final(self) == old(self).stepped(Register::Y, true),
    {
        self.step(Register::Y, true);
    }

    /// Jumps to the operand's address.
    pub fn jmp(&mut self)
        ensures
            *final(self) == old(self).jumped(),
    {
        self.pc = self.absolute_addr;
    }

    /// Loads the accumulator.
    pub fn lda(&mut self, bus: &mut Bus, ppu: &mut PPU)
        ensures
            machine(*final(self), *final(bus), *final(ppu)) == machine(
                *old(self),
                *old(bus),
                *old(ppu),
            ).load(Register::A),
    {
        self.load(bus, ppu, Register::A);
    }

    /// Loads X.
    pub fn ldx(&mut self, bus: &mut Bus, ppu: &mut PPU)
        ensures
            machine(*final(self), *final(bus), *final(ppu)) == machine(
                *old(self),
                *old(bus),
                *old(ppu),
            ).load(Register::X),
    {
        self.load(bus, ppu, Register::X);
    }

    /// Loads Y.
    pub fn ldy(&mut self, bus: &mut Bus, ppu: &mut PPU)
        ensures
            machine(*final(self), *final(bus), *final(ppu)) == machine(
                *old(self),
                *old(bus),
                *old(ppu),
            ).load(Register::Y),
    {
        self.load(bus, ppu, Register::Y);
    }

    /// Shifts the operand right.
    pub fn lsr(&mut self, bus: &mut Bus, ppu: &mut PPU)
        ensures
            machine(*final(self), *final(bus), *final(ppu)) == machine(
                *old(self),
                *old(bus),
                *old(ppu),
            ).shift(Shift::Lsr),
    {
        self.shift(bus, ppu, Shift::Lsr);
    }

    /// Does nothing.
    pub fn nop(&mut self)
        ensures
            *final(self) == old(self).idle(),
    {
    }

    /// Ors the operand into the accumulator.
    pub fn ora(&mut self, bus: &mut Bus, ppu: &mut PPU)
        ensures
            machine(*final(self), *final(bus), *final(ppu)) == machine(
                *old(self),
                *old(bus),
                *old(ppu),
            ).logic(Logic::Ora),
    {
        self.logic(bus, ppu, Logic::Ora);
    }

    /// Rotates the operand left through Carry.
    pub fn rol(&mut self, bus: &mut Bus, ppu: &mut PPU)
        ensures
            machine(*final(self), *final(bus), *final(ppu)) == machine(
                *old(self),
                *old(bus),
                *old(ppu),
            ).shift(Shift::Rol),
    {
        self.shift(bus, ppu, Shift::Rol);
    }

    /// Rotates the operand right through Carry.
    pub fn ror(&mut self, bus: &mut Bus, ppu: &mut PPU)
        ensures
            machine(*final(self), *final(bus), *final(ppu)) == machine(
                *old(self),
                *old(bus),
                *old(ppu),
            ).shift(Shift::Ror),
    {
        self.shift(bus, ppu, Shift::Ror);
    }

    /// Sets Carry.
    pub fn sec(&mut self)
        ensures
            *final(self) == old(self).flag_forced(Flag::Carry, true),
    {
        self.force_flag(Flag::Carry, true);
    }

    /// Sets Decimal.
    pub fn sed(&mut self)
        ensures
            *final(self) == old(self).flag_forced(Flag::Decimal, true),
    {
        self.force_flag(Flag::Decimal, true);
    }

    /// Sets Interrupt.
    pub fn sei(&mut self)
        ensures
            *final(self) == old(self).flag_forced(Flag::Interrupt, true),
    {
        self.force_flag(Flag::Interrupt, true);
    }

    /// Stores the accumulator.
    pub fn sta(&mut self, bus: &mut Bus, ppu: &mut PPU)
        ensures
            machine(*final(self), *final(bus), *final(ppu)) == machine(
                *old(self),
                *old(bus),
                *old(ppu),
            ).store(Register::A),
    {
        self.store(bus, ppu, Register::A);
    }

    /// Stores X.
    pub fn stx(&mut self, bus: &mut Bus, ppu: &mut PPU)
        ensures
            machine(*final(self), *final(bus), *final(ppu)) == machine(
                *old(self),
                *old(bus),
                *old(ppu),
            ).store(Register::X),
    {
        self.store(bus, ppu, Register::X);
    }

    /// Stores Y.
    pub fn sty(&mut self, bus: &mut Bus, ppu: &mut PPU)
        ensures
            machine(*final(self), *final(bus), *final(ppu)) == machine(
                *old(self),
                *old(bus),
                *old(ppu),
            ).store(Register::Y),
    {
        self.store(bus, ppu, Register::Y);
    }

    /// Copies the accumulator to X.
    pub fn tax(&mut self)
        ensures
            *final(self) == old(self).transferred(Register::A, Register::X),
    {
        self.transfer(Register::A, Register::X);
    }

    /// Copies the accumulator to Y.
    pub fn tay(&mut self)
        ensures
            *final(self) == old(self).transferred(Register::A, Register::Y),
    {
        self.transfer(Register::A, Register::Y);
    }

    /// Copies the stack pointer to X.
    pub fn tsx(&mut self)
        ensures
            *final(self) == old(self).transferred(Register::Sp, Register::X),
    {
        self.transfer(Register::Sp, Register::X);
    }

    /// Copies X to the accumulator.
    pub fn txa(&mut self)
        ensures
            *final(self) == old(self).transferred(Register::X, Register::A),
    {
        self.transfer(Register::X, Register::A);
    }

    /// Copies X to the stack pointer, and touches no flag.
    pub fn txs(&mut self)
        ensures
            *final(self) == old(self).transferred(Register::X, Register::Sp),
    {
        self.transfer(Register::X, Register::Sp);
    }

    /// Copies Y to the accumulator.
    pub fn tya(&mut self)
        ensures
            *final(self) == old(self).transferred(Register::Y, Register::A),
    {
        self.transfer(Register::Y, Register::A);
    }

    /// Adds the operand and Carry to the accumulator.
    pub fn adc(&mut self, bus: &mut Bus, ppu: &mut PPU)
        ensures
            machine(*final(self), *final(bus), *final(ppu)) == machine(
                *old(self),
                *old(bus),
                *old(ppu),
            ).adc(),
    {
        let value = self.fetch(bus, ppu);
        self.add(value);
    }

    /// Subtracts the operand from the accumulator, with borrow.
    pub fn sbc(&mut self, bus: &mut Bus, ppu: &mut PPU)
        ensures
            machine(*final(self), *final(bus), *final(ppu)) == machine(
                *old(self),
                *old(bus),
                *old(ppu),
            ).sbc(),
    {
        let value = self.fetch(bus, ppu);
        self.subtract(value);
    }

    /// Tests the byte at the operand's address against the accumulator.
    pub fn bit(&mut self, bus: &mut Bus, ppu: &mut PPU)
        ensures
            machine(*final(self), *final(bus), *final(ppu)) == machine(
                *old(self),
                *old(bus),
                *old(ppu),
            ).bit(),
    {
        let value = bus.read_cpu(ppu, self.absolute_addr);
        self.bit_test(value);
    }

    /// Calls the subroutine at the operand's address.
    pub fn jsr(&mut self, bus: &mut Bus, ppu: &mut PPU)
        ensures
            machine(*final(self), *final(bus), *final(ppu)) == machine(
                *old(self),
                *old(bus),
                *old(ppu),
            ).jsr(),
    {
        let back = self.pc.wrapping_sub(1);
        push(bus, ppu, &mut self.sp, hi_byte(back));
        push(bus, ppu, &mut self.sp, lo_byte(back));
        self.pc = self.absolute_addr;
    }

    /// Returns from a subroutine.
    pub fn rts(&mut self, bus: &mut Bus, ppu: &mut PPU)
        ensures
            machine(*final(self), *final(bus), *final(ppu)) == machine(
                *old(self),
                *old(bus),
                *old(ppu),
            ).rts(),
    {
        let lo = pop(bus, ppu, &mut self.sp);
        let hi = pop(bus, ppu, &mut self.sp);
        self.pc = word(lo, hi).wrapping_add(1);
    }

    /// Returns from an interrupt.
    pub fn rti(&mut self, bus: &mut Bus, ppu: &mut PPU)
        ensures
            machine(*final(self), *final(bus), *final(ppu)) == machine(
                *old(self),
                *old(bus),
                *old(ppu),
            ).rti(),
    {
        self.plp(bus, ppu);
        let lo = pop(bus, ppu, &mut self.sp);
        let hi = pop(bus, ppu, &mut self.sp);
        self.pc = word(lo, hi);
    }

    /// Pushes the accumulator.
    pub fn pha(&mut self, bus: &mut Bus, ppu: &mut PPU)
        ensures
            machine(*final(self), *final(bus), *final(ppu)) == machine(
                *old(self),
                *old(bus),
                *old(ppu),
            ).pha(),
    {
        push(bus, ppu, &mut self.sp, self.acc);
    }

    /// Pulls the accumulator.
    pub fn pla(&mut self, bus: &mut Bus, ppu: &mut PPU)
        ensures
            machine(*final(self), *final(bus), *final(ppu)) == machine(
                *old(self),
                *old(bus),
                *old(ppu),
            ).pla(),
    {
        let value = pop(bus, ppu, &mut self.sp);
        self.load_reg(Register::A, value);
    }

    /// Pushes the status, with Break and the unused bit set in the pushed byte.
    pub fn php(&mut self, bus: &mut Bus, ppu: &mut PPU)
        ensures
            machine(*final(self), *final(bus), *final(ppu)) == machine(
                *old(self),
                *old(bus),
                *old(ppu),
            ).php(),
    {
        push(bus, ppu, &mut self.sp, self.p | KEPT_ON_PULL);
    }

    /// Pulls the status. Break and the unused bit are not taken from the stack.
    pub fn plp(&mut self, bus: &mut Bus, ppu: &mut PPU)
        ensures
            machine(*final(self), *final(bus), *final(ppu)) == machine(
                *old(self),
                *old(bus),
                *old(ppu),
            ).plp(),
    {
        let value = pop(bus, ppu, &mut self.sp);
        self.pull_status(value);
    }

    /// Stores the accumulator anded with X.
    pub fn sax(&mut self, bus: &mut Bus, ppu: &mut PPU)
        ensures
            machine(*final(self), *final(bus), *final(ppu)) == machine(
                *old(self),
                *old(bus),
                *old(ppu),
            ).sax(),
    {
        bus.write_cpu(ppu, self.absolute_addr, self.acc & self.x);
        self.fix_cost();
    }

    /// Loads the accumulator and X.
    pub fn lax(&mut self, bus: &mut Bus, ppu: &mut PPU)
        ensures
            machine(*final(self), *final(bus), *final(ppu)) == machine(
                *old(self),
                *old(bus),
                *old(ppu),
            ).lax(),
    {
        self.lda(bus, ppu);
        self.ldx(bus, ppu);
    }

    /// Decrements memory, then compares it with the accumulator.
    pub fn dcp(&mut self, bus: &mut Bus, ppu: &mut PPU)
        ensures
            machine(*final(self), *final(bus), *final(ppu)) == machine(
                *old(self),
                *old(bus),
                *old(ppu),
            ).dcp(),
    {
        self.dec(bus, ppu);
        self.cmp(bus, ppu);
        self.fix_cost();
    }

    /// Increments memory, then subtracts it from the accumulator.
    pub fn isc(&mut self, bus: &mut Bus, ppu: &mut PPU)
        ensures
            machine(*final(self), *final(bus), *final(ppu)) == machine(
                *old(self),
                *old(bus),
                *old(ppu),
            ).isc(),
    {
        self.inc(bus, ppu);
        self.sbc(bus, ppu);
        self.fix_cost();
    }

    /// Shifts the operand left, then ors it into the accumulator.
    pub fn slo(&mut self, bus: &mut Bus, ppu: &mut PPU)
        ensures
            machine(*final(self), *final(bus), *final(ppu)) == machine(
                *old(self),
                *old(bus),
                *old(ppu),
            ).slo(),
    {
        self.asl(bus, ppu);
        self.ora(bus, ppu);
        self.fix_cost();
    }

    /// Rotates the operand left, then ands it into the accumulator.
    pub fn rla(&mut self, bus: &mut Bus, ppu: &mut PPU)
        ensures
            machine(*final(self), *final(bus), *final(ppu)) == machine(
                *old(self),
                *old(bus),
                *old(ppu),
            ).rla(),
    {
        self.rol(bus, ppu);
        self.and(bus, ppu);
        self.fix_cost();
    }

    /// Shifts the operand right, then exclusive-ors it into the accumulator.
    pub fn sre(&mut self, bus: &mut Bus, ppu: &mut PPU)
        ensures
            machine(*final(self), *final(bus), *final(ppu)) == machine(
                *old(self),
                *old(bus),
                *old(ppu),
            ).sre(),
    {
        self.lsr(bus, ppu);
        self.eor(bus, ppu);
        self.fix_cost();
    }

    /// Rotates the operand right, then adds it to the accumulator.
    pub fn rra(&mut self, bus: &mut Bus, ppu: &mut PPU)
        ensures
            machine(*final(self), *final(bus), *final(ppu)) == machine(
                *old(self),
                *old(bus),
                *old(ppu),
            ).rra(),
    {
        self.ror(bus, ppu);
        self.adc(bus, ppu);
        self.fix_cost();
    }

    /// Runs an operation.
    pub fn operate(&mut self, bus: &mut Bus, ppu: &mut PPU, op: Operation)
        ensures
            machine(*final(self), *final(bus), *final(ppu)) == machine(
                *old(self),
                *old(bus),
                *old(ppu),
            ).operation(op),
    {
        proof {
            reveal(State::operation);
        }
        match op {
            Operation::Adc => self.adc(bus, ppu),
            Operation::And => self.and(bus, ppu),
            Operation::Asl => self.asl(bus, ppu),
            Operation::Bcc => self.bcc(),
            Operation::Bcs => self.bcs(),
            Operation::Beq => self.beq(),
            Operation::Bit => self.bit(bus, ppu),
            Operation::Bmi => self.bmi(),
            Operation::Bne => self.bne(),
            Operation::Bpl => self.bpl(),
            Operation::Bvc => self.bvc(),
            Operation::Bvs => self.bvs(),
            Operation::Clc => self.clc(),
            Operation::Cld => self.cld(),
            Operation::Cli => self.cli(),
            Operation::Clv => self.clv(),
            Operation::Cmp => self.cmp(bus, ppu),
            Operation::Cpx => self.cpx(bus, ppu),
            Operation::Cpy => self.cpy(bus, ppu),
            Operation::Dcp => self.dcp(bus, ppu),
            Operation::Dec => self.dec(bus, ppu),
            Operation::Dex => self.dex(),
            Operation::Dey => self.dey(),
            Operation::Eor => self.eor(bus, ppu),
            Operation::Inc => self.inc(bus, ppu),
            Operation::Inx => self.inx(),
            Operation::Iny => self.iny(),
            Operation::Isc => self.isc(bus, ppu),
            Operation::Jmp => self.jmp(),
            Operation::Jsr => self.jsr(bus, ppu),
            Operation::Lax => self.lax(bus, ppu),
            Operation::Lda => self.lda(bus, ppu),
            Operation::Ldx => self.ldx(bus, ppu),
            Operation::Ldy => self.ldy(bus, ppu),
            Operation::Lsr => self.lsr(bus, ppu),
            Operation::Nop => self.nop(),
            Operation::Ora => self.ora(bus, ppu),
            Operation::Pha => self.pha(bus, ppu),
            Operation::Php => self.php(bus, ppu),
            Operation::Pla => self.pla(bus, ppu),
            Operation::Plp => self.plp(bus, ppu),
            Operation::Rla => self.rla(bus, ppu),
            Operation::Rol => self.rol(bus, ppu),
            Operation::Ror => self.ror(bus, ppu),
            Operation::Rra => self.rra(bus, ppu),
            Operation::Rti => self.rti(bus, ppu),
            Operation::Rts => self.rts(bus, ppu),
            Operation::Sax => self.sax(bus, ppu),
            Operation::Sbc => self.sbc(bus, ppu),
            Operation::Sec => self.sec(),
            Operation::Sed => self.sed(),
            Operation::Sei => self.sei(),
            Operation::Slo => self.slo(bus, ppu),
            Operation::Sre => self.sre(bus, ppu),
            Operation::Sta => self.sta(bus, ppu),
            Operation::Stx => self.stx(bus, ppu),
            Operation::Sty => self.sty(bus, ppu),
            Operation::Tax => self.tax(),
            Operation::Tay => self.tay(),
            Operation::Tsx => self.tsx(),
            Operation::Txa => self.txa(),
            Operation::Txs => self.txs(),
            Operation::Tya => self.tya(),
        }
    }
}

} // verus!
