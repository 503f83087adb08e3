//! The processor: its register file, the machine state its instructions act
//! on, and the cycle driver.

use vstd::prelude::*;
use crate::bus::{ppu_after_write, Bus, BusView};
use crate::bytes::{spec_stack_addr, stack_addr, word};
use crate::instructions::{instruction_set, Instruction};
use crate::ppu::{PpuView, PPU};

verus! {

/// The stack pointer after a reset.
pub const RESET_SP: u8 = 0xFD;

/// The status after a reset: interrupt-disable and the unused bit.
pub const RESET_STATUS: u8 = 0x24;

/// The cycles a reset stalls the processor for.
pub const RESET_STALL: u8 = 6;

/// The tick count after a reset.
pub const RESET_CYCLES: u64 = 7;

/// Where the test harness starts the program.
pub const HARNESS_ENTRY: u16 = 0xC000;

/// Where the reset vector is stored, low byte first.
pub const RESET_VECTOR: u16 = 0xFFFC;

/// Whether an operation works on the accumulator or on memory.
#[derive(Clone, Copy, PartialEq, Eq, Structural, Debug)]
pub enum FetchType {
    /// The operand is the accumulator.
    Acc,
    /// The operand is the byte at `absolute_addr`.
    Mem,
}

/// The processor met an opcode that the instruction set has no entry for.
#[derive(Clone, Copy, PartialEq, Eq, Structural, Debug)]
pub struct UnimplementedOpcode {
    /// The opcode.
    pub opcode: u8,
    /// Where it was fetched from.
    pub pc: u16,
}

/// One of the processor's 8-bit registers.
#[derive(Clone, Copy, PartialEq, Eq, Structural, Debug)]
pub enum Register {
    /// The accumulator.
    A,
    /// The index register X.
    X,
    /// The index register Y.
    Y,
    /// The stack pointer.
    Sp,
}

/// The processor: its registers, and what it carries from one stage of an
/// instruction to the next.
#[derive(Clone, Copy, PartialEq, Eq, Structural, Debug)]
pub struct CPU {
    /// Cycles still owed for the instruction in progress.
    pub cycles_remaining: u8,
    /// Penalties that the addressing mode and the operation have charged to
    /// the instruction in progress.
    pub additional_cycles: u8,
    /// Ticks since power-up, modulo 2^64.
    pub total_cycles: u64,
    /// The effective address that the addressing mode computed.
    pub absolute_addr: u16,
    /// The displacement of a branch.
    pub relative_addr: i8,
    /// Where operations read and write their operand.
    pub fetch_type: FetchType,
    /// The accumulator.
    pub acc: u8,
    /// The index register X.
    pub x: u8,
    /// The index register Y.
    pub y: u8,
    /// The status, bit-packed as `NV-BDIZC`.
    pub p: u8,
    /// The stack pointer: the stack's top is at `0x0100 | sp`.
    pub sp: u8,
    /// The program counter.
    pub pc: u16,
}

/// The whole machine as the processor sees it, as plain values.
#[verifier::ext_equal]
pub struct State {
    /// The processor.
    pub cpu: CPU,
    /// The bus, with the cartridge in its slot.
    pub bus: BusView,
    /// The picture unit.
    pub ppu: PpuView,
}

/// The state made of a processor, a bus and a picture unit.
pub open spec fn machine(cpu: CPU, bus: Bus, ppu: PPU) -> State {
    State { cpu, bus: bus@, ppu: ppu@ }
}

impl CPU {
    /// What a register holds.
    pub open spec fn spec_reg(&self, r: Register) -> u8 {
        match r {
            Register::A => self.acc,
            Register::X => self.x,
            Register::Y => self.y,
            Register::Sp => self.sp,
        }
    }

    /// The processor with `value` in a register.
    pub open spec fn with_reg(self, r: Register, value: u8) -> CPU {
        match r {
            Register::A => CPU { acc: value, ..self },
            Register::X => CPU { x: value, ..self },
            Register::Y => CPU { y: value, ..self },
            Register::Sp => CPU { sp: value, ..self },
        }
    }

    /// The processor after a reset that starts the program at `pc`.
    pub open spec fn reset_to(self, pc: u16) -> CPU {
        CPU {
            acc: 0,
            x: 0,
            y: 0,
            sp: RESET_SP,
            p: RESET_STATUS,
            pc,
            cycles_remaining: RESET_STALL,
            total_cycles: RESET_CYCLES,
            ..self
        }
    }

    /// A processor with every register zero.
    pub open spec fn spec_new() -> CPU {
        CPU {
            cycles_remaining: 0,
            additional_cycles: 0,
            total_cycles: 0,
            absolute_addr: 0,
            relative_addr: 0,
            fetch_type: FetchType::Mem,
            acc: 0,
            x: 0,
            y: 0,
            p: 0,
            sp: 0,
            pc: 0,
        }
    }

    /// A processor with every register zero.
    #[verifier::when_used_as_spec(spec_new)]
    pub fn new() -> (cpu: CPU)
        ensures
            cpu == Self::spec_new(),
    {
        CPU {
            cycles_remaining: 0,
            additional_cycles: 0,
            total_cycles: 0,
            absolute_addr: 0,
            relative_addr: 0,
            fetch_type: FetchType::Mem,
            acc: 0,
            x: 0,
            y: 0,
            p: 0,
            sp: 0,
            pc: 0,
        }
    }

    /// Resets the processor and starts the program where the test harness
    /// expects it, at `0xC000`.
    pub fn powerup(&mut self)
        ensures
            *final(self) == old(self).reset_to(HARNESS_ENTRY),
    {
        self.reset_to_pc(HARNESS_ENTRY);
    }

    /// Resets the processor and starts the program where the reset vector at
    /// `0xFFFC` points.
    pub fn reset(&mut self, bus: &mut Bus, ppu: &mut PPU)
        ensures
            machine(*final(self), *final(bus), *final(ppu)) == machine(
                *old(self),
                *old(bus),
                *old(ppu),
            ).reset(),
    {
        let lo = bus.read_cpu(ppu, RESET_VECTOR);
        let hi = bus.read_cpu(ppu, RESET_VECTOR + 1);
        self.reset_to_pc(word(lo, hi));
    }

    fn reset_to_pc(&mut self, pc: u16)
        ensures
            *final(self) == old(self).reset_to(pc),
    {
        self.p = RESET_STATUS;
        self.acc = 0;
        self.x = 0;
        self.y = 0;
        self.sp = RESET_SP;
        self.total_cycles = RESET_CYCLES;
        self.cycles_remaining = RESET_STALL;
        self.pc = pc;
    }

    /// Whether the next tick decodes a new instruction.
    pub fn sync(&self) -> (boundary: bool)
        ensures
            boundary == (self.cycles_remaining == 0),
    {
        self.cycles_remaining == 0
    }

    #[verifier::when_used_as_spec(spec_reg)]
    pub fn reg(&self, r: Register) -> (value: u8)
        ensures
            value == self.spec_reg(r),
    {
        match r {
            Register::A => self.acc,
            Register::X => self.x,
            Register::Y => self.y,
            Register::Sp => self.sp,
        }
    }

    pub fn set_reg(&mut self, r: Register, value: u8)
        ensures
            *final(self) == old(self).with_reg(r, value),
    {
        match r {
            Register::A => {
                self.acc = value;
            },
            Register::X => {
                self.x = value;
            },
            Register::Y => {
                self.y = value;
            },
            Register::Sp => {
                self.sp = value;
            },
        }
    }

    /// Reads the operand: the accumulator, or the byte at `absolute_addr`.
    pub fn fetch(&mut self, bus: &mut Bus, ppu: &mut PPU) -> (value: u8)
        ensures
            value == machine(*old(self), *old(bus), *old(ppu)).fetched(),
            machine(*final(self), *final(bus), *final(ppu)) == machine(
                *old(self),
                *old(bus),
                *old(ppu),
            ).after_fetch(),
    {
        match self.fetch_type {
            FetchType::Mem => bus.read_cpu(ppu, self.absolute_addr),
            FetchType::Acc => self.acc,
        }
    }

    /// Writes the operand back: to the accumulator, or to `absolute_addr`.
    pub fn ditch(&mut self, bus: &mut Bus, ppu: &mut PPU, value: u8)
        ensures
            machine(*final(self), *final(bus), *final(ppu)) == machine(
                *old(self),
                *old(bus),
                *old(ppu),
            ).ditched(value),
    {
        match self.fetch_type {
            FetchType::Mem => {
                bus.write_cpu(ppu, self.absolute_addr, value);
            },
            FetchType::Acc => {
                self.acc = value;
            },
        }
    }

    /// Executes one whole instruction: fetches the opcode at the program
    /// counter, runs its addressing mode and its operation, and sets the
    /// cycles it costs. An opcode without an entry in the instruction set is
    /// reported, and the program counter stays on it.
    pub fn execute(&mut self, bus: &mut Bus, ppu: &mut PPU) -> (r: Result<(), UnimplementedOpcode>)
        ensures
            machine(*final(self), *final(bus), *final(ppu)) == machine(
                *old(self),
                *old(bus),
                *old(ppu),
            ).execute(),
            r == machine(*old(self), *old(bus), *old(ppu)).execute_result(),
    {
        proof {
            reveal(State::execute);
        }
        let pc = self.pc;
        let opcode = bus.read_cpu(ppu, pc);
        match instruction_set(opcode) {
            None => Err(UnimplementedOpcode { opcode, pc }),
            Some(instr) => {
                self.pc = pc.wrapping_add(1);
                self.address(bus, ppu, instr.addressing);
                self.operate(bus, ppu, instr.action);
                self.cycles_remaining = instr.cycles.wrapping_add(self.additional_cycles);
                self.additional_cycles = 0;
                Ok(())
            },
        }
    }

    /// One tick. While cycles are owed, the tick pays one and reports
    /// `false`. On the tick after the last one was paid, a whole instruction
    /// is executed, the tick itself pays the first of its cycles, and the
    /// report is `true`.
    pub fn cycle(&mut self, bus: &mut Bus, ppu: &mut PPU) -> (r: Result<bool, UnimplementedOpcode>)
        ensures
            machine(*final(self), *final(bus), *final(ppu)) == machine(
                *old(self),
                *old(bus),
                *old(ppu),
            ).cycle(),
            r == machine(*old(self), *old(bus), *old(ppu)).cycle_result(),
    {
        self.total_cycles = self.total_cycles.wrapping_add(1);
        if self.cycles_remaining > 0 {
            self.cycles_remaining = self.cycles_remaining - 1;
            return Ok(false);
        }
        match self.execute(bus, ppu) {
            Err(e) => Err(e),
            Ok(()) => {
                self.cycles_remaining = self.cycles_remaining.wrapping_sub(1);
                Ok(true)
            },
        }
    }
}

impl State {
    /// The byte that a read of `addr` returns.
    pub open spec fn read(self, addr: u16) -> u8 {
        self.bus.peek(self.ppu, addr)
    }

    /// The state after a read of `addr`.
    pub open spec fn after_read(self, addr: u16) -> State {
        State { bus: self.bus.after_read(addr), ..self }
    }

    /// The state after a write of `value` to `addr`.
    pub open spec fn after_write(self, addr: u16, value: u8) -> State {
        State {
            bus: self.bus.after_write(addr, value),
            ppu: ppu_after_write(self.ppu, addr, value),
            ..self
        }
    }

    /// The state with another register file.
    pub open spec fn with_cpu(self, cpu: CPU) -> State {
        State { cpu, ..self }
    }

    /// The state after a push: the byte goes to `0x0100 | sp`, then the
    /// stack pointer steps down.
    pub open spec fn pushed(self, value: u8) -> State {
        let s = self.after_write(spec_stack_addr(self.cpu.sp), value);
        s.with_cpu(CPU { sp: self.cpu.sp.wrapping_sub(1), ..s.cpu })
    }

    /// The byte that a pop returns: the stack pointer steps up, then the byte
    /// at `0x0100 | sp` is read.
    pub open spec fn top(self) -> u8 {
        self.read(spec_stack_addr(self.cpu.sp.wrapping_add(1)))
    }

    /// The state after a pop.
    pub open spec fn popped(self) -> State {
        let sp = self.cpu.sp.wrapping_add(1);
        let s = self.after_read(spec_stack_addr(sp));
        s.with_cpu(CPU { sp, ..s.cpu })
    }

    /// The operand: the accumulator, or the byte at `absolute_addr`.
    pub open spec fn fetched(self) -> u8 {
        match self.cpu.fetch_type {
            FetchType::Acc => self.cpu.acc,
            FetchType::Mem => self.read(self.cpu.absolute_addr),
        }
    }

    /// The state after the operand was read.
    pub open spec fn after_fetch(self) -> State {
        match self.cpu.fetch_type {
            FetchType::Acc => self,
            FetchType::Mem => self.after_read(self.cpu.absolute_addr),
        }
    }

    /// The state after `value` was written back as the operand.
    pub open spec fn ditched(self, value: u8) -> State {
        match self.cpu.fetch_type {
            FetchType::Acc => self.with_cpu(CPU { acc: value, ..self.cpu }),
            FetchType::Mem => self.after_write(self.cpu.absolute_addr, value),
        }
    }

    /// The opcode at the program counter.
    pub open spec fn opcode(self) -> u8 {
        self.read(self.cpu.pc)
    }

    /// The instruction at the program counter, if its opcode has one.
    pub open spec fn decoded(self) -> Option<Instruction> {
        instruction_set(self.opcode())
    }

    /// The state after the opcode at the program counter was fetched.
    pub open spec fn past_opcode(self) -> State {
        let s = self.after_read(self.cpu.pc);
        s.with_cpu(CPU { pc: self.cpu.pc.wrapping_add(1), ..s.cpu })
    }

    /// The state with the instruction's cost as the cycles owed: its base
    /// cycles and the penalties charged, which are cleared.
    pub open spec fn charged(self, base: u8) -> State {
        self.with_cpu(
            CPU {
                cycles_remaining: base.wrapping_add(self.cpu.additional_cycles),
                additional_cycles: 0,
                ..self.cpu
            },
        )
    }

    /// The state after the instruction at the program counter was executed.
    /// Where the opcode has no instruction, only its fetch has happened.
    #[verifier::opaque]
    pub open spec fn execute(self) -> State {
        match self.decoded() {
            None => self.after_read(self.cpu.pc),
            Some(instr) => self.past_opcode().addressing(instr.addressing).operation(
                instr.action,
            ).charged(instr.cycles),
        }
    }

    /// What `execute` reports.
    pub open spec fn execute_result(self) -> Result<(), UnimplementedOpcode> {
        match self.decoded() {
            None => Err(UnimplementedOpcode { opcode: self.opcode(), pc: self.cpu.pc }),
            Some(_) => Ok(()),
        }
    }

    /// The state with one more tick counted.
    pub open spec fn ticked(self) -> State {
        self.with_cpu(CPU { total_cycles: self.cpu.total_cycles.wrapping_add(1), ..self.cpu })
    }

    /// The state with one of the cycles owed paid.
    pub open spec fn paid(self) -> State {
        self.with_cpu(
            CPU { cycles_remaining: self.cpu.cycles_remaining.wrapping_sub(1), ..self.cpu },
        )
    }

    /// The state one tick later.
    pub open spec fn cycle(self) -> State {
        if self.cpu.cycles_remaining > 0 {
            self.ticked().paid()
        } else if self.decoded() is Some {
            self.ticked().execute().paid()
        } else {
            self.ticked().execute()
        }
    }

    /// What `cycle` reports: whether the tick executed an instruction.
    pub open spec fn cycle_result(self) -> Result<bool, UnimplementedOpcode> {
        if self.cpu.cycles_remaining > 0 {
            Ok(false)
        } else {
            match self.execute_result() {
                Err(e) => Err(e),
                Ok(_) => Ok(true),
            }
        }
    }

    /// The state after a reset through the vector at `0xFFFC`.
    pub open spec fn reset(self) -> State {
        let lo = self.read(RESET_VECTOR);
        let s = self.after_read(RESET_VECTOR);
        let hi = s.read((RESET_VECTOR + 1) as u16);
        let s = s.after_read((RESET_VECTOR + 1) as u16);
        s.with_cpu(s.cpu.reset_to(word(lo, hi)))
    }
}

/// Pushes a byte on the stack.
pub fn push(bus: &mut Bus, ppu: &mut PPU, sp: &mut u8, value: u8)
    ensures
        *final(sp) == old(sp).wrapping_sub(1),
        final(bus)@ == old(bus)@.after_write(spec_stack_addr(*old(sp)), value),
        final(ppu)@ == ppu_after_write(old(ppu)@, spec_stack_addr(*old(sp)), value),
{
    bus.write_cpu(ppu, stack_addr(*sp), value);
    *sp = sp.wrapping_sub(1);
}

/// Pops a byte off the stack.
pub fn pop(bus: &mut Bus, ppu: &mut PPU, sp: &mut u8) -> (value: u8)
    ensures
        *final(sp) == old(sp).wrapping_add(1),
        value == old(bus)@.peek(old(ppu)@, spec_stack_addr(*final(sp))),
        final(bus)@ == old(bus)@.after_read(spec_stack_addr(*final(sp))),
        final(ppu)@ == old(ppu)@,
{
    *sp = sp.wrapping_add(1);
    bus.read_cpu(ppu, stack_addr(*sp))
}

} // verus!
