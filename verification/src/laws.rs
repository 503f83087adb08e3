//! Laws of the instruction set, proved from the definitions of the
//! operations and the addressing modes.

use vstd::prelude::*;
use crate::bytes::{
    lemma_stack_addr_bits, lemma_word_of_halves, spec_hi_byte, spec_lo_byte, spec_page_crossed,
    spec_signed, spec_word,
};
use crate::cpu::{Register, State, CPU};
use crate::flags::{
    flag, lemma_is_negative, lemma_pulled_status, lemma_pushed_status, lemma_with_flag,
    pulled_status, pushed_status, same_kept_bits, with_flag, Flag,
};
use crate::instructions::{
    lemma_instruction_set, spec_instruction_set, AddressingMode, Instruction, Operation,
};

verus! {

/// The flag that a flag operation names, and the polarity it leaves it at.
pub open spec fn flag_operation(op: Operation) -> Option<(Flag, bool)> {
    match op {
        Operation::Clc => Some((Flag::Carry, false)),
        Operation::Sec => Some((Flag::Carry, true)),
        Operation::Cli => Some((Flag::Interrupt, false)),
        Operation::Sei => Some((Flag::Interrupt, true)),
        Operation::Cld => Some((Flag::Decimal, false)),
        Operation::Sed => Some((Flag::Decimal, true)),
        Operation::Clv => Some((Flag::Overflow, false)),
        _ => None,
    }
}

/// The registers that a transfer reads and writes.
pub open spec fn transfer_operation(op: Operation) -> Option<(Register, Register)> {
    match op {
        Operation::Tax => Some((Register::A, Register::X)),
        Operation::Tay => Some((Register::A, Register::Y)),
        Operation::Tsx => Some((Register::Sp, Register::X)),
        Operation::Txa => Some((Register::X, Register::A)),
        Operation::Tya => Some((Register::Y, Register::A)),
        Operation::Txs => Some((Register::X, Register::Sp)),
        _ => None,
    }
}

/// The register that a comparison reads.
pub open spec fn compare_operation(op: Operation) -> Option<Register> {
    match op {
        Operation::Cmp => Some(Register::A),
        Operation::Cpx => Some(Register::X),
        Operation::Cpy => Some(Register::Y),
        _ => None,
    }
}

/// The flag that a branch tests, and the polarity on which it is taken.
pub open spec fn branch_operation(op: Operation) -> Option<(Flag, bool)> {
    match op {
        Operation::Bcc => Some((Flag::Carry, false)),
        Operation::Bcs => Some((Flag::Carry, true)),
        Operation::Bne => Some((Flag::Zero, false)),
        Operation::Beq => Some((Flag::Zero, true)),
        Operation::Bpl => Some((Flag::Negative, false)),
        Operation::Bmi => Some((Flag::Negative, true)),
        Operation::Bvc => Some((Flag::Overflow, false)),
        Operation::Bvs => Some((Flag::Overflow, true)),
        _ => None,
    }
}

/// Writing a flag is seen by a read of that flag and by no read of another.
proof fn lemma_flags_everywhere()
    ensures
        forall|p: u8, f: Flag, value: bool, g: Flag|
            #[trigger] flag(with_flag(p, f, value), g) == (if g == f {
                value
            } else {
                flag(p, g)
            }),
{
    assert forall|p: u8, f: Flag, value: bool, g: Flag|
        #[trigger] flag(with_flag(p, f, value), g) == (if g == f {
            value
        } else {
            flag(p, g)
        }) by {
        lemma_with_flag(p, f, value, g);
    }
}

/// A flag operation leaves its flag at its polarity, and every other flag
/// and all the rest of the machine as they were.
pub proof fn law_flag_operation(s: State, op: Operation, other: Flag)
    requires
        flag_operation(op) is Some,
    ensures
        ({
            let (named, polarity) = flag_operation(op)->0;
            let after = s.operation(op);
            &&& flag(after.cpu.p, named) == polarity
            &&& other != named ==> flag(after.cpu.p, other) == flag(s.cpu.p, other)
            &&& after == s.with_cpu(CPU { p: after.cpu.p, ..s.cpu })
        }),
{
    reveal(State::operation);
    lemma_flags_everywhere();
}

/// A transfer copies the source register to the destination. Unless the
/// destination is the stack pointer, Zero says that what arrived is zero and
/// Negative is its bit 7; a transfer to the stack pointer leaves the status
/// as it was.
pub proof fn law_transfer(s: State, op: Operation)
    requires
        transfer_operation(op) is Some,
    ensures
        ({
            let (from, to) = transfer_operation(op)->0;
            let after = s.operation(op).cpu;
            let dst = after.spec_reg(to);
            &&& dst == s.cpu.spec_reg(from)
            &&& to != Register::Sp ==> flag(after.p, Flag::Zero) == (dst == 0) && flag(
                after.p,
                Flag::Negative,
            ) == (dst >> 7 == 1)
            &&& to == Register::Sp ==> after.p == s.cpu.p
        }),
{
    reveal(State::operation);
    lemma_flags_everywhere();
    let (from, to) = transfer_operation(op)->0;
    lemma_is_negative(s.cpu.spec_reg(from));
}

/// The flags after a register was compared with `m`.
proof fn lemma_compared(cpu: CPU, r: Register, m: u8)
    ensures
        flag(cpu.compared(r, m).p, Flag::Zero) == (cpu.spec_reg(r) == m),
        flag(cpu.compared(r, m).p, Flag::Carry) == (cpu.spec_reg(r) >= m),
        flag(cpu.compared(r, m).p, Flag::Negative) == ((cpu.spec_reg(r) - m) % 256 >= 128),
{
    lemma_flags_everywhere();
}

/// After a comparison of a register with the operand `M`, Zero says that
/// they are equal, Carry that the register is not below `M`, and Negative is
/// bit 7 of their difference modulo 256.
pub proof fn law_compare(s: State, op: Operation)
    requires
        compare_operation(op) is Some,
    ensures
        ({
            let reg = s.cpu.spec_reg(compare_operation(op)->0);
            let m = s.fetched();
            let p = s.operation(op).cpu.p;
            &&& flag(p, Flag::Zero) == (reg == m)
            &&& flag(p, Flag::Carry) == (reg >= m)
            &&& flag(p, Flag::Negative) == ((reg - m) % 256 >= 128)
        }),
{
    reveal(State::operation);
    let r = compare_operation(op)->0;
    lemma_compared(s.after_fetch().cpu, r, s.fetched());
    assert(s.operation(op) == s.compare(r));
}

/// A push of the accumulator followed by a pull gives the accumulator and
/// the stack pointer back, whatever the accumulator held in between, and
/// leaves Zero and Negative describing it.
pub proof fn law_pha_pla(s: State, between: u8)
    requires
        s.bus.wf(),
    ensures
        ({
            let pushed = s.operation(Operation::Pha);
            let after = pushed.with_cpu(CPU { acc: between, ..pushed.cpu }).operation(
                Operation::Pla,
            ).cpu;
            &&& after.acc == s.cpu.acc
            &&& after.sp == s.cpu.sp
            &&& flag(after.p, Flag::Zero) == (s.cpu.acc == 0)
            &&& flag(after.p, Flag::Negative) == (s.cpu.acc >> 7 == 1)
        }),
{
    reveal(State::operation);
    lemma_flags_everywhere();
    lemma_is_negative(s.cpu.acc);
}

/// A push of the status followed by a pull gives every flag and the stack
/// pointer back.
pub proof fn law_php_plp(s: State, f: Flag)
    requires
        s.bus.wf(),
    ensures
        ({
            let after = s.operation(Operation::Php).operation(Operation::Plp).cpu;
            &&& flag(after.p, f) == flag(s.cpu.p, f)
            &&& after.sp == s.cpu.sp
        }),
{
    reveal(State::operation);
    lemma_pushed_status(s.cpu.p, f);
    lemma_pulled_status(s.cpu.p, pushed_status(s.cpu.p), f);
}

/// A pull of the status takes neither Break nor the unused bit from the
/// stack.
pub proof fn law_plp_keeps_break(s: State)
    ensures
        flag(s.operation(Operation::Plp).cpu.p, Flag::Break) == flag(s.cpu.p, Flag::Break),
        flag(s.operation(Operation::Plp).cpu.p, Flag::Unused) == flag(s.cpu.p, Flag::Unused),
{
    reveal(State::operation);
    lemma_pulled_status(s.cpu.p, s.top(), Flag::Break);
    lemma_pulled_status(s.cpu.p, s.top(), Flag::Unused);
}

/// Two addresses lie on one page when they agree under the mask `0xFF00`.
proof fn lemma_page_bits(from: u16, to: u16)
    ensures
        ((from & 0xFF00) == (to & 0xFF00)) == !spec_page_crossed(from, to),
{
    assert(((from & 0xFF00) == (to & 0xFF00)) == ((from / 256) as u8 == (to / 256) as u8))
        by (bit_vector);
}

/// The stack grows downward in page one: a push writes to `0x0100 | sp` and
/// then steps the stack pointer down; a pop steps it up and then reads
/// `0x0100 | sp`.
pub proof fn law_stack(s: State, value: u8)
    ensures
        s.pushed(value).bus == s.bus.after_write(0x0100u16 | (s.cpu.sp as u16), value),
        s.pushed(value).cpu == (CPU { sp: s.cpu.sp.wrapping_sub(1), ..s.cpu }),
        s.top() == s.read(0x0100u16 | (s.cpu.sp.wrapping_add(1) as u16)),
        s.popped().cpu == (CPU { sp: s.cpu.sp.wrapping_add(1), ..s.cpu }),
        s.bus.wf() ==> s.pushed(value).top() == value && s.pushed(value).popped().cpu == s.cpu,
{
    lemma_stack_addr_bits(s.cpu.sp);
    lemma_stack_addr_bits(s.cpu.sp.wrapping_add(1));
}

/// No instruction changes Break or the unused bit of the status: an unused
/// bit that reads as one, as it does after a reset, reads as one after every
/// operation, after every instruction and after every tick.
pub proof fn law_unused_bit(s: State, op: Operation)
    ensures
        same_kept_bits(s.cpu.p, s.operation(op).cpu.p),
        same_kept_bits(s.cpu.p, s.execute().cpu.p),
        same_kept_bits(s.cpu.p, s.cycle().cpu.p),
        flag(s.cpu.reset_to(s.cpu.pc).p, Flag::Unused),
        !flag(s.cpu.reset_to(s.cpu.pc).p, Flag::Break),
{
    s.lemma_operation_preserves(op);
    s.lemma_execute_preserves();
    s.lemma_cycle_preserves();
    assert(0x24u8 & 0x20u8 != 0 && 0x24u8 & 0x10u8 == 0) by (bit_vector);
}

impl State {
    /// The address that an indexed addressing mode adds its index to, seen
    /// from the instruction's opcode: for the absolute modes the word after
    /// the opcode, for the indirect one the word that the byte after the
    /// opcode points to in page zero.
    pub open spec fn indexed_base(self, mode: AddressingMode) -> u16 {
        let s = self.past_opcode();
        match mode {
            AddressingMode::Idy => s.past_operand().zero_page_word(s.operand()),
            _ => s.operand_word(),
        }
    }

    /// The register that an indexed addressing mode adds.
    pub open spec fn index_of(self, mode: AddressingMode) -> u8 {
        match mode {
            AddressingMode::Abx => self.cpu.x,
            _ => self.cpu.y,
        }
    }
}

/// An instruction that indexes an address pays its base cost if the index
/// keeps the address on its page and one cycle more if it does not, provided
/// that the processor owes no penalty when the instruction begins, as after a
/// reset and after every instruction. One that stores pays its base cost
/// whatever the index does.
pub proof fn law_page_cross_timing(s: State, instr: Instruction)
    requires
        s.decoded() == Some(instr),
        instr.addressing == AddressingMode::Abx || instr.addressing == AddressingMode::Aby
            || instr.addressing == AddressingMode::Idy,
    ensures
        ({
            let base = s.indexed_base(instr.addressing);
            let effective = base.wrapping_add(s.index_of(instr.addressing) as u16);
            let same_page = (base & 0xFF00) == (effective & 0xFF00);
            let cost = s.execute().cpu.cycles_remaining;
            &&& s.execute().cpu.absolute_addr == effective
            &&& same_page == !spec_page_crossed(base, effective)
            &&& instr.action.spec_fixed_cost() ==> cost == instr.cycles
            &&& !instr.action.spec_fixed_cost() && s.cpu.additional_cycles == 0 ==> cost == (
            if same_page {
                instr.cycles as int
            } else {
                instr.cycles + 1
            })
        }),
{
    reveal(State::execute);
    lemma_instruction_set(s.opcode());
    let base = s.indexed_base(instr.addressing);
    let a = s.past_opcode().addressing(instr.addressing);
    assert(a.cpu.absolute_addr == base.wrapping_add(s.index_of(instr.addressing) as u16)
        && a.cpu.additional_cycles == (if spec_page_crossed(base, a.cpu.absolute_addr) {
        s.cpu.additional_cycles.wrapping_add(1)
    } else {
        s.cpu.additional_cycles
    })) by {
        reveal(State::addressing);
    }
    a.lemma_operation_preserves(instr.action);
    a.lemma_operation_target(instr.action);
    lemma_page_bits(base, a.cpu.absolute_addr);
}

/// A conditional branch that is not taken costs two cycles and goes on at the
/// next instruction. One that is taken costs three and goes on at the next
/// instruction plus the displacement, and costs four if that lies on another
/// page than the next instruction. The processor owes no penalty when the
/// instruction begins.
pub proof fn law_branch_timing(s: State, instr: Instruction)
    requires
        s.decoded() == Some(instr),
        branch_operation(instr.action) is Some,
        s.cpu.additional_cycles == 0,
    ensures
        ({
            let (tested, polarity) = branch_operation(instr.action)->0;
            let next = s.cpu.pc.wrapping_add(2);
            let target = next.wrapping_add_signed(spec_signed(s.past_opcode().operand()) as i16);
            let taken = flag(s.cpu.p, tested) == polarity;
            let after = s.execute().cpu;
            &&& !taken ==> after.cycles_remaining == 2 && after.pc == next
            &&& taken ==> after.pc == target
            &&& taken && !spec_page_crossed(target, next) ==> after.cycles_remaining == 3
            &&& taken && spec_page_crossed(target, next) ==> after.cycles_remaining == 4
        }),
{
    reveal(State::execute);
    lemma_instruction_set(s.opcode());
    let a = s.past_opcode().addressing(AddressingMode::Rel);
    assert(a == s.past_opcode().rel()) by {
        reveal(State::addressing);
    }
    reveal(State::operation);
}

/// An indirect jump reads the low byte of its target where the pointer
/// points and the high byte from the next address on the pointer's own page:
/// from the page's first byte when the pointer is its last. It costs five
/// cycles.
pub proof fn law_jmp_indirect(s: State)
    requires
        s.opcode() == 0x6C,
    ensures
        ({
            let ptr = s.past_opcode().operand_word();
            let high = (ptr & 0xFF00) | (ptr.wrapping_add(1) & 0x00FF);
            let after = s.past_opcode().past_operand_word();
            &&& State::indirect_high(ptr) == high
            &&& spec_lo_byte(ptr) == 0xFF ==> high == ptr - 0xFF
            &&& s.execute().cpu.pc == spec_word(after.read(ptr), after.read(high))
            &&& s.cpu.additional_cycles == 0 ==> s.execute().cpu.cycles_remaining == 5
        }),
{
    let ptr = s.past_opcode().operand_word();
    let next = ptr.wrapping_add(1);
    assert(next == (if ptr == 0xFFFF {
        0u16
    } else {
        (ptr + 1) as u16
    }));
    assert(((ptr / 256) as u8) * 256 + ((ptr % 256) as u8 + 1) % 256 == (ptr & 0xFF00) | (next
        & 0x00FF)) by (bit_vector)
        requires
            next == (if ptr == 0xFFFF {
                0u16
            } else {
                (ptr + 1) as u16
            }),
    ;
    reveal(State::execute);
    assert(s.past_opcode().addressing(AddressingMode::Ind) == s.past_opcode().ind()) by {
        reveal(State::addressing);
    }
    assert(s.past_opcode().ind().operation(Operation::Jmp) == s.past_opcode().ind().with_cpu(
        s.past_opcode().ind().cpu.jumped(),
    )) by {
        reveal(State::operation);
    }
}

/// What the call of a subroutine executes.
proof fn lemma_execute_jsr(s: State)
    requires
        s.opcode() == 0x20,
    ensures
        s.execute() == s.past_opcode().abs().jsr().charged(6),
{
    reveal(State::execute);
    assert(s.past_opcode().addressing(AddressingMode::Abs) == s.past_opcode().abs()) by {
        reveal(State::addressing);
    }
    assert(s.past_opcode().abs().operation(Operation::Jsr) == s.past_opcode().abs().jsr()) by {
        reveal(State::operation);
    }
}

/// What the return from a subroutine executes.
proof fn lemma_execute_rts(s: State)
    requires
        s.opcode() == 0x60,
    ensures
        s.execute() == s.past_opcode().imp().rts().charged(6),
{
    reveal(State::execute);
    assert(s.past_opcode().addressing(AddressingMode::Imp) == s.past_opcode().imp()) by {
        reveal(State::addressing);
    }
    assert(s.past_opcode().imp().operation(Operation::Rts) == s.past_opcode().imp().rts()) by {
        reveal(State::operation);
    }
}

/// A return that finds the stack as a call left it goes back to where the
/// call was made from.
proof fn lemma_call_return(caller: State, callee: State)
    requires
        caller.bus.wf(),
        callee.bus.ram == caller.jsr().bus.ram,
        callee.cpu.sp == caller.jsr().cpu.sp,
    ensures
        callee.rts().cpu.pc == caller.cpu.pc,
        callee.rts().cpu.sp == caller.cpu.sp,
{
    let back = caller.cpu.pc.wrapping_sub(1);
    lemma_word_of_halves(back);
    assert(callee.top() == spec_lo_byte(back));
    assert(callee.popped().top() == spec_hi_byte(back));
}

/// A call of a subroutine whose first instruction is a return comes back to
/// the instruction after the call, with the stack pointer where it was.
pub proof fn law_jsr_rts(s: State)
    requires
        s.bus.wf(),
        s.opcode() == 0x20,
        s.execute().opcode() == 0x60,
    ensures
        s.execute().cpu.pc == s.past_opcode().operand_word(),
        s.execute().execute().cpu.pc == s.cpu.pc.wrapping_add(3),
        s.execute().execute().cpu.sp == s.cpu.sp,
{
    lemma_execute_jsr(s);
    lemma_execute_rts(s.execute());
    lemma_call_return(s.past_opcode().abs(), s.execute().past_opcode().imp());
}

} // verus!
