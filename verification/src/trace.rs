//! The trace line of an instruction: where it stands, its bytes, its
//! mnemonic, its operand and the registers as it begins.
//!
//! A line reads `PPPP  BB BB BB  MMMM OPERAND` with the operand padded to
//! forty columns, then `A:AA X:XX Y:YY P:PP SP:SS CYC:N`. Numbers are in
//! upper-case hexadecimal, but for the tick count, which is decimal.

use vstd::prelude::*;
use vstd::string::*;
use crate::bus::Bus;
use crate::bytes::{hi_byte, lo_byte, word};
use crate::cpu::{machine, State, UnimplementedOpcode, CPU};
use crate::instructions::{instruction_set, AddressingMode, Instruction, Operation};
use crate::ppu::PPU;

verus! {

/// The width that the operand is padded to.
pub const OPERAND_WIDTH: usize = 40;

/// The character of a hexadecimal digit.
pub open spec fn spec_hex_digit(n: u8) -> char {
    match n {
        0 => '0',
        1 => '1',
        2 => '2',
        3 => '3',
        4 => '4',
        5 => '5',
        6 => '6',
        7 => '7',
        8 => '8',
        9 => '9',
        10 => 'A',
        11 => 'B',
        12 => 'C',
        13 => 'D',
        14 => 'E',
        _ => 'F',
    }
}

/// A byte as two hexadecimal digits.
pub open spec fn hex2(b: u8) -> Seq<char> {
    seq![spec_hex_digit(b / 16), spec_hex_digit(b % 16)]
}

/// A word as four hexadecimal digits.
pub open spec fn hex4(w: u16) -> Seq<char> {
    hex2(hi_byte(w)) + hex2(lo_byte(w))
}

/// A number in decimal, without leading zeros.
pub open spec fn decimal(n: nat) -> Seq<char>
    decreases n,
{
    if n < 10 {
        seq![spec_hex_digit(n as u8)]
    } else {
        decimal(n / 10).push(spec_hex_digit((n % 10) as u8))
    }
}

/// `count` blanks.
pub open spec fn blanks(count: nat) -> Seq<char> {
    Seq::new(count, |i: int| ' ')
}

/// A text padded with blanks on the right to `width` characters. A longer
/// text is left as it is.
pub open spec fn padded(text: Seq<char>, width: nat) -> Seq<char> {
    if text.len() >= width {
        text
    } else {
        text + blanks((width - text.len()) as nat)
    }
}

/// Whether the operation takes its operand's address as a place to go to.
pub open spec fn spec_is_jump(action: Operation) -> bool {
    action == Operation::Jmp || action == Operation::Jsr
}

impl State {
    /// The `i`-th byte of the instruction at the program counter.
    pub open spec fn instruction_byte(self, i: u16) -> u8 {
        self.read(self.cpu.pc.wrapping_add(i))
    }

    /// The word stored in page zero at `zp`, wrapping within the page.
    pub open spec fn page_zero_pointer(self, zp: u8) -> u16 {
        word(self.read(zp as u16), self.read(zp.wrapping_add(1) as u16))
    }

    /// The word that an indirect jump through `ptr` finds.
    pub open spec fn jump_pointer(self, ptr: u16) -> u16 {
        word(self.read(ptr), self.read(Self::indirect_high(ptr)))
    }

    /// The bytes of the instruction, each followed by a blank, in three
    /// columns of three characters.
    pub open spec fn bytes_field(self, length: u8) -> Seq<char> {
        (if length > 0 {
            hex2(self.instruction_byte(0)) + " "@
        } else {
            "   "@
        }) + (if length > 1 {
            hex2(self.instruction_byte(1)) + " "@
        } else {
            "   "@
        }) + (if length > 2 {
            hex2(self.instruction_byte(2)) + " "@
        } else {
            "   "@
        })
    }

    /// The operand as the addressing mode writes it.
    pub open spec fn operand_field(self, instr: Instruction) -> Seq<char> {
        let operand = self.instruction_byte(1);
        let address = word(operand, self.instruction_byte(2));
        match instr.addressing {
            AddressingMode::Imp => Seq::empty(),
            AddressingMode::Acc => "A"@,
            AddressingMode::Imm => "#$"@ + hex2(operand),
            AddressingMode::Zpg => "$"@ + hex2(operand) + " = "@ + hex2(self.read(operand as u16)),
            AddressingMode::Zpx => {
                let target = operand.wrapping_add(self.cpu.x);
                "$"@ + hex2(operand) + ",X @ $"@ + hex2(target) + " = "@ + hex2(
                    self.read(target as u16),
                )
            },
            AddressingMode::Zpy => {
                let target = operand.wrapping_add(self.cpu.y);
                "$"@ + hex2(operand) + ",Y @ $"@ + hex2(target) + " = "@ + hex2(
                    self.read(target as u16),
                )
            },
            AddressingMode::Abs => if spec_is_jump(instr.action) {
                "$"@ + hex4(address)
            } else {
                "$"@ + hex4(address) + " = "@ + hex2(self.read(address))
            },
            AddressingMode::Abx => "$"@ + hex4(address) + ",X @ $"@ + hex4(
                address.wrapping_add(self.cpu.x as u16),
            ),
            AddressingMode::Aby => "$"@ + hex4(address) + ",Y @ $"@ + hex4(
                address.wrapping_add(self.cpu.y as u16),
            ),
            AddressingMode::Ind => "($"@ + hex4(address) + ") = $"@ + hex4(
                self.jump_pointer(address),
            ),
            AddressingMode::Idx => {
                let pointer = operand.wrapping_add(self.cpu.x);
                let target = self.page_zero_pointer(pointer);
                "($"@ + hex2(operand) + ",X) @ "@ + hex2(pointer) + " = "@ + hex4(target) + " = "@
                    + hex2(self.read(target))
            },
            AddressingMode::Idy => {
                let base = self.page_zero_pointer(operand);
                let target = base.wrapping_add(self.cpu.y as u16);
                "($"@ + hex2(operand) + "),Y @ [$"@ + hex4(base) + " + Y] = $"@ + hex4(target)
                    + " = "@ + hex2(self.read(target))
            },
            AddressingMode::Rel => "$"@ + hex2(operand),
        }
    }

    /// The registers and the tick count.
    pub open spec fn registers_field(self) -> Seq<char> {
        "A:"@ + hex2(self.cpu.acc) + " X:"@ + hex2(self.cpu.x) + " Y:"@ + hex2(self.cpu.y)
            + " P:"@ + hex2(self.cpu.p) + " SP:"@ + hex2(self.cpu.sp) + " CYC:"@ + decimal(
            self.cpu.total_cycles as nat,
        )
    }

    /// The trace line of instruction `instr` at the program counter.
    pub open spec fn trace_of(self, instr: Instruction) -> Seq<char> {
        hex4(self.cpu.pc) + "  "@ + self.bytes_field(instr.length) + " "@ + instr.name@ + " "@
            + padded(self.operand_field(instr), OPERAND_WIDTH as nat) + self.registers_field()
    }

    /// The trace line of the instruction at the program counter, if the
    /// opcode there has one.
    pub open spec fn trace_line(self) -> Option<Seq<char>> {
        match self.decoded() {
            None => None,
            Some(instr) => Some(self.trace_of(instr)),
        }
    }
}

#[verifier::when_used_as_spec(spec_hex_digit)]
pub fn hex_digit(n: u8) -> (c: char)
    ensures
        c == spec_hex_digit(n),
{
    match n {
        0 => '0',
        1 => '1',
        2 => '2',
        3 => '3',
        4 => '4',
        5 => '5',
        6 => '6',
        7 => '7',
        8 => '8',
        9 => '9',
        10 => 'A',
        11 => 'B',
        12 => 'C',
        13 => 'D',
        14 => 'E',
        _ => 'F',
    }
}

#[verifier::when_used_as_spec(spec_is_jump)]
pub fn is_jump(action: Operation) -> (jump: bool)
    ensures
        jump == spec_is_jump(action),
{
    match action {
        Operation::Jmp | Operation::Jsr => true,
        _ => false,
    }
}

fn push_hex2(out: &mut String, b: u8)
    ensures
        final(out)@ == old(out)@ + hex2(b),
{
    out.push(hex_digit(b / 16));
    out.push(hex_digit(b % 16));
    assert(out@ =~= old(out)@ + hex2(b));
}

fn push_hex4(out: &mut String, w: u16)
    ensures
        final(out)@ == old(out)@ + hex4(w),
{
    push_hex2(out, hi_byte(w));
    push_hex2(out, lo_byte(w));
    assert(out@ =~= old(out)@ + hex4(w));
}

fn push_decimal(out: &mut String, n: u64)
    ensures
        final(out)@ == old(out)@ + decimal(n as nat),
    decreases n,
{
    if n < 10 {
        out.push(hex_digit(n as u8));
        assert(out@ =~= old(out)@ + decimal(n as nat));
    } else {
        push_decimal(out, n / 10);
        out.push(hex_digit((n % 10) as u8));
        assert(out@ =~= old(out)@ + decimal(n as nat));
    }
}

fn push_blanks(out: &mut String, count: usize)
    ensures
        final(out)@ == old(out)@ + blanks(count as nat),
{
    let mut done: usize = 0;
    while done < count
        invariant
            done <= count,
            out@ == old(out)@ + blanks(done as nat),
        decreases count - done,
    {
        out.push(' ');
        done = done + 1;
        assert(out@ =~= old(out)@ + blanks(done as nat));
    }
}

fn push_padded(out: &mut String, text: &str, width: usize)
    ensures
        final(out)@ == old(out)@ + padded(text@, width as nat),
{
    let len = text.unicode_len();
    out.append(text);
    if len < width {
        push_blanks(out, width - len);
    }
    assert(out@ =~= old(out)@ + padded(text@, width as nat));
}

fn push_bytes_field(out: &mut String, cpu: &CPU, bus: &Bus, ppu: &PPU, length: u8)
    ensures
        final(out)@ == old(out)@ + machine(*cpu, *bus, *ppu).bytes_field(length),
{
    if length > 0 {
        push_hex2(out, bus.peek(ppu, cpu.pc.wrapping_add(0)));
        out.append(" ");
    } else {
        out.append("   ");
    }
    if length > 1 {
        push_hex2(out, bus.peek(ppu, cpu.pc.wrapping_add(1)));
        out.append(" ");
    } else {
        out.append("   ");
    }
    if length > 2 {
        push_hex2(out, bus.peek(ppu, cpu.pc.wrapping_add(2)));
        out.append(" ");
    } else {
        out.append("   ");
    }
    assert(out@ =~= old(out)@ + machine(*cpu, *bus, *ppu).bytes_field(length));
}

fn peek_page_zero_pointer(bus: &Bus, ppu: &PPU, zp: u8) -> (pointer: u16)
    ensures
        pointer == word(bus@.peek(ppu@, zp as u16), bus@.peek(ppu@, zp.wrapping_add(1) as u16)),
{
    word(bus.peek(ppu, zp as u16), bus.peek(ppu, zp.wrapping_add(1) as u16))
}

fn operand_text(cpu: &CPU, bus: &Bus, ppu: &PPU, instr: &Instruction) -> (text: String)
    ensures
        text@ == machine(*cpu, *bus, *ppu).operand_field(*instr),
{
    let ghost s = machine(*cpu, *bus, *ppu);
    let operand = bus.peek(ppu, cpu.pc.wrapping_add(1));
    let address = word(operand, bus.peek(ppu, cpu.pc.wrapping_add(2)));
    let mut text = String::new();
    match instr.addressing {
        AddressingMode::Imp => {},
        AddressingMode::Acc => {
            text.append("A");
        },
        AddressingMode::Imm => {
            text.append("#$");
            push_hex2(&mut text, operand);
        },
        AddressingMode::Zpg => {
            text.append("$");
            push_hex2(&mut text, operand);
            text.append(" = ");
            push_hex2(&mut text, bus.peek(ppu, operand as u16));
        },
        AddressingMode::Zpx => {
            let target = operand.wrapping_add(cpu.x);
            text.append("$");
            push_hex2(&mut text, operand);
            text.append(",X @ $");
            push_hex2(&mut text, target);
            text.append(" = ");
            push_hex2(&mut text, bus.peek(ppu, target as u16));
        },
        AddressingMode::Zpy => {
            let target = operand.wrapping_add(cpu.y);
            text.append("$");
            push_hex2(&mut text, operand);
            text.append(",Y @ $");
            push_hex2(&mut text, target);
            text.append(" = ");
            push_hex2(&mut text, bus.peek(ppu, target as u16));
        },
        AddressingMode::Abs => {
            text.append("$");
            push_hex4(&mut text, address);
            if !is_jump(instr.action) {
                text.append(" = ");
                push_hex2(&mut text, bus.peek(ppu, address));
            }
        },
        AddressingMode::Abx => {
            text.append("$");
            push_hex4(&mut text, address);
            text.append(",X @ $");
            push_hex4(&mut text, address.wrapping_add(cpu.x as u16));
        },
        AddressingMode::Aby => {
            text.append("$");
            push_hex4(&mut text, address);
            text.append(",Y @ $");
            push_hex4(&mut text, address.wrapping_add(cpu.y as u16));
        },
        AddressingMode::Ind => {
            let target = word(
                bus.peek(ppu, address),
                bus.peek(ppu, word(lo_byte(address).wrapping_add(1), hi_byte(address))),
            );
            text.append("($");
            push_hex4(&mut text, address);
            text.append(") = $");
            push_hex4(&mut text, target);
        },
        AddressingMode::Idx => {
            let pointer = operand.wrapping_add(cpu.x);
            let target = peek_page_zero_pointer(bus, ppu, pointer);
            text.append("($");
            push_hex2(&mut text, operand);
            text.append(",X) @ ");
            push_hex2(&mut text, pointer);
            text.append(" = ");
            push_hex4(&mut text, target);
            text.append(" = ");
            push_hex2(&mut text, bus.peek(ppu, target));
        },
        AddressingMode::Idy => {
            let base = peek_page_zero_pointer(bus, ppu, operand);
            let target = base.wrapping_add(cpu.y as u16);
            text.append("($");
            push_hex2(&mut text, operand);
            text.append("),Y @ [$");
            push_hex4(&mut text, base);
            text.append(" + Y] = $");
            push_hex4(&mut text, target);
            text.append(" = ");
            push_hex2(&mut text, bus.peek(ppu, target));
        },
        AddressingMode::Rel => {
            text.append("$");
            push_hex2(&mut text, operand);
        },
    }
    assert(text@ =~= s.operand_field(*instr));
    text
}

fn push_registers_field(out: &mut String, cpu: &CPU, bus: &Bus, ppu: &PPU)
    ensures
        final(out)@ == old(out)@ + machine(*cpu, *bus, *ppu).registers_field(),
{
    out.append("A:");
    push_hex2(out, cpu.acc);
    out.append(" X:");
    push_hex2(out, cpu.x);
    out.append(" Y:");
    push_hex2(out, cpu.y);
    out.append(" P:");
    push_hex2(out, cpu.p);
    out.append(" SP:");
    push_hex2(out, cpu.sp);
    out.append(" CYC:");
    push_decimal(out, cpu.total_cycles);
    assert(out@ =~= old(out)@ + machine(*cpu, *bus, *ppu).registers_field());
}

impl CPU {
    /// The trace line of the instruction that the processor is about to
    /// execute, or nothing where the opcode has no instruction. The bus is
    /// only looked at: no read is counted and no device notices.
    pub fn trace_line(&self, bus: &Bus, ppu: &PPU) -> (line: Option<String>)
        ensures
            match line {
                Some(text) => machine(*self, *bus, *ppu).trace_line() == Some(text@),
                None => machine(*self, *bus, *ppu).trace_line() is None,
            },
    {
        let ghost s = machine(*self, *bus, *ppu);
        match instruction_set(bus.peek(ppu, self.pc)) {
            None => None,
            Some(instr) => {
                let mut out = String::new();
                push_hex4(&mut out, self.pc);
                out.append("  ");
                push_bytes_field(&mut out, self, bus, ppu, instr.length);
                out.append(" ");
                let name = instr.name.to_string();
                out.append(name.as_str());
                out.append(" ");
                let operand = operand_text(self, bus, ppu, &instr);
                push_padded(&mut out, operand.as_str(), OPERAND_WIDTH);
                push_registers_field(&mut out, self, bus, ppu);
                assert(out@ =~= s.trace_of(instr));
                Some(out)
            },
        }
    }

    /// Executes one whole instruction as `execute` does, and hands out its
    /// trace line, taken as the instruction begins.
    pub fn traced_execute(&mut self, bus: &mut Bus, ppu: &mut PPU) -> (r: Result<
        String,
        UnimplementedOpcode,
    >)
        ensures
            machine(*final(self), *final(bus), *final(ppu)) == machine(
                *old(self),
                *old(bus),
                *old(ppu),
            ).execute(),
            match r {
                Ok(line) => machine(*old(self), *old(bus), *old(ppu)).trace_line() == Some(line@),
                Err(e) => machine(*old(self), *old(bus), *old(ppu)).execute_result() == Err::<
                    (),
                    UnimplementedOpcode,
                >(e),
            },
    {
        let line = self.trace_line(bus, ppu);
        match self.execute(bus, ppu) {
            Err(e) => Err(e),
            Ok(_) => match line {
                Some(text) => Ok(text),
                None => vstd::pervasive::unreached(),
            },
        }
    }
}

} // verus!
