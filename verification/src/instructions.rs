//! The instruction set: what each of the 256 opcodes does, how it finds its
//! operand, what it costs and how it is called.

use vstd::prelude::*;
use crate::mnemonic::{mnemonic_text, Mnemonic};

verus! {

/// How an instruction finds its operand.
#[derive(Clone, Copy, PartialEq, Eq, Structural, Debug)]
pub enum AddressingMode {
    /// No operand.
    Imp,
    /// The operand is the accumulator.
    Acc,
    /// The operand is the byte after the opcode.
    Imm,
    /// A one-byte address in page zero.
    Zpg,
    /// Page zero, indexed by X.
    Zpx,
    /// Page zero, indexed by Y.
    Zpy,
    /// A two-byte address.
    Abs,
    /// A two-byte address, indexed by X.
    Abx,
    /// A two-byte address, indexed by Y.
    Aby,
    /// The address stored at a two-byte address.
    Ind,
    /// The address stored in page zero at the operand plus X.
    Idx,
    /// The address stored in page zero at the operand, plus Y.
    Idy,
    /// A signed displacement from the next instruction.
    Rel,
}

/// What an instruction does.
#[derive(Clone, Copy, PartialEq, Eq, Structural, Debug)]
pub enum Operation {
    /// Add with carry.
    Adc,
    /// Bitwise and with the accumulator.
    And,
    /// Shift left.
    Asl,
    /// Branch if Carry is clear.
    Bcc,
    /// Branch if Carry is set.
    Bcs,
    /// Branch if Zero is set.
    Beq,
    /// Test bits.
    Bit,
    /// Branch if Negative is set.
    Bmi,
    /// Branch if Zero is clear.
    Bne,
    /// Branch if Negative is clear.
    Bpl,
    /// Branch if Overflow is clear.
    Bvc,
    /// Branch if Overflow is set.
    Bvs,
    /// Clear Carry.
    Clc,
    /// Clear Decimal.
    Cld,
    /// Clear Interrupt.
    Cli,
    /// Clear Overflow.
    Clv,
    /// Compare with the accumulator.
    Cmp,
    /// Compare with X.
    Cpx,
    /// Compare with Y.
    Cpy,
    /// Decrement memory, then compare.
    Dcp,
    /// Decrement memory.
    Dec,
    /// Decrement X.
    Dex,
    /// Decrement Y.
    Dey,
    /// Exclusive or with the accumulator.
    Eor,
    /// Increment memory.
    Inc,
    /// Increment X.
    Inx,
    /// Increment Y.
    Iny,
    /// Increment memory, then subtract.
    Isc,
    /// Jump.
    Jmp,
    /// Jump to a subroutine.
    Jsr,
    /// Load the accumulator and X.
    Lax,
    /// Load the accumulator.
    Lda,
    /// Load X.
    Ldx,
    /// Load Y.
    Ldy,
    /// Shift right.
    Lsr,
    /// Do nothing.
    Nop,
    /// Bitwise or with the accumulator.
    Ora,
    /// Push the accumulator.
    Pha,
    /// Push the status.
    Php,
    /// Pull the accumulator.
    Pla,
    /// Pull the status.
    Plp,
    /// Rotate left, then and.
    Rla,
    /// Rotate left.
    Rol,
    /// Rotate right.
    Ror,
    /// Rotate right, then add.
    Rra,
    /// Return from an interrupt.
    Rti,
    /// Return from a subroutine.
    Rts,
    /// Store the accumulator and X, anded.
    Sax,
    /// Subtract with borrow.
    Sbc,
    /// Set Carry.
    Sec,
    /// Set Decimal.
    Sed,
    /// Set Interrupt.
    Sei,
    /// Shift left, then or.
    Slo,
    /// Shift right, then exclusive or.
    Sre,
    /// Store the accumulator.
    Sta,
    /// Store X.
    Stx,
    /// Store Y.
    Sty,
    /// Transfer the accumulator to X.
    Tax,
    /// Transfer the accumulator to Y.
    Tay,
    /// Transfer the stack pointer to X.
    Tsx,
    /// Transfer X to the accumulator.
    Txa,
    /// Transfer X to the stack pointer.
    Txs,
    /// Transfer Y to the accumulator.
    Tya,
}

/// One entry of the instruction set.
#[derive(Clone, Copy, PartialEq, Eq, Debug)]
pub struct Instruction {
    /// What the instruction does.
    pub action: Operation,
    /// How it finds its operand.
    pub addressing: AddressingMode,
    /// Its base cost in cycles.
    pub cycles: u8,
    /// Its length in bytes, the opcode included.
    pub length: u8,
    /// Its name in a trace line.
    pub name: Mnemonic,
    /// Whether the opcode lies outside the documented set.
    pub illegal: bool,
}

impl AddressingMode {
    /// The length in bytes of an instruction with this addressing mode.
    pub open spec fn spec_length(self) -> u8 {
        match self {
            AddressingMode::Imp => 1,
            AddressingMode::Acc => 1,
            AddressingMode::Imm => 2,
            AddressingMode::Zpg => 2,
            AddressingMode::Zpx => 2,
            AddressingMode::Zpy => 2,
            AddressingMode::Abs => 3,
            AddressingMode::Abx => 3,
            AddressingMode::Aby => 3,
            AddressingMode::Ind => 3,
            AddressingMode::Idx => 2,
            AddressingMode::Idy => 2,
            AddressingMode::Rel => 2,
        }
    }

    #[verifier::when_used_as_spec(spec_length)]
    pub fn length(self) -> (n: u8)
        ensures
            n == self.spec_length(),
    {
        match self {
            AddressingMode::Imp => 1,
            AddressingMode::Acc => 1,
            AddressingMode::Imm => 2,
            AddressingMode::Zpg => 2,
            AddressingMode::Zpx => 2,
            AddressingMode::Zpy => 2,
            AddressingMode::Abs => 3,
            AddressingMode::Abx => 3,
            AddressingMode::Aby => 3,
            AddressingMode::Ind => 3,
            AddressingMode::Idx => 2,
            AddressingMode::Idy => 2,
            AddressingMode::Rel => 2,
        }
    }
}

impl Operation {
    /// The three letters that name the operation.
    #[verifier::opaque]
    pub open spec fn spec_name(self) -> Seq<char> {
        match self {
            Operation::Adc => "ADC"@,
            Operation::And => "AND"@,
            Operation::Asl => "ASL"@,
            Operation::Bcc => "BCC"@,
            Operation::Bcs => "BCS"@,
            Operation::Beq => "BEQ"@,
            Operation::Bit => "BIT"@,
            Operation::Bmi => "BMI"@,
            Operation::Bne => "BNE"@,
            Operation::Bpl => "BPL"@,
            Operation::Bvc => "BVC"@,
            Operation::Bvs => "BVS"@,
            Operation::Clc => "CLC"@,
            Operation::Cld => "CLD"@,
            Operation::Cli => "CLI"@,
            Operation::Clv => "CLV"@,
            Operation::Cmp => "CMP"@,
            Operation::Cpx => "CPX"@,
            Operation::Cpy => "CPY"@,
            Operation::Dcp => "DCP"@,
            Operation::Dec => "DEC"@,
            Operation::Dex => "DEX"@,
            Operation::Dey => "DEY"@,
            Operation::Eor => "EOR"@,
            Operation::Inc => "INC"@,
            Operation::Inx => "INX"@,
            Operation::Iny => "INY"@,
            Operation::Isc => "ISC"@,
            Operation::Jmp => "JMP"@,
            Operation::Jsr => "JSR"@,
            Operation::Lax => "LAX"@,
            Operation::Lda => "LDA"@,
            Operation::Ldx => "LDX"@,
            Operation::Ldy => "LDY"@,
            Operation::Lsr => "LSR"@,
            Operation::Nop => "NOP"@,
            Operation::Ora => "ORA"@,
            Operation::Pha => "PHA"@,
            Operation::Php => "PHP"@,
            Operation::Pla => "PLA"@,
            Operation::Plp => "PLP"@,
            Operation::Rla => "RLA"@,
            Operation::Rol => "ROL"@,
            Operation::Ror => "ROR"@,
            Operation::Rra => "RRA"@,
            Operation::Rti => "RTI"@,
            Operation::Rts => "RTS"@,
            Operation::Sax => "SAX"@,
            Operation::Sbc => "SBC"@,
            Operation::Sec => "SEC"@,
            Operation::Sed => "SED"@,
            Operation::Sei => "SEI"@,
            Operation::Slo => "SLO"@,
            Operation::Sre => "SRE"@,
            Operation::Sta => "STA"@,
            Operation::Stx => "STX"@,
            Operation::Sty => "STY"@,
            Operation::Tax => "TAX"@,
            Operation::Tay => "TAY"@,
            Operation::Tsx => "TSX"@,
            Operation::Txa => "TXA"@,
            Operation::Txs => "TXS"@,
            Operation::Tya => "TYA"@,
        }
    }

    /// The three letters that name the operation.
    pub fn name(self) -> (s: &'static str)
        ensures
            s@ == self.spec_name(),
            s@.len() == 3,
    {
        proof {
            reveal(Operation::spec_name);
        }
        match self {
            Operation::Adc => {
                proof {
                    reveal_strlit("ADC");
                }
                "ADC"
            },
            Operation::And => {
                proof {
                    reveal_strlit("AND");
                }
                "AND"
            },
            Operation::Asl => {
                proof {
                    reveal_strlit("ASL");
                }
                "ASL"
            },
            Operation::Bcc => {
                proof {
                    reveal_strlit("BCC");
                }
                "BCC"
            },
            Operation::Bcs => {
                proof {
                    reveal_strlit("BCS");
                }
                "BCS"
            },
            Operation::Beq => {
                proof {
                    reveal_strlit("BEQ");
                }
                "BEQ"
            },
            Operation::Bit => {
                proof {
                    reveal_strlit("BIT");
                }
                "BIT"
            },
            Operation::Bmi => {
                proof {
                    reveal_strlit("BMI");
                }
                "BMI"
            },
            Operation::Bne => {
                proof {
                    reveal_strlit("BNE");
                }
                "BNE"
            },
            Operation::Bpl => {
                proof {
                    reveal_strlit("BPL");
                }
                "BPL"
            },
            Operation::Bvc => {
                proof {
                    reveal_strlit("BVC");
                }
                "BVC"
            },
            Operation::Bvs => {
                proof {
                    reveal_strlit("BVS");
                }
                "BVS"
            },
            Operation::Clc => {
                proof {
                    reveal_strlit("CLC");
                }
                "CLC"
            },
            Operation::Cld => {
                proof {
                    reveal_strlit("CLD");
                }
                "CLD"
            },
            Operation::Cli => {
                proof {
                    reveal_strlit("CLI");
                }
                "CLI"
            },
            Operation::Clv => {
                proof {
                    reveal_strlit("CLV");
                }
                "CLV"
            },
            Operation::Cmp => {
                proof {
                    reveal_strlit("CMP");
                }
                "CMP"
            },
            Operation::Cpx => {
                proof {
                    reveal_strlit("CPX");
                }
                "CPX"
            },
            Operation::Cpy => {
                proof {
                    reveal_strlit("CPY");
                }
                "CPY"
            },
            Operation::Dcp => {
                proof {
                    reveal_strlit("DCP");
                }
                "DCP"
            },
            Operation::Dec => {
                proof {
                    reveal_strlit("DEC");
                }
                "DEC"
            },
            Operation::Dex => {
                proof {
                    reveal_strlit("DEX");
                }
                "DEX"
            },
            Operation::Dey => {
                proof {
                    reveal_strlit("DEY");
                }
                "DEY"
            },
            Operation::Eor => {
                proof {
                    reveal_strlit("EOR");
                }
                "EOR"
            },
            Operation::Inc => {
                proof {
                    reveal_strlit("INC");
                }
                "INC"
            },
            Operation::Inx => {
                proof {
                    reveal_strlit("INX");
                }
                "INX"
            },
            Operation::Iny => {
                proof {
                    reveal_strlit("INY");
                }
                "INY"
            },
            Operation::Isc => {
                proof {
                    reveal_strlit("ISC");
                }
                "ISC"
            },
            Operation::Jmp => {
                proof {
                    reveal_strlit("JMP");
                }
                "JMP"
            },
            Operation::Jsr => {
                proof {
                    reveal_strlit("JSR");
                }
                "JSR"
            },
            Operation::Lax => {
                proof {
                    reveal_strlit("LAX");
                }
                "LAX"
            },
            Operation::Lda => {
                proof {
                    reveal_strlit("LDA");
                }
                "LDA"
            },
            Operation::Ldx => {
                proof {
                    reveal_strlit("LDX");
                }
                "LDX"
            },
            Operation::Ldy => {
                proof {
                    reveal_strlit("LDY");
                }
                "LDY"
            },
            Operation::Lsr => {
                proof {
                    reveal_strlit("LSR");
                }
                "LSR"
            },
            Operation::Nop => {
                proof {
                    reveal_strlit("NOP");
                }
                "NOP"
            },
            Operation::Ora => {
                proof {
                    reveal_strlit("ORA");
                }
                "ORA"
            },
            Operation::Pha => {
                proof {
                    reveal_strlit("PHA");
                }
                "PHA"
            },
            Operation::Php => {
                proof {
                    reveal_strlit("PHP");
                }
                "PHP"
            },
            Operation::Pla => {
                proof {
                    reveal_strlit("PLA");
                }
                "PLA"
            },
            Operation::Plp => {
                proof {
                    reveal_strlit("PLP");
                }
                "PLP"
            },
            Operation::Rla => {
                proof {
                    reveal_strlit("RLA");
                }
                "RLA"
            },
            Operation::Rol => {
                proof {
                    reveal_strlit("ROL");
                }
                "ROL"
            },
            Operation::Ror => {
                proof {
                    reveal_strlit("ROR");
                }
                "ROR"
            },
            Operation::Rra => {
                proof {
                    reveal_strlit("RRA");
                }
                "RRA"
            },
            Operation::Rti => {
                proof {
                    reveal_strlit("RTI");
                }
                "RTI"
            },
            Operation::Rts => {
                proof {
                    reveal_strlit("RTS");
                }
                "RTS"
            },
            Operation::Sax => {
                proof {
                    reveal_strlit("SAX");
                }
                "SAX"
            },
            Operation::Sbc => {
                proof {
                    reveal_strlit("SBC");
                }
                "SBC"
            },
            Operation::Sec => {
                proof {
                    reveal_strlit("SEC");
                }
                "SEC"
            },
            Operation::Sed => {
                proof {
                    reveal_strlit("SED");
                }
                "SED"
            },
            Operation::Sei => {
                proof {
                    reveal_strlit("SEI");
                }
                "SEI"
            },
            Operation::Slo => {
                proof {
                    reveal_strlit("SLO");
                }
                "SLO"
            },
            Operation::Sre => {
                proof {
                    reveal_strlit("SRE");
                }
                "SRE"
            },
            Operation::Sta => {
                proof {
                    reveal_strlit("STA");
                }
                "STA"
            },
            Operation::Stx => {
                proof {
                    reveal_strlit("STX");
                }
                "STX"
            },
            Operation::Sty => {
                proof {
                    reveal_strlit("STY");
                }
                "STY"
            },
            Operation::Tax => {
                proof {
                    reveal_strlit("TAX");
                }
                "TAX"
            },
            Operation::Tay => {
                proof {
                    reveal_strlit("TAY");
                }
                "TAY"
            },
            Operation::Tsx => {
                proof {
                    reveal_strlit("TSX");
                }
                "TSX"
            },
            Operation::Txa => {
                proof {
                    reveal_strlit("TXA");
                }
                "TXA"
            },
            Operation::Txs => {
                proof {
                    reveal_strlit("TXS");
                }
                "TXS"
            },
            Operation::Tya => {
                proof {
                    reveal_strlit("TYA");
                }
                "TYA"
            },
        }
    }

    /// Whether the operation is a conditional branch.
    pub open spec fn spec_is_branch(self) -> bool {
        match self {
            Operation::Bcc
            | Operation::Bcs
            | Operation::Bne
            | Operation::Beq
            | Operation::Bpl
            | Operation::Bmi
            | Operation::Bvc
            | Operation::Bvs => true,
            _ => false,
        }
    }

    /// Whether the operation always pays its fixed cost: what the addressing
    /// mode charged for a crossed page is dropped.
    pub open spec fn spec_fixed_cost(self) -> bool {
        match self {
            Operation::Sta
            | Operation::Stx
            | Operation::Sty
            | Operation::Sax
            | Operation::Dcp
            | Operation::Isc
            | Operation::Slo
            | Operation::Rla
            | Operation::Sre
            | Operation::Rra => true,
            _ => false,
        }
    }
}

/// An entry of the instruction set: the length follows from the addressing
/// mode and the name from the operation.
pub open spec fn spec_instr(
    action: Operation,
    addressing: AddressingMode,
    cycles: u8,
    illegal: bool,
) -> Option<Instruction> {
    Some(
        Instruction {
            action,
            addressing,
            cycles,
            length: addressing.length(),
            name: Mnemonic::spec_new(action.spec_name(), illegal),
            illegal,
        },
    )
}

#[verifier::when_used_as_spec(spec_instr)]
pub fn instr(action: Operation, addressing: AddressingMode, cycles: u8, illegal: bool) -> (r:
    Option<Instruction>)
    ensures
        r == spec_instr(action, addressing, cycles, illegal),
{
    Some(
        Instruction {
            action,
            addressing,
            cycles,
            length: addressing.length(),
            name: Mnemonic::new(action.name(), illegal),
            illegal,
        },
    )
}

/// The opcodes `0x00..=0x0F`.
pub open spec fn spec_row_0(opcode: u8) -> Option<Instruction> {
    match opcode {
        0x01 => instr(Operation::Ora, AddressingMode::Idx, 6, false),
        0x03 => instr(Operation::Slo, AddressingMode::Idx, 8, true),
        0x04 => instr(Operation::Nop, AddressingMode::Zpg, 3, true),
        0x05 => instr(Operation::Ora, AddressingMode::Zpg, 3, false),
        0x06 => instr(Operation::Asl, AddressingMode::Zpg, 5, false),
        0x07 => instr(Operation::Slo, AddressingMode::Zpg, 5, true),
        0x08 => instr(Operation::Php, AddressingMode::Imp, 3, false),
        0x09 => instr(Operation::Ora, AddressingMode::Imm, 2, false),
        0x0A => instr(Operation::Asl, AddressingMode::Acc, 2, false),
        0x0C => instr(Operation::Nop, AddressingMode::Abs, 4, true),
        0x0D => instr(Operation::Ora, AddressingMode::Abs, 4, false),
        0x0E => instr(Operation::Asl, AddressingMode::Abs, 6, false),
        0x0F => instr(Operation::Slo, AddressingMode::Abs, 6, true),
        _ => None,
    }
}

#[verifier::when_used_as_spec(spec_row_0)]
fn row_0(opcode: u8) -> (r: Option<Instruction>)
    ensures
        r == spec_row_0(opcode),
{
    match opcode {
        0x01 => instr(Operation::Ora, AddressingMode::Idx, 6, false),
        0x03 => instr(Operation::Slo, AddressingMode::Idx, 8, true),
        0x04 => instr(Operation::Nop, AddressingMode::Zpg, 3, true),
        0x05 => instr(Operation::Ora, AddressingMode::Zpg, 3, false),
        0x06 => instr(Operation::Asl, AddressingMode::Zpg, 5, false),
        0x07 => instr(Operation::Slo, AddressingMode::Zpg, 5, true),
        0x08 => instr(Operation::Php, AddressingMode::Imp, 3, false),
        0x09 => instr(Operation::Ora, AddressingMode::Imm, 2, false),
        0x0A => instr(Operation::Asl, AddressingMode::Acc, 2, false),
        0x0C => instr(Operation::Nop, AddressingMode::Abs, 4, true),
        0x0D => instr(Operation::Ora, AddressingMode::Abs, 4, false),
        0x0E => instr(Operation::Asl, AddressingMode::Abs, 6, false),
        0x0F => instr(Operation::Slo, AddressingMode::Abs, 6, true),
        _ => None,
    }
}

/// The opcodes `0x10..=0x1F`.
pub open spec fn spec_row_1(opcode: u8) -> Option<Instruction> {
    match opcode {
        0x10 => instr(Operation::Bpl, AddressingMode::Rel, 2, false),
        0x11 => instr(Operation::Ora, AddressingMode::Idy, 5, false),
        0x13 => instr(Operation::Slo, AddressingMode::Idy, 8, true),
        0x14 => instr(Operation::Nop, AddressingMode::Zpx, 4, true),
        0x15 => instr(Operation::Ora, AddressingMode::Zpx, 4, false),
        0x16 => instr(Operation::Asl, AddressingMode::Zpx, 6, false),
        0x17 => instr(Operation::Slo, AddressingMode::Zpx, 6, true),
        0x18 => instr(Operation::Clc, AddressingMode::Imp, 2, false),
        0x19 => instr(Operation::Ora, AddressingMode::Aby, 4, false),
        0x1A => instr(Operation::Nop, AddressingMode::Imp, 2, true),
        0x1B => instr(Operation::Slo, AddressingMode::Aby, 7, true),
        0x1C => instr(Operation::Nop, AddressingMode::Abx, 4, true),
        0x1D => instr(Operation::Ora, AddressingMode::Abx, 4, false),
        0x1E => instr(Operation::Asl, AddressingMode::Abx, 7, false),
        0x1F => instr(Operation::Slo, AddressingMode::Abx, 7, true),
        _ => None,
    }
}

#[verifier::when_used_as_spec(spec_row_1)]
fn row_1(opcode: u8) -> (r: Option<Instruction>)
    ensures
        r == spec_row_1(opcode),
{
    match opcode {
        0x10 => instr(Operation::Bpl, AddressingMode::Rel, 2, false),
        0x11 => instr(Operation::Ora, AddressingMode::Idy, 5, false),
        0x13 => instr(Operation::Slo, AddressingMode::Idy, 8, true),
        0x14 => instr(Operation::Nop, AddressingMode::Zpx, 4, true),
        0x15 => instr(Operation::Ora, AddressingMode::Zpx, 4, false),
        0x16 => instr(Operation::Asl, AddressingMode::Zpx, 6, false),
        0x17 => instr(Operation::Slo, AddressingMode::Zpx, 6, true),
        0x18 => instr(Operation::Clc, AddressingMode::Imp, 2, false),
        0x19 => instr(Operation::Ora, AddressingMode::Aby, 4, false),
        0x1A => instr(Operation::Nop, AddressingMode::Imp, 2, true),
        0x1B => instr(Operation::Slo, AddressingMode::Aby, 7, true),
        0x1C => instr(Operation::Nop, AddressingMode::Abx, 4, true),
        0x1D => instr(Operation::Ora, AddressingMode::Abx, 4, false),
        0x1E => instr(Operation::Asl, AddressingMode::Abx, 7, false),
        0x1F => instr(Operation::Slo, AddressingMode::Abx, 7, true),
        _ => None,
    }
}

/// The opcodes `0x20..=0x2F`.
pub open spec fn spec_row_2(opcode: u8) -> Option<Instruction> {
    match opcode {
        0x20 => instr(Operation::Jsr, AddressingMode::Abs, 6, false),
        0x21 => instr(Operation::And, AddressingMode::Idx, 6, false),
        0x23 => instr(Operation::Rla, AddressingMode::Idx, 8, true),
        0x24 => instr(Operation::Bit, AddressingMode::Zpg, 3, false),
        0x25 => instr(Operation::And, AddressingMode::Zpg, 3, false),
        0x26 => instr(Operation::Rol, AddressingMode::Zpg, 5, false),
        0x27 => instr(Operation::Rla, AddressingMode::Zpg, 5, true),
        0x28 => instr(Operation::Plp, AddressingMode::Imp, 4, false),
        0x29 => instr(Operation::And, AddressingMode::Imm, 2, false),
        0x2A => instr(Operation::Rol, AddressingMode::Acc, 2, false),
        0x2C => instr(Operation::Bit, AddressingMode::Abs, 4, false),
        0x2D => instr(Operation::And, AddressingMode::Abs, 4, false),
        0x2E => instr(Operation::Rol, AddressingMode::Abs, 6, false),
        0x2F => instr(Operation::Rla, AddressingMode::Abs, 6, true),
        _ => None,
    }
}

#[verifier::when_used_as_spec(spec_row_2)]
fn row_2(opcode: u8) -> (r: Option<Instruction>)
    ensures
        r == spec_row_2(opcode),
{
    match opcode {
        0x20 => instr(Operation::Jsr, AddressingMode::Abs, 6, false),
        0x21 => instr(Operation::And, AddressingMode::Idx, 6, false),
        0x23 => instr(Operation::Rla, AddressingMode::Idx, 8, true),
        0x24 => instr(Operation::Bit, AddressingMode::Zpg, 3, false),
        0x25 => instr(Operation::And, AddressingMode::Zpg, 3, false),
        0x26 => instr(Operation::Rol, AddressingMode::Zpg, 5, false),
        0x27 => instr(Operation::Rla, AddressingMode::Zpg, 5, true),
        0x28 => instr(Operation::Plp, AddressingMode::Imp, 4, false),
        0x29 => instr(Operation::And, AddressingMode::Imm, 2, false),
        0x2A => instr(Operation::Rol, AddressingMode::Acc, 2, false),
        0x2C => instr(Operation::Bit, AddressingMode::Abs, 4, false),
        0x2D => instr(Operation::And, AddressingMode::Abs, 4, false),
        0x2E => instr(Operation::Rol, AddressingMode::Abs, 6, false),
        0x2F => instr(Operation::Rla, AddressingMode::Abs, 6, true),
        _ => None,
    }
}

/// The opcodes `0x30..=0x3F`.
pub open spec fn spec_row_3(opcode: u8) -> Option<Instruction> {
    match opcode {
        0x30 => instr(Operation::Bmi, AddressingMode::Rel, 2, false),
        0x31 => instr(Operation::And, AddressingMode::Idy, 5, false),
        0x33 => instr(Operation::Rla, AddressingMode::Idy, 8, true),
        0x34 => instr(Operation::Nop, AddressingMode::Zpx, 4, true),
        0x35 => instr(Operation::And, AddressingMode::Zpx, 4, false),
        0x36 => instr(Operation::Rol, AddressingMode::Zpx, 6, false),
        0x37 => instr(Operation::Rla, AddressingMode::Zpx, 6, true),
        0x38 => instr(Operation::Sec, AddressingMode::Imp, 2, false),
        0x39 => instr(Operation::And, AddressingMode::Aby, 4, false),
        0x3A => instr(Operation::Nop, AddressingMode::Imp, 2, true),
        0x3B => instr(Operation::Rla, AddressingMode::Aby, 7, true),
        0x3C => instr(Operation::Nop, AddressingMode::Abx, 4, true),
        0x3D => instr(Operation::And, AddressingMode::Abx, 4, false),
        0x3E => instr(Operation::Rol, AddressingMode::Abx, 7, false),
        0x3F => instr(Operation::Rla, AddressingMode::Abx, 7, true),
        _ => None,
    }
}

#[verifier::when_used_as_spec(spec_row_3)]
fn row_3(opcode: u8) -> (r: Option<Instruction>)
    ensures
        r == spec_row_3(opcode),
{
    match opcode {
        0x30 => instr(Operation::Bmi, AddressingMode::Rel, 2, false),
        0x31 => instr(Operation::And, AddressingMode::Idy, 5, false),
        0x33 => instr(Operation::Rla, AddressingMode::Idy, 8, true),
        0x34 => instr(Operation::Nop, AddressingMode::Zpx, 4, true),
        0x35 => instr(Operation::And, AddressingMode::Zpx, 4, false),
        0x36 => instr(Operation::Rol, AddressingMode::Zpx, 6, false),
        0x37 => instr(Operation::Rla, AddressingMode::Zpx, 6, true),
        0x38 => instr(Operation::Sec, AddressingMode::Imp, 2, false),
        0x39 => instr(Operation::And, AddressingMode::Aby, 4, false),
        0x3A => instr(Operation::Nop, AddressingMode::Imp, 2, true),
        0x3B => instr(Operation::Rla, AddressingMode::Aby, 7, true),
        0x3C => instr(Operation::Nop, AddressingMode::Abx, 4, true),
        0x3D => instr(Operation::And, AddressingMode::Abx, 4, false),
        0x3E => instr(Operation::Rol, AddressingMode::Abx, 7, false),
        0x3F => instr(Operation::Rla, AddressingMode::Abx, 7, true),
        _ => None,
    }
}

/// The opcodes `0x40..=0x4F`.
pub open spec fn spec_row_4(opcode: u8) -> Option<Instruction> {
    match opcode {
        0x40 => instr(Operation::Rti, AddressingMode::Imp, 6, false),
        0x41 => instr(Operation::Eor, AddressingMode::Idx, 6, false),
        0x43 => instr(Operation::Sre, AddressingMode::Idx, 8, true),
        0x44 => instr(Operation::Nop, AddressingMode::Zpg, 3, true),
        0x45 => instr(Operation::Eor, AddressingMode::Zpg, 3, false),
        0x46 => instr(Operation::Lsr, AddressingMode::Zpg, 5, false),
        0x47 => instr(Operation::Sre, AddressingMode::Zpg, 5, true),
        0x48 => instr(Operation::Pha, AddressingMode::Imp, 3, false),
        0x49 => instr(Operation::Eor, AddressingMode::Imm, 2, false),
        0x4A => instr(Operation::Lsr, AddressingMode::Acc, 2, false),
        0x4C => instr(Operation::Jmp, AddressingMode::Abs, 3, false),
        0x4D => instr(Operation::Eor, AddressingMode::Abs, 4, false),
        0x4E => instr(Operation::Lsr, AddressingMode::Abs, 6, false),
        0x4F => instr(Operation::Sre, AddressingMode::Abs, 6, true),
        _ => None,
    }
}

#[verifier::when_used_as_spec(spec_row_4)]
fn row_4(opcode: u8) -> (r: Option<Instruction>)
    ensures
        r == spec_row_4(opcode),
{
    match opcode {
        0x40 => instr(Operation::Rti, AddressingMode::Imp, 6, false),
        0x41 => instr(Operation::Eor, AddressingMode::Idx, 6, false),
        0x43 => instr(Operation::Sre, AddressingMode::Idx, 8, true),
        0x44 => instr(Operation::Nop, AddressingMode::Zpg, 3, true),
        0x45 => instr(Operation::Eor, AddressingMode::Zpg, 3, false),
        0x46 => instr(Operation::Lsr, AddressingMode::Zpg, 5, false),
        0x47 => instr(Operation::Sre, AddressingMode::Zpg, 5, true),
        0x48 => instr(Operation::Pha, AddressingMode::Imp, 3, false),
        0x49 => instr(Operation::Eor, AddressingMode::Imm, 2, false),
        0x4A => instr(Operation::Lsr, AddressingMode::Acc, 2, false),
        0x4C => instr(Operation::Jmp, AddressingMode::Abs, 3, false),
        0x4D => instr(Operation::Eor, AddressingMode::Abs, 4, false),
        0x4E => instr(Operation::Lsr, AddressingMode::Abs, 6, false),
        0x4F => instr(Operation::Sre, AddressingMode::Abs, 6, true),
        _ => None,
    }
}

/// The opcodes `0x50..=0x5F`.
pub open spec fn spec_row_5(opcode: u8) -> Option<Instruction> {
    match opcode {
        0x50 => instr(Operation::Bvc, AddressingMode::Rel, 2, false),
        0x51 => instr(Operation::Eor, AddressingMode::Idy, 5, false),
        0x53 => instr(Operation::Sre, AddressingMode::Idy, 8, true),
        0x54 => instr(Operation::Nop, AddressingMode::Zpx, 4, true),
        0x55 => instr(Operation::Eor, AddressingMode::Zpx, 4, false),
        0x56 => instr(Operation::Lsr, AddressingMode::Zpx, 6, false),
        0x57 => instr(Operation::Sre, AddressingMode::Zpx, 6, true),
        0x58 => instr(Operation::Cli, AddressingMode::Imp, 2, false),
        0x59 => instr(Operation::Eor, AddressingMode::Aby, 4, false),
        0x5A => instr(Operation::Nop, AddressingMode::Imp, 2, true),
        0x5B => instr(Operation::Sre, AddressingMode::Aby, 7, true),
        0x5C => instr(Operation::Nop, AddressingMode::Abx, 4, true),
        0x5D => instr(Operation::Eor, AddressingMode::Abx, 4, false),
        0x5E => instr(Operation::Lsr, AddressingMode::Abx, 7, false),
        0x5F => instr(Operation::Sre, AddressingMode::Abx, 7, true),
        _ => None,
    }
}

#[verifier::when_used_as_spec(spec_row_5)]
fn row_5(opcode: u8) -> (r: Option<Instruction>)
    ensures
        r == spec_row_5(opcode),
{
    match opcode {
        0x50 => instr(Operation::Bvc, AddressingMode::Rel, 2, false),
        0x51 => instr(Operation::Eor, AddressingMode::Idy, 5, false),
        0x53 => instr(Operation::Sre, AddressingMode::Idy, 8, true),
        0x54 => instr(Operation::Nop, AddressingMode::Zpx, 4, true),
        0x55 => instr(Operation::Eor, AddressingMode::Zpx, 4, false),
        0x56 => instr(Operation::Lsr, AddressingMode::Zpx, 6, false),
        0x57 => instr(Operation::Sre, AddressingMode::Zpx, 6, true),
        0x58 => instr(Operation::Cli, AddressingMode::Imp, 2, false),
        0x59 => instr(Operation::Eor, AddressingMode::Aby, 4, false),
        0x5A => instr(Operation::Nop, AddressingMode::Imp, 2, true),
        0x5B => instr(Operation::Sre, AddressingMode::Aby, 7, true),
        0x5C => instr(Operation::Nop, AddressingMode::Abx, 4, true),
        0x5D => instr(Operation::Eor, AddressingMode::Abx, 4, false),
        0x5E => instr(Operation::Lsr, AddressingMode::Abx, 7, false),
        0x5F => instr(Operation::Sre, AddressingMode::Abx, 7, true),
        _ => None,
    }
}

/// The opcodes `0x60..=0x6F`.
pub open spec fn spec_row_6(opcode: u8) -> Option<Instruction> {
    match opcode {
        0x60 => instr(Operation::Rts, AddressingMode::Imp, 6, false),
        0x61 => instr(Operation::Adc, AddressingMode::Idx, 6, false),
        0x63 => instr(Operation::Rra, AddressingMode::Idx, 8, true),
        0x64 => instr(Operation::Nop, AddressingMode::Zpg, 3, true),
        0x65 => instr(Operation::Adc, AddressingMode::Zpg, 3, false),
        0x66 => instr(Operation::Ror, AddressingMode::Zpg, 5, false),
        0x67 => instr(Operation::Rra, AddressingMode::Zpg, 5, true),
        0x68 => instr(Operation::Pla, AddressingMode::Imp, 4, false),
        0x69 => instr(Operation::Adc, AddressingMode::Imm, 2, false),
        0x6A => instr(Operation::Ror, AddressingMode::Acc, 2, false),
        0x6C => instr(Operation::Jmp, AddressingMode::Ind, 5, false),
        0x6D => instr(Operation::Adc, AddressingMode::Abs, 4, false),
        0x6E => instr(Operation::Ror, AddressingMode::Abs, 6, false),
        0x6F => instr(Operation::Rra, AddressingMode::Abs, 6, true),
        _ => None,
    }
}

#[verifier::when_used_as_spec(spec_row_6)]
fn row_6(opcode: u8) -> (r: Option<Instruction>)
    ensures
        r == spec_row_6(opcode),
{
    match opcode {
        0x60 => instr(Operation::Rts, AddressingMode::Imp, 6, false),
        0x61 => instr(Operation::Adc, AddressingMode::Idx, 6, false),
        0x63 => instr(Operation::Rra, AddressingMode::Idx, 8, true),
        0x64 => instr(Operation::Nop, AddressingMode::Zpg, 3, true),
        0x65 => instr(Operation::Adc, AddressingMode::Zpg, 3, false),
        0x66 => instr(Operation::Ror, AddressingMode::Zpg, 5, false),
        0x67 => instr(Operation::Rra, AddressingMode::Zpg, 5, true),
        0x68 => instr(Operation::Pla, AddressingMode::Imp, 4, false),
        0x69 => instr(Operation::Adc, AddressingMode::Imm, 2, false),
        0x6A => instr(Operation::Ror, AddressingMode::Acc, 2, false),
        0x6C => instr(Operation::Jmp, AddressingMode::Ind, 5, false),
        0x6D => instr(Operation::Adc, AddressingMode::Abs, 4, false),
        0x6E => instr(Operation::Ror, AddressingMode::Abs, 6, false),
        0x6F => instr(Operation::Rra, AddressingMode::Abs, 6, true),
        _ => None,
    }
}

/// The opcodes `0x70..=0x7F`.
pub open spec fn spec_row_7(opcode: u8) -> Option<Instruction> {
    match opcode {
        0x70 => instr(Operation::Bvs, AddressingMode::Rel, 2, false),
        0x71 => instr(Operation::Adc, AddressingMode::Idy, 5, false),
        0x73 => instr(Operation::Rra, AddressingMode::Idy, 8, true),
        0x74 => instr(Operation::Nop, AddressingMode::Zpx, 4, true),
        0x75 => instr(Operation::Adc, AddressingMode::Zpx, 4, false),
        0x76 => instr(Operation::Ror, AddressingMode::Zpx, 6, false),
        0x77 => instr(Operation::Rra, AddressingMode::Zpx, 6, true),
        0x78 => instr(Operation::Sei, AddressingMode::Imp, 2, false),
        0x79 => instr(Operation::Adc, AddressingMode::Aby, 4, false),
        0x7A => instr(Operation::Nop, AddressingMode::Imp, 2, true),
        0x7B => instr(Operation::Rra, AddressingMode::Aby, 7, true),
        0x7C => instr(Operation::Nop, AddressingMode::Abx, 4, true),
        0x7D => instr(Operation::Adc, AddressingMode::Abx, 4, false),
        0x7E => instr(Operation::Ror, AddressingMode::Abx, 7, false),
        0x7F => instr(Operation::Rra, AddressingMode::Abx, 7, true),
        _ => None,
    }
}

#[verifier::when_used_as_spec(spec_row_7)]
fn row_7(opcode: u8) -> (r: Option<Instruction>)
    ensures
        r == spec_row_7(opcode),
{
    match opcode {
        0x70 => instr(Operation::Bvs, AddressingMode::Rel, 2, false),
        0x71 => instr(Operation::Adc, AddressingMode::Idy, 5, false),
        0x73 => instr(Operation::Rra, AddressingMode::Idy, 8, true),
        0x74 => instr(Operation::Nop, AddressingMode::Zpx, 4, true),
        0x75 => instr(Operation::Adc, AddressingMode::Zpx, 4, false),
        0x76 => instr(Operation::Ror, AddressingMode::Zpx, 6, false),
        0x77 => instr(Operation::Rra, AddressingMode::Zpx, 6, true),
        0x78 => instr(Operation::Sei, AddressingMode::Imp, 2, false),
        0x79 => instr(Operation::Adc, AddressingMode::Aby, 4, false),
        0x7A => instr(Operation::Nop, AddressingMode::Imp, 2, true),
        0x7B => instr(Operation::Rra, AddressingMode::Aby, 7, true),
        0x7C => instr(Operation::Nop, AddressingMode::Abx, 4, true),
        0x7D => instr(Operation::Adc, AddressingMode::Abx, 4, false),
        0x7E => instr(Operation::Ror, AddressingMode::Abx, 7, false),
        0x7F => instr(Operation::Rra, AddressingMode::Abx, 7, true),
        _ => None,
    }
}

/// The opcodes `0x80..=0x8F`.
pub open spec fn spec_row_8(opcode: u8) -> Option<Instruction> {
    match opcode {
        0x80 => instr(Operation::Nop, AddressingMode::Imm, 2, true),
        0x81 => instr(Operation::Sta, AddressingMode::Idx, 6, false),
        0x82 => instr(Operation::Nop, AddressingMode::Imm, 2, true),
        0x83 => instr(Operation::Sax, AddressingMode::Idx, 6, true),
        0x84 => instr(Operation::Sty, AddressingMode::Zpg, 3, false),
        0x85 => instr(Operation::Sta, AddressingMode::Zpg, 3, false),
        0x86 => instr(Operation::Stx, AddressingMode::Zpg, 3, false),
        0x87 => instr(Operation::Sax, AddressingMode::Zpg, 3, true),
        0x88 => instr(Operation::Dey, AddressingMode::Imp, 2, false),
        0x89 => instr(Operation::Nop, AddressingMode::Imm, 2, true),
        0x8A => instr(Operation::Txa, AddressingMode::Imp, 2, false),
        0x8C => instr(Operation::Sty, AddressingMode::Abs, 4, false),
        0x8D => instr(Operation::Sta, AddressingMode::Abs, 4, false),
        0x8E => instr(Operation::Stx, AddressingMode::Abs, 4, false),
        0x8F => instr(Operation::Sax, AddressingMode::Abs, 4, true),
        _ => None,
    }
}

#[verifier::when_used_as_spec(spec_row_8)]
fn row_8(opcode: u8) -> (r: Option<Instruction>)
    ensures
        r == spec_row_8(opcode),
{
    match opcode {
        0x80 => instr(Operation::Nop, AddressingMode::Imm, 2, true),
        0x81 => instr(Operation::Sta, AddressingMode::Idx, 6, false),
        0x82 => instr(Operation::Nop, AddressingMode::Imm, 2, true),
        0x83 => instr(Operation::Sax, AddressingMode::Idx, 6, true),
        0x84 => instr(Operation::Sty, AddressingMode::Zpg, 3, false),
        0x85 => instr(Operation::Sta, AddressingMode::Zpg, 3, false),
        0x86 => instr(Operation::Stx, AddressingMode::Zpg, 3, false),
        0x87 => instr(Operation::Sax, AddressingMode::Zpg, 3, true),
        0x88 => instr(Operation::Dey, AddressingMode::Imp, 2, false),
        0x89 => instr(Operation::Nop, AddressingMode::Imm, 2, true),
        0x8A => instr(Operation::Txa, AddressingMode::Imp, 2, false),
        0x8C => instr(Operation::Sty, AddressingMode::Abs, 4, false),
        0x8D => instr(Operation::Sta, AddressingMode::Abs, 4, false),
        0x8E => instr(Operation::Stx, AddressingMode::Abs, 4, false),
        0x8F => instr(Operation::Sax, AddressingMode::Abs, 4, true),
        _ => None,
    }
}

/// The opcodes `0x90..=0x9F`.
pub open spec fn spec_row_9(opcode: u8) -> Option<Instruction> {
    match opcode {
        0x90 => instr(Operation::Bcc, AddressingMode::Rel, 2, false),
        0x91 => instr(Operation::Sta, AddressingMode::Idy, 6, false),
        0x94 => instr(Operation::Sty, AddressingMode::Zpx, 4, false),
        0x95 => instr(Operation::Sta, AddressingMode::Zpx, 4, false),
        0x96 => instr(Operation::Stx, AddressingMode::Zpy, 4, false),
        0x97 => instr(Operation::Sax, AddressingMode::Zpy, 4, true),
        0x98 => instr(Operation::Tya, AddressingMode::Imp, 2, false),
        0x99 => instr(Operation::Sta, AddressingMode::Aby, 5, false),
        0x9A => instr(Operation::Txs, AddressingMode::Imp, 2, false),
        0x9D => instr(Operation::Sta, AddressingMode::Abx, 5, false),
        _ => None,
    }
}

#[verifier::when_used_as_spec(spec_row_9)]
fn row_9(opcode: u8) -> (r: Option<Instruction>)
    ensures
        r == spec_row_9(opcode),
{
    match opcode {
        0x90 => instr(Operation::Bcc, AddressingMode::Rel, 2, false),
        0x91 => instr(Operation::Sta, AddressingMode::Idy, 6, false),
        0x94 => instr(Operation::Sty, AddressingMode::Zpx, 4, false),
        0x95 => instr(Operation::Sta, AddressingMode::Zpx, 4, false),
        0x96 => instr(Operation::Stx, AddressingMode::Zpy, 4, false),
        0x97 => instr(Operation::Sax, AddressingMode::Zpy, 4, true),
        0x98 => instr(Operation::Tya, AddressingMode::Imp, 2, false),
        0x99 => instr(Operation::Sta, AddressingMode::Aby, 5, false),
        0x9A => instr(Operation::Txs, AddressingMode::Imp, 2, false),
        0x9D => instr(Operation::Sta, AddressingMode::Abx, 5, false),
        _ => None,
    }
}

/// The opcodes `0xA0..=0xAF`.
pub open spec fn spec_row_a(opcode: u8) -> Option<Instruction> {
    match opcode {
        0xA0 => instr(Operation::Ldy, AddressingMode::Imm, 2, false),
        0xA1 => instr(Operation::Lda, AddressingMode::Idx, 6, false),
        0xA2 => instr(Operation::Ldx, AddressingMode::Imm, 2, false),
        0xA3 => instr(Operation::Lax, AddressingMode::Idx, 6, true),
        0xA4 => instr(Operation::Ldy, AddressingMode::Zpg, 3, false),
        0xA5 => instr(Operation::Lda, AddressingMode::Zpg, 3, false),
        0xA6 => instr(Operation::Ldx, AddressingMode::Zpg, 3, false),
        0xA7 => instr(Operation::Lax, AddressingMode::Zpg, 3, true),
        0xA8 => instr(Operation::Tay, AddressingMode::Imp, 2, false),
        0xA9 => instr(Operation::Lda, AddressingMode::Imm, 2, false),
        0xAA => instr(Operation::Tax, AddressingMode::Imp, 2, false),
        0xAC => instr(Operation::Ldy, AddressingMode::Abs, 4, false),
        0xAD => instr(Operation::Lda, AddressingMode::Abs, 4, false),
        0xAE => instr(Operation::Ldx, AddressingMode::Abs, 4, false),
        0xAF => instr(Operation::Lax, AddressingMode::Abs, 4, true),
        _ => None,
    }
}

#[verifier::when_used_as_spec(spec_row_a)]
fn row_a(opcode: u8) -> (r: Option<Instruction>)
    ensures
        r == spec_row_a(opcode),
{
    match opcode {
        0xA0 => instr(Operation::Ldy, AddressingMode::Imm, 2, false),
        0xA1 => instr(Operation::Lda, AddressingMode::Idx, 6, false),
        0xA2 => instr(Operation::Ldx, AddressingMode::Imm, 2, false),
        0xA3 => instr(Operation::Lax, AddressingMode::Idx, 6, true),
        0xA4 => instr(Operation::Ldy, AddressingMode::Zpg, 3, false),
        0xA5 => instr(Operation::Lda, AddressingMode::Zpg, 3, false),
        0xA6 => instr(Operation::Ldx, AddressingMode::Zpg, 3, false),
        0xA7 => instr(Operation::Lax, AddressingMode::Zpg, 3, true),
        0xA8 => instr(Operation::Tay, AddressingMode::Imp, 2, false),
        0xA9 => instr(Operation::Lda, AddressingMode::Imm, 2, false),
        0xAA => instr(Operation::Tax, AddressingMode::Imp, 2, false),
        0xAC => instr(Operation::Ldy, AddressingMode::Abs, 4, false),
        0xAD => instr(Operation::Lda, AddressingMode::Abs, 4, false),
        0xAE => instr(Operation::Ldx, AddressingMode::Abs, 4, false),
        0xAF => instr(Operation::Lax, AddressingMode::Abs, 4, true),
        _ => None,
    }
}

/// The opcodes `0xB0..=0xBF`.
pub open spec fn spec_row_b(opcode: u8) -> Option<Instruction> {
    match opcode {
        0xB0 => instr(Operation::Bcs, AddressingMode::Rel, 2, false),
        0xB1 => instr(Operation::Lda, AddressingMode::Idy, 5, false),
        0xB3 => instr(Operation::Lax, AddressingMode::Idy, 5, true),
        0xB4 => instr(Operation::Ldy, AddressingMode::Zpx, 4, false),
        0xB5 => instr(Operation::Lda, AddressingMode::Zpx, 4, false),
        0xB6 => instr(Operation::Ldx, AddressingMode::Zpy, 4, false),
        0xB7 => instr(Operation::Lax, AddressingMode::Zpy, 4, true),
        0xB8 => instr(Operation::Clv, AddressingMode::Imp, 2, false),
        0xB9 => instr(Operation::Lda, AddressingMode::Aby, 4, false),
        0xBA => instr(Operation::Tsx, AddressingMode::Imp, 2, false),
        0xBC => instr(Operation::Ldy, AddressingMode::Abx, 4, false),
        0xBD => instr(Operation::Lda, AddressingMode::Abx, 4, false),
        0xBE => instr(Operation::Ldx, AddressingMode::Aby, 4, false),
        0xBF => instr(Operation::Lax, AddressingMode::Aby, 4, true),
        _ => None,
    }
}

#[verifier::when_used_as_spec(spec_row_b)]
fn row_b(opcode: u8) -> (r: Option<Instruction>)
    ensures
        r == spec_row_b(opcode),
{
    match opcode {
        0xB0 => instr(Operation::Bcs, AddressingMode::Rel, 2, false),
        0xB1 => instr(Operation::Lda, AddressingMode::Idy, 5, false),
        0xB3 => instr(Operation::Lax, AddressingMode::Idy, 5, true),
        0xB4 => instr(Operation::Ldy, AddressingMode::Zpx, 4, false),
        0xB5 => instr(Operation::Lda, AddressingMode::Zpx, 4, false),
        0xB6 => instr(Operation::Ldx, AddressingMode::Zpy, 4, false),
        0xB7 => instr(Operation::Lax, AddressingMode::Zpy, 4, true),
        0xB8 => instr(Operation::Clv, AddressingMode::Imp, 2, false),
        0xB9 => instr(Operation::Lda, AddressingMode::Aby, 4, false),
        0xBA => instr(Operation::Tsx, AddressingMode::Imp, 2, false),
        0xBC => instr(Operation::Ldy, AddressingMode::Abx, 4, false),
        0xBD => instr(Operation::Lda, AddressingMode::Abx, 4, false),
        0xBE => instr(Operation::Ldx, AddressingMode::Aby, 4, false),
        0xBF => instr(Operation::Lax, AddressingMode::Aby, 4, true),
        _ => None,
    }
}

/// The opcodes `0xC0..=0xCF`.
pub open spec fn spec_row_c(opcode: u8) -> Option<Instruction> {
    match opcode {
        0xC0 => instr(Operation::Cpy, AddressingMode::Imm, 2, false),
        0xC1 => instr(Operation::Cmp, AddressingMode::Idx, 6, false),
        0xC2 => instr(Operation::Nop, AddressingMode::Imm, 2, true),
        0xC3 => instr(Operation::Dcp, AddressingMode::Idx, 8, true),
        0xC4 => instr(Operation::Cpy, AddressingMode::Zpg, 3, false),
        0xC5 => instr(Operation::Cmp, AddressingMode::Zpg, 3, false),
        0xC6 => instr(Operation::Dec, AddressingMode::Zpg, 5, false),
        0xC7 => instr(Operation::Dcp, AddressingMode::Zpg, 5, true),
        0xC8 => instr(Operation::Iny, AddressingMode::Imp, 2, false),
        0xC9 => instr(Operation::Cmp, AddressingMode::Imm, 2, false),
        0xCA => instr(Operation::Dex, AddressingMode::Imp, 2, false),
        0xCC => instr(Operation::Cpy, AddressingMode::Abs, 4, false),
        0xCD => instr(Operation::Cmp, AddressingMode::Abs, 4, false),
        0xCE => instr(Operation::Dec, AddressingMode::Abs, 6, false),
        0xCF => instr(Operation::Dcp, AddressingMode::Abs, 6, true),
        _ => None,
    }
}

#[verifier::when_used_as_spec(spec_row_c)]
fn row_c(opcode: u8) -> (r: Option<Instruction>)
    ensures
        r == spec_row_c(opcode),
{
    match opcode {
        0xC0 => instr(Operation::Cpy, AddressingMode::Imm, 2, false),
        0xC1 => instr(Operation::Cmp, AddressingMode::Idx, 6, false),
        0xC2 => instr(Operation::Nop, AddressingMode::Imm, 2, true),
        0xC3 => instr(Operation::Dcp, AddressingMode::Idx, 8, true),
        0xC4 => instr(Operation::Cpy, AddressingMode::Zpg, 3, false),
        0xC5 => instr(Operation::Cmp, AddressingMode::Zpg, 3, false),
        0xC6 => instr(Operation::Dec, AddressingMode::Zpg, 5, false),
        0xC7 => instr(Operation::Dcp, AddressingMode::Zpg, 5, true),
        0xC8 => instr(Operation::Iny, AddressingMode::Imp, 2, false),
        0xC9 => instr(Operation::Cmp, AddressingMode::Imm, 2, false),
        0xCA => instr(Operation::Dex, AddressingMode::Imp, 2, false),
        0xCC => instr(Operation::Cpy, AddressingMode::Abs, 4, false),
        0xCD => instr(Operation::Cmp, AddressingMode::Abs, 4, false),
        0xCE => instr(Operation::Dec, AddressingMode::Abs, 6, false),
        0xCF => instr(Operation::Dcp, AddressingMode::Abs, 6, true),
        _ => None,
    }
}

/// The opcodes `0xD0..=0xDF`.
pub open spec fn spec_row_d(opcode: u8) -> Option<Instruction> {
    match opcode {
        0xD0 => instr(Operation::Bne, AddressingMode::Rel, 2, false),
        0xD1 => instr(Operation::Cmp, AddressingMode::Idy, 5, false),
        0xD3 => instr(Operation::Dcp, AddressingMode::Idy, 8, true),
        0xD4 => instr(Operation::Nop, AddressingMode::Zpx, 4, true),
        0xD5 => instr(Operation::Cmp, AddressingMode::Zpx, 4, false),
        0xD6 => instr(Operation::Dec, AddressingMode::Zpx, 6, false),
        0xD7 => instr(Operation::Dcp, AddressingMode::Zpx, 6, true),
        0xD8 => instr(Operation::Cld, AddressingMode::Imp, 2, false),
        0xD9 => instr(Operation::Cmp, AddressingMode::Aby, 4, false),
        0xDA => instr(Operation::Nop, AddressingMode::Imp, 2, true),
        0xDB => instr(Operation::Dcp, AddressingMode::Aby, 7, true),
        0xDC => instr(Operation::Nop, AddressingMode::Abx, 4, true),
        0xDD => instr(Operation::Cmp, AddressingMode::Abx, 4, false),
        0xDE => instr(Operation::Dec, AddressingMode::Abx, 7, false),
        0xDF => instr(Operation::Dcp, AddressingMode::Abx, 7, true),
        _ => None,
    }
}

#[verifier::when_used_as_spec(spec_row_d)]
fn row_d(opcode: u8) -> (r: Option<Instruction>)
    ensures
        r == spec_row_d(opcode),
{
    match opcode {
        0xD0 => instr(Operation::Bne, AddressingMode::Rel, 2, false),
        0xD1 => instr(Operation::Cmp, AddressingMode::Idy, 5, false),
        0xD3 => instr(Operation::Dcp, AddressingMode::Idy, 8, true),
        0xD4 => instr(Operation::Nop, AddressingMode::Zpx, 4, true),
        0xD5 => instr(Operation::Cmp, AddressingMode::Zpx, 4, false),
        0xD6 => instr(Operation::Dec, AddressingMode::Zpx, 6, false),
        0xD7 => instr(Operation::Dcp, AddressingMode::Zpx, 6, true),
        0xD8 => instr(Operation::Cld, AddressingMode::Imp, 2, false),
        0xD9 => instr(Operation::Cmp, AddressingMode::Aby, 4, false),
        0xDA => instr(Operation::Nop, AddressingMode::Imp, 2, true),
        0xDB => instr(Operation::Dcp, AddressingMode::Aby, 7, true),
        0xDC => instr(Operation::Nop, AddressingMode::Abx, 4, true),
        0xDD => instr(Operation::Cmp, AddressingMode::Abx, 4, false),
        0xDE => instr(Operation::Dec, AddressingMode::Abx, 7, false),
        0xDF => instr(Operation::Dcp, AddressingMode::Abx, 7, true),
        _ => None,
    }
}

/// The opcodes `0xE0..=0xEF`.
pub open spec fn spec_row_e(opcode: u8) -> Option<Instruction> {
    match opcode {
        0xE0 => instr(Operation::Cpx, AddressingMode::Imm, 2, false),
        0xE1 => instr(Operation::Sbc, AddressingMode::Idx, 6, false),
        0xE2 => instr(Operation::Nop, AddressingMode::Imm, 2, true),
        0xE3 => instr(Operation::Isc, AddressingMode::Idx, 8, true),
        0xE4 => instr(Operation::Cpx, AddressingMode::Zpg, 3, false),
        0xE5 => instr(Operation::Sbc, AddressingMode::Zpg, 3, false),
        0xE6 => instr(Operation::Inc, AddressingMode::Zpg, 5, false),
        0xE7 => instr(Operation::Isc, AddressingMode::Zpg, 5, true),
        0xE8 => instr(Operation::Inx, AddressingMode::Imp, 2, false),
        0xE9 => instr(Operation::Sbc, AddressingMode::Imm, 2, false),
        0xEA => instr(Operation::Nop, AddressingMode::Imp, 2, false),
        0xEB => instr(Operation::Sbc, AddressingMode::Imm, 2, true),
        0xEC => instr(Operation::Cpx, AddressingMode::Abs, 4, false),
        0xED => instr(Operation::Sbc, AddressingMode::Abs, 4, false),
        0xEE => instr(Operation::Inc, AddressingMode::Abs, 6, false),
        0xEF => instr(Operation::Isc, AddressingMode::Abs, 6, true),
        _ => None,
    }
}

#[verifier::when_used_as_spec(spec_row_e)]
fn row_e(opcode: u8) -> (r: Option<Instruction>)
    ensures
        r == spec_row_e(opcode),
{
    match opcode {
        0xE0 => instr(Operation::Cpx, AddressingMode::Imm, 2, false),
        0xE1 => instr(Operation::Sbc, AddressingMode::Idx, 6, false),
        0xE2 => instr(Operation::Nop, AddressingMode::Imm, 2, true),
        0xE3 => instr(Operation::Isc, AddressingMode::Idx, 8, true),
        0xE4 => instr(Operation::Cpx, AddressingMode::Zpg, 3, false),
        0xE5 => instr(Operation::Sbc, AddressingMode::Zpg, 3, false),
        0xE6 => instr(Operation::Inc, AddressingMode::Zpg, 5, false),
        0xE7 => instr(Operation::Isc, AddressingMode::Zpg, 5, true),
        0xE8 => instr(Operation::Inx, AddressingMode::Imp, 2, false),
        0xE9 => instr(Operation::Sbc, AddressingMode::Imm, 2, false),
        0xEA => instr(Operation::Nop, AddressingMode::Imp, 2, false),
        0xEB => instr(Operation::Sbc, AddressingMode::Imm, 2, true),
        0xEC => instr(Operation::Cpx, AddressingMode::Abs, 4, false),
        0xED => instr(Operation::Sbc, AddressingMode::Abs, 4, false),
        0xEE => instr(Operation::Inc, AddressingMode::Abs, 6, false),
        0xEF => instr(Operation::Isc, AddressingMode::Abs, 6, true),
        _ => None,
    }
}

/// The opcodes `0xF0..=0xFF`.
pub open spec fn spec_row_f(opcode: u8) -> Option<Instruction> {
    match opcode {
        0xF0 => instr(Operation::Beq, AddressingMode::Rel, 2, false),
        0xF1 => instr(Operation::Sbc, AddressingMode::Idy, 5, false),
        0xF3 => instr(Operation::Isc, AddressingMode::Idy, 8, true),
        0xF4 => instr(Operation::Nop, AddressingMode::Zpx, 4, true),
        0xF5 => instr(Operation::Sbc, AddressingMode::Zpx, 4, false),
        0xF6 => instr(Operation::Inc, AddressingMode::Zpx, 6, false),
        0xF7 => instr(Operation::Isc, AddressingMode::Zpx, 6, true),
        0xF8 => instr(Operation::Sed, AddressingMode::Imp, 2, false),
        0xF9 => instr(Operation::Sbc, AddressingMode::Aby, 4, false),
        0xFA => instr(Operation::Nop, AddressingMode::Imp, 2, true),
        0xFB => instr(Operation::Isc, AddressingMode::Aby, 7, true),
        0xFC => instr(Operation::Nop, AddressingMode::Abx, 4, true),
        0xFD => instr(Operation::Sbc, AddressingMode::Abx, 4, false),
        0xFE => instr(Operation::Inc, AddressingMode::Abx, 7, false),
        0xFF => instr(Operation::Isc, AddressingMode::Abx, 7, true),
        _ => None,
    }
}

#[verifier::when_used_as_spec(spec_row_f)]
fn row_f(opcode: u8) -> (r: Option<Instruction>)
    ensures
        r == spec_row_f(opcode),
{
    match opcode {
        0xF0 => instr(Operation::Beq, AddressingMode::Rel, 2, false),
        0xF1 => instr(Operation::Sbc, AddressingMode::Idy, 5, false),
        0xF3 => instr(Operation::Isc, AddressingMode::Idy, 8, true),
        0xF4 => instr(Operation::Nop, AddressingMode::Zpx, 4, true),
        0xF5 => instr(Operation::Sbc, AddressingMode::Zpx, 4, false),
        0xF6 => instr(Operation::Inc, AddressingMode::Zpx, 6, false),
        0xF7 => instr(Operation::Isc, AddressingMode::Zpx, 6, true),
        0xF8 => instr(Operation::Sed, AddressingMode::Imp, 2, false),
        0xF9 => instr(Operation::Sbc, AddressingMode::Aby, 4, false),
        0xFA => instr(Operation::Nop, AddressingMode::Imp, 2, true),
        0xFB => instr(Operation::Isc, AddressingMode::Aby, 7, true),
        0xFC => instr(Operation::Nop, AddressingMode::Abx, 4, true),
        0xFD => instr(Operation::Sbc, AddressingMode::Abx, 4, false),
        0xFE => instr(Operation::Inc, AddressingMode::Abx, 7, false),
        0xFF => instr(Operation::Isc, AddressingMode::Abx, 7, true),
        _ => None,
    }
}

/// The instruction set, a row of sixteen opcodes at a time. An opcode
/// without an entry is not implemented.
pub open spec fn spec_instruction_set(opcode: u8) -> Option<Instruction> {
    match opcode / 16 {
        0x0 => spec_row_0(opcode),
        0x1 => spec_row_1(opcode),
        0x2 => spec_row_2(opcode),
        0x3 => spec_row_3(opcode),
        0x4 => spec_row_4(opcode),
        0x5 => spec_row_5(opcode),
        0x6 => spec_row_6(opcode),
        0x7 => spec_row_7(opcode),
        0x8 => spec_row_8(opcode),
        0x9 => spec_row_9(opcode),
        0xA => spec_row_a(opcode),
        0xB => spec_row_b(opcode),
        0xC => spec_row_c(opcode),
        0xD => spec_row_d(opcode),
        0xE => spec_row_e(opcode),
        _ => spec_row_f(opcode),
    }
}

/// Looks an opcode up in the instruction set.
#[verifier::when_used_as_spec(spec_instruction_set)]
pub fn instruction_set(opcode: u8) -> (r: Option<Instruction>)
    ensures
        r == spec_instruction_set(opcode),
{
    match opcode / 16 {
        0x0 => row_0(opcode),
        0x1 => row_1(opcode),
        0x2 => row_2(opcode),
        0x3 => row_3(opcode),
        0x4 => row_4(opcode),
        0x5 => row_5(opcode),
        0x6 => row_6(opcode),
        0x7 => row_7(opcode),
        0x8 => row_8(opcode),
        0x9 => row_9(opcode),
        0xA => row_a(opcode),
        0xB => row_b(opcode),
        0xC => row_c(opcode),
        0xD => row_d(opcode),
        0xE => row_e(opcode),
        _ => row_f(opcode),
    }
}

/// What holds of every entry of the instruction set: it costs from two to
/// eight cycles, its length is that of its addressing mode, its name is its
/// mark and the three letters of its operation, and the conditional branches
/// are the instructions with relative addressing, each at a base cost of two
/// cycles.
pub open spec fn sound_entry(entry: Option<Instruction>) -> bool {
    entry matches Some(i) ==> {
        &&& 2 <= i.cycles <= 8
        &&& i.length == i.addressing.spec_length()
        &&& i.name@ == mnemonic_text(i.action.spec_name(), i.illegal)
        &&& i.action.spec_is_branch() <==> i.addressing == AddressingMode::Rel
        &&& i.action.spec_is_branch() ==> i.cycles == 2
    }
}

/// Every mnemonic reads as its mark and its three letters.
proof fn lemma_names()
    ensures
        forall|content: Seq<char>, illegal: bool|
            (#[trigger] Mnemonic::spec_new(content, illegal))@ == mnemonic_text(content, illegal),
{
    assert forall|content: Seq<char>, illegal: bool|
        (#[trigger] Mnemonic::spec_new(content, illegal))@ == mnemonic_text(
            content,
            illegal,
        ) by {
        Mnemonic::lemma_spec_new(content, illegal);
    }
}

proof fn lemma_row_0(opcode: u8)
    ensures
        sound_entry(spec_row_0(opcode)),
{
    lemma_names();
}

proof fn lemma_row_1(opcode: u8)
    ensures
        sound_entry(spec_row_1(opcode)),
{
    lemma_names();
}

proof fn lemma_row_2(opcode: u8)
    ensures
        sound_entry(spec_row_2(opcode)),
{
    lemma_names();
}

proof fn lemma_row_3(opcode: u8)
    ensures
        sound_entry(spec_row_3(opcode)),
{
    lemma_names();
}

proof fn lemma_row_4(opcode: u8)
    ensures
        sound_entry(spec_row_4(opcode)),
{
    lemma_names();
}

proof fn lemma_row_5(opcode: u8)
    ensures
        sound_entry(spec_row_5(opcode)),
{
    lemma_names();
}

proof fn lemma_row_6(opcode: u8)
    ensures
        sound_entry(spec_row_6(opcode)),
{
    lemma_names();
}

proof fn lemma_row_7(opcode: u8)
    ensures
        sound_entry(spec_row_7(opcode)),
{
    lemma_names();
}

proof fn lemma_row_8(opcode: u8)
    ensures
        sound_entry(spec_row_8(opcode)),
{
    lemma_names();
}

proof fn lemma_row_9(opcode: u8)
    ensures
        sound_entry(spec_row_9(opcode)),
{
    lemma_names();
}

proof fn lemma_row_a(opcode: u8)
    ensures
        sound_entry(spec_row_a(opcode)),
{
    lemma_names();
}

proof fn lemma_row_b(opcode: u8)
    ensures
        sound_entry(spec_row_b(opcode)),
{
    lemma_names();
}

proof fn lemma_row_c(opcode: u8)
    ensures
        sound_entry(spec_row_c(opcode)),
{
    lemma_names();
}

proof fn lemma_row_d(opcode: u8)
    ensures
        sound_entry(spec_row_d(opcode)),
{
    lemma_names();
}

proof fn lemma_row_e(opcode: u8)
    ensures
        sound_entry(spec_row_e(opcode)),
{
    lemma_names();
}

proof fn lemma_row_f(opcode: u8)
    ensures
        sound_entry(spec_row_f(opcode)),
{
    lemma_names();
}

/// Every entry of the instruction set is sound.
pub proof fn lemma_instruction_set(opcode: u8)
    ensures
        sound_entry(spec_instruction_set(opcode)),
{
    lemma_row_0(opcode);
    lemma_row_1(opcode);
    lemma_row_2(opcode);
    lemma_row_3(opcode);
    lemma_row_4(opcode);
    lemma_row_5(opcode);
    lemma_row_6(opcode);
    lemma_row_7(opcode);
    lemma_row_8(opcode);
    lemma_row_9(opcode);
    lemma_row_a(opcode);
    lemma_row_b(opcode);
    lemma_row_c(opcode);
    lemma_row_d(opcode);
    lemma_row_e(opcode);
    lemma_row_f(opcode);
}

} // verus!
