//! What the instructions leave alone: the cartridge in the slot, the
//! picture unit's raster counter, and, but for branches and stores, the
//! penalty that the addressing mode charged.

use vstd::prelude::*;
use crate::cpu::{Register, State};
use crate::flags::{lemma_kept_bits, same_kept_bits};
use crate::instructions::{AddressingMode, Operation};
use crate::operations::{Logic, Shift};

verus! {

impl State {
    /// Whether `later` can be this machine after some work of the processor:
    /// the same cartridge is in the slot, and the picture unit has its raster
    /// counter and its frame latch where they were and is sound if it was.
    pub open spec fn leads_to(self, later: State) -> bool {
        &&& self.ppu.wf() ==> later.ppu.wf()
        &&& later.ppu.same_raster(self.ppu)
        &&& later.bus.cartridge == self.bus.cartridge
    }

    /// Whether `later` owes the penalty that this state owes.
    pub open spec fn same_penalty(self, later: State) -> bool {
        later.cpu.additional_cycles == self.cpu.additional_cycles
    }

    /// Whether `later` has Break and the unused bit as this state has them.
    pub open spec fn same_kept_bits(self, later: State) -> bool {
        same_kept_bits(self.cpu.p, later.cpu.p)
    }

    /// An addressing mode leaves the cartridge, the raster counter and the
    /// status alone.
    pub proof fn lemma_addressing_preserves(self, mode: AddressingMode)
        ensures
            self.leads_to(self.addressing(mode)),
            self.addressing(mode).cpu.p == self.cpu.p,
    {
        reveal(State::addressing);
    }

    proof fn lemma_load_preserves(self, r: Register)
        ensures
            self.leads_to(self.load(r)),
            self.same_kept_bits(self.load(r)),
            self.same_penalty(self.load(r)),
    {
        lemma_kept_bits();
    }

    proof fn lemma_store_preserves(self, r: Register)
        ensures
            self.leads_to(self.store(r)),
            self.same_kept_bits(self.store(r)),
            self.store(r).cpu.additional_cycles == 0,
    {
        lemma_kept_bits();
    }

    proof fn lemma_compare_preserves(self, r: Register)
        ensures
            self.leads_to(self.compare(r)),
            self.same_kept_bits(self.compare(r)),
            self.same_penalty(self.compare(r)),
    {
        lemma_kept_bits();
    }

    proof fn lemma_step_memory_preserves(self, up: bool)
        ensures
            self.leads_to(self.step_memory(up)),
            self.same_kept_bits(self.step_memory(up)),
            self.same_penalty(self.step_memory(up)),
    {
        lemma_kept_bits();
    }

    proof fn lemma_shift_preserves(self, kind: Shift)
        ensures
            self.leads_to(self.shift(kind)),
            self.same_kept_bits(self.shift(kind)),
            self.same_penalty(self.shift(kind)),
    {
        lemma_kept_bits();
    }

    proof fn lemma_logic_preserves(self, kind: Logic)
        ensures
            self.leads_to(self.logic(kind)),
            self.same_kept_bits(self.logic(kind)),
            self.same_penalty(self.logic(kind)),
    {
        lemma_kept_bits();
    }

    proof fn lemma_adc_preserves(self)
        ensures
            self.leads_to(self.adc()),
            self.same_kept_bits(self.adc()),
            self.same_penalty(self.adc()),
    {
        lemma_kept_bits();
    }

    proof fn lemma_sbc_preserves(self)
        ensures
            self.leads_to(self.sbc()),
            self.same_kept_bits(self.sbc()),
            self.same_penalty(self.sbc()),
    {
        lemma_kept_bits();
    }

    proof fn lemma_bit_preserves(self)
        ensures
            self.leads_to(self.bit()),
            self.same_kept_bits(self.bit()),
            self.same_penalty(self.bit()),
    {
        lemma_kept_bits();
    }

    proof fn lemma_jsr_preserves(self)
        ensures
            self.leads_to(self.jsr()),
            self.same_kept_bits(self.jsr()),
            self.same_penalty(self.jsr()),
    {
        lemma_kept_bits();
    }

    proof fn lemma_rts_preserves(self)
        ensures
            self.leads_to(self.rts()),
            self.same_kept_bits(self.rts()),
            self.same_penalty(self.rts()),
    {
        lemma_kept_bits();
    }

    proof fn lemma_pha_preserves(self)
        ensures
            self.leads_to(self.pha()),
            self.same_kept_bits(self.pha()),
            self.same_penalty(self.pha()),
    {
        lemma_kept_bits();
    }

    proof fn lemma_pla_preserves(self)
        ensures
            self.leads_to(self.pla()),
            self.same_kept_bits(self.pla()),
            self.same_penalty(self.pla()),
    {
        lemma_kept_bits();
    }

    proof fn lemma_php_preserves(self)
        ensures
            self.leads_to(self.php()),
            self.same_kept_bits(self.php()),
            self.same_penalty(self.php()),
    {
        lemma_kept_bits();
    }

    proof fn lemma_plp_preserves(self)
        ensures
            self.leads_to(self.plp()),
            self.same_kept_bits(self.plp()),
            self.same_penalty(self.plp()),
    {
        lemma_kept_bits();
    }

    proof fn lemma_sax_preserves(self)
        ensures
            self.leads_to(self.sax()),
            self.same_kept_bits(self.sax()),
            self.sax().cpu.additional_cycles == 0,
    {
        lemma_kept_bits();
    }

    proof fn lemma_rti_preserves(self)
        ensures
            self.leads_to(self.rti()),
            self.same_kept_bits(self.rti()),
            self.same_penalty(self.rti()),
    {
        lemma_kept_bits();
        self.lemma_plp_preserves();
    }

    proof fn lemma_lax_preserves(self)
        ensures
            self.leads_to(self.lax()),
            self.same_kept_bits(self.lax()),
            self.same_penalty(self.lax()),
    {
        lemma_kept_bits();
        self.lemma_load_preserves(Register::A);
        self.load(Register::A).lemma_load_preserves(Register::X);
    }

    proof fn lemma_dcp_preserves(self)
        ensures
            self.leads_to(self.dcp()),
            self.same_kept_bits(self.dcp()),
            self.dcp().cpu.additional_cycles == 0,
    {
        lemma_kept_bits();
        self.lemma_step_memory_preserves(false);
        self.step_memory(false).lemma_compare_preserves(Register::A);
    }

    proof fn lemma_isc_preserves(self)
        ensures
            self.leads_to(self.isc()),
            self.same_kept_bits(self.isc()),
            self.isc().cpu.additional_cycles == 0,
    {
        lemma_kept_bits();
        self.lemma_step_memory_preserves(true);
        self.step_memory(true).lemma_sbc_preserves();
    }

    proof fn lemma_slo_preserves(self)
        ensures
            self.leads_to(self.slo()),
            self.same_kept_bits(self.slo()),
            self.slo().cpu.additional_cycles == 0,
    {
        lemma_kept_bits();
        self.lemma_shift_preserves(Shift::Asl);
        self.shift(Shift::Asl).lemma_logic_preserves(Logic::Ora);
    }

    proof fn lemma_rla_preserves(self)
        ensures
            self.leads_to(self.rla()),
            self.same_kept_bits(self.rla()),
            self.rla().cpu.additional_cycles == 0,
    {
        lemma_kept_bits();
        self.lemma_shift_preserves(Shift::Rol);
        self.shift(Shift::Rol).lemma_logic_preserves(Logic::And);
    }

    proof fn lemma_sre_preserves(self)
        ensures
            self.leads_to(self.sre()),
            self.same_kept_bits(self.sre()),
            self.sre().cpu.additional_cycles == 0,
    {
        lemma_kept_bits();
        self.lemma_shift_preserves(Shift::Lsr);
        self.shift(Shift::Lsr).lemma_logic_preserves(Logic::Eor);
    }

    proof fn lemma_rra_preserves(self)
        ensures
            self.leads_to(self.rra()),
            self.same_kept_bits(self.rra()),
            self.rra().cpu.additional_cycles == 0,
    {
        lemma_kept_bits();
        self.lemma_shift_preserves(Shift::Ror);
        self.shift(Shift::Ror).lemma_adc_preserves();
    }

    /// An operation leaves the cartridge, the raster counter, Break and the
    /// unused bit alone. One that pays its fixed cost
    /// clears the penalty; every other one but a branch leaves it as it is.
    pub proof fn lemma_operation_preserves(self, op: Operation)
        ensures
            self.leads_to(self.operation(op)),
            self.same_kept_bits(self.operation(op)),
            op.spec_fixed_cost() ==> self.operation(op).cpu.additional_cycles == 0,
            !op.spec_fixed_cost() && !op.spec_is_branch() ==> self.same_penalty(
                self.operation(op),
            ),
    {
        reveal(State::operation);
        lemma_kept_bits();
        match op {
            Operation::Adc => self.lemma_adc_preserves(),
            Operation::And => self.lemma_logic_preserves(Logic::And),
            Operation::Asl => self.lemma_shift_preserves(Shift::Asl),
            Operation::Bcc => {},
            Operation::Bcs => {},
            Operation::Beq => {},
            Operation::Bit => self.lemma_bit_preserves(),
            Operation::Bmi => {},
            Operation::Bne => {},
            Operation::Bpl => {},
            Operation::Bvc => {},
            Operation::Bvs => {},
            Operation::Clc => {},
            Operation::Cld => {},
            Operation::Cli => {},
            Operation::Clv => {},
            Operation::Cmp => self.lemma_compare_preserves(Register::A),
            Operation::Cpx => self.lemma_compare_preserves(Register::X),
            Operation::Cpy => self.lemma_compare_preserves(Register::Y),
            Operation::Dcp => self.lemma_dcp_preserves(),
            Operation::Dec => self.lemma_step_memory_preserves(false),
            Operation::Dex => {},
            Operation::Dey => {},
            Operation::Eor => self.lemma_logic_preserves(Logic::Eor),
            Operation::Inc => self.lemma_step_memory_preserves(true),
            Operation::Inx => {},
            Operation::Iny => {},
            Operation::Isc => self.lemma_isc_preserves(),
            Operation::Jmp => {},
            Operation::Jsr => self.lemma_jsr_preserves(),
            Operation::Lax => self.lemma_lax_preserves(),
            Operation::Lda => self.lemma_load_preserves(Register::A),
            Operation::Ldx => self.lemma_load_preserves(Register::X),
            Operation::Ldy => self.lemma_load_preserves(Register::Y),
            Operation::Lsr => self.lemma_shift_preserves(Shift::Lsr),
            Operation::Nop => {},
            Operation::Ora => self.lemma_logic_preserves(Logic::Ora),
            Operation::Pha => self.lemma_pha_preserves(),
            Operation::Php => self.lemma_php_preserves(),
            Operation::Pla => self.lemma_pla_preserves(),
            Operation::Plp => self.lemma_plp_preserves(),
            Operation::Rla => self.lemma_rla_preserves(),
            Operation::Rol => self.lemma_shift_preserves(Shift::Rol),
            Operation::Ror => self.lemma_shift_preserves(Shift::Ror),
            Operation::Rra => self.lemma_rra_preserves(),
            Operation::Rti => self.lemma_rti_preserves(),
            Operation::Rts => self.lemma_rts_preserves(),
            Operation::Sax => self.lemma_sax_preserves(),
            Operation::Sbc => self.lemma_sbc_preserves(),
            Operation::Sec => {},
            Operation::Sed => {},
            Operation::Sei => {},
            Operation::Slo => self.lemma_slo_preserves(),
            Operation::Sre => self.lemma_sre_preserves(),
            Operation::Sta => self.lemma_store_preserves(Register::A),
            Operation::Stx => self.lemma_store_preserves(Register::X),
            Operation::Sty => self.lemma_store_preserves(Register::Y),
            Operation::Tax => {},
            Operation::Tay => {},
            Operation::Tsx => {},
            Operation::Txa => {},
            Operation::Txs => {},
            Operation::Tya => {},
        }
    }

    /// No operation moves the operand's address.
    pub proof fn lemma_operation_target(self, op: Operation)
        ensures
            self.operation(op).cpu.absolute_addr == self.cpu.absolute_addr,
    {
        reveal(State::operation);
    }

    /// An instruction leaves the cartridge, the raster counter, Break and the
    /// unused bit alone.
    pub proof fn lemma_execute_preserves(self)
        ensures
            self.leads_to(self.execute()),
            self.same_kept_bits(self.execute()),
    {
        reveal(State::execute);
        match self.decoded() {
            None => {},
            Some(instr) => {
                let s = self.past_opcode();
                s.lemma_addressing_preserves(instr.addressing);
                s.addressing(instr.addressing).lemma_operation_preserves(instr.action);
            },
        }
    }

    /// A tick of the processor leaves the cartridge, the raster counter,
    /// Break and the unused bit alone.
    pub proof fn lemma_cycle_preserves(self)
        ensures
            self.leads_to(self.cycle()),
            self.same_kept_bits(self.cycle()),
    {
        self.ticked().lemma_execute_preserves();
    }
}

} // verus!
