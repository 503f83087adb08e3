//! The machine: a processor, a bus and a picture unit that tick together.

use vstd::prelude::*;
use crate::bus::{Bus, BusView};
use crate::cartridge::Cartridge;
use crate::cpu::{machine, State, UnimplementedOpcode, CPU};
use crate::ppu::{PpuView, FRAME_DOTS, PPU};

verus! {

/// The dots that the picture unit runs to each tick of the processor.
pub const DOTS_PER_TICK: u8 = 3;

/// The machine. It owns the bus, the processor and the picture unit; the bus
/// reaches the picture unit, and the processor the bus, only through
/// references lent for the length of a call.
#[derive(Debug)]
pub struct NES {
    /// The bus, with the cartridge in its slot.
    pub bus: Bus,
    /// The processor.
    pub cpu: CPU,
    /// The picture unit.
    pub ppu: PPU,
}

impl View for NES {
    type V = State;

    open spec fn view(&self) -> State {
        machine(self.cpu, self.bus, self.ppu)
    }
}

/// Where a run of ticks has come to.
pub struct Run {
    /// The machine after the run.
    pub state: State,
    /// The opcode that stopped the run, if one did.
    pub halted: Option<UnimplementedOpcode>,
}

impl State {
    /// The machine one tick later: the processor has ticked once and the
    /// picture unit has run three dots.
    pub open spec fn clock(self) -> State {
        let s = self.cycle();
        State { ppu: s.ppu.dots(DOTS_PER_TICK as nat), ..s }
    }

    /// The machine `n` ticks later. The tick that meets an opcode without an
    /// instruction is the last one.
    pub open spec fn run(self, n: nat) -> Run
        decreases n,
    {
        if n == 0 {
            Run { state: self, halted: None }
        } else {
            let before = self.run((n - 1) as nat);
            match before.halted {
                Some(_) => before,
                None => Run {
                    state: before.state.clock(),
                    halted: match before.state.cycle_result() {
                        Err(e) => Some(e),
                        Ok(_) => None,
                    },
                },
            }
        }
    }

    /// The ticks from here to the next instruction's execution, that one
    /// included.
    pub open spec fn ticks_to_step(self) -> nat {
        (self.cpu.cycles_remaining + 1) as nat
    }
}

impl State {
    /// A run that has stopped stays where it is.
    pub proof fn lemma_run_stopped(self, n: nat, m: nat)
        requires
            n <= m,
            self.run(n).halted is Some,
        ensures
            self.run(m) == self.run(n),
        decreases m,
    {
        if n < m {
            self.lemma_run_stopped(n, (m - 1) as nat);
        }
    }

    /// The machine with the picture unit's frame latch down.
    pub open spec fn latch_down(self) -> State {
        State { ppu: self.ppu.latch_down(), ..self }
    }

    /// A tick moves the raster counter by three dots and lets the latch up
    /// when the frame ends.
    pub proof fn lemma_clock_raster(self)
        requires
            self.ppu.wf(),
        ensures
            self.clock().ppu.wf(),
            self.ppu.new_frame ==> self.clock().ppu.new_frame,
            self.ppu.dots_done() + 3 < FRAME_DOTS ==> self.clock().ppu.dots_done()
                == self.ppu.dots_done() + 3 && self.clock().ppu.new_frame == self.ppu.new_frame,
            self.ppu.dots_done() + 3 >= FRAME_DOTS ==> self.clock().ppu.new_frame,
    {
        self.lemma_cycle_preserves();
        let p = self.cycle().ppu;
        p.lemma_dots_keep(3);
        p.lemma_dots_advance(3);
    }
}

impl Run {
    /// What the driver of the run reports.
    pub open spec fn outcome(self) -> Result<(), UnimplementedOpcode> {
        match self.halted {
            Some(e) => Err(e),
            None => Ok(()),
        }
    }
}

impl NES {
    /// A machine around a cartridge, before power-up.
    pub fn new(cartridge: Cartridge) -> (nes: NES)
        ensures
            nes@ == (State {
                cpu: CPU::spec_new(),
                bus: BusView::around(cartridge@),
                ppu: PpuView::at_origin(),
            }),
    {
        NES { bus: Bus::new(cartridge), cpu: CPU::new(), ppu: PPU::new() }
    }

    /// Resets the processor and starts the program where the test harness
    /// expects it, at `0xC000`.
    pub fn powerup(&mut self)
        ensures
            final(self)@ == old(self)@.with_cpu(old(self).cpu.reset_to(crate::cpu::HARNESS_ENTRY)),
    {
        self.cpu.powerup();
    }

    /// Resets the processor and starts the program where the reset vector
    /// points.
    pub fn reset(&mut self)
        ensures
            final(self)@ == old(self)@.reset(),
    {
        self.cpu.reset(&mut self.bus, &mut self.ppu);
    }

    /// Whether the next tick decodes a new instruction.
    pub fn sync(&self) -> (boundary: bool)
        ensures
            boundary == (self@.cpu.cycles_remaining == 0),
    {
        self.cpu.sync()
    }

    /// The trace line of the instruction that the processor is about to
    /// execute, or nothing where the opcode has no instruction.
    pub fn trace_line(&self) -> (line: Option<String>)
        ensures
            match line {
                Some(text) => self@.trace_line() == Some(text@),
                None => self@.trace_line() is None,
            },
    {
        self.cpu.trace_line(&self.bus, &self.ppu)
    }

    /// One tick of the processor and three dots of the picture unit. Reports
    /// whether the tick executed an instruction.
    pub fn clock(&mut self) -> (r: Result<bool, UnimplementedOpcode>)
        ensures
            final(self)@ == old(self)@.clock(),
            r == old(self)@.cycle_result(),
            final(self)@.ppu.wf(),
    {
        let r = self.cpu.cycle(&mut self.bus, &mut self.ppu);
        proof {
            self.ppu@.lemma_three_dots();
        }
        self.ppu.dot();
        self.ppu.dot();
        self.ppu.dot();
        r
    }

    /// Ticks `ticks` times, or up to and through the tick that meets an
    /// opcode without an instruction.
    pub fn run(&mut self, ticks: u64) -> (r: Result<(), UnimplementedOpcode>)
        ensures
            final(self)@ == old(self)@.run(ticks as nat).state,
            r == old(self)@.run(ticks as nat).outcome(),
    {
        let mut done: u64 = 0;
        while done < ticks
            invariant
                done <= ticks,
                self@ == old(self)@.run(done as nat).state,
                old(self)@.run(done as nat).halted is None,
            decreases ticks - done,
        {
            let ticked = self.clock();
            done = done + 1;
            match ticked {
                Err(e) => {
                    proof {
                        old(self)@.lemma_run_stopped(done as nat, ticks as nat);
                    }
                    return Err(e);
                },
                Ok(_) => {},
            }
        }
        Ok(())
    }

    /// Ticks until the next tick decodes a new instruction.
    fn run_to_boundary(&mut self)
        ensures
            final(self)@ == old(self)@.run(old(self)@.cpu.cycles_remaining as nat).state,
            old(self)@.run(old(self)@.cpu.cycles_remaining as nat).halted is None,
            final(self)@.cpu.cycles_remaining == 0,
    {
        let ghost mut done: nat = 0;
        while !self.cpu.sync()
            invariant
                self@ == old(self)@.run(done).state,
                old(self)@.run(done).halted is None,
                done + self.cpu.cycles_remaining == old(self)@.cpu.cycles_remaining,
            decreases self.cpu.cycles_remaining,
        {
            let _ = self.clock();
            proof {
                done = done + 1;
            }
        }
    }

    /// Ticks up to the next instruction and through the tick that executes
    /// it.
    pub fn single_step(&mut self) -> (r: Result<(), UnimplementedOpcode>)
        ensures
            final(self)@ == old(self)@.run(old(self)@.ticks_to_step()).state,
            r == old(self)@.run(old(self)@.ticks_to_step()).outcome(),
    {
        self.run_to_boundary();
        match self.clock() {
            Err(e) => Err(e),
            Ok(_) => Ok(()),
        }
    }

    /// Ticks as `single_step` does, and hands out the trace line of the
    /// instruction that it executes.
    pub fn traced_step(&mut self) -> (r: Result<String, UnimplementedOpcode>)
        ensures
            final(self)@ == old(self)@.run(old(self)@.ticks_to_step()).state,
            match r {
                Ok(line) => old(self)@.run(old(self)@.ticks_to_step()).outcome() is Ok
                    && old(self)@.run(old(self)@.cpu.cycles_remaining as nat).state.trace_line()
                    == Some(line@),
                Err(e) => old(self)@.run(old(self)@.ticks_to_step()).outcome() == Err::<
                    (),
                    UnimplementedOpcode,
                >(e),
            },
    {
        self.run_to_boundary();
        let line = self.trace_line();
        match self.clock() {
            Err(e) => Err(e),
            Ok(_) => match line {
                Some(text) => Ok(text),
                None => vstd::pervasive::unreached(),
            },
        }
    }

    /// Ticks until the picture unit reports the end of a frame, and lowers
    /// the frame latch. A latch that is up already ends the call at once.
    pub fn single_frame(&mut self) -> (r: Result<(), UnimplementedOpcode>)
        ensures
            r == old(self)@.run(old(self)@.ppu.ticks_to_frame()).outcome(),
            final(self)@ == (match r {
                Ok(_) => old(self)@.run(old(self)@.ppu.ticks_to_frame()).state.latch_down(),
                Err(_) => old(self)@.run(old(self)@.ppu.ticks_to_frame()).state,
            }),
    {
        let ghost start = self@;
        let ghost mut done: nat = 0;
        let mut frame = self.ppu.sync();
        while !frame
            invariant
                start == old(self)@,
                start.ppu.wf(),
                self@.ppu.wf(),
                start.run(done).halted is None,
                frame ==> done == start.ppu.ticks_to_frame(),
                frame ==> self@ == start.run(done).state.latch_down(),
                !frame ==> self@ == start.run(done).state,
                !frame ==> !start.ppu.new_frame && !self@.ppu.new_frame,
                !frame ==> self@.ppu.dots_done() == start.ppu.dots_done() + 3 * done,
            decreases
                    if frame {
                        0
                    } else {
                        FRAME_DOTS - self@.ppu.dots_done()
                    },
        {
            proof {
                self@.lemma_clock_raster();
                assert(self@.ppu.dots_done() < FRAME_DOTS);
            }
            let ticked = self.clock();
            proof {
                done = done + 1;
                assert(done <= start.ppu.ticks_to_frame());
            }
            match ticked {
                Err(e) => {
                    proof {
                        assert(start.run(done).halted == Some(e));
                        start.lemma_run_stopped(done, start.ppu.ticks_to_frame());
                    }
                    return Err(e);
                },
                Ok(_) => {},
            }
            frame = self.ppu.sync();
        }
        Ok(())
    }
}

} // verus!
