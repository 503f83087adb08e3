//! The picture unit, as far as the processor needs it: a raster counter that
//! runs three dots to each processor tick, and eight register ports.

use vstd::prelude::*;

verus! {

/// The last dot of a scanline.
pub const LAST_DOT: u16 = 340;

/// The last scanline of a frame.
pub const LAST_LINE: u16 = 261;

/// The number of register ports.
pub const PORTS: u16 = 8;

/// The dots of one frame: 341 dots on each of 262 scanlines.
pub const FRAME_DOTS: u32 = 89342;

/// The picture unit as plain values.
#[verifier::ext_equal]
pub struct PpuView {
    /// The dot within the scanline, `0..=340`.
    pub screen_x: u16,
    /// The scanline, `0..=261`.
    pub screen_y: u16,
    /// Set when the counter wraps to the first dot of the first scanline,
    /// cleared when `sync` reports it.
    pub new_frame: bool,
    /// What the eight ports hold.
    pub registers: Seq<u8>,
}

/// The picture unit.
#[derive(Debug)]
pub struct PPU {
    screen_x: u16,
    screen_y: u16,
    new_frame: bool,
    registers: [u8; 8],
}

impl PpuView {
    /// The counter is on the screen and there are eight ports.
    pub open spec fn wf(self) -> bool {
        &&& self.screen_x <= LAST_DOT
        &&& self.screen_y <= LAST_LINE
        &&& self.registers.len() == PORTS
    }

    /// A unit at the first dot of the first scanline, its latch down and its
    /// ports zero.
    pub open spec fn at_origin() -> PpuView {
        PpuView {
            screen_x: 0,
            screen_y: 0,
            new_frame: false,
            registers: Seq::new(PORTS as nat, |i: int| 0u8),
        }
    }

    /// The counter one dot later. From the last dot of the last scanline it
    /// wraps to the first dot of the first one and raises the frame latch.
    pub open spec fn dot(self) -> PpuView {
        if self.screen_x < LAST_DOT {
            PpuView { screen_x: (self.screen_x + 1) as u16, ..self }
        } else if self.screen_y < LAST_LINE {
            PpuView { screen_x: 0, screen_y: (self.screen_y + 1) as u16, ..self }
        } else {
            PpuView { screen_x: 0, screen_y: 0, new_frame: true, ..self }
        }
    }

    /// The counter `n` dots later.
    pub open spec fn dots(self, n: nat) -> PpuView
        decreases n,
    {
        if n == 0 {
            self
        } else {
            self.dot().dots((n - 1) as nat)
        }
    }

    /// How many dots of the frame lie behind the counter.
    pub open spec fn dots_done(self) -> int {
        self.screen_y * (LAST_DOT + 1) + self.screen_x
    }

    /// Whether the counter and the latch are those of `other`.
    pub open spec fn same_raster(self, other: PpuView) -> bool {
        &&& self.screen_x == other.screen_x
        &&& self.screen_y == other.screen_y
        &&& self.new_frame == other.new_frame
    }

    /// The ticks of the processor until `sync` finds the frame latch up: none
    /// if it is up, else as many as it takes to run the dots of the frame that
    /// are left, three to a tick.
    pub open spec fn ticks_to_frame(self) -> nat {
        if self.new_frame {
            0
        } else {
            ((FRAME_DOTS - self.dots_done() + 2) / 3) as nat
        }
    }

    /// The unit with its frame latch down.
    pub open spec fn latch_down(self) -> PpuView {
        PpuView { new_frame: false, ..self }
    }

    /// The unit after a write of `value` to port `port`.
    pub open spec fn with_register(self, port: u16, value: u8) -> PpuView {
        PpuView { registers: self.registers.update(port as int, value), ..self }
    }
}

impl PpuView {
    /// Dots leave the ports alone, keep the counter on the screen, and never
    /// lower the latch.
    pub proof fn lemma_dots_keep(self, n: nat)
        requires
            self.wf(),
        ensures
            self.dots(n).wf(),
            self.dots(n).registers == self.registers,
            self.new_frame ==> self.dots(n).new_frame,
        decreases n,
    {
        if n > 0 {
            self.dot().lemma_dots_keep((n - 1) as nat);
        }
    }

    /// Short of the frame's end, `n` dots move the counter by `n` and leave
    /// the latch as it is; at the frame's end and beyond, the latch is up.
    pub proof fn lemma_dots_advance(self, n: nat)
        requires
            self.wf(),
        ensures
            self.dots_done() + n < FRAME_DOTS ==> self.dots(n).dots_done() == self.dots_done() + n
                && self.dots(n).new_frame == self.new_frame,
            self.dots_done() + n >= FRAME_DOTS ==> self.dots(n).new_frame,
        decreases n,
    {
        if n > 0 {
            self.dot().lemma_dots_advance((n - 1) as nat);
            self.dot().lemma_dots_keep((n - 1) as nat);
        }
    }

    /// Three dots are three single ones.
    pub proof fn lemma_three_dots(self)
        ensures
            self.dots(3) == self.dot().dot().dot(),
    {
        reveal_with_fuel(PpuView::dots, 4);
    }
}

impl View for PPU {
    type V = PpuView;

    closed spec fn view(&self) -> PpuView {
        PpuView {
            screen_x: self.screen_x,
            screen_y: self.screen_y,
            new_frame: self.new_frame,
            registers: self.registers@,
        }
    }
}

impl PPU {
    #[verifier::type_invariant]
    spec fn on_screen(&self) -> bool {
        self.screen_x <= LAST_DOT && self.screen_y <= LAST_LINE
    }

    /// A unit at the first dot of the first scanline, its latch down and its
    /// ports zero.
    pub fn new() -> (ppu: PPU)
        ensures
            ppu@ == PpuView::at_origin(),
            ppu@.wf(),
    {
        PPU { screen_x: 0, screen_y: 0, new_frame: false, registers: [0u8; 8] }
    }

    /// Writes a register port. The ports are plain storage here: what each
    /// does to the picture is not this unit's business yet.
    pub fn set_regsiter(&mut self, addr: u16, val: u8)
        requires
            addr < PORTS,
        ensures
            final(self)@ == old(self)@.with_register(addr, val),
            old(self)@.wf(),
            final(self)@.wf(),
    {
        proof {
            use_type_invariant(&*self);
        }
        self.registers[addr as usize] = val;
    }

    /// Reads a register port, which changes nothing.
    pub fn get_regsiter(&mut self, addr: u16) -> (val: u8)
        requires
            addr < PORTS,
        ensures
            val == old(self)@.registers[addr as int],
            *final(self) == *old(self),
            old(self)@.wf(),
    {
        proof {
            use_type_invariant(&*self);
        }
        self.registers[addr as usize]
    }

    /// What a register port holds.
    pub fn register(&self, addr: u16) -> (val: u8)
        requires
            addr < PORTS,
        ensures
            val == self@.registers[addr as int],
            self@.wf(),
    {
        proof {
            use_type_invariant(self);
        }
        self.registers[addr as usize]
    }

    /// Advances the raster counter by one dot.
    pub fn dot(&mut self)
        ensures
            final(self)@ == old(self)@.dot(),
            old(self)@.wf(),
            final(self)@.wf(),
    {
        proof {
            use_type_invariant(&*self);
        }
        if self.screen_x < LAST_DOT {
            self.screen_x = self.screen_x + 1;
        } else if self.screen_y < LAST_LINE {
            self.screen_x = 0;
            self.screen_y = self.screen_y + 1;
        } else {
            self.screen_x = 0;
            self.screen_y = 0;
            self.new_frame = true;
        }
    }

    /// Reports whether a frame has ended since the last report, and lowers the
    /// latch.
    pub fn sync(&mut self) -> (frame: bool)
        ensures
            frame == old(self)@.new_frame,
            final(self)@ == (PpuView { new_frame: false, ..old(self)@ }),
            old(self)@.wf(),
            final(self)@.wf(),
    {
        proof {
            use_type_invariant(&*self);
        }
        if self.new_frame {
            self.new_frame = false;
            return true;
        }
        false
    }

    /// Where the counter stands: the dot, then the scanline.
    pub fn current_dot(&self) -> (at: (u16, u16))
        ensures
            at == (self@.screen_x, self@.screen_y),
            self@.wf(),
    {
        proof {
            use_type_invariant(self);
        }
        (self.screen_x, self.screen_y)
    }
}

} // verus!
