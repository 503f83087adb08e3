//! The processor's memory fabric: 2 KiB of internal memory mirrored across
//! 8 KiB, the picture unit's register ports mirrored every eight bytes, and the
//! cartridge's program window.

use vstd::prelude::*;
use crate::cartridge::{prg_byte, Cartridge, CartridgeView};
use crate::ppu::{PpuView, PPU};

verus! {

/// The size of the internal memory.
pub const RAM_SIZE: usize = 0x800;

/// The device that an address selects.
#[derive(Clone, Copy, PartialEq, Eq, Structural, Debug)]
pub enum Region {
    /// `0x0000..=0x1FFF`: internal memory, mirrored every `0x0800`.
    Ram,
    /// `0x2000..=0x3FFF`: the picture unit's ports, mirrored every 8.
    Ppu,
    /// `0x8000..=0xFFFF`: the cartridge's program memory.
    Cartridge,
    /// `0x4000..=0x7FFF`: no device answers.
    Unmapped,
}

/// The direction of a bus access.
#[derive(Clone, Copy, PartialEq, Eq, Structural, Debug)]
pub enum BusOp {
    /// A read.
    Read,
    /// A write.
    Write,
}

/// An access that no device answered.
#[derive(Clone, Copy, PartialEq, Eq, Structural, Debug)]
pub struct BusFault {
    /// The address that was accessed.
    pub addr: u16,
    /// Whether it was read or written.
    pub op: BusOp,
}

/// The bus as plain values.
#[verifier::ext_equal]
pub struct BusView {
    /// The internal memory.
    pub ram: Seq<u8>,
    /// The cartridge in the slot.
    pub cartridge: CartridgeView,
    /// How many accesses no device answered, modulo 2^64.
    pub faults: u64,
    /// The latest such access.
    pub last_fault: Option<BusFault>,
}

/// The bus. It owns the cartridge and the internal memory; the picture unit
/// is lent to it for each access.
#[derive(Debug)]
pub struct Bus {
    cartridge: Cartridge,
    ram: Vec<u8>,
    faults: u64,
    last_fault: Option<BusFault>,
}

/// The address decoder.
pub open spec fn spec_decode(addr: u16) -> Region {
    if addr < 0x2000 {
        Region::Ram
    } else if addr < 0x4000 {
        Region::Ppu
    } else if addr < 0x8000 {
        Region::Unmapped
    } else {
        Region::Cartridge
    }
}

#[verifier::when_used_as_spec(spec_decode)]
pub fn decode(addr: u16) -> (region: Region)
    ensures
        region == spec_decode(addr),
{
    if addr < 0x2000 {
        Region::Ram
    } else if addr < 0x4000 {
        Region::Ppu
    } else if addr < 0x8000 {
        Region::Unmapped
    } else {
        Region::Cartridge
    }
}

impl BusView {
    /// The internal memory has its size and the cartridge is sound.
    pub open spec fn wf(self) -> bool {
        &&& self.ram.len() == RAM_SIZE
        &&& self.cartridge.wf()
    }

    /// A bus with zeroed internal memory around a cartridge, and no fault
    /// counted yet.
    pub open spec fn around(cartridge: CartridgeView) -> BusView {
        BusView {
            ram: Seq::new(RAM_SIZE as nat, |i: int| 0u8),
            cartridge,
            faults: 0,
            last_fault: None,
        }
    }

    /// The bus after an access that no device answered: the access is
    /// counted and remembered.
    pub open spec fn faulted(self, addr: u16, op: BusOp) -> BusView {
        BusView {
            faults: self.faults.wrapping_add(1),
            last_fault: Some(BusFault { addr, op }),
            ..self
        }
    }

    /// The byte that a read of `addr` returns. Where no device answers it is
    /// zero.
    pub open spec fn peek(self, ppu: PpuView, addr: u16) -> u8 {
        match spec_decode(addr) {
            Region::Ram => self.ram[(addr % 0x800) as int],
            Region::Ppu => ppu.registers[(addr % 8) as int],
            Region::Cartridge => prg_byte(self.cartridge, (addr % 0x8000) as u16),
            Region::Unmapped => 0,
        }
    }

    /// The bus after a read of `addr`: unchanged, unless no device answered.
    pub open spec fn after_read(self, addr: u16) -> BusView {
        if spec_decode(addr) == Region::Unmapped {
            self.faulted(addr, BusOp::Read)
        } else {
            self
        }
    }

    /// The bus after a write of `value` to `addr`. Internal memory takes the
    /// byte; the cartridge drops it; where no device answers the write is
    /// dropped too, and counted.
    pub open spec fn after_write(self, addr: u16, value: u8) -> BusView {
        match spec_decode(addr) {
            Region::Ram => BusView { ram: self.ram.update((addr % 0x800) as int, value), ..self },
            Region::Unmapped => self.faulted(addr, BusOp::Write),
            _ => self,
        }
    }
}

/// The picture unit after a bus write of `value` to `addr`.
pub open spec fn ppu_after_write(ppu: PpuView, addr: u16, value: u8) -> PpuView {
    if spec_decode(addr) == Region::Ppu {
        ppu.with_register((addr % 8) as u16, value)
    } else {
        ppu
    }
}

impl View for Bus {
    type V = BusView;

    closed spec fn view(&self) -> BusView {
        BusView {
            ram: self.ram@,
            cartridge: self.cartridge@,
            faults: self.faults,
            last_fault: self.last_fault,
        }
    }
}

impl Bus {
    #[verifier::type_invariant]
    spec fn ram_has_its_size(&self) -> bool {
        self.ram@.len() == RAM_SIZE
    }

    /// A bus with zeroed internal memory around a cartridge.
    pub fn new(cartridge: Cartridge) -> (bus: Bus)
        ensures
            bus@ == BusView::around(cartridge@),
    {
        Bus { cartridge, ram: vec![0u8; RAM_SIZE], faults: 0, last_fault: None }
    }

    /// How many accesses no device answered.
    pub fn faults(&self) -> (n: u64)
        ensures
            n == self@.faults,
    {
        self.faults
    }

    /// The latest access that no device answered.
    pub fn last_fault(&self) -> (fault: Option<BusFault>)
        ensures
            fault == self@.last_fault,
    {
        self.last_fault
    }

    fn fault(&mut self, addr: u16, op: BusOp)
        ensures
            final(self)@ == old(self)@.faulted(addr, op),
    {
        proof {
            use_type_invariant(&*self);
        }
        self.faults = self.faults.wrapping_add(1);
        self.last_fault = Some(BusFault { addr, op });
    }

    /// The byte that a read of `addr` would return, without the read: nothing
    /// is counted and no device notices.
    pub fn peek(&self, ppu: &PPU, addr: u16) -> (value: u8)
        ensures
            value == self@.peek(ppu@, addr),
    {
        proof {
            use_type_invariant(self);
        }
        match decode(addr) {
            Region::Ram => self.ram[(addr % 0x800) as usize],
            Region::Ppu => ppu.register(addr % 8),
            Region::Cartridge => self.cartridge.read_prg(addr % 0x8000),
            Region::Unmapped => 0,
        }
    }

    /// One read by the processor.
    pub fn read_cpu(&mut self, ppu: &mut PPU, addr: u16) -> (value: u8)
        ensures
            value == old(self)@.peek(old(ppu)@, addr),
            final(self)@ == old(self)@.after_read(addr),
            final(ppu)@ == old(ppu)@,
    {
        proof {
            use_type_invariant(&*self);
        }
        match decode(addr) {
            Region::Ram => self.ram[(addr % 0x800) as usize],
            Region::Ppu => ppu.get_regsiter(addr % 8),
            Region::Cartridge => self.cartridge.read_prg(addr % 0x8000),
            Region::Unmapped => {
                self.fault(addr, BusOp::Read);
                0
            },
        }
    }

    /// One write by the processor.
    pub fn write_cpu(&mut self, ppu: &mut PPU, addr: u16, val: u8)
        ensures
            final(self)@ == old(self)@.after_write(addr, val),
            final(ppu)@ == ppu_after_write(old(ppu)@, addr, val),
    {
        proof {
            use_type_invariant(&*self);
        }
        match decode(addr) {
            Region::Ram => {
                self.ram[(addr % 0x800) as usize] = val;
            },
            Region::Ppu => {
                ppu.set_regsiter(addr % 8, val);
            },
            Region::Cartridge => {
                self.cartridge.write_prg(addr % 0x8000, val);
            },
            Region::Unmapped => {
                self.fault(addr, BusOp::Write);
            },
        }
    }
}

} // verus!
