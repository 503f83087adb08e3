//! The cartridge: an iNES image split into its program and character banks.

use vstd::prelude::*;
use vstd::slice::{slice_subrange, slice_to_vec};

verus! {

/// The length of the header that opens an iNES image.
pub const HEADER_LEN: usize = 16;

/// The size of one block of program memory: 16 KiB.
pub const PRG_BLOCK: usize = 0x4000;

/// The size of one block of character memory: 8 KiB.
pub const CHR_BLOCK: usize = 0x2000;

/// Why an image is not a cartridge.
#[derive(Clone, Copy, PartialEq, Eq, Structural, Debug)]
pub enum RomLoadError {
    /// The image holds fewer than sixteen bytes.
    BadHeader,
    /// The image ends before the program or the character payload does.
    Truncated,
}

/// What the header says of the payloads.
#[derive(Clone, Copy, Debug)]
struct Header {
    prg_blocks: u8,
    chr_blocks: u8,
}

/// A cartridge as plain values.
#[verifier::ext_equal]
pub struct CartridgeView {
    /// The number of 16 KiB program blocks.
    pub prg_blocks: u8,
    /// The number of 8 KiB character blocks.
    pub chr_blocks: u8,
    /// Program memory.
    pub prg: Seq<u8>,
    /// Character memory.
    pub chr: Seq<u8>,
}

/// A cartridge: its header and its two payloads.
#[derive(Debug)]
pub struct Cartridge {
    header: Header,
    prg: Vec<u8>,
    chr: Vec<u8>,
}

/// The length of an image's program payload, from its header.
pub open spec fn prg_len(image: Seq<u8>) -> int {
    PRG_BLOCK * image[4]
}

/// The length of an image's character payload, from its header.
pub open spec fn chr_len(image: Seq<u8>) -> int {
    CHR_BLOCK * image[5]
}

/// What an image holds: byte 4 counts the program blocks and byte 5 the
/// character blocks; the program payload follows the sixteen header bytes and
/// the character payload follows it. No trainer stands between them, the magic
/// number is not examined, and what follows the payloads is ignored.
pub open spec fn parse_image(image: Seq<u8>) -> Result<CartridgeView, RomLoadError> {
    if image.len() < HEADER_LEN {
        Err(RomLoadError::BadHeader)
    } else if image.len() < HEADER_LEN + prg_len(image) + chr_len(image) {
        Err(RomLoadError::Truncated)
    } else {
        Ok(
            CartridgeView {
                prg_blocks: image[4],
                chr_blocks: image[5],
                prg: image.subrange(HEADER_LEN as int, HEADER_LEN + prg_len(image)),
                chr: image.subrange(
                    HEADER_LEN + prg_len(image),
                    HEADER_LEN + prg_len(image) + chr_len(image),
                ),
            },
        )
    }
}

/// The byte that program memory shows at `addr`: the first bank, mirrored
/// every 16 KiB. A cartridge without program memory shows zero.
pub open spec fn prg_byte(c: CartridgeView, addr: u16) -> u8 {
    if addr % 0x4000 < c.prg.len() {
        c.prg[(addr % 0x4000) as int]
    } else {
        0
    }
}

impl View for Cartridge {
    type V = CartridgeView;

    closed spec fn view(&self) -> CartridgeView {
        CartridgeView {
            prg_blocks: self.header.prg_blocks,
            chr_blocks: self.header.chr_blocks,
            prg: self.prg@,
            chr: self.chr@,
        }
    }
}

impl CartridgeView {
    /// The payloads are as long as the header says.
    pub open spec fn wf(self) -> bool {
        &&& self.prg.len() == PRG_BLOCK * self.prg_blocks
        &&& self.chr.len() == CHR_BLOCK * self.chr_blocks
    }
}

impl Cartridge {
    #[verifier::type_invariant]
    spec fn payloads_match_header(&self) -> bool {
        &&& self.prg@.len() == PRG_BLOCK * self.header.prg_blocks
        &&& self.chr@.len() == CHR_BLOCK * self.header.chr_blocks
    }

    /// Reads a cartridge out of the bytes of an iNES image.
    pub fn new(image: &[u8]) -> (r: Result<Cartridge, RomLoadError>)
        ensures
            match r {
                Ok(c) => parse_image(image@) == Ok::<CartridgeView, RomLoadError>(c@) && c@.wf(),
                Err(e) => parse_image(image@) == Err::<CartridgeView, RomLoadError>(e),
            },
    {
        if image.len() < HEADER_LEN {
            return Err(RomLoadError::BadHeader);
        }
        let header = Header { prg_blocks: image[4], chr_blocks: image[5] };
        let prg_size: usize = PRG_BLOCK * header.prg_blocks as usize;
        let chr_size: usize = CHR_BLOCK * header.chr_blocks as usize;
        if image.len() - HEADER_LEN < prg_size || image.len() - HEADER_LEN - prg_size < chr_size {
            return Err(RomLoadError::Truncated);
        }
        let prg = slice_to_vec(slice_subrange(image, HEADER_LEN, HEADER_LEN + prg_size));
        let chr = slice_to_vec(
            slice_subrange(image, HEADER_LEN + prg_size, HEADER_LEN + prg_size + chr_size),
        );
        Ok(Cartridge { header, prg, chr })
    }

    /// The number of 16 KiB program blocks.
    pub fn prg_blocks(&self) -> (n: u8)
        ensures
            n == self@.prg_blocks,
    {
        self.header.prg_blocks
    }

    /// The number of 8 KiB character blocks.
    pub fn chr_blocks(&self) -> (n: u8)
        ensures
            n == self@.chr_blocks,
    {
        self.header.chr_blocks
    }

    /// Reads program memory.
    pub fn read_prg(&self, addr: u16) -> (b: u8)
        ensures
            b == prg_byte(self@, addr),
            self@.wf(),
    {
        proof {
            use_type_invariant(self);
        }
        let offset = (addr % 0x4000) as usize;
        if offset < self.prg.len() {
            self.prg[offset]
        } else {
            0
        }
    }

    /// Accepts a write to program memory and drops it: this cartridge has no
    /// writable register behind the window.
    pub fn write_prg(&mut self, addr: u16, value: u8)
        ensures
            *final(self) == *old(self),
        no_unwind
    {
    }
}

} // verus!
