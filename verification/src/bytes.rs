//! Bytes and 16-bit words: splitting, joining, pages and signed displacements.

use vstd::prelude::*;

verus! {

/// The low byte of a word.
pub open spec fn spec_lo_byte(w: u16) -> u8 {
    (w % 256) as u8
}

/// The high byte of a word, which is also the number of its page.
pub open spec fn spec_hi_byte(w: u16) -> u8 {
    (w / 256) as u8
}

/// The little-endian word made of a low and a high byte.
pub open spec fn spec_word(lo: u8, hi: u8) -> u16 {
    (hi * 256 + lo) as u16
}

/// A byte read as a two's-complement number.
pub open spec fn spec_signed(b: u8) -> i8 {
    if b < 128 {
        b as i8
    } else {
        (b - 256) as i8
    }
}

/// Whether two addresses lie on different 256-byte pages.
pub open spec fn spec_page_crossed(from: u16, to: u16) -> bool {
    spec_hi_byte(from) != spec_hi_byte(to)
}

/// The address of a stack slot: page one, offset by the stack pointer.
pub open spec fn spec_stack_addr(sp: u8) -> u16 {
    spec_word(sp, 1)
}

#[verifier::when_used_as_spec(spec_lo_byte)]
pub fn lo_byte(w: u16) -> (b: u8)
    ensures
        b == spec_lo_byte(w),
{
    (w % 256) as u8
}

#[verifier::when_used_as_spec(spec_hi_byte)]
pub fn hi_byte(w: u16) -> (b: u8)
    ensures
        b == spec_hi_byte(w),
{
    (w / 256) as u8
}

#[verifier::when_used_as_spec(spec_word)]
pub fn word(lo: u8, hi: u8) -> (w: u16)
    ensures
        w == spec_word(lo, hi),
{
    hi as u16 * 256 + lo as u16
}

#[verifier::when_used_as_spec(spec_signed)]
pub fn signed(b: u8) -> (d: i8)
    ensures
        d == spec_signed(b),
{
    if b < 128 {
        b as i8
    } else {
        (b as i16 - 256) as i8
    }
}

#[verifier::when_used_as_spec(spec_page_crossed)]
pub fn page_crossed(from: u16, to: u16) -> (crossed: bool)
    ensures
        crossed == spec_page_crossed(from, to),
{
    hi_byte(from) != hi_byte(to)
}

#[verifier::when_used_as_spec(spec_stack_addr)]
pub fn stack_addr(sp: u8) -> (addr: u16)
    ensures
        addr == spec_stack_addr(sp),
{
    word(sp, 1)
}

/// Splitting a word and joining the halves gives the word back.
pub proof fn lemma_word_of_halves(w: u16)
    ensures
        spec_word(spec_lo_byte(w), spec_hi_byte(w)) == w,
{
}

/// The stack lives at `0x0100 | sp`.
pub proof fn lemma_stack_addr_bits(sp: u8)
    ensures
        spec_stack_addr(sp) == 0x0100u16 | (sp as u16),
        0x0100 <= spec_stack_addr(sp) <= 0x01FF,
{
    assert((1u8 * 256 + sp) as u16 == 0x0100u16 | (sp as u16)) by (bit_vector);
}

} // verus!
