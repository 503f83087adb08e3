//! The processor status byte, bit-packed as `NV-BDIZC`, and its flags.

use vstd::prelude::*;

verus! {

/// One bit of the status byte.
#[derive(Clone, Copy, PartialEq, Eq, Structural, Debug)]
pub enum Flag {
    /// Bit 0.
    Carry,
    /// Bit 1.
    Zero,
    /// Bit 2: interrupt-disable.
    Interrupt,
    /// Bit 3.
    Decimal,
    /// Bit 4: no latch of its own, it exists only in bytes that were pushed.
    Break,
    /// Bit 5: reads as one.
    Unused,
    /// Bit 6.
    Overflow,
    /// Bit 7.
    Negative,
}

/// The bits a pull from the stack leaves as they are: Break and the unused bit.
pub const KEPT_ON_PULL: u8 = 0x30;

/// The bits a pull from the stack takes from the popped byte.
pub const TAKEN_ON_PULL: u8 = 0xCF;

impl Flag {
    /// The flag's bit in the status byte.
    pub open spec fn spec_mask(self) -> u8 {
        match self {
            Flag::Carry => 0x01,
            Flag::Zero => 0x02,
            Flag::Interrupt => 0x04,
            Flag::Decimal => 0x08,
            Flag::Break => 0x10,
            Flag::Unused => 0x20,
            Flag::Overflow => 0x40,
            Flag::Negative => 0x80,
        }
    }

    #[verifier::when_used_as_spec(spec_mask)]
    pub fn mask(self) -> (m: u8)
        ensures
            m == self.spec_mask(),
    {
        match self {
            Flag::Carry => 0x01,
            Flag::Zero => 0x02,
            Flag::Interrupt => 0x04,
            Flag::Decimal => 0x08,
            Flag::Break => 0x10,
            Flag::Unused => 0x20,
            Flag::Overflow => 0x40,
            Flag::Negative => 0x80,
        }
    }
}

/// Whether flag `f` is set in status byte `p`.
pub open spec fn flag(p: u8, f: Flag) -> bool {
    p & f.mask() != 0
}

/// Status byte `p` with flag `f` forced to `value`.
pub open spec fn with_flag(p: u8, f: Flag, value: bool) -> u8 {
    if value {
        p | f.mask()
    } else {
        p & !f.mask()
    }
}

/// Whether bit 7 of a byte is set.
pub open spec fn spec_is_negative(value: u8) -> bool {
    value >= 0x80
}

/// Status byte `p` with Zero and Negative describing `value`.
pub open spec fn with_zn(p: u8, value: u8) -> u8 {
    with_flag(with_flag(p, Flag::Zero, value == 0), Flag::Negative, spec_is_negative(value))
}

/// The byte that a push of the status writes: Break and the unused bit forced
/// to one.
pub open spec fn pushed_status(p: u8) -> u8 {
    p | KEPT_ON_PULL
}

/// The status after a pull of `popped`: Break and the unused bit stay as they
/// are in `p`, the six others come from the popped byte.
pub open spec fn pulled_status(p: u8, popped: u8) -> u8 {
    (p & KEPT_ON_PULL) | (popped & TAKEN_ON_PULL)
}

pub fn test_flag(p: u8, f: Flag) -> (set: bool)
    ensures
        set == flag(p, f),
{
    p & f.mask() != 0
}

pub fn set_flag(p: u8, f: Flag) -> (r: u8)
    ensures
        r == with_flag(p, f, true),
{
    p | f.mask()
}

pub fn clear_flag(p: u8, f: Flag) -> (r: u8)
    ensures
        r == with_flag(p, f, false),
{
    p & !f.mask()
}

pub fn set_flag_to(p: u8, f: Flag, value: bool) -> (r: u8)
    ensures
        r == with_flag(p, f, value),
{
    if value {
        set_flag(p, f)
    } else {
        clear_flag(p, f)
    }
}

#[verifier::when_used_as_spec(spec_is_negative)]
pub fn is_negative(value: u8) -> (n: bool)
    ensures
        n == spec_is_negative(value),
{
    value >= 0x80
}

pub fn set_zn(p: u8, value: u8) -> (r: u8)
    ensures
        r == with_zn(p, value),
{
    set_flag_to(set_flag_to(p, Flag::Zero, value == 0), Flag::Negative, is_negative(value))
}

/// Setting or clearing bits under one mask changes no bit under a disjoint one.
proof fn lemma_masks(p: u8, m: u8, n: u8)
    by (bit_vector)
    requires
        m & n == 0,
    ensures
        (p | m) & n == p & n,
        (p & !m) & n == p & n,
{
}

/// A bit that was set reads as set, one that was cleared as clear.
proof fn lemma_own_mask(p: u8, m: u8)
    by (bit_vector)
    requires
        m != 0,
    ensures
        (p | m) & m != 0,
        (p & !m) & m == 0,
{
}

/// Two different single bits have nothing in common.
proof fn lemma_single_bits(m: u8, n: u8)
    by (bit_vector)
    requires
        m == 0x01 || m == 0x02 || m == 0x04 || m == 0x08 || m == 0x10 || m == 0x20 || m == 0x40
            || m == 0x80,
        n == 0x01 || n == 0x02 || n == 0x04 || n == 0x08 || n == 0x10 || n == 0x20 || n == 0x40
            || n == 0x80,
        m != n,
    ensures
        m & n == 0,
{
}

/// A flag reads back as it was written, and writing one flag leaves every other
/// flag as it was.
pub proof fn lemma_with_flag(p: u8, f: Flag, value: bool, g: Flag)
    ensures
        flag(with_flag(p, f, value), g) == (if g == f {
            value
        } else {
            flag(p, g)
        }),
{
    if g == f {
        lemma_own_mask(p, f.mask());
    } else {
        lemma_single_bits(f.mask(), g.mask());
        lemma_masks(p, f.mask(), g.mask());
    }
}

/// Whether two status bytes agree on Break and on the unused bit.
pub open spec fn same_kept_bits(p: u8, q: u8) -> bool {
    flag(p, Flag::Break) == flag(q, Flag::Break) && flag(p, Flag::Unused) == flag(q, Flag::Unused)
}

/// No write of another flag, and no pull, changes Break or the unused bit.
pub proof fn lemma_kept_bits()
    ensures
        forall|p: u8, f: Flag, value: bool|
            f != Flag::Break && f != Flag::Unused ==> same_kept_bits(
                p,
                #[trigger] with_flag(p, f, value),
            ),
        forall|p: u8, popped: u8| same_kept_bits(p, #[trigger] pulled_status(p, popped)),
{
    assert forall|p: u8, f: Flag, value: bool|
        f != Flag::Break && f != Flag::Unused implies same_kept_bits(
        p,
        #[trigger] with_flag(p, f, value),
    ) by {
        lemma_with_flag(p, f, value, Flag::Break);
        lemma_with_flag(p, f, value, Flag::Unused);
    }
    assert forall|p: u8, popped: u8| same_kept_bits(p, #[trigger] pulled_status(p, popped)) by {
        lemma_pulled_status(p, popped, Flag::Break);
        lemma_pulled_status(p, popped, Flag::Unused);
    }
}

/// Bit 7 of a byte, said three ways.
pub proof fn lemma_is_negative(value: u8)
    ensures
        spec_is_negative(value) == (value >> 7 == 1),
        spec_is_negative(value) == (value & 0x80 != 0),
{
    assert((value >= 0x80) == (value >> 7 == 1) && (value >= 0x80) == (value & 0x80 != 0))
        by (bit_vector);
}

/// A pull takes Carry, Zero, Interrupt, Decimal, Overflow and Negative from the
/// popped byte and keeps Break and the unused bit.
pub proof fn lemma_pulled_status(p: u8, popped: u8, g: Flag)
    ensures
        flag(pulled_status(p, popped), g) == (if g == Flag::Break || g == Flag::Unused {
            flag(p, g)
        } else {
            flag(popped, g)
        }),
{
    let m = g.mask();
    assert(m == 0x10 || m == 0x20 ==> (((p & 0x30) | (popped & 0xCF)) & m) == p & m)
        by (bit_vector);
    assert(m == 0x01 || m == 0x02 || m == 0x04 || m == 0x08 || m == 0x40 || m == 0x80 ==> (((p
        & 0x30) | (popped & 0xCF)) & m) == popped & m) by (bit_vector);
}

/// A pushed status byte has Break and the unused bit set and the six other
/// flags as they are.
pub proof fn lemma_pushed_status(p: u8, g: Flag)
    ensures
        flag(pushed_status(p), g) == (g == Flag::Break || g == Flag::Unused || flag(p, g)),
{
    let m = g.mask();
    assert(m == 0x10 || m == 0x20 ==> (p | 0x30) & m != 0) by (bit_vector);
    assert(m == 0x01 || m == 0x02 || m == 0x04 || m == 0x08 || m == 0x40 || m == 0x80 ==> (p
        | 0x30) & m == p & m) by (bit_vector);
}

} // verus!
