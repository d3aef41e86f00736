//! Bitmask codec: set, clear and query a single-bit flag inside an integer
//! mask. The same algorithm serves the 8-bit LED and report-mode masks and
//! the 16-bit button mask.

use vstd::prelude::*;

verus! {

/// The mask after turning the bits of `bit` on or off.
pub open spec fn spec_set_bit8(mask: u8, bit: u8, on: bool) -> u8 {
    if on {
        mask | bit
    } else {
        mask & !bit
    }
}

/// Whether every bit of `bit` is present in `mask`.
pub open spec fn spec_get_bit8(mask: u8, bit: u8) -> bool {
    mask & bit == bit
}

pub open spec fn spec_set_bit16(mask: u16, bit: u16, on: bool) -> u16 {
    if on {
        mask | bit
    } else {
        mask & !bit
    }
}

pub open spec fn spec_get_bit16(mask: u16, bit: u16) -> bool {
    mask & bit == bit
}

pub fn set_bit8(mask: u8, bit: u8, on: bool) -> (r: u8)
    ensures
        r == spec_set_bit8(mask, bit, on),
{
    if on {
        mask | bit
    } else {
        mask & !bit
    }
}

pub fn get_bit8(mask: u8, bit: u8) -> (r: bool)
    ensures
        r == spec_get_bit8(mask, bit),
{
    mask & bit == bit
}

pub fn set_bit16(mask: u16, bit: u16, on: bool) -> (r: u16)
    ensures
        r == spec_set_bit16(mask, bit, on),
{
    if on {
        mask | bit
    } else {
        mask & !bit
    }
}

pub fn get_bit16(mask: u16, bit: u16) -> (r: bool)
    ensures
        r == spec_get_bit16(mask, bit),
{
    mask & bit == bit
}

/// Law: setting a flag and then clearing it leaves the original mask cleared
/// of the flag's bits; a just-set flag reads back as present; a just-cleared
/// nonzero flag reads back as absent.
pub proof fn lemma_set_bit_round_trip8(m: u8, f: u8)
    ensures
        spec_set_bit8(spec_set_bit8(m, f, true), f, false) == m & !f,
        spec_get_bit8(spec_set_bit8(m, f, true), f),
        f != 0 ==> !spec_get_bit8(spec_set_bit8(m, f, false), f),
{
    assert((m | f) & !f == m & !f) by (bit_vector);
    assert((m | f) & f == f) by (bit_vector);
    assert(f != 0 ==> (m & !f) & f != f) by (bit_vector);
}

/// Law: the round trip above, for 16-bit masks.
pub proof fn lemma_set_bit_round_trip16(m: u16, f: u16)
    ensures
        spec_set_bit16(spec_set_bit16(m, f, true), f, false) == m & !f,
        spec_get_bit16(spec_set_bit16(m, f, true), f),
        f != 0 ==> !spec_get_bit16(spec_set_bit16(m, f, false), f),
{
    assert((m | f) & !f == m & !f) by (bit_vector);
    assert((m | f) & f == f) by (bit_vector);
    assert(f != 0 ==> (m & !f) & f != f) by (bit_vector);
}

} // verus!
