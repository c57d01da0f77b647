//! Single-bit view of a 16-bit register value.

use vstd::prelude::*;

verus! {

/// True when bit `i` of `v` is set.
pub open spec fn bit_set(v: u16, i: u16) -> bool {
    v & (1u16 << i) != 0u16
}

/// `v` with bit `i` set to `on` and every other bit as it was.
pub open spec fn with_bit(v: u16, i: u16, on: bool) -> u16 {
    if on {
        v | (1u16 << i)
    } else {
        v & !(1u16 << i)
    }
}

/// Writing one bit changes that bit to the value written and leaves every
/// other bit as it was.
pub proof fn lemma_with_bit(v: u16, i: u16, on: bool, j: u16)
    requires
        i < 16,
        j < 16,
    ensures
        bit_set(with_bit(v, i, on), j) == if j == i {
            on
        } else {
            bit_set(v, j)
        },
{
    assert(bit_set(v | (1u16 << i), j) == (j == i || bit_set(v, j))) by (bit_vector)
        requires
            i < 16,
            j < 16,
    ;
    assert(bit_set(v & !(1u16 << i), j) == (j != i && bit_set(v, j))) by (bit_vector)
        requires
            i < 16,
            j < 16,
    ;
}

/// Reads bit `i` of `v`.
pub fn get_bit(v: u16, i: u16) -> (r: bool)
    requires
        i < 16,
    ensures
        r == bit_set(v, i),
{
    v & (1u16 << i) != 0
}

/// Returns `v` with bit `i` set to `on`.
pub fn put_bit(v: u16, i: u16, on: bool) -> (r: u16)
    requires
        i < 16,
    ensures
        r == with_bit(v, i, on),
{
    if on {
        v | (1u16 << i)
    } else {
        v & !(1u16 << i)
    }
}

} // verus!
