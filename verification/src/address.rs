//! Addresses of the game's memory.

use vstd::prelude::*;

verus! {

/// The address `n` bytes on.
pub open spec fn offset_by(a: u32, n: u32) -> u32 {
    ((a + n) % 0x1_0000_0000) as u32
}

/// The address `n` bytes on.
pub fn at_offset(a: u32, n: u32) -> (r: u32)
    ensures
        r == offset_by(a, n),
{
    a.wrapping_add(n)
}

/// Addresses of 32 bits: after the last comes the first.
pub proof fn law_addresses_wrap(a: u32, n: u32)
    ensures
        a + n <= u32::MAX ==> offset_by(a, n) == a + n,
        a + n > u32::MAX ==> offset_by(a, n) == a + n - 0x1_0000_0000,
{
}

} // verus!
