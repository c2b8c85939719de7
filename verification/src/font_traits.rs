//! The traits dictionary of a font: the symbolic traits it records as a
//! number.

use vstd::prelude::*;
use crate::symbolic::CTFontSymbolicTraits;

verus! {

/// The symbolic traits recorded as the signed 32-bit number `value`: the
/// same 32 bits, read as unsigned.
pub fn symbolic_traits_from_number(value: i32) -> (r: CTFontSymbolicTraits)
    ensures
        r == value as u32,
        r as int == (if value >= 0 { value as int } else { value as int + 0x1_0000_0000 }),
        r as i32 == value,
{
    let r = value as u32;
    assert(r as i32 == value) by (bit_vector)
        requires
            r == value as u32,
    ;
    assert(r as int == (if value >= 0 { value as int } else { value as int + 0x1_0000_0000 }))
        by (bit_vector)
        requires
            r == value as u32,
    ;
    r
}

} // verus!
