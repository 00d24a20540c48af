use vstd::prelude::*;

verus! {

/// Combines a low and a high byte into a 16-bit word, little-endian.
pub fn to_u16(l: u8, h: u8) -> (r: u16)
    ensures
        r == l + h * 256,
        r % 256 == l,
        r / 256 == h,
{
    let r: u16 = (l as u16) + (h as u16) * 256;
    r
}

} // verus!
