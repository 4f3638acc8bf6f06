//! Character classification helpers.

use vstd::prelude::*;

verus! {

/// Whether a character lies in one of the CJK ideograph blocks.
pub open spec fn spec_is_cjk(c: char) -> bool {
    let v = c as u32;
    ||| 0x3400 <= v && v <= 0x4dbf
    ||| 0x4e00 <= v && v <= 0x9fff
    ||| 0xf900 <= v && v <= 0xfaff
    ||| 0x20000 <= v && v <= 0x2a6df
    ||| 0x2a700 <= v && v <= 0x2b73f
    ||| 0x2b740 <= v && v <= 0x2b81f
    ||| 0x2b820 <= v && v <= 0x2ceaf
    ||| 0x2f800 <= v && v <= 0x2fa1f
}

/// CJK ideographs render double width, so callers treat them as wide
/// cells.
pub fn is_cjk(c: char) -> (r: bool)
    ensures
        r == spec_is_cjk(c),
{
    let v = c as u32;
    (0x3400 <= v && v <= 0x4dbf) || (0x4e00 <= v && v <= 0x9fff) || (0xf900 <= v && v <= 0xfaff)
        || (0x20000 <= v && v <= 0x2a6df) || (0x2a700 <= v && v <= 0x2b73f) || (0x2b740 <= v && v
        <= 0x2b81f) || (0x2b820 <= v && v <= 0x2ceaf) || (0x2f800 <= v && v <= 0x2fa1f)
}

} // verus!
