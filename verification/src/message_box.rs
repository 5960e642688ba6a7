//! Texts as the host's message box takes them.

use crate::utf16::{encode, spec_encode};
use vstd::prelude::*;

verus! {

/// Converts a text to UTF-16 and ends it with a zero.
pub fn encode_utf16(text: &str) -> (units: Vec<u16>)
    ensures
        units@ == spec_encode(text@).push(0),
{
    let mut units = encode(text);
    units.push(0);
    units
}

} // verus!
