//! The decisions around the host's clipboard.
//!
//! Opening the clipboard fails while another program holds it, so it is
//! tried again after a pause, a bounded number of times. Text goes onto the
//! clipboard as UTF-16 ended by a zero, and comes off it in the same form.

use crate::utf16::{decode_lossy_range, encode, spec_decode_lossy, spec_encode, terminator};
use vstd::prelude::*;

verus! {

/// The clipboard format of Unicode text.
pub const CF_UNICODETEXT: u32 = 13;

/// How often opening the clipboard is tried at most.
pub const OPEN_ATTEMPTS: u32 = 10;

/// How many milliseconds pass between two tries.
pub const RETRY_DELAY_MS: u64 = 100;

/// What follows a try to open the clipboard.
#[derive(Debug, Clone, Copy, PartialEq, Eq)]
pub enum OpenDecision {
    /// The clipboard is open: go on.
    Proceed,
    /// Wait for [`RETRY_DELAY_MS`] and try again.
    Retry,
    /// Give up and report the failure of the last try.
    GiveUp,
}

/// What follows the try with the given number, the first being number one.
pub open spec fn spec_after_attempt(attempt: u32, opened: bool) -> OpenDecision {
    if opened {
        OpenDecision::Proceed
    } else if attempt >= OPEN_ATTEMPTS {
        OpenDecision::GiveUp
    } else {
        OpenDecision::Retry
    }
}

/// Decides what follows a try to open the clipboard.
pub fn after_attempt(attempt: u32, opened: bool) -> (decision: OpenDecision)
    ensures
        decision == spec_after_attempt(attempt, opened),
        decision is Retry ==> attempt < OPEN_ATTEMPTS,
{
    if opened {
        OpenDecision::Proceed
    } else if attempt >= OPEN_ATTEMPTS {
        OpenDecision::GiveUp
    } else {
        OpenDecision::Retry
    }
}

/// The code units that are placed on the clipboard for a text: its UTF-16
/// encoding and a zero.
pub fn units_for_text(text: &str) -> (units: Vec<u16>)
    ensures
        units@ == spec_encode(text@).push(0),
{
    let mut units = encode(text);
    units.push(0);
    units
}

/// The number of bytes that `units` code units take, or nothing where that
/// is more than can be addressed.
pub fn byte_size(units: usize) -> (bytes: Option<usize>)
    ensures
        match bytes {
            Some(size) => size == units * 2,
            None => units * 2 > usize::MAX,
        },
{
    if units <= usize::MAX / 2 {
        Some(units * 2)
    } else {
        None
    }
}

/// The code units before the first zero, or all of them where there is
/// none.
pub open spec fn spec_until_terminator(units: Seq<u16>) -> Seq<u16>
    decreases units.len(),
{
    if units.len() == 0 || units[0] == 0 {
        Seq::empty()
    } else {
        seq![units[0]] + spec_until_terminator(units.skip(1))
    }
}

/// The prefix before the first zero is what `spec_until_terminator` gives.
pub proof fn lemma_until_terminator(units: Seq<u16>, end: int)
    requires
        0 <= end <= units.len(),
        forall|i: int| 0 <= i < end ==> units[i] != 0,
        end < units.len() ==> units[end] == 0,
    ensures
        spec_until_terminator(units) == units.take(end),
    decreases end,
{
    if end > 0 {
        lemma_until_terminator(units.skip(1), end - 1);
    }
}

/// The text that the clipboard holds: what its code units encode up to the
/// first zero, with a replacement character for each surrogate that has no
/// partner.
pub fn text_from_units(units: &Vec<u16>) -> (text: String)
    ensures
        text@ == spec_decode_lossy(spec_until_terminator(units@)),
{
    let end = match terminator(units) {
        Some(at) => at,
        None => units.len(),
    };
    proof {
        lemma_until_terminator(units@, end as int);
    }
    decode_lossy_range(units, 0, end)
}

} // verus!
