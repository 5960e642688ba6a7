//! UTF-16, the encoding in which the host's interfaces take and give text.

use crate::text::chars_of;
use vstd::prelude::*;
use vstd::utf8::is_scalar;

verus! {

/// `char::from_u32` gives the character of a Unicode scalar value, and
/// nothing for a number that is none: a surrogate, or one above `0x10FFFF`.
pub assume_specification[ char::from_u32 ](code: u32) -> (ch: Option<char>)
    ensures
        is_scalar(code) ==> ch == Some(code as char),
        !is_scalar(code) ==> ch is None,
;

/// What stands in a decoded text in place of a surrogate without its
/// partner.
pub const REPLACEMENT: char = '\u{FFFD}';

/// A code unit that opens a surrogate pair.
pub open spec fn spec_is_high_surrogate(unit: u16) -> bool {
    0xD800 <= unit <= 0xDBFF
}

/// A code unit that closes a surrogate pair.
pub open spec fn spec_is_low_surrogate(unit: u16) -> bool {
    0xDC00 <= unit <= 0xDFFF
}

/// The number that a surrogate pair encodes.
pub open spec fn spec_pair_code(high: u16, low: u16) -> int {
    0x1_0000 + (high - 0xD800) * 0x400 + (low - 0xDC00)
}

/// The UTF-16 code units of one character: the character itself where it
/// fits in 16 bits, and else a high and a low surrogate that hold the upper
/// and the lower ten bits of its distance from `0x10000`.
pub open spec fn spec_encode_char(ch: char) -> Seq<u16> {
    let code = ch as u32 as int;
    if code < 0x1_0000 {
        seq![code as u16]
    } else {
        seq![
            (0xD800 + (code - 0x1_0000) / 0x400) as u16,
            (0xDC00 + (code - 0x1_0000) % 0x400) as u16,
        ]
    }
}

/// The UTF-16 code units of a text.
pub open spec fn spec_encode(text: Seq<char>) -> Seq<u16>
    decreases text.len(),
{
    if text.len() == 0 {
        Seq::empty()
    } else {
        spec_encode(text.drop_last()) + spec_encode_char(text.last())
    }
}

/// How many code units the first character of `units` takes: two for a
/// surrogate pair, one for everything else.
pub open spec fn spec_first_width(units: Seq<u16>) -> int {
    if units.len() >= 2 && spec_is_high_surrogate(units[0]) && spec_is_low_surrogate(units[1]) {
        2
    } else {
        1
    }
}

/// The first character of `units`, or nothing where they begin with a
/// surrogate that has no partner.
pub open spec fn spec_first_char(units: Seq<u16>) -> Option<char> {
    if spec_first_width(units) == 2 {
        Some(spec_pair_code(units[0], units[1]) as char)
    } else if spec_is_high_surrogate(units[0]) || spec_is_low_surrogate(units[0]) {
        None
    } else {
        Some(units[0] as char)
    }
}

/// The text that code units encode, or nothing where a surrogate has no
/// partner.
pub open spec fn spec_decode(units: Seq<u16>) -> Option<Seq<char>>
    decreases units.len(),
{
    if units.len() == 0 {
        Some(Seq::empty())
    } else {
        match (spec_first_char(units), spec_decode(units.skip(spec_first_width(units)))) {
            (Some(first), Some(rest)) => Some(seq![first] + rest),
            _ => None,
        }
    }
}

/// The text that code units encode, with a replacement character for each
/// surrogate that has no partner.
pub open spec fn spec_decode_lossy(units: Seq<u16>) -> Seq<char>
    decreases units.len(),
{
    if units.len() == 0 {
        Seq::empty()
    } else {
        let first = match spec_first_char(units) {
            Some(ch) => ch,
            None => REPLACEMENT,
        };
        seq![first] + spec_decode_lossy(units.skip(spec_first_width(units)))
    }
}

/// Converts a text to UTF-16.
pub fn encode(text: &str) -> (units: Vec<u16>)
    ensures
        units@ == spec_encode(text@),
{
    let chars = chars_of(text);
    let mut units: Vec<u16> = Vec::new();
    let mut i: usize = 0;
    while i < chars.len()
        invariant
            i <= chars.len(),
            units@ == spec_encode(chars@.take(i as int)),
        decreases chars.len() - i,
    {
        let code: u32 = chars[i] as u32;
        if code < 0x1_0000 {
            units.push(code as u16);
        } else {
            let rest: u32 = code - 0x1_0000;
            units.push((0xD800 + rest / 0x400) as u16);
            units.push((0xDC00 + rest % 0x400) as u16);
        }
        i += 1;
        proof {
            let taken = chars@.take(i as int);
            assert(taken.drop_last() =~= chars@.take(i - 1));
        }
    }
    assert(chars@.take(chars@.len() as int) =~= chars@);
    units
}

/// The first character of the code units from `from` on, and how many units
/// it takes.
fn first_char(units: &Vec<u16>, from: usize, to: usize) -> (first: (Option<char>, usize))
    requires
        from < to <= units.len(),
    ensures
        first.0 == spec_first_char(units@.subrange(from as int, to as int)),
        first.1 == spec_first_width(units@.subrange(from as int, to as int)),
        from + first.1 <= to,
{
    let unit = units[from];
    if 0xD800 <= unit && unit <= 0xDBFF && from + 1 < to && 0xDC00 <= units[from + 1] && units[from
        + 1] <= 0xDFFF {
        let low = units[from + 1];
        let code: u32 = 0x1_0000 + (unit as u32 - 0xD800) * 0x400 + (low as u32 - 0xDC00);
        (char::from_u32(code), 2)
    } else if 0xD800 <= unit && unit <= 0xDFFF {
        (None, 1)
    } else {
        (char::from_u32(unit as u32), 1)
    }
}

/// Converts code units to a text. Fails where a surrogate has no partner.
pub fn decode(units: &Vec<u16>) -> (text: Option<String>)
    ensures
        match text {
            Some(decoded) => spec_decode(units@) == Some(decoded@),
            None => spec_decode(units@) is None,
        },
{
    assert(units@.subrange(0, units.len() as int) =~= units@);
    decode_range(units, 0, units.len())
}

/// Converts code units to a text, with a replacement character for each
/// surrogate that has no partner.
pub fn decode_lossy(units: &Vec<u16>) -> (text: String)
    ensures
        text@ == spec_decode_lossy(units@),
{
    assert(units@.subrange(0, units.len() as int) =~= units@);
    decode_lossy_range(units, 0, units.len())
}

/// Converts the code units from `from` up to, not including, `to` to a
/// text. Fails where a surrogate has no partner.
pub(crate) fn decode_range(units: &Vec<u16>, from: usize, to: usize) -> (text: Option<String>)
    requires
        from <= to <= units.len(),
    ensures
        match text {
            Some(decoded) => spec_decode(units@.subrange(from as int, to as int)) == Some(
                decoded@,
            ),
            None => spec_decode(units@.subrange(from as int, to as int)) is None,
        },
{
    let ghost all = units@.subrange(from as int, to as int);
    let mut text = String::new();
    let mut i: usize = from;
    while i < to
        invariant
            from <= i <= to <= units.len(),
            all == units@.subrange(from as int, to as int),
            spec_decode(all) == match spec_decode(units@.subrange(i as int, to as int)) {
                Some(rest) => Some(text@ + rest),
                None => None,
            },
        decreases to - i,
    {
        let ghost part = units@.subrange(i as int, to as int);
        let (first, width) = first_char(units, i, to);
        proof {
            assert(part.skip(width as int) =~= units@.subrange(i + width, to as int));
        }
        match first {
            Some(ch) => {
                text.push(ch);
            },
            None => {
                return None;
            },
        }
        i += width;
    }
    Some(text)
}

/// Converts the code units from `from` up to, not including, `to` to a
/// text, with a replacement character for each surrogate that has no
/// partner.
pub(crate) fn decode_lossy_range(units: &Vec<u16>, from: usize, to: usize) -> (text: String)
    requires
        from <= to <= units.len(),
    ensures
        text@ == spec_decode_lossy(units@.subrange(from as int, to as int)),
{
    let ghost all = units@.subrange(from as int, to as int);
    let mut text = String::new();
    let mut i: usize = from;
    while i < to
        invariant
            from <= i <= to <= units.len(),
            all == units@.subrange(from as int, to as int),
            spec_decode_lossy(all) == text@ + spec_decode_lossy(
                units@.subrange(i as int, to as int),
            ),
        decreases to - i,
    {
        let ghost part = units@.subrange(i as int, to as int);
        let (first, width) = first_char(units, i, to);
        let ch = match first {
            Some(ch) => ch,
            None => REPLACEMENT,
        };
        text.push(ch);
        proof {
            assert(part.skip(width as int) =~= units@.subrange(i + width, to as int));
        }
        i += width;
    }
    text
}

/// The index of the first zero among the code units, if there is one.
pub fn terminator(units: &Vec<u16>) -> (index: Option<usize>)
    ensures
        match index {
            Some(at) => at < units.len() && units[at as int] == 0 && forall|i: int|
                0 <= i < at ==> units[i] != 0,
            None => forall|i: int| 0 <= i < units.len() ==> units[i] != 0,
        },
{
    let mut i: usize = 0;
    while i < units.len()
        invariant
            i <= units.len(),
            forall|k: int| 0 <= k < i ==> units[k] != 0,
        decreases units.len() - i,
    {
        if units[i] == 0 {
            return Some(i);
        }
        i += 1;
    }
    None
}

} // verus!
