//! Building blocks for the texts that the library puts together.

use vstd::prelude::*;

verus! {

/// `String::push` appends the character to the end of the string and leaves
/// what stood before it unchanged.
pub assume_specification[ String::push ](text: &mut String, ch: char)
    ensures
        final(text)@ == old(text)@.push(ch),
;

/// The characters of a text, one by one.
pub(crate) fn chars_of(text: &str) -> (chars: Vec<char>)
    ensures
        chars@ == text@,
{
    let mut chars: Vec<char> = Vec::new();
    for ch in iter: text.chars()
        invariant
            iter.seq() == text@,
            chars@ == text@.take(iter.index()),
    {
        chars.push(ch);
    }
    chars
}

/// The text made of the characters from `from` up to, not including, `to`.
pub(crate) fn text_of(chars: &Vec<char>, from: usize, to: usize) -> (text: String)
    requires
        from <= to <= chars.len(),
    ensures
        text@ == chars@.subrange(from as int, to as int),
{
    let mut text = String::new();
    let mut i: usize = from;
    while i < to
        invariant
            from <= i <= to <= chars.len(),
            text@ == chars@.subrange(from as int, i as int),
        decreases to - i,
    {
        text.push(chars[i]);
        i += 1;
    }
    text
}

/// How many characters at the start of `text` meet `keep`, up to the first
/// that does not.
pub open spec fn leading(text: Seq<char>, keep: spec_fn(char) -> bool) -> int
    decreases text.len(),
{
    if text.len() > 0 && keep(text[0]) {
        1 + leading(text.drop_first(), keep)
    } else {
        0
    }
}

/// `leading` is the one index before which every character meets `keep` and
/// at which the text ends or a character fails it.
pub proof fn lemma_leading(text: Seq<char>, keep: spec_fn(char) -> bool, count: int)
    requires
        0 <= count <= text.len(),
        forall|i: int| 0 <= i < count ==> keep(#[trigger] text[i]),
        count < text.len() ==> !keep(text[count]),
    ensures
        leading(text, keep) == count,
    decreases count,
{
    if count > 0 {
        let rest = text.drop_first();
        assert forall|i: int| 0 <= i < count - 1 implies keep(#[trigger] rest[i]) by {}
        lemma_leading(rest, keep, count - 1);
    }
}

/// How many characters at the end of `text` meet `keep`, back to the last
/// that does not.
pub open spec fn trailing(text: Seq<char>, keep: spec_fn(char) -> bool) -> int
    decreases text.len(),
{
    if text.len() > 0 && keep(text.last()) {
        1 + trailing(text.drop_last(), keep)
    } else {
        0
    }
}

/// `trailing` is the one count for which every character of that many at
/// the end meets `keep` and the one before them, if there is one, fails it.
pub proof fn lemma_trailing(text: Seq<char>, keep: spec_fn(char) -> bool, count: int)
    requires
        0 <= count <= text.len(),
        forall|i: int| text.len() - count <= i < text.len() ==> keep(#[trigger] text[i]),
        count < text.len() ==> !keep(text[text.len() - count - 1]),
    ensures
        trailing(text, keep) == count,
    decreases count,
{
    if count > 0 {
        let rest = text.drop_last();
        assert forall|i: int| rest.len() - (count - 1) <= i < rest.len() implies keep(
            #[trigger] rest[i],
        ) by {}
        lemma_trailing(rest, keep, count - 1);
    }
}

/// A text without the white space at its start and at its end.
pub open spec fn spec_trim(text: Seq<char>) -> Seq<char> {
    let rest = text.skip(leading(text, whitespace()));
    rest.take(rest.len() - trailing(rest, whitespace()))
}

/// The characters that are not `stop`.
pub open spec fn other_than(stop: char) -> spec_fn(char) -> bool {
    |ch: char| ch != stop
}

/// The characters that are `ch`.
pub open spec fn only(ch: char) -> spec_fn(char) -> bool {
    |other: char| other == ch
}

/// White space, as Unicode's property `White_Space` defines it.
pub open spec fn spec_is_whitespace(ch: char) -> bool {
    let code = ch as u32;
    ||| 0x09 <= code <= 0x0D
    ||| code == 0x20
    ||| code == 0x85
    ||| code == 0xA0
    ||| code == 0x1680
    ||| 0x2000 <= code <= 0x200A
    ||| code == 0x2028
    ||| code == 0x2029
    ||| code == 0x202F
    ||| code == 0x205F
    ||| code == 0x3000
}

/// The characters that are white space.
pub open spec fn whitespace() -> spec_fn(char) -> bool {
    |ch: char| spec_is_whitespace(ch)
}

/// Tells whether a character is white space.
pub fn is_whitespace(ch: char) -> (white: bool)
    ensures
        white == spec_is_whitespace(ch),
{
    let code: u32 = ch as u32;
    (0x09 <= code && code <= 0x0D) || code == 0x20 || code == 0x85 || code == 0xA0 || code
        == 0x1680 || (0x2000 <= code && code <= 0x200A) || code == 0x2028 || code == 0x2029
        || code == 0x202F || code == 0x205F || code == 0x3000
}

/// The index of the first character at or after `from` that is `stop`, or
/// the length of the text where there is none.
pub(crate) fn find_from(chars: &Vec<char>, from: usize, stop: char) -> (index: usize)
    requires
        from <= chars.len(),
    ensures
        index == from + leading(chars@.skip(from as int), other_than(stop)),
        from <= index <= chars.len(),
{
    let mut index: usize = from;
    while index < chars.len() && chars[index] != stop
        invariant
            from <= index <= chars.len(),
            forall|i: int| from <= i < index ==> chars[i] != stop,
        decreases chars.len() - index,
    {
        index += 1;
    }
    proof {
        let rest = chars@.skip(from as int);
        assert forall|i: int| 0 <= i < index - from implies other_than(stop)(#[trigger] rest[i]) by {}
        lemma_leading(rest, other_than(stop), index - from);
    }
    index
}

/// The index of the first character that is no white space, or the length
/// of the text where there is none.
pub(crate) fn skip_whitespace(chars: &Vec<char>) -> (index: usize)
    ensures
        index == leading(chars@, whitespace()),
        index <= chars.len(),
{
    let mut index: usize = 0;
    while index < chars.len() && is_whitespace(chars[index])
        invariant
            index <= chars.len(),
            forall|i: int| 0 <= i < index ==> spec_is_whitespace(chars[i]),
        decreases chars.len() - index,
    {
        index += 1;
    }
    proof {
        assert forall|i: int| 0 <= i < index implies whitespace()(#[trigger] chars@[i]) by {}
        lemma_leading(chars@, whitespace(), index as int);
    }
    index
}

/// The index behind the last character before `to` that is not `ch`: what
/// lies between it and `to` is `ch` throughout.
pub(crate) fn back_while(chars: &Vec<char>, to: usize, ch: char) -> (index: usize)
    requires
        to <= chars.len(),
    ensures
        index <= to,
        index == to - trailing(chars@.take(to as int), only(ch)),
{
    let mut index: usize = to;
    while index > 0 && chars[index - 1] == ch
        invariant
            index <= to <= chars.len(),
            forall|i: int| index <= i < to ==> chars[i] == ch,
        decreases index,
    {
        index -= 1;
    }
    proof {
        let part = chars@.take(to as int);
        assert forall|i: int| part.len() - (to - index) <= i < part.len() implies only(ch)(
            #[trigger] part[i],
        ) by {}
        lemma_trailing(part, only(ch), to - index);
    }
    index
}

/// The index behind the last character before `to` that is `ch`: what lies
/// between it and `to` holds no `ch`.
pub(crate) fn back_until(chars: &Vec<char>, to: usize, ch: char) -> (index: usize)
    requires
        to <= chars.len(),
    ensures
        index <= to,
        index == to - trailing(chars@.take(to as int), other_than(ch)),
{
    let mut index: usize = to;
    while index > 0 && chars[index - 1] != ch
        invariant
            index <= to <= chars.len(),
            forall|i: int| index <= i < to ==> chars[i] != ch,
        decreases index,
    {
        index -= 1;
    }
    proof {
        let part = chars@.take(to as int);
        assert forall|i: int| part.len() - (to - index) <= i < part.len() implies other_than(ch)(
            #[trigger] part[i],
        ) by {}
        lemma_trailing(part, other_than(ch), to - index);
    }
    index
}

/// The index behind the last character before `to` that does not meet the
/// test of `is_whitespace`, not going below `from`.
pub(crate) fn skip_whitespace_back(chars: &Vec<char>, from: usize, to: usize) -> (index: usize)
    requires
        from <= to <= chars.len(),
    ensures
        from <= index <= to,
        index == to - trailing(chars@.subrange(from as int, to as int), whitespace()),
{
    let mut index: usize = to;
    while index > from && is_whitespace(chars[index - 1])
        invariant
            from <= index <= to <= chars.len(),
            forall|i: int| index <= i < to ==> spec_is_whitespace(chars[i]),
        decreases index,
    {
        index -= 1;
    }
    proof {
        let part = chars@.subrange(from as int, to as int);
        assert forall|i: int| part.len() - (to - index) <= i < part.len() implies whitespace()(
            #[trigger] part[i],
        ) by {}
        lemma_trailing(part, whitespace(), to - index);
    }
    index
}

/// A text without the white space at its start and at its end.
pub fn trim(text: &str) -> (trimmed: String)
    ensures
        trimmed@ == spec_trim(text@),
{
    let chars = chars_of(text);
    let from = skip_whitespace(&chars);
    let to = skip_whitespace_back(&chars, from, chars.len());
    text_of(&chars, from, to)
}

/// Tells whether `text` begins with `prefix`.
pub fn starts_with(text: &str, prefix: &str) -> (begins: bool)
    ensures
        begins == (prefix@.len() <= text@.len() && text@.take(prefix@.len() as int) == prefix@),
{
    let chars = chars_of(text);
    let wanted = chars_of(prefix);
    if wanted.len() > chars.len() {
        return false;
    }
    let mut i: usize = 0;
    while i < wanted.len()
        invariant
            i <= wanted.len() <= chars.len(),
            chars@ == text@,
            wanted@ == prefix@,
            forall|k: int| 0 <= k < i ==> chars[k] == wanted[k],
        decreases wanted.len() - i,
    {
        if chars[i] != wanted[i] {
            return false;
        }
        i += 1;
    }
    assert(chars@.take(wanted.len() as int) =~= wanted@);
    true
}

/// The upper-case hexadecimal digit of a value below sixteen.
pub open spec fn spec_hex_digit(value: int) -> char {
    if value == 0 {
        '0'
    } else if value == 1 {
        '1'
    } else if value == 2 {
        '2'
    } else if value == 3 {
        '3'
    } else if value == 4 {
        '4'
    } else if value == 5 {
        '5'
    } else if value == 6 {
        '6'
    } else if value == 7 {
        '7'
    } else if value == 8 {
        '8'
    } else if value == 9 {
        '9'
    } else if value == 10 {
        'A'
    } else if value == 11 {
        'B'
    } else if value == 12 {
        'C'
    } else if value == 13 {
        'D'
    } else if value == 14 {
        'E'
    } else {
        'F'
    }
}

/// The upper-case hexadecimal digit of `value`.
pub(crate) fn hex_digit(value: u8) -> (digit: char)
    requires
        value < 16,
    ensures
        digit == spec_hex_digit(value as int),
{
    match value {
        0 => '0',
        1 => '1',
        2 => '2',
        3 => '3',
        4 => '4',
        5 => '5',
        6 => '6',
        7 => '7',
        8 => '8',
        9 => '9',
        10 => 'A',
        11 => 'B',
        12 => 'C',
        13 => 'D',
        14 => 'E',
        _ => 'F',
    }
}

} // verus!
