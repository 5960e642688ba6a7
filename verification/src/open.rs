//! Opening files, directories and URLs in their default programs.

use crate::text::{chars_of, leading, lemma_leading};
use vstd::prelude::*;

verus! {

/// The characters that belong to the scheme of a URL: all but the colon that
/// ends it and the separator of a path.
pub open spec fn in_scheme() -> spec_fn(char) -> bool {
    |ch: char| ch != ':' && ch != '/'
}

/// An argument is a URL where a colon comes before any path separator: a
/// scheme needs no `//` after it.
pub open spec fn spec_is_url(path: Seq<char>) -> bool {
    let scheme = leading(path, in_scheme());
    scheme < path.len() && path[scheme] == ':'
}

/// Tells whether an argument is a URL, to be left as it is, or a path, to be
/// translated.
pub fn is_url(path: &str) -> (url: bool)
    ensures
        url == spec_is_url(path@),
{
    let chars = chars_of(path);
    let mut index: usize = 0;
    while index < chars.len() && chars[index] != ':' && chars[index] != '/'
        invariant
            index <= chars.len(),
            forall|i: int| 0 <= i < index ==> in_scheme()(#[trigger] chars@[i]),
        decreases chars.len() - index,
    {
        index += 1;
    }
    proof {
        lemma_leading(chars@, in_scheme(), index as int);
    }
    index < chars.len() && chars[index] == ':'
}

/// The verb with which the arguments are opened: `edit` or `runas` where
/// the flag of that name is set, `edit` first, and else the verb given, if
/// any.
pub open spec fn spec_verb(edit: bool, runas: bool, verb: Option<Seq<char>>) -> Option<Seq<char>> {
    if edit {
        Some("edit"@)
    } else if runas {
        Some("runas"@)
    } else {
        verb
    }
}

/// The model of a verb that may be missing.
pub open spec fn verb_model(verb: Option<String>) -> Option<Seq<char>> {
    match verb {
        Some(name) => Some(name@),
        None => None,
    }
}

/// Chooses the verb with which the arguments are opened.
pub fn select_verb(edit: bool, runas: bool, verb: Option<String>) -> (selected: Option<String>)
    ensures
        verb_model(selected) == spec_verb(edit, runas, verb_model(verb)),
{
    if edit {
        Some("edit".to_owned())
    } else if runas {
        Some("runas".to_owned())
    } else {
        verb
    }
}

} // verus!
