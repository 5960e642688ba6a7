//! Running a script of the Windows side in the Linux subsystem.
//!
//! The script is run from its own directory by the user's login shell, so
//! its name reaches that shell on a command line and has to be quoted for
//! it.

use vstd::prelude::*;
use vstd::string::StringExecFns;

verus! {

/// The characters that a shell takes as they are.
pub open spec fn spec_is_plain(ch: char) -> bool {
    ||| 'a' <= ch <= 'z'
    ||| 'A' <= ch <= 'Z'
    ||| '0' <= ch <= '9'
    ||| ch == '-'
    ||| ch == '_'
    ||| ch == '='
    ||| ch == '/'
    ||| ch == ','
    ||| ch == '.'
    ||| ch == '+'
}

/// What a character becomes between single quotes: itself, but for the
/// single quote and the exclamation mark, which leave the quotes, stand
/// behind a backslash, and enter them again.
pub open spec fn spec_quoted_char(ch: char) -> Seq<char> {
    if ch == '\'' || ch == '!' {
        seq!['\'', '\\', ch, '\'']
    } else {
        seq![ch]
    }
}

/// What a text becomes between single quotes.
pub open spec fn spec_quoted(text: Seq<char>) -> Seq<char>
    decreases text.len(),
{
    if text.len() == 0 {
        Seq::empty()
    } else {
        spec_quoted(text.drop_last()) + spec_quoted_char(text.last())
    }
}

/// A text as one word of a shell's command line: the text itself where it
/// is not empty and holds plain characters only, and else the text between
/// single quotes.
pub open spec fn spec_escape(text: Seq<char>) -> Seq<char> {
    if text.len() > 0 && forall|i: int| 0 <= i < text.len() ==> spec_is_plain(#[trigger] text[i]) {
        text
    } else {
        seq!['\''] + spec_quoted(text) + seq!['\'']
    }
}

/// `shell_escape::unix::escape` returns its argument where that is not
/// empty and holds nothing but letters, digits and `-_=/,.+`. Else it
/// returns the argument between single quotes, with `'\` before and `'`
/// after each single quote and each exclamation mark in it.
#[verifier::external_body]
fn unix_escape(text: String) -> (escaped: String)
    ensures
        escaped@ == spec_escape(text@),
{
    shell_escape::unix::escape(text.into()).into_owned()
}

/// The arguments that come before the script's own on the command line of
/// `wsl.exe`: run the login shell, and pass on what follows as it is.
pub fn shell_arguments() -> (arguments: Vec<String>)
    ensures
        arguments.deep_view() == seq!["--shell-type"@, "login"@, "--"@],
{
    let mut arguments: Vec<String> = Vec::new();
    arguments.push(String::from_str("--shell-type"));
    arguments.push(String::from_str("login"));
    arguments.push(String::from_str("--"));
    arguments
}

/// The word by which the login shell finds the script `file` in the current
/// directory: `./` and the name, quoted for the shell.
pub fn script_argument(file: &str) -> (argument: String)
    ensures
        argument@ == spec_escape("./"@ + file@),
{
    let mut relative = String::from_str("./");
    relative.append(file);
    unix_escape(relative)
}

} // verus!
