//! Launching the editor on a path of the Linux side.

use crate::text::{
    chars_of, find_from, hex_digit, leading, other_than, skip_whitespace, spec_hex_digit,
    text_of, whitespace,
};
use crate::clipboard::{lemma_until_terminator, spec_until_terminator};
use crate::utf16::{decode_range, spec_decode, terminator};
use vstd::prelude::*;
use vstd::string::{StringExecFns, StringSliceAdditionalSpecFns};

verus! {

/// The three characters that stand for a byte in a URI: `%` and the byte's
/// two upper-case hexadecimal digits.
pub open spec fn spec_percent_encoded(byte: u8) -> Seq<char> {
    seq!['%', spec_hex_digit(byte as int / 16), spec_hex_digit(byte as int % 16)]
}

/// `percent_encoding::percent_encode_byte` returns the percent-encoding of
/// one byte, whatever the byte: `%` followed by its two upper-case
/// hexadecimal digits, as its table of 256 entries lists them.
#[verifier::external_body]
fn percent_encode_byte(byte: u8) -> (encoded: &'static str)
    ensures
        encoded@ == spec_percent_encoded(byte),
{
    percent_encoding::percent_encode_byte(byte)
}

/// The bytes that may not stand for themselves in the path of a URI.
///
/// A path is made of the unreserved characters (letters, digits, `-`, `.`,
/// `_`, `~`), the sub-delimiters (`!`, `$`, `&`, `'`, `(`, `)`, `*`, `+`,
/// `,`, `;`, `=`), `:`, `@` and `/`. Everything else is escaped: the control
/// characters, every byte outside ASCII, and the characters listed here.
pub open spec fn spec_needs_escape(byte: u8) -> bool {
    ||| byte < 0x20
    ||| byte >= 0x7F
    ||| byte == 0x20  // space
    ||| byte == 0x22  // "
    ||| byte == 0x23  // #
    ||| byte == 0x25  // %
    ||| byte == 0x3C  // <
    ||| byte == 0x3E  // >
    ||| byte == 0x3F  // ?
    ||| byte == 0x5B  // [
    ||| byte == 0x5C  // \
    ||| byte == 0x5D  // ]
    ||| byte == 0x5E  // ^
    ||| byte == 0x60  // `
    ||| byte == 0x7B  // {
    ||| byte == 0x7C  // |
    ||| byte == 0x7D  // }

}

/// What one byte of a path becomes in a URI.
pub open spec fn spec_escaped_byte(byte: u8) -> Seq<char> {
    if spec_needs_escape(byte) {
        spec_percent_encoded(byte)
    } else {
        seq![byte as char]
    }
}

/// What the bytes of a path become in a URI, byte by byte.
pub open spec fn spec_escaped(bytes: Seq<u8>) -> Seq<char>
    decreases bytes.len(),
{
    if bytes.len() == 0 {
        Seq::empty()
    } else {
        spec_escaped(bytes.drop_last()) + spec_escaped_byte(bytes.last())
    }
}

/// The URI under which the editor opens a path of the Linux side.
pub open spec fn spec_remote_uri(authority: Seq<char>, path_bytes: Seq<u8>) -> Seq<char> {
    "vscode-remote://"@ + authority + spec_escaped(path_bytes)
}

/// Tells whether a byte may not stand for itself in the path of a URI.
pub fn needs_escape(byte: u8) -> (needed: bool)
    ensures
        needed == spec_needs_escape(byte),
{
    byte < 0x20 || byte >= 0x7F || byte == 0x20 || byte == 0x22 || byte == 0x23 || byte == 0x25
        || byte == 0x3C || byte == 0x3E || byte == 0x3F || byte == 0x5B || byte == 0x5C || byte
        == 0x5D || byte == 0x5E || byte == 0x60 || byte == 0x7B || byte == 0x7C || byte == 0x7D
}

/// Builds a `vscode-remote://` URI from `authority` (`wsl+` and the name of
/// the distribution) and `wsl_path` (absolute): the bytes of the path's
/// UTF-8 encoding, each escaped where a path may not hold it.
pub fn wsl_path_to_vscode_remote_uri(authority: &str, wsl_path: &str) -> (uri: String)
    ensures
        uri@ == spec_remote_uri(authority@, wsl_path.spec_bytes()),
{
    let mut uri = String::from_str("vscode-remote://");
    uri.append(authority);
    let bytes = wsl_path.as_bytes();
    let ghost prefix = uri@;
    let mut i: usize = 0;
    while i < bytes.len()
        invariant
            i <= bytes.len(),
            uri@ == prefix + spec_escaped(bytes@.take(i as int)),
        decreases bytes.len() - i,
    {
        let byte = bytes[i];
        let ghost before = uri@;
        if needs_escape(byte) {
            uri.append(percent_encode_byte(byte));
        } else {
            uri.push(byte as char);
        }
        i += 1;
        proof {
            let taken = bytes@.take(i as int);
            assert(taken.drop_last() =~= bytes@.take(i - 1));
        }
    }
    assert(bytes@.take(bytes@.len() as int) =~= bytes@);
    uri
}

/// The program that a registered command line starts: after any leading
/// white space, what stands between the first pair of quotation marks where
/// the command opens with one, and else what stands before the first space.
pub open spec fn spec_exe_from_command_string(command: Seq<char>) -> Seq<char> {
    let trimmed = command.skip(leading(command, whitespace()));
    if trimmed.len() > 0 && trimmed[0] == '"' {
        let rest = trimmed.skip(1);
        rest.take(leading(rest, other_than('"')))
    } else {
        trimmed.take(leading(trimmed, other_than(' ')))
    }
}

/// Extracts the program from a command line as the registry holds it, such
/// as `"C:\Program Files\Editor\editor.exe" "%1"`.
pub fn exe_from_command_string(command: &str) -> (exe: String)
    ensures
        exe@ == spec_exe_from_command_string(command@),
{
    let chars = chars_of(command);
    let start = skip_whitespace(&chars);
    let ghost trimmed = chars@.skip(start as int);
    if start < chars.len() && chars[start] == '"' {
        let from = start + 1;
        let end = find_from(&chars, from, '"');
        proof {
            assert(trimmed.skip(1) =~= chars@.skip(from as int));
        }
        text_of(&chars, from, end)
    } else {
        let end = find_from(&chars, start, ' ');
        text_of(&chars, start, end)
    }
}

/// Why a value of the registry gave no program.
#[derive(Debug, Clone, Copy, PartialEq, Eq)]
pub enum RegistryValueError {
    /// The value holds no zero that ends it.
    MissingTerminator,
    /// The value is no UTF-16.
    InvalidUtf16,
}

/// The program that a value of the registry names: its code units up to
/// the first zero are a command line, of which the program is taken.
pub open spec fn spec_exe_from_registry_value(units: Seq<u16>) -> Result<
    Seq<char>,
    RegistryValueError,
> {
    if !units.contains(0) {
        Err(RegistryValueError::MissingTerminator)
    } else {
        match spec_decode(spec_until_terminator(units)) {
            Some(command) => Ok(spec_exe_from_command_string(command)),
            None => Err(RegistryValueError::InvalidUtf16),
        }
    }
}

/// Reads the program out of the value that the registry holds for the
/// editor's `open` command.
pub fn exe_from_registry_value(units: &Vec<u16>) -> (exe: Result<String, RegistryValueError>)
    ensures
        match exe {
            Ok(path) => spec_exe_from_registry_value(units@) == Ok::<
                Seq<char>,
                RegistryValueError,
            >(path@),
            Err(error) => spec_exe_from_registry_value(units@) == Err::<
                Seq<char>,
                RegistryValueError,
            >(error),
        },
{
    match terminator(units) {
        None => {
            Err(RegistryValueError::MissingTerminator)
        },
        Some(end) => {
            proof {
                lemma_until_terminator(units@, end as int);
            }
            match decode_range(units, 0, end) {
                Some(command) => Ok(exe_from_command_string(command.as_str())),
                None => Err(RegistryValueError::InvalidUtf16),
            }
        },
    }
}

} // verus!
