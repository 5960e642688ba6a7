//! The decisions of the clipboard tool, which behaves like `xsel`.
//!
//! By default the clipboard is output if both standard input and standard
//! output are terminals. Otherwise the clipboard is output if standard
//! output is no terminal, and it is set from standard input if standard
//! input is no terminal. If any input or output option is given, the tool
//! behaves only in the requested mode. If both input and output are asked
//! for, the previous clipboard is output before it is replaced.

use crate::text::{chars_of, lemma_trailing, text_of, trailing};
use vstd::prelude::*;
use vstd::string::StringExecFns;

verus! {

/// The options of the tool that bear on what it does.
#[derive(Debug, Clone, Copy, PartialEq, Eq)]
pub struct Options {
    /// Append standard input to the clipboard.
    pub append: bool,
    /// Read standard input into the clipboard.
    pub input: bool,
    /// Write the clipboard to standard output.
    pub output: bool,
    /// Leave CRLF line endings as they are when pasting.
    pub keep_crlf: bool,
    /// Clear the clipboard.
    pub clear: bool,
    /// Accepted and without effect; the tool then does nothing at all.
    pub keep: bool,
    /// Accepted and without effect; the tool then does nothing at all.
    pub exchange: bool,
    /// Remove the line breaks at the end of input and output.
    pub trim: bool,
}

/// What is done to the clipboard after it was output, if it was.
#[derive(Debug, Clone, Copy, PartialEq, Eq)]
pub enum Change {
    /// The clipboard is left as it is.
    Nothing,
    /// The clipboard is cleared.
    Clear,
    /// The clipboard is set to standard input.
    Replace,
    /// The clipboard is set to what it holds, followed by standard input.
    Append,
}

/// What a run of the tool does.
#[derive(Debug, Clone, Copy, PartialEq, Eq)]
pub struct Plan {
    /// Whether the clipboard is written to standard output first.
    pub output: bool,
    /// What is done to the clipboard then.
    pub change: Change,
}

/// Whether standard input is to be read.
pub open spec fn spec_does_input(options: Options, stdin_is_tty: bool) -> bool {
    options.append || options.input || (!options.output && !stdin_is_tty)
}

/// Whether the clipboard is to be written out.
pub open spec fn spec_does_output(options: Options, stdin_is_tty: bool, stdout_is_tty: bool)
    -> bool {
    options.output || (!options.append && !options.input && !options.clear && (!stdout_is_tty
        || stdin_is_tty))
}

/// What a run does, given its options and which of its streams are
/// terminals.
pub open spec fn spec_plan(options: Options, stdin_is_tty: bool, stdout_is_tty: bool) -> Plan {
    if options.keep || options.exchange {
        Plan { output: false, change: Change::Nothing }
    } else {
        Plan {
            output: spec_does_output(options, stdin_is_tty, stdout_is_tty),
            change: if options.clear {
                Change::Clear
            } else if !spec_does_input(options, stdin_is_tty) {
                Change::Nothing
            } else if options.append {
                Change::Append
            } else {
                Change::Replace
            },
        }
    }
}

/// Decides what a run does.
pub fn plan(options: Options, stdin_is_tty: bool, stdout_is_tty: bool) -> (plan: Plan)
    ensures
        plan == spec_plan(options, stdin_is_tty, stdout_is_tty),
{
    if options.keep || options.exchange {
        return Plan { output: false, change: Change::Nothing };
    }
    let does_input = options.append || options.input || (!options.output && !stdin_is_tty);
    let does_output = options.output || (!options.append && !options.input && !options.clear && (
    !stdout_is_tty || stdin_is_tty));
    let change = if options.clear {
        Change::Clear
    } else if !does_input {
        Change::Nothing
    } else if options.append {
        Change::Append
    } else {
        Change::Replace
    };
    Plan { output: does_output, change }
}

/// The characters that break a line.
pub open spec fn line_break() -> spec_fn(char) -> bool {
    |ch: char| ch == '\r' || ch == '\n'
}

/// A text without the line breaks at its end.
pub open spec fn spec_trim_line_breaks(text: Seq<char>) -> Seq<char> {
    text.take(text.len() - trailing(text, line_break()))
}

/// A text with every carriage return that a line feed follows removed.
pub open spec fn spec_unix_line_endings(text: Seq<char>) -> Seq<char>
    decreases text.len(),
{
    if text.len() == 0 {
        text
    } else if text.len() >= 2 && text[0] == '\r' && text[1] == '\n' {
        seq!['\n'] + spec_unix_line_endings(text.skip(2))
    } else {
        seq![text[0]] + spec_unix_line_endings(text.skip(1))
    }
}

/// The clipboard's text as it is pasted: without the line breaks at its
/// end where they are to be trimmed, and with Unix line endings unless CRLF
/// is to be kept.
pub open spec fn spec_pasted(text: Seq<char>, keep_crlf: bool, trim: bool) -> Seq<char> {
    let trimmed = if trim {
        spec_trim_line_breaks(text)
    } else {
        text
    };
    if keep_crlf {
        trimmed
    } else {
        spec_unix_line_endings(trimmed)
    }
}

/// The text that is copied: what the clipboard is to keep, followed by
/// standard input, without the line breaks at the end where they are to be
/// trimmed.
pub open spec fn spec_copied(kept: Seq<char>, input: Seq<char>, trim: bool) -> Seq<char> {
    if trim {
        spec_trim_line_breaks(kept + input)
    } else {
        kept + input
    }
}

/// The index behind the last character that breaks no line.
fn line_breaks_start(chars: &Vec<char>) -> (index: usize)
    ensures
        index <= chars.len(),
        index == chars.len() - trailing(chars@, line_break()),
{
    let mut index: usize = chars.len();
    while index > 0 && (chars[index - 1] == '\r' || chars[index - 1] == '\n')
        invariant
            index <= chars.len(),
            forall|i: int| index <= i < chars.len() ==> line_break()(#[trigger] chars@[i]),
        decreases index,
    {
        index -= 1;
    }
    proof {
        lemma_trailing(chars@, line_break(), chars.len() - index);
    }
    index
}

/// Appends to `text` the first `to` characters, with every carriage return
/// that a line feed follows removed.
fn push_unix_line_endings(text: &mut String, chars: &Vec<char>, to: usize)
    requires
        to <= chars.len(),
    ensures
        final(text)@ == old(text)@ + spec_unix_line_endings(chars@.take(to as int)),
{
    let ghost before = text@;
    let ghost all = chars@.take(to as int);
    let mut i: usize = 0;
    assert(all.skip(0) =~= all);
    while i < to
        invariant
            i <= to <= chars.len(),
            all == chars@.take(to as int),
            before + spec_unix_line_endings(all) == text@ + spec_unix_line_endings(
                all.skip(i as int),
            ),
        decreases to - i,
    {
        let ghost rest = all.skip(i as int);
        if i + 1 < to && chars[i] == '\r' && chars[i + 1] == '\n' {
            text.push('\n');
            i += 2;
            proof {
                assert(rest.skip(2) =~= all.skip(i as int));
            }
        } else {
            text.push(chars[i]);
            i += 1;
            proof {
                assert(rest.skip(1) =~= all.skip(i as int));
            }
        }
    }
}

/// Prepares the clipboard's text for pasting.
pub fn pasted_text(text: &str, keep_crlf: bool, trim: bool) -> (pasted: String)
    ensures
        pasted@ == spec_pasted(text@, keep_crlf, trim),
{
    let chars = chars_of(text);
    let to = if trim {
        line_breaks_start(&chars)
    } else {
        chars.len()
    };
    proof {
        assert(chars@.take(chars.len() as int) =~= chars@);
    }
    if keep_crlf {
        text_of(&chars, 0, to)
    } else {
        let mut pasted = String::new();
        push_unix_line_endings(&mut pasted, &chars, to);
        pasted
    }
}

/// Prepares the text that is copied: `kept`, which is what the clipboard is
/// to keep (empty unless the input is appended), followed by `input`.
pub fn copied_text(kept: &str, input: &str, trim: bool) -> (copied: String)
    ensures
        copied@ == spec_copied(kept@, input@, trim),
{
    let mut whole = String::from_str(kept);
    whole.append(input);
    if trim {
        let chars = chars_of(whole.as_str());
        let to = line_breaks_start(&chars);
        text_of(&chars, 0, to)
    } else {
        whole
    }
}

} // verus!
