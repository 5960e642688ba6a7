//! The decisions of the `recycle` command around the engine: which options
//! its flags select, which lines it prints, and what it removes itself on the
//! Linux side instead of handing it to the shell.

use crate::recycle_bin::{
    ignores_not_found, in_background, RecycleOptions, RECYCLE_DANGEROUSLY_IN_BACKGROUND,
    RECYCLE_IGNORE_NOT_FOUND, RECYCLE_NORMAL,
};
use crate::recycle_error::{spec_message, ErrorModel, RecycleError};
use crate::text::starts_with;
use vstd::prelude::*;
use vstd::string::StringExecFns;

verus! {

/// The options that the flags `--force` and `--rm` select.
pub fn options_from_flags(force: bool, rm: bool) -> (options: RecycleOptions)
    ensures
        ignores_not_found(options) == force,
        in_background(options) == rm,
        options == (if force {
            RECYCLE_IGNORE_NOT_FOUND
        } else {
            RECYCLE_NORMAL
        }) + (if rm {
            RECYCLE_DANGEROUSLY_IN_BACKGROUND
        } else {
            RECYCLE_NORMAL
        }),
{
    let ignore = if force {
        RECYCLE_IGNORE_NOT_FOUND
    } else {
        RECYCLE_NORMAL
    };
    let background = if rm {
        RECYCLE_DANGEROUSLY_IN_BACKGROUND
    } else {
        RECYCLE_NORMAL
    };
    assert(0u8 | 0u8 == 0u8 && 2u8 | 0u8 == 2u8 && 0u8 | 1u8 == 1u8 && 2u8 | 1u8 == 3u8)
        by (bit_vector);
    assert(0u8 & 1u8 != 1u8 && 1u8 & 1u8 == 1u8 && 2u8 & 1u8 != 1u8 && 3u8 & 1u8 == 1u8)
        by (bit_vector);
    assert(0u8 & 2u8 != 2u8 && 1u8 & 2u8 != 2u8 && 2u8 & 2u8 == 2u8 && 3u8 & 2u8 == 2u8)
        by (bit_vector);
    ignore | background
}

/// The prefix of the Windows paths that lie in the Linux file system.
pub open spec fn wsl_prefix() -> Seq<char> {
    "\\\\wsl.localhost\\"@
}

/// Tells whether a Windows path lies in the Linux file system, where the
/// shell has no Recycle Bin.
pub fn is_wsl_path(windows_path: &str) -> (inside: bool)
    ensures
        inside == (wsl_prefix().len() <= windows_path@.len() && windows_path@.take(
            wsl_prefix().len() as int,
        ) == wsl_prefix()),
{
    starts_with(windows_path, "\\\\wsl.localhost\\")
}

/// A line of the command's output.
#[derive(Debug, Clone, PartialEq, Eq)]
pub struct Line {
    /// Whether the line goes to the error stream.
    pub is_error: bool,
    /// The line, without its end.
    pub text: String,
}

/// `recycle: ` and `before`, the path between quotation marks, and `after`.
pub open spec fn spec_line(before: Seq<char>, path: Seq<char>, after: Seq<char>) -> Seq<char> {
    "recycle: "@ + before + "\""@ + path + "\""@ + after
}

fn line(before: &str, path: &str, after: &str) -> (text: String)
    ensures
        text@ == spec_line(before@, path@, after@),
{
    let mut text = String::from_str("recycle: ");
    text.append(before);
    text.append("\"");
    text.append(path);
    text.append("\"");
    text.append(after);
    text
}

/// The refusal to remove a directory without `--recursive`.
pub open spec fn spec_is_a_directory(path: Seq<char>) -> Seq<char> {
    spec_line("Cannot remove "@, path, ": Is a directory."@)
}

/// The complaint about a path that is not there.
pub open spec fn spec_no_such_file(path: Seq<char>) -> Seq<char> {
    spec_line("Failed to delete "@, path, ": No such file or directory."@)
}

/// Where dialogs are off, a directory is removed only with `--recursive`:
/// gives the refusal for a directory without it.
pub fn directory_refusal(path: &str, rm: bool, recursive: bool, is_directory: bool) -> (refusal:
    Option<String>)
    ensures
        match refusal {
            Some(text) => rm && !recursive && is_directory && text@ == spec_is_a_directory(path@),
            None => !(rm && !recursive && is_directory),
        },
{
    if rm && !recursive && is_directory {
        Some(line("Cannot remove ", path, ": Is a directory."))
    } else {
        None
    }
}

/// The line for one item that the progress sink reported: on success a
/// notice, only where the command is verbose and in words that do not claim
/// that the item was recycled; on failure the reason, on the error stream.
pub fn report_line(item: &str, error: &Option<RecycleError>, verbose: bool) -> (printed: Option<
    Line,
>)
    ensures
        match (*error, printed) {
            (None, None) => !verbose,
            (None, Some(shown)) => verbose && !shown.is_error && shown.text@ == spec_line(
                "Removed "@,
                item@,
                ""@,
            ),
            (Some(reason), Some(shown)) => shown.is_error && shown.text@ == spec_line(
                "Failed to recycle "@,
                item@,
                ": "@ + spec_message(reason@),
            ),
            (Some(_), None) => false,
        },
{
    match error {
        None => if verbose {
            Some(Line { is_error: false, text: line("Removed ", item, "") })
        } else {
            None
        },
        Some(reason) => {
            let mut after = String::from_str(": ");
            let message = reason.message();
            after.append(message.as_str());
            Some(Line { is_error: true, text: line("Failed to recycle ", item, after.as_str()) })
        },
    }
}

/// The line for the failure of the whole batch. That the operation was
/// canceled goes unsaid where an item's own error was reported before.
pub fn failure_line(error: &RecycleError, item_failed: bool) -> (printed: Option<String>)
    ensures
        match printed {
            Some(text) => !(error@ is Canceled && item_failed) && text@ == "recycle: "@
                + spec_message(error@),
            None => error@ is Canceled && item_failed,
        },
{
    let canceled = match error {
        RecycleError::Canceled => true,
        _ => false,
    };
    if canceled && item_failed {
        None
    } else {
        let mut text = String::from_str("recycle: ");
        let message = error.message();
        text.append(message.as_str());
        Some(text)
    }
}

/// What looking at an entry of the Linux file system gave, without
/// following a symbolic link.
#[derive(Debug, Clone, PartialEq, Eq)]
pub enum Entry {
    /// There is no such entry.
    Missing,
    /// Looking failed otherwise; holds the error's message.
    Unreadable(String),
    /// There is one: whether it is the root of the file system, and whether
    /// it is a directory.
    Found { is_root: bool, is_directory: bool },
}

/// What the command does to an entry of the Linux file system.
#[derive(Debug, Clone, PartialEq, Eq)]
pub enum Removal {
    /// Pass over the entry.
    Skip,
    /// Print this line to the error stream and fail.
    Fail(String),
    /// Remove the directory and all that is in it.
    RemoveDirectory,
    /// Remove the file.
    RemoveFile,
}

/// A [`Removal`] as mathematical values.
pub enum RemovalModel {
    Skip,
    Fail(Seq<char>),
    RemoveDirectory,
    RemoveFile,
}

impl View for Removal {
    type V = RemovalModel;

    open spec fn view(&self) -> RemovalModel {
        match self {
            Removal::Skip => RemovalModel::Skip,
            Removal::Fail(text) => RemovalModel::Fail(text@),
            Removal::RemoveDirectory => RemovalModel::RemoveDirectory,
            Removal::RemoveFile => RemovalModel::RemoveFile,
        }
    }
}

/// What is done to an entry of the Linux file system when dialogs are off.
/// A missing entry is passed over with `--force` and is an error without.
/// The root is never removed, under whatever name. A directory is removed
/// only with `--recursive`.
pub open spec fn spec_removal(
    path: Seq<char>,
    entry: Entry,
    force: bool,
    recursive: bool,
) -> RemovalModel {
    match entry {
        Entry::Missing => if force {
            RemovalModel::Skip
        } else {
            RemovalModel::Fail(spec_no_such_file(path))
        },
        Entry::Unreadable(message) => RemovalModel::Fail(
            spec_line("Failed to stat "@, path, ": "@ + message@),
        ),
        Entry::Found { is_root, is_directory } => if is_root {
            if path == "/"@ {
                RemovalModel::Fail("recycle: Refusing to delete \"/\"."@)
            } else {
                RemovalModel::Fail(spec_line("Refusing to delete "@, path, " (same as \"/\")."@))
            }
        } else if is_directory {
            if recursive {
                RemovalModel::RemoveDirectory
            } else {
                RemovalModel::Fail(spec_is_a_directory(path))
            }
        } else {
            RemovalModel::RemoveFile
        },
    }
}

/// Decides what is done to an entry of the Linux file system.
pub fn removal(path: &str, entry: &Entry, force: bool, recursive: bool) -> (decision: Removal)
    ensures
        decision@ == spec_removal(path@, *entry, force, recursive),
{
    match entry {
        Entry::Missing => if force {
            Removal::Skip
        } else {
            Removal::Fail(line("Failed to delete ", path, ": No such file or directory."))
        },
        Entry::Unreadable(message) => {
            let mut after = String::from_str(": ");
            after.append(message.as_str());
            Removal::Fail(line("Failed to stat ", path, after.as_str()))
        },
        Entry::Found { is_root, is_directory } => if *is_root {
            let root = String::from_str("/");
            if String::from_str(path) == root {
                Removal::Fail(String::from_str("recycle: Refusing to delete \"/\"."))
            } else {
                Removal::Fail(line("Refusing to delete ", path, " (same as \"/\")."))
            }
        } else if *is_directory {
            if recursive {
                Removal::RemoveDirectory
            } else {
                Removal::Fail(line("Cannot remove ", path, ": Is a directory."))
            }
        } else {
            Removal::RemoveFile
        },
    }
}

/// How removing an entry of the Linux file system went.
#[derive(Debug, Clone, PartialEq, Eq)]
pub enum Removed {
    /// The entry is gone.
    Done,
    /// There was no such entry any more.
    Missing,
    /// Removing failed otherwise; holds the error's message.
    Failed(String),
}

/// What follows the removal of an entry of the Linux file system.
#[derive(Debug, Clone, PartialEq, Eq)]
pub enum Aftermath {
    /// Go on to the next path.
    Proceed,
    /// Print this line and go on to the next path.
    Announce(String),
    /// Print this line to the error stream and fail.
    Fail(String),
}

/// An [`Aftermath`] as mathematical values.
pub enum AftermathModel {
    Proceed,
    Announce(Seq<char>),
    Fail(Seq<char>),
}

impl View for Aftermath {
    type V = AftermathModel;

    open spec fn view(&self) -> AftermathModel {
        match self {
            Aftermath::Proceed => AftermathModel::Proceed,
            Aftermath::Announce(text) => AftermathModel::Announce(text@),
            Aftermath::Fail(text) => AftermathModel::Fail(text@),
        }
    }
}

/// What follows the removal of an entry: a notice where the command is
/// verbose; nothing for an entry that went missing meanwhile, with
/// `--force`; and else the failure.
pub open spec fn spec_aftermath(path: Seq<char>, removed: Removed, force: bool, verbose: bool)
    -> AftermathModel {
    match removed {
        Removed::Done => if verbose {
            AftermathModel::Announce(spec_line("Removed "@, path, ""@))
        } else {
            AftermathModel::Proceed
        },
        Removed::Missing => if force {
            AftermathModel::Proceed
        } else {
            AftermathModel::Fail(spec_no_such_file(path))
        },
        Removed::Failed(message) => AftermathModel::Fail(
            spec_line("Failed to delete "@, path, ": "@ + message@),
        ),
    }
}

/// Decides what follows the removal of an entry.
pub fn aftermath(path: &str, removed: &Removed, force: bool, verbose: bool) -> (next: Aftermath)
    ensures
        next@ == spec_aftermath(path@, *removed, force, verbose),
{
    match removed {
        Removed::Done => if verbose {
            Aftermath::Announce(line("Removed ", path, ""))
        } else {
            Aftermath::Proceed
        },
        Removed::Missing => if force {
            Aftermath::Proceed
        } else {
            Aftermath::Fail(line("Failed to delete ", path, ": No such file or directory."))
        },
        Removed::Failed(message) => {
            let mut after = String::from_str(": ");
            after.append(message.as_str());
            Aftermath::Fail(line("Failed to delete ", path, after.as_str()))
        },
    }
}

/// Where a path goes: to the shell's Recycle Bin, or, where dialogs are off
/// and the path lies in the Linux file system, to the command's own removal
/// on the Linux side, which needs no elevated shell.
pub fn removes_on_linux_side(windows_path: &str, rm: bool) -> (own: bool)
    ensures
        own == (rm && wsl_prefix().len() <= windows_path@.len() && windows_path@.take(
            wsl_prefix().len() as int,
        ) == wsl_prefix()),
{
    rm && is_wsl_path(windows_path)
}

} // verus!
