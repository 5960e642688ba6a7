//! The outcomes that recycling can report.

use crate::hresult::{spec_status_text, status_text};
use vstd::prelude::*;
use vstd::string::StringExecFns;

verus! {

/// Why a path could not be turned into a shell item.
#[derive(Debug, Clone, PartialEq, Eq)]
pub enum InvalidPathCause {
    /// Resolving the path to an absolute one failed; holds the message of
    /// the I/O error.
    Io(String),
    /// The shell refused to parse the absolute path; holds its status.
    Platform(i32),
}

/// The outcome of a whole batch, or of one item of it.
#[derive(Debug, Clone, PartialEq, Eq)]
pub enum RecycleError {
    /// The path did not exist when it was resolved.
    NotFound(String),
    /// The path could not be resolved or parsed, for the cause given.
    InvalidPath(String, InvalidPathCause),
    /// A platform call failed with a status that has no variant of its own.
    Win32(i32),
    /// The user declined or canceled, or the batch reported aborted
    /// operations.
    Canceled,
    /// Access to the item was denied (per item only).
    AccessDenied,
    /// The file is open in another program (per item only).
    FileInUse,
    /// The folder, or a file in it, is open in another program (per item
    /// only).
    FolderInUse,
    /// The platform reported success, yet an item is still there.
    Unknown,
}

/// What an [`InvalidPathCause`] holds, as mathematical values.
pub enum CauseModel {
    Io(Seq<char>),
    Platform(i32),
}

/// What a [`RecycleError`] holds, as mathematical values.
pub enum ErrorModel {
    NotFound(Seq<char>),
    InvalidPath(Seq<char>, CauseModel),
    Win32(i32),
    Canceled,
    AccessDenied,
    FileInUse,
    FolderInUse,
    Unknown,
}

impl View for InvalidPathCause {
    type V = CauseModel;

    open spec fn view(&self) -> CauseModel {
        match self {
            InvalidPathCause::Io(message) => CauseModel::Io(message@),
            InvalidPathCause::Platform(status) => CauseModel::Platform(*status),
        }
    }
}

impl View for RecycleError {
    type V = ErrorModel;

    open spec fn view(&self) -> ErrorModel {
        match self {
            RecycleError::NotFound(path) => ErrorModel::NotFound(path@),
            RecycleError::InvalidPath(path, cause) => ErrorModel::InvalidPath(path@, cause@),
            RecycleError::Win32(status) => ErrorModel::Win32(*status),
            RecycleError::Canceled => ErrorModel::Canceled,
            RecycleError::AccessDenied => ErrorModel::AccessDenied,
            RecycleError::FileInUse => ErrorModel::FileInUse,
            RecycleError::FolderInUse => ErrorModel::FolderInUse,
            RecycleError::Unknown => ErrorModel::Unknown,
        }
    }
}

/// The model of an outcome that may hold an error.
pub open spec fn outcome_model(outcome: Option<RecycleError>) -> Option<ErrorModel> {
    match outcome {
        Some(error) => Some(error@),
        None => None,
    }
}

/// The model of the result of a whole batch.
pub open spec fn result_model(result: Result<(), RecycleError>) -> Result<(), ErrorModel> {
    match result {
        Ok(()) => Ok(()),
        Err(error) => Err(error@),
    }
}

/// The text of a cause: the I/O error's own message, or the status as it
/// is written in diagnostics.
pub open spec fn spec_cause_text(cause: CauseModel) -> Seq<char> {
    match cause {
        CauseModel::Io(message) => message,
        CauseModel::Platform(status) => spec_status_text(status),
    }
}

/// The line that presents an error to the user.
pub open spec fn spec_message(error: ErrorModel) -> Seq<char> {
    match error {
        ErrorModel::NotFound(path) => "Failed to recycle \""@ + path
            + "\": No such file or directory."@,
        ErrorModel::InvalidPath(path, cause) => "Failed to recycle \""@ + path + "\": "@
            + spec_cause_text(cause),
        ErrorModel::Win32(status) => spec_status_text(status),
        ErrorModel::Canceled => "The operation was canceled."@,
        ErrorModel::AccessDenied => "Access denied."@,
        ErrorModel::FileInUse => "The file is open in another program."@,
        ErrorModel::FolderInUse => "The folder or a file in it is open in another program."@,
        ErrorModel::Unknown => "Unknown error (file or directory still exists)."@,
    }
}

impl InvalidPathCause {
    /// A copy of the cause.
    pub fn duplicate(&self) -> (copy: InvalidPathCause)
        ensures
            copy@ == self@,
    {
        match self {
            InvalidPathCause::Io(message) => InvalidPathCause::Io(message.clone()),
            InvalidPathCause::Platform(status) => InvalidPathCause::Platform(*status),
        }
    }

    /// The text of the cause.
    pub fn message(&self) -> (text: String)
        ensures
            text@ == spec_cause_text(self@),
    {
        match self {
            InvalidPathCause::Io(message) => message.clone(),
            InvalidPathCause::Platform(status) => status_text(*status),
        }
    }
}

impl RecycleError {
    /// A copy of the error.
    pub fn duplicate(&self) -> (copy: RecycleError)
        ensures
            copy@ == self@,
    {
        match self {
            RecycleError::NotFound(path) => RecycleError::NotFound(path.clone()),
            RecycleError::InvalidPath(path, cause) => RecycleError::InvalidPath(
                path.clone(),
                cause.duplicate(),
            ),
            RecycleError::Win32(status) => RecycleError::Win32(*status),
            RecycleError::Canceled => RecycleError::Canceled,
            RecycleError::AccessDenied => RecycleError::AccessDenied,
            RecycleError::FileInUse => RecycleError::FileInUse,
            RecycleError::FolderInUse => RecycleError::FolderInUse,
            RecycleError::Unknown => RecycleError::Unknown,
        }
    }

    /// Wraps a failed platform status.
    pub fn from_status(status: i32) -> (error: RecycleError)
        ensures
            error@ == ErrorModel::Win32(status),
    {
        RecycleError::Win32(status)
    }

    /// The line that presents the error to the user.
    pub fn message(&self) -> (text: String)
        ensures
            text@ == spec_message(self@),
    {
        match self {
            RecycleError::NotFound(path) => {
                let mut text = String::from_str("Failed to recycle \"");
                text.append(path.as_str());
                text.append("\": No such file or directory.");
                text
            },
            RecycleError::InvalidPath(path, cause) => {
                let detail = cause.message();
                let mut text = String::from_str("Failed to recycle \"");
                text.append(path.as_str());
                text.append("\": ");
                text.append(detail.as_str());
                text
            },
            RecycleError::Win32(status) => status_text(*status),
            RecycleError::Canceled => String::from_str("The operation was canceled."),
            RecycleError::AccessDenied => String::from_str("Access denied."),
            RecycleError::FileInUse => String::from_str("The file is open in another program."),
            RecycleError::FolderInUse => String::from_str(
                "The folder or a file in it is open in another program.",
            ),
            RecycleError::Unknown => String::from_str(
                "Unknown error (file or directory still exists).",
            ),
        }
    }
}

} // verus!
