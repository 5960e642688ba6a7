//! What the progress sink of a batch makes of the shell's per-item reports.
//!
//! The shell calls the sink's hooks while the batch runs. Only the hook that
//! fires after each delete attempt carries meaning: it names the item and
//! translates the status of the attempt. Every other hook lets the shell
//! proceed.

use crate::hresult::{
    succeeded, COPYENGINE_E_ACCESS_DENIED_SRC, COPYENGINE_E_SHARING_VIOLATION_SRC,
    COPYENGINE_E_USER_CANCELLED,
};
use crate::recycle_error::{outcome_model, ErrorModel, RecycleError};
use vstd::prelude::*;
use vstd::string::StringExecFns;

verus! {

/// What is handed to the caller's callback for one item.
#[derive(Debug, Clone, PartialEq, Eq)]
pub struct ItemReport {
    /// The item's display path, or a placeholder that holds the reason why it
    /// could not be had.
    pub path: String,
    /// `None` where the item was removed (recycled or deleted: the shell does
    /// not tell which), else the reason why it was not.
    pub error: Option<RecycleError>,
}

/// The status with which every hook answers the shell: go on.
pub const PROCEED: i32 = 0;

/// The name under which an item is reported: its display path, or, where
/// looking that up failed, a placeholder around the failure's message.
pub open spec fn spec_display_path(name: Result<Seq<char>, Seq<char>>) -> Seq<char> {
    match name {
        Ok(path) => path,
        Err(message) => "<Error: "@ + message + ">"@,
    }
}

/// The translation of the status of one delete attempt. `is_directory` is
/// read for a sharing violation only.
pub open spec fn spec_delete_outcome(status: i32, is_directory: bool) -> Option<ErrorModel> {
    if succeeded(status) {
        None
    } else if status == COPYENGINE_E_ACCESS_DENIED_SRC {
        Some(ErrorModel::AccessDenied)
    } else if status == COPYENGINE_E_SHARING_VIOLATION_SRC {
        if is_directory {
            Some(ErrorModel::FolderInUse)
        } else {
            Some(ErrorModel::FileInUse)
        }
    } else if status == COPYENGINE_E_USER_CANCELLED {
        Some(ErrorModel::Canceled)
    } else {
        Some(ErrorModel::Win32(status))
    }
}

/// The model of the name lookup's result.
pub open spec fn name_model(name: Result<String, String>) -> Result<Seq<char>, Seq<char>> {
    match name {
        Ok(path) => Ok(path@),
        Err(message) => Err(message@),
    }
}

/// Tells whether translating `status` needs to know if the item is a
/// directory: only a sharing violation does.
pub fn needs_item_kind(status: i32) -> (needed: bool)
    ensures
        needed == (status == COPYENGINE_E_SHARING_VIOLATION_SRC),
        !needed ==> spec_delete_outcome(status, true) == spec_delete_outcome(status, false),
{
    status == COPYENGINE_E_SHARING_VIOLATION_SRC
}

/// The name under which an item is reported.
pub fn display_path(name: Result<String, String>) -> (path: String)
    ensures
        path@ == spec_display_path(name_model(name)),
{
    match name {
        Ok(path) => path,
        Err(message) => {
            let mut path = String::from_str("<Error: ");
            path.append(message.as_str());
            path.append(">");
            path
        },
    }
}

/// Translates the status of one delete attempt. `is_directory` says whether
/// the item, looked up without following a symbolic link, is a directory; it
/// matters only where [`needs_item_kind`] says so.
pub fn delete_outcome(status: i32, is_directory: bool) -> (outcome: Option<RecycleError>)
    ensures
        outcome_model(outcome) == spec_delete_outcome(status, is_directory),
{
    if status >= 0 {
        None
    } else if status == COPYENGINE_E_ACCESS_DENIED_SRC {
        Some(RecycleError::AccessDenied)
    } else if status == COPYENGINE_E_SHARING_VIOLATION_SRC {
        if is_directory {
            Some(RecycleError::FolderInUse)
        } else {
            Some(RecycleError::FileInUse)
        }
    } else if status == COPYENGINE_E_USER_CANCELLED {
        Some(RecycleError::Canceled)
    } else {
        Some(RecycleError::from_status(status))
    }
}

/// The hook that fires before an item is removed: it always lets the shell
/// proceed. The flags that the shell passes describe the whole batch, not the
/// item, so nothing is decided on them.
pub fn pre_delete_item(flags: u32) -> (status: i32)
    ensures
        status == PROCEED,
{
    PROCEED
}

/// The hook that fires after an item's delete attempt: exactly one report,
/// made of the item's name and the translated status.
pub fn post_delete_item(name: Result<String, String>, status: i32, is_directory: bool) -> (report:
    ItemReport)
    ensures
        report.path@ == spec_display_path(name_model(name)),
        outcome_model(report.error) == spec_delete_outcome(status, is_directory),
{
    ItemReport { path: display_path(name), error: delete_outcome(status, is_directory) }
}

} // verus!
