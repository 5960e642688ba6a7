//! Platform status codes (`HRESULT`s), held as plain `i32` values.

use crate::text::{hex_digit, spec_hex_digit};
use vstd::prelude::*;
use vstd::string::StringExecFns;

verus! {

/// The status `S_OK`: the call succeeded.
pub const S_OK: i32 = 0;

/// The status `S_FALSE`: the call succeeded and had nothing to do, as when
/// the session of this thread was initialized before.
pub const S_FALSE: i32 = 1;

/// The status `0x80010106`: the session of this thread was initialized
/// before with another model.
pub const RPC_E_CHANGED_MODE: i32 = -2147417850;

/// `ERROR_FILE_NOT_FOUND`, the Win32 error of a path that does not exist.
pub const ERROR_FILE_NOT_FOUND: u32 = 2;

/// `ERROR_INVALID_PARAMETER`, the Win32 error of a malformed argument.
pub const ERROR_INVALID_PARAMETER: u32 = 87;

/// `ERROR_CANCELLED`, the Win32 error of an operation the user canceled.
pub const ERROR_CANCELLED: u32 = 1223;

/// The status `0x80070002`: `ERROR_FILE_NOT_FOUND` as an `HRESULT`.
pub const FILE_NOT_FOUND: i32 = -2147024894;

/// The status `0x800704C7`: `ERROR_CANCELLED` as an `HRESULT`.
pub const CANCELLED: i32 = -2147023673;

/// The status `0x80270000`: the user canceled the copy engine's operation.
pub const COPYENGINE_E_USER_CANCELLED: i32 = -2144927744;

/// The status `0x80270021`: access to the source item was denied.
pub const COPYENGINE_E_ACCESS_DENIED_SRC: i32 = -2144927711;

/// The status `0x80270027`: the source item is open elsewhere.
pub const COPYENGINE_E_SHARING_VIOLATION_SRC: i32 = -2144927705;

/// A status is a success code exactly when it is not negative.
pub open spec fn succeeded(status: i32) -> bool {
    status >= 0
}

/// The `HRESULT` that stands for a Win32 error code: codes that read as zero
/// or negative when taken as 32 signed bits stay as they are, every other
/// code keeps its low 16 bits under the failure bit and the Win32 facility
/// (`0x8007....`).
pub open spec fn spec_from_win32(code: u32) -> int {
    if code == 0 {
        0
    } else if code >= 0x8000_0000 {
        code - 0x1_0000_0000
    } else {
        code % 0x1_0000 + 0x8007_0000 - 0x1_0000_0000
    }
}

/// Tells whether `status` is a success code.
pub fn is_success(status: i32) -> (ok: bool)
    ensures
        ok == succeeded(status),
{
    status >= 0
}

/// Maps a Win32 error code to its `HRESULT`.
pub fn from_win32(code: u32) -> (status: i32)
    ensures
        status == spec_from_win32(code),
        code != 0 ==> !succeeded(status),
{
    if code == 0 {
        0
    } else if code >= 0x8000_0000 {
        let low: u32 = code - 0x8000_0000;
        let low_signed: i32 = low as i32;
        low_signed + i32::MIN
    } else {
        let low: u32 = code % 0x1_0000;
        let low_signed: i32 = low as i32;
        low_signed + 0x0007_0000 + i32::MIN
    }
}

/// The 32 bits of a status, read as an unsigned number.
pub open spec fn spec_bits(status: i32) -> int {
    if status < 0 {
        status + 0x1_0000_0000
    } else {
        status as int
    }
}

/// A status as it is written in diagnostics: `0x` and its 32 bits as eight
/// upper-case hexadecimal digits.
pub open spec fn spec_status_text(status: i32) -> Seq<char> {
    let bits = spec_bits(status);
    seq![
        '0',
        'x',
        spec_hex_digit(bits / 0x1000_0000 % 16),
        spec_hex_digit(bits / 0x100_0000 % 16),
        spec_hex_digit(bits / 0x10_0000 % 16),
        spec_hex_digit(bits / 0x1_0000 % 16),
        spec_hex_digit(bits / 0x1000 % 16),
        spec_hex_digit(bits / 0x100 % 16),
        spec_hex_digit(bits / 0x10 % 16),
        spec_hex_digit(bits % 16),
    ]
}

/// The 32 bits of a status as an unsigned number.
pub fn bits(status: i32) -> (bits: u32)
    ensures
        bits == spec_bits(status),
{
    if status < 0 {
        let above_min: i32 = status - i32::MIN;
        let low: u32 = above_min as u32;
        low + 0x8000_0000
    } else {
        status as u32
    }
}

/// Writes a status as `0x` and eight upper-case hexadecimal digits.
pub fn status_text(status: i32) -> (text: String)
    ensures
        text@ == spec_status_text(status),
{
    let bits: u32 = bits(status);
    let mut text = String::from_str("0x");
    proof {
        reveal_strlit("0x");
    }
    text.push(hex_digit((bits / 0x1000_0000 % 16) as u8));
    text.push(hex_digit((bits / 0x100_0000 % 16) as u8));
    text.push(hex_digit((bits / 0x10_0000 % 16) as u8));
    text.push(hex_digit((bits / 0x1_0000 % 16) as u8));
    text.push(hex_digit((bits / 0x1000 % 16) as u8));
    text.push(hex_digit((bits / 0x100 % 16) as u8));
    text.push(hex_digit((bits / 0x10 % 16) as u8));
    text.push(hex_digit((bits % 16) as u8));
    text
}

/// The named statuses are the images of their Win32 error codes.
pub proof fn lemma_named_win32_statuses()
    ensures
        spec_from_win32(ERROR_FILE_NOT_FOUND) == FILE_NOT_FOUND,
        spec_from_win32(ERROR_CANCELLED) == CANCELLED,
        !succeeded(FILE_NOT_FOUND),
        !succeeded(CANCELLED),
        !succeeded(RPC_E_CHANGED_MODE),
        !succeeded(COPYENGINE_E_USER_CANCELLED),
        !succeeded(COPYENGINE_E_ACCESS_DENIED_SRC),
        !succeeded(COPYENGINE_E_SHARING_VIOLATION_SRC),
{
}

} // verus!
