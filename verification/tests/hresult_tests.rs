use wsl_tools::hresult::{
    bits, from_win32, is_success, status_text, CANCELLED, COPYENGINE_E_ACCESS_DENIED_SRC,
    COPYENGINE_E_SHARING_VIOLATION_SRC, COPYENGINE_E_USER_CANCELLED, ERROR_CANCELLED,
    ERROR_FILE_NOT_FOUND, ERROR_INVALID_PARAMETER, FILE_NOT_FOUND, S_FALSE, S_OK,
};

#[test]
fn win32_errors_become_failure_statuses() {
    assert_eq!(from_win32(0), 0);
    assert_eq!(from_win32(ERROR_FILE_NOT_FOUND), FILE_NOT_FOUND);
    assert_eq!(from_win32(ERROR_CANCELLED), CANCELLED);
    assert_eq!(from_win32(ERROR_INVALID_PARAMETER) as u32, 0x8007_0057);
    assert_eq!(from_win32(0x0001_0002) as u32, 0x8007_0002);
    assert_eq!(from_win32(0x7FFF_FFFF) as u32, 0x8007_FFFF);
    assert_eq!(from_win32(0x8000_0000), i32::MIN);
    assert_eq!(from_win32(0x8027_0000) as u32, 0x8027_0000);
    assert_eq!(from_win32(u32::MAX), -1);
}

#[test]
fn named_statuses_have_their_documented_bits() {
    assert_eq!(FILE_NOT_FOUND as u32, 0x8007_0002);
    assert_eq!(CANCELLED as u32, 0x8007_04C7);
    assert_eq!(COPYENGINE_E_USER_CANCELLED as u32, 0x8027_0000);
    assert_eq!(COPYENGINE_E_ACCESS_DENIED_SRC as u32, 0x8027_0021);
    assert_eq!(COPYENGINE_E_SHARING_VIOLATION_SRC as u32, 0x8027_0027);
    assert_eq!(S_OK, 0);
    assert_eq!(S_FALSE, 1);
}

#[test]
fn success_is_not_negative() {
    assert!(is_success(S_OK));
    assert!(is_success(S_FALSE));
    assert!(is_success(i32::MAX));
    assert!(!is_success(-1));
    assert!(!is_success(FILE_NOT_FOUND));
    assert!(!is_success(i32::MIN));
}

#[test]
fn status_is_written_as_eight_hex_digits() {
    assert_eq!(status_text(0), "0x00000000");
    assert_eq!(status_text(1), "0x00000001");
    assert_eq!(status_text(FILE_NOT_FOUND), "0x80070002");
    assert_eq!(status_text(CANCELLED), "0x800704C7");
    assert_eq!(status_text(-1), "0xFFFFFFFF");
    assert_eq!(status_text(i32::MIN), "0x80000000");
    assert_eq!(status_text(0x1234_ABCD), "0x1234ABCD");
    assert_eq!(bits(-2), 0xFFFF_FFFE);
    assert_eq!(bits(7), 7);
}
