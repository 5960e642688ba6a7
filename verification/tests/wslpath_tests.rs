use wsl_tools::wslpath::{
    failure, join_leaf, split_leaf, symlink_to_windows, translation_from_output, SymlinkReply,
    SymlinkStep, WslPathError,
};

#[test]
fn wsl_to_windows() {
    let path = translation_from_output(true, b"C:\\Users\\foo\\bar\n".to_vec(), Vec::new());
    assert_eq!(path, Ok(r"C:\Users\foo\bar".to_string()));

    let path =
        translation_from_output(true, b"\\\\wsl.localhost\\Arch\\home\r\n".to_vec(), Vec::new());
    assert_eq!(path, Ok(r"\\wsl.localhost\Arch\home".to_string()));
}

#[test]
fn windows_to_wsl() {
    let path =
        translation_from_output(true, b"  /mnt/c/Users/foo/bar \r\n".to_vec(), b"noise".to_vec());
    assert_eq!(path, Ok("/mnt/c/Users/foo/bar".to_string()));

    let path = translation_from_output(true, b"/home\n".to_vec(), Vec::new());
    assert_eq!(path, Ok("/home".to_string()));

    assert_eq!(translation_from_output(true, Vec::new(), Vec::new()), Ok(String::new()));
}

#[test]
fn output_that_is_no_utf8_is_an_error() {
    let result = translation_from_output(true, vec![b'/', 0xFF, b'a'], Vec::new());
    assert_eq!(result, Err(WslPathError::InvalidUtf8));
    assert_eq!(result.unwrap_err().message(), "wslpath returned invalid UTF-8");
}

#[test]
fn a_failed_run_gives_its_error_stream() {
    let result = translation_from_output(
        false,
        b"Usage: wslpath ...".to_vec(),
        b"wslpath: foo: No such file or directory\n".to_vec(),
    );
    assert_eq!(
        result,
        Err(WslPathError::Failed("wslpath: foo: No such file or directory".to_string()))
    );
    assert_eq!(result.unwrap_err().message(), "wslpath: foo: No such file or directory");
    assert_eq!(
        translation_from_output(false, Vec::new(), vec![b' ', b'a', 0xFF, b'\n']),
        Err(WslPathError::Failed("a\u{FFFD}".to_string()))
    );
    assert_eq!(failure(" \t spaced out\n"), WslPathError::Failed("spaced out".to_string()));
}

#[test]
fn paths_split_into_directory_and_name() {
    let pair = |d: &str, b: &str| Some((d.to_string(), b.to_string()));
    assert_eq!(split_leaf("/tmp/dir/symlink"), pair("/tmp/dir", "symlink"));
    assert_eq!(split_leaf("/home"), pair("/", "home"));
    assert_eq!(split_leaf("/a/b/"), pair("/a", "b"));
    assert_eq!(split_leaf("/a//b"), pair("/a", "b"));
    assert_eq!(split_leaf("//a"), pair("/", "a"));
    assert_eq!(split_leaf("/a/リン.txt"), pair("/a", "リン.txt"));
    assert_eq!(split_leaf("/a/..b"), pair("/a", "..b"));
    assert_eq!(split_leaf("/"), None);
    assert_eq!(split_leaf("///"), None);
    assert_eq!(split_leaf(""), None);
    assert_eq!(split_leaf("relative/path"), None);
    assert_eq!(split_leaf("/a/.."), None);
    assert_eq!(split_leaf("/a/."), None);
    assert_eq!(split_leaf("/.."), None);
}

#[test]
fn name_is_joined_with_a_backslash() {
    assert_eq!(join_leaf(r"C:\Users", "foo"), r"C:\Users\foo");
    assert_eq!(join_leaf("", ""), "\\");
}

#[test]
fn symlink_wsl_to_windows() {
    let symlink_in_symlink = "/tmp/symlink_wsl_to_windows/symlink/symlink";
    let expected_windows_subdir = r"\\wsl.localhost\Arch\tmp\symlink_wsl_to_windows";
    let expected_windows_subdir_symlink = format!("{expected_windows_subdir}\\symlink");

    let translation = symlink_to_windows(symlink_in_symlink.to_string());
    assert_eq!(translation.step(), SymlinkStep::MakeAbsolute(symlink_in_symlink.to_string()));
    let translation =
        translation.advance(SymlinkReply::Absolute(Some(symlink_in_symlink.to_string())));
    // the tool resolves every link of the directory
    assert_eq!(
        translation.step(),
        SymlinkStep::Translate("/tmp/symlink_wsl_to_windows/symlink".to_string())
    );
    let translation =
        translation.advance(SymlinkReply::Translated(Ok(expected_windows_subdir.to_string())));
    assert_eq!(translation.step(), SymlinkStep::Finish(Ok(expected_windows_subdir_symlink)));
}

#[test]
fn symlink_translation_falls_back_to_the_whole_path() {
    let failed = || WslPathError::Failed("wslpath: no".to_string());

    // the directory cannot be translated
    let translation = symlink_to_windows("link".to_string())
        .advance(SymlinkReply::Absolute(Some("/gone/link".to_string())));
    assert_eq!(translation.step(), SymlinkStep::Translate("/gone".to_string()));
    let translation = translation.advance(SymlinkReply::Translated(Err(failed())));
    assert_eq!(translation.step(), SymlinkStep::Translate("link".to_string()));
    let translation = translation.advance(SymlinkReply::Translated(Ok(r"C:\link".to_string())));
    assert_eq!(translation.step(), SymlinkStep::Finish(Ok(r"C:\link".to_string())));

    // there is no absolute path
    let translation = symlink_to_windows("".to_string()).advance(SymlinkReply::Absolute(None));
    assert_eq!(translation.step(), SymlinkStep::Translate("".to_string()));
    let translation = translation.advance(SymlinkReply::Translated(Err(failed())));
    assert_eq!(translation.step(), SymlinkStep::Finish(Err(failed())));
    let translation = translation.advance(SymlinkReply::Absolute(None));
    assert_eq!(translation.step(), SymlinkStep::Finish(Err(failed())));

    // the absolute path has no last component
    let translation = symlink_to_windows("/".to_string())
        .advance(SymlinkReply::Absolute(Some("/".to_string())));
    assert_eq!(translation.step(), SymlinkStep::Translate("/".to_string()));

    // a reply of another kind changes nothing
    let translation = symlink_to_windows("a".to_string())
        .advance(SymlinkReply::Translated(Ok("x".to_string())));
    assert_eq!(translation.step(), SymlinkStep::MakeAbsolute("a".to_string()));
}
