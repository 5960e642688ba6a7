use wsl_tools::vscode::{exe_from_command_string, wsl_path_to_vscode_remote_uri};

#[test]
fn wsl_path_to_vscode_remote_uri_works() {
    assert_eq!(
        wsl_path_to_vscode_remote_uri(
            "wsl+Arch",
            "/home/max/foo/バー/リン%20& ちゃん [@is'cute].txt"
        ),
        // Actual command line arg observed while running `code` in wsl
        "vscode-remote://wsl+Arch/home/max/foo/%E3%83%90%E3%83%BC/%E3%83%AA%E3%83%B3%2520&%20%E3%81%A1%E3%82%83%E3%82%93%20%5B@is'cute%5D.txt"
    );
}

#[test]
fn exe_from_command_string_works() {
    assert_eq!(
        exe_from_command_string(r#"C:\Windows\notepad.exe "%1""#),
        r"C:\Windows\notepad.exe"
    );

    assert_eq!(
        exe_from_command_string(r#" "C:\Program Files\Foo\bar.exe" /x "%1" "#),
        r"C:\Program Files\Foo\bar.exe"
    );
}

#[test]
fn vscode_exe_from_command_string_works() {
    assert_eq!(
        exe_from_command_string(r#"C:\Windows\notepad.exe "%1""#),
        r"C:\Windows\notepad.exe"
    );

    assert_eq!(
        exe_from_command_string(r#" "C:\Program Files\Foo\bar.exe" /x "%1" "#),
        r"C:\Program Files\Foo\bar.exe"
    );
}

#[test]
fn exe_from_command_string_edge_cases() {
    assert_eq!(exe_from_command_string(""), "");
    assert_eq!(exe_from_command_string("   "), "");
    assert_eq!(exe_from_command_string("\t\u{3000}code.exe"), "code.exe");
    assert_eq!(exe_from_command_string("\"unterminated path"), "unterminated path");
    assert_eq!(exe_from_command_string("\"\" rest"), "");
    assert_eq!(exe_from_command_string("a\tb c"), "a\tb");
}

#[test]
fn every_escaped_byte_is_percent_encoded() {
    assert_eq!(
        wsl_path_to_vscode_remote_uri("", " \"#%<>?[\\]^`{|}\u{7f}\n"),
        "vscode-remote://%20%22%23%25%3C%3E%3F%5B%5C%5D%5E%60%7B%7C%7D%7F%0A"
    );
    assert_eq!(
        wsl_path_to_vscode_remote_uri("wsl+Ubuntu", "/a-b.c_d~e!$&'()*+,;=:@/"),
        "vscode-remote://wsl+Ubuntu/a-b.c_d~e!$&'()*+,;=:@/"
    );
    assert_eq!(wsl_path_to_vscode_remote_uri("x", ""), "vscode-remote://x");
}
