use wsl_tools::open::{is_url, select_verb};

#[test]
fn is_url_works() {
    assert!(
        is_url("https://youtu.be/hSHxPPV2zKU?list=PLYooEAFUfhDfevWFKLa7gh3BogBUAebYO"),
        "a url is a url"
    );

    assert!(
        is_url("mailto:example@example.com"),
        "protocols don't need the slash-slash"
    );

    assert!(!is_url(r"foo/bar"), "a path is not a url");
    assert!(!is_url("file.txt"), "a filename is not a url");
}

#[test]
fn is_url_edge_cases() {
    assert!(!is_url(""));
    assert!(is_url(":"));
    assert!(!is_url("/a:b"));
    assert!(!is_url("dir/file:with:colons"));
    assert!(is_url("C:\\Users"));
}

#[test]
fn verb_flags_take_precedence() {
    assert_eq!(select_verb(true, false, None), Some("edit".to_string()));
    assert_eq!(select_verb(false, true, None), Some("runas".to_string()));
    assert_eq!(select_verb(true, true, Some("print".to_string())), Some("edit".to_string()));
    assert_eq!(select_verb(false, false, Some("print".to_string())), Some("print".to_string()));
    assert_eq!(select_verb(false, false, None), None);
}
