use sxredder::path::{file_name, parent, text_precedes, SEPARATOR};

#[test]
fn separator_is_a_slash() {
    assert_eq!(SEPARATOR, '/');
}

#[test]
fn text_order_is_lexicographic() {
    assert!(text_precedes("a", "b"));
    assert!(!text_precedes("b", "a"));
    assert!(text_precedes("a", "a"));
    assert!(text_precedes("", ""));
    assert!(text_precedes("", "a"));
    assert!(!text_precedes("a", ""));
    assert!(text_precedes("abc", "abd"));
    assert!(!text_precedes("abd", "abc"));
    assert!(text_precedes("ab", "abc"));
    assert!(!text_precedes("abc", "ab"));
    assert!(text_precedes("Z", "a"));
    assert!(text_precedes("a10", "a2"));
    assert!(text_precedes("/tmp/t/a.txt", "/tmp/t/b.txt"));
}

#[test]
fn text_order_goes_by_code_point() {
    assert!(text_precedes("z", "\u{e9}"));
    assert!(!text_precedes("\u{e9}", "z"));
    assert!(text_precedes("\u{e9}", "\u{4e2d}"));
    assert!(text_precedes("\u{4e2d}", "\u{1f600}"));
    assert!(!text_precedes("\u{1f600}", "\u{4e2d}"));
    assert!(text_precedes("a\u{e9}", "a\u{e9}b"));
}

#[test]
fn text_order_agrees_with_the_order_of_strings() {
    let samples = ["", "a", "ab", "b", "a/b", "a.b", "\u{e9}", "z", "Z", "a\u{1f600}", "/x/y", "/x"];
    for a in samples {
        for b in samples {
            assert_eq!(text_precedes(a, b), a <= b, "{:?} {:?}", a, b);
        }
    }
}

#[test]
fn file_name_is_the_final_component() {
    assert_eq!(file_name("/tmp/t/a.txt"), "a.txt");
    assert_eq!(file_name("a.txt"), "a.txt");
    assert_eq!(file_name("./a.txt"), "a.txt");
    assert_eq!(file_name("/a"), "a");
    assert_eq!(file_name("/tmp/t/"), "");
    assert_eq!(file_name("/"), "");
    assert_eq!(file_name(""), "");
    assert_eq!(file_name("/tmp/\u{e9}t\u{e9}/\u{4e2d}.txt"), "\u{4e2d}.txt");
}

#[test]
fn parent_is_the_text_before_the_last_separator() {
    assert_eq!(parent("/tmp/t/a.txt"), Some("/tmp/t".to_string()));
    assert_eq!(parent("/tmp/t"), Some("/tmp".to_string()));
    assert_eq!(parent("/tmp"), Some("/".to_string()));
    assert_eq!(parent("a/b"), Some("a".to_string()));
    assert_eq!(parent("./a"), Some(".".to_string()));
    assert_eq!(parent("/\u{e9}/b"), Some("/\u{e9}".to_string()));
}

#[test]
fn the_root_and_a_bare_name_have_no_parent() {
    assert_eq!(parent("/"), None);
    assert_eq!(parent("a.txt"), None);
    assert_eq!(parent("."), None);
    assert_eq!(parent(""), None);
}
