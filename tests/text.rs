use tadeusz::text::text_eq;

#[test]
fn text_eq_compares_characters() {
    assert!(text_eq("abc", "abc"));
    assert!(text_eq("", ""));
    assert!(!text_eq("abc", "abd"));
    assert!(!text_eq("abc", "ab"));
    assert!(text_eq("héllo", "héllo"));
    assert!(!text_eq("héllo", "hello"));
}
