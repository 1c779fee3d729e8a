use owlguard_mcp::utils::text_clean::clean;

#[test]
fn test_full_width_digits() {
    assert_eq!(clean("１２３４５６７８９０"), "1234567890");
}

#[test]
fn test_full_width_letters() {
    assert_eq!(clean("ＡＢＣＤＥＦ"), "ABCDEF");
    assert_eq!(clean("ａｂｃｄｅｆ"), "abcdef");
}

#[test]
fn test_full_width_space() {
    assert_eq!(clean("hello　world"), "hello world");
}

#[test]
fn test_whitespace_normalization() {
    assert_eq!(clean("hello   world"), "hello world");
    assert_eq!(clean("hello\tworld"), "hello world");
    assert_eq!(clean("hello\nworld"), "hello world");
    assert_eq!(clean("hello\r\nworld"), "hello world");
    assert_eq!(clean("  hello  world  "), "hello world");
}

#[test]
fn test_zero_width_chars() {
    let input = "hello\u{200B}world";
    assert_eq!(clean(input), "helloworld");

    let input2 = "hello\u{200C}world";
    assert_eq!(clean(input2), "helloworld");

    let input3 = "hello\u{FEFF}world";
    assert_eq!(clean(input3), "helloworld");

    let input4 = "test\u{200D}data";
    assert_eq!(clean(input4), "testdata");
}

#[test]
fn test_zero_width_with_spaces() {
    let input = "hello \u{200B}world";
    assert_eq!(clean(input), "hello world");
}

#[test]
fn test_mixed_operations() {
    let input = "　ＡＢＣ　１２３\u{200B}　";
    assert_eq!(clean(input), "ABC 123");
}

#[test]
fn test_empty_string() {
    assert_eq!(clean(""), "");
}

#[test]
fn test_no_change_needed() {
    assert_eq!(clean("hello world 123"), "hello world 123");
}

#[test]
fn test_chinese_text_unchanged() {
    assert_eq!(clean("你好世界"), "你好世界");
}

#[test]
fn test_trailing_leading_whitespace() {
    assert_eq!(clean("  hello  "), "hello");
    assert_eq!(clean("\t\nhello\n\t"), "hello");
}

#[test]
fn cleaned_text_is_in_normal_form() {
    for input in ["\u{200B}  a\u{3000}\u{3000}b \t ", "\u{85}x\u{A0}\u{A0}y\u{2028}", "", "   "] {
        let out = clean(input);
        assert!(!out.starts_with(char::is_whitespace));
        assert!(!out.ends_with(char::is_whitespace));
        assert!(!out.contains("  "));
        assert!(out.chars().all(|c| !c.is_whitespace() || c == ' '));
        assert!(!out.contains('\u{200B}'));
    }
    assert_eq!(clean("\u{85}x\u{A0}\u{A0}y"), "x y");
}

#[test]
fn cleaning_twice_changes_nothing() {
    for input in ["　ＡＢＣ　１２３\u{200B}　", "\t\nhello\n\t", "a\u{3000}\u{3000}b", "", "你好  世界"] {
        let once = clean(input);
        assert_eq!(clean(&once), once);
    }
}
