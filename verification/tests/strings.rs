use report_creation::strings::{
    decimal_string, is_whitespace, join, owned_items, push_repeated, trim, trim_end,
};

#[test]
fn trim_removes_white_space_at_both_ends() {
    assert_eq!(trim("  hello world \n"), "hello world");
    assert_eq!(trim("hello"), "hello");
    assert_eq!(trim(""), "");
    assert_eq!(trim(" \t\r\n"), "");
    assert_eq!(trim("\u{a0}x\u{3000}"), "x");
    assert_eq!(trim(" é ü "), "é ü");
    assert_eq!(trim("a"), "a");
    assert_eq!(trim(" a"), "a");
    assert_eq!(trim("a "), "a");
}

#[test]
fn trim_end_keeps_leading_white_space() {
    assert_eq!(trim_end("  code  \n\n"), "  code");
    assert_eq!(trim_end("\n"), "");
    assert_eq!(trim_end(""), "");
    assert_eq!(trim_end("x"), "x");
}

#[test]
fn trim_agrees_with_the_standard_library() {
    let samples = [
        "",
        " ",
        "a",
        "  a  b  ",
        "\t\n\u{b}\u{c}\r x \u{85}\u{a0}",
        "\u{1680}\u{2000}\u{2001}\u{200a}y\u{2028}\u{2029}\u{202f}\u{205f}\u{3000}",
        "\u{200b}zero width\u{200b}",
        "\u{180e}mongolian\u{180e}",
        " 日本語 ",
    ];
    for sample in samples {
        assert_eq!(trim(sample), sample.trim());
        assert_eq!(trim_end(sample), sample.trim_end());
    }
}

#[test]
fn white_space_is_what_the_standard_library_says() {
    let mut code: u32 = 0;
    while code <= 0x3100 {
        if let Some(c) = char::from_u32(code) {
            assert_eq!(is_whitespace(c), c.is_whitespace());
        }
        code += 1;
    }
    assert!(!is_whitespace('\u{feff}'));
    assert!(!is_whitespace('\u{10ffff}'));
}

#[test]
fn join_puts_the_separator_between_parts() {
    let parts = vec!["a".to_string(), "b".to_string(), "c".to_string()];
    assert_eq!(join(&parts, ", "), "a, b, c");
    assert_eq!(join(&vec!["a".to_string()], ", "), "a");
    assert_eq!(join(&Vec::new(), ", "), "");
    assert_eq!(join(&vec![String::new(), String::new()], "-"), "-");
}

#[test]
fn decimal_string_writes_every_byte() {
    assert_eq!(decimal_string(0), "0");
    assert_eq!(decimal_string(3), "3");
    assert_eq!(decimal_string(9), "9");
    assert_eq!(decimal_string(10), "10");
    assert_eq!(decimal_string(99), "99");
    assert_eq!(decimal_string(100), "100");
    assert_eq!(decimal_string(105), "105");
    assert_eq!(decimal_string(255), "255");
    let mut n: u64 = 0;
    while n <= 1200 {
        assert_eq!(decimal_string(n), n.to_string());
        n += 1;
    }
    assert_eq!(decimal_string(u64::MAX), "18446744073709551615");
    assert_eq!(decimal_string(10_000_000_000), "10000000000");
}

#[test]
fn push_repeated_appends_the_character() {
    let mut out = String::from("x");
    push_repeated(&mut out, '=', 3);
    assert_eq!(out, "x===");
    push_repeated(&mut out, '-', 0);
    assert_eq!(out, "x===");
}

#[test]
fn owned_items_copies_each_item() {
    assert_eq!(
        owned_items(&["a", " b "]),
        vec!["a".to_string(), " b ".to_string()]
    );
    assert!(owned_items(&[]).is_empty());
}
