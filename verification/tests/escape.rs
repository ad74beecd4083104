use report_creation::escape::{escape_caption, escape_str, push_quoted, replace_char};

fn unescape(escaped: &str) -> String {
    escaped.replace("\\\"", "\"").replace("\\\\", "\\")
}

#[test]
fn escape_doubles_backslashes_then_escapes_quotes() {
    assert_eq!(escape_str("plain"), "plain");
    assert_eq!(escape_str(""), "");
    assert_eq!(escape_str("\\"), "\\\\");
    assert_eq!(escape_str("\""), "\\\"");
    assert_eq!(escape_str("\\\""), "\\\\\\\"");
    assert_eq!(escape_str("a\"b\\c"), "a\\\"b\\\\c");
}

#[test]
fn escape_agrees_with_two_replacements() {
    let samples = ["", "a", "\\", "\"", "\\\"", "\"\\", "\\\\\"\"", "x\\y\"z\\", "é\"ü\\"];
    for sample in samples {
        assert_eq!(
            escape_str(sample),
            sample.replace('\\', "\\\\").replace('"', "\\\"")
        );
    }
}

#[test]
fn escaping_can_be_undone() {
    let samples = [
        "",
        "plain",
        "\\",
        "\"",
        "\\\"",
        "\"\\",
        "\\\\",
        "\\\\\"",
        "a \"quoted\" \\ path\\to\\\"file\"",
    ];
    for sample in samples {
        assert_eq!(unescape(&escape_str(sample)), sample);
        let mut quoted = String::new();
        push_quoted(&mut quoted, sample);
        assert!(quoted.starts_with('"') && quoted.ends_with('"'));
        assert_eq!(unescape(&quoted[1..quoted.len() - 1]), sample);
    }
}

#[test]
fn push_quoted_appends_to_what_is_there() {
    let mut out = String::from("x: ");
    push_quoted(&mut out, "a\"b");
    assert_eq!(out, "x: \"a\\\"b\"");
}

#[test]
fn caption_escape_handles_each_class_on_its_own() {
    assert_eq!(escape_caption("["), "\\[");
    assert_eq!(escape_caption("]"), "\\]");
    assert_eq!(escape_caption("\\"), "\\\\");
    assert_eq!(escape_caption("\\["), "\\\\\\[");
    assert_eq!(escape_caption("\""), "\"");
    assert_eq!(
        escape_caption("Bracket [and] slash \\"),
        "Bracket \\[and\\] slash \\\\"
    );
}

#[test]
fn replace_char_replaces_every_occurrence() {
    assert_eq!(replace_char("a-b-c", '-', "+"), "a+b+c");
    assert_eq!(replace_char("--", '-', ""), "");
    assert_eq!(replace_char("abc", 'x', "y"), "abc");
    assert_eq!(replace_char("aa", 'a', "aa"), "aaaa");
}

fn is_body(text: &str, bare: &[char]) -> bool {
    let mut chars = text.chars();
    while let Some(c) = chars.next() {
        if c == '\\' {
            if chars.next().is_none() {
                return false;
            }
        } else if bare.contains(&c) {
            return false;
        }
    }
    true
}

#[test]
fn escaped_text_never_ends_the_string_early() {
    let samples = [
        "",
        "plain",
        "\"",
        "\\",
        "\\\"",
        "\"\\",
        "ends with slash \\",
        "\", injected: \"",
        "\\\\\"\\\"",
    ];
    for sample in samples {
        assert!(is_body(&escape_str(sample), &['"']), "{sample:?}");
    }
    assert!(!is_body("\"", &['"']));
    assert!(!is_body("\\", &['"']));
}

#[test]
fn escaped_caption_never_ends_the_caption_early() {
    let samples = ["", "[", "]", "\\", "] , kind: [", "a\\]b[c", "\\[\\]"];
    for sample in samples {
        assert!(is_body(&escape_caption(sample), &['[', ']']), "{sample:?}");
    }
}
