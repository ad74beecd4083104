use report_creation::file_name::{normalized_stem, pdf_file_name, typst_file_name};

#[test]
fn stem_keeps_letters_and_digits_in_lower_case() {
    assert_eq!(normalized_stem("Build & Ship!"), "build_ship");
    assert_eq!(normalized_stem("Weekly Status"), "weekly_status");
    assert_eq!(normalized_stem("PDF please"), "pdf_please");
    assert_eq!(normalized_stem("v1.2-beta 3"), "v1_2_beta_3");
    assert_eq!(normalized_stem("already_fine"), "already_fine");
    assert_eq!(normalized_stem("ABCxyz019"), "abcxyz019");
}

#[test]
fn stem_has_no_underscore_at_either_end() {
    assert_eq!(normalized_stem("  --Hello--  "), "hello");
    assert_eq!(normalized_stem("__a__b__"), "a_b");
    assert_eq!(normalized_stem("!a"), "a");
    assert_eq!(normalized_stem("a!"), "a");
}

#[test]
fn stem_defaults_to_report() {
    assert_eq!(normalized_stem(""), "report");
    assert_eq!(normalized_stem("!!! ???"), "report");
    assert_eq!(normalized_stem("___"), "report");
    assert_eq!(normalized_stem("   "), "report");
    assert_eq!(normalized_stem("日本語"), "report");
}

#[test]
fn stem_treats_other_letters_as_separators() {
    assert_eq!(normalized_stem("Café Déjà Vu"), "caf_d_j_vu");
    assert_eq!(normalized_stem("naïve"), "na_ve");
}

#[test]
fn stem_is_idempotent() {
    let titles = [
        "Build & Ship!",
        "",
        "!!!",
        "Weekly Status",
        "a",
        "A--B",
        "report",
        "Café",
    ];
    for title in titles {
        let once = normalized_stem(title);
        assert_eq!(normalized_stem(&once), once);
    }
}

#[test]
fn file_names_add_the_extension() {
    assert_eq!(typst_file_name("Build & Ship!"), "build_ship.typ");
    assert_eq!(pdf_file_name("Build & Ship!"), "build_ship.pdf");
    assert_eq!(typst_file_name(""), "report.typ");
    assert_eq!(pdf_file_name("???"), "report.pdf");
}

fn stem_by_split_and_join(title: &str) -> String {
    let replaced: String = title
        .chars()
        .map(|c| {
            if c.is_ascii_alphanumeric() {
                c.to_ascii_lowercase()
            } else {
                '_'
            }
        })
        .collect();
    let words: Vec<&str> = replaced.split('_').filter(|word| !word.is_empty()).collect();
    if words.is_empty() {
        "report".to_string()
    } else {
        words.join("_")
    }
}

#[test]
fn stem_agrees_with_split_and_join() {
    let mut code: u32 = 0;
    while code < 0x250 {
        if let Some(c) = char::from_u32(code) {
            let alone = c.to_string();
            assert_eq!(normalized_stem(&alone), stem_by_split_and_join(&alone));
            let between = format!("a{c}B");
            assert_eq!(normalized_stem(&between), stem_by_split_and_join(&between));
        }
        code += 1;
    }
    let titles = [
        "Quarterly Report (Q3) -- FINAL v2",
        "  spaces   everywhere  ",
        "snake_case_title",
        "MiXeD-CaSe_123",
        "ünïcödé title",
        "a_b__c___d",
        "_",
        "-",
    ];
    for title in titles {
        assert_eq!(normalized_stem(title), stem_by_split_and_join(title));
    }
}
