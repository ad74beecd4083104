use report_creation::{
    paragraph, text, text_with_options, IntoText, Paragraph, Report, Section, Text,
    TextOptionValue, TextOptions,
};

#[test]
fn paragraphs_accept_text_objects() {
    let shared_text = text("Shared content");

    let rendered = Report::new("Shared Text")
        .add_section(
            Section::new("Body")
                .add_block(paragraph(shared_text.clone()))
                .add_block(paragraph(shared_text)),
        )
        .render_validated()
        .expect("generated markup should be valid");

    let expected = "Shared content\n\n";
    assert!(rendered.match_indices(expected).count() >= 2);
}

#[test]
fn renders_formatted_text() {
    let styled = text("Look at me!")
        .fill("red")
        .size("16pt")
        .font("Inter")
        .weight("bold");

    let rendered = Report::new("Style Guide")
        .add_section(Section::new("Body").add_block(paragraph(styled)))
        .render_validated()
        .expect("generated markup should be valid");

    assert!(rendered.contains(
        "#text(\"Look at me!\", fill: red, size: 16pt, font: \"Inter\", weight: bold)",
    ));
}

#[test]
fn accepts_options_struct_for_text() {
    let options = TextOptions::default()
        .lang("en")
        .justification("left")
        .leading("1.4em");

    let rendered = Report::new("Options")
        .add_section(
            Section::new("Body").add_block(paragraph(text_with_options("Configurable", options))),
        )
        .render_validated()
        .expect("generated markup should be valid");

    assert!(rendered.contains(
        "#text(\"Configurable\", lang: \"en\", justification: left, leading: 1.4em)",
    ));
}

#[test]
fn plain_text_renders_as_trimmed_content() {
    assert_eq!(text("  Hello, \"world\" \\ \n").render(), "Hello, \"world\" \\");
    assert_eq!(Text::new("").render(), "");
    assert_eq!(Text::new(" \t\n").render(), "");
    assert_eq!(Text::default().render(), "");
    assert_eq!(
        text_with_options(" x ", TextOptions::default()).render(),
        "x"
    );
}

#[test]
fn styled_text_quotes_and_escapes_its_content() {
    assert_eq!(
        text("  say \"hi\" \\ bye ").fill("red").render(),
        "#text(\"say \\\"hi\\\" \\\\ bye\", fill: red)"
    );
}

#[test]
fn attributes_follow_declaration_order_whatever_the_setting_order() {
    let forward = text("x").fill("red").size("16pt").font("Inter").weight("bold");
    let backward = text("x").weight("bold").font("Inter").size("16pt").fill("red");
    assert_eq!(forward.render(), backward.render());
    assert_eq!(
        backward.render(),
        "#text(\"x\", fill: red, size: 16pt, font: \"Inter\", weight: bold)"
    );
    assert_eq!(forward, backward);
}

#[test]
fn every_text_attribute_is_written_in_its_place() {
    let all = text("x")
        .parbreak("p")
        .spacing("o")
        .leading("n")
        .hanging_indent("m")
        .first_line_indent("l")
        .align("k")
        .justification("j")
        .region("i")
        .writing_mode("h")
        .dir("g")
        .scale("f")
        .rotate("e")
        .offset("d")
        .shadow("c")
        .outline("b")
        .line_through("a")
        .overline("9")
        .underline("8")
        .baseline("7")
        .variant("6")
        .stretch("5")
        .tracking("4")
        .weight("3")
        .style("2")
        .font("F")
        .size("1")
        .lang("L")
        .fill("0");
    assert_eq!(
        all.render(),
        "#text(\"x\", fill: 0, lang: \"L\", size: 1, font: \"F\", style: 2, weight: 3, \
         tracking: 4, stretch: 5, variant: 6, baseline: 7, underline: 8, overline: 9, \
         line_through: a, outline: b, shadow: c, offset: d, rotate: e, scale: f, dir: g, \
         writing_mode: h, region: i, justification: j, align: k, first_line_indent: l, \
         hanging_indent: m, leading: n, spacing: o, parbreak: p)"
    );
}

#[test]
fn options_builders_match_text_builders() {
    let options = TextOptions::default()
        .fill("0")
        .lang("L")
        .size("1")
        .font("F")
        .style("2")
        .weight("3")
        .tracking("4")
        .stretch("5")
        .variant("6")
        .baseline("7")
        .underline("8")
        .overline("9")
        .line_through("a")
        .outline("b")
        .shadow("c")
        .offset("d")
        .rotate("e")
        .scale("f")
        .dir("g")
        .writing_mode("h")
        .region("i")
        .justification("j")
        .align("k")
        .first_line_indent("l")
        .hanging_indent("m")
        .leading("n")
        .spacing("o")
        .parbreak("p");
    assert_eq!(options.entries().len(), 28);
    assert_eq!(options.entries()[0], "fill: 0");
    assert_eq!(options.entries()[1], "lang: \"L\"");
    assert_eq!(options.entries()[27], "parbreak: p");
    let built = text("x")
        .fill("0")
        .lang("L")
        .size("1")
        .font("F")
        .style("2")
        .weight("3")
        .tracking("4")
        .stretch("5")
        .variant("6")
        .baseline("7")
        .underline("8")
        .overline("9")
        .line_through("a")
        .outline("b")
        .shadow("c")
        .offset("d")
        .rotate("e")
        .scale("f")
        .dir("g")
        .writing_mode("h")
        .region("i")
        .justification("j")
        .align("k")
        .first_line_indent("l")
        .hanging_indent("m")
        .leading("n")
        .spacing("o")
        .parbreak("p");
    assert_eq!(text_with_options("x", options), built);
}

#[test]
fn last_setting_of_an_attribute_wins() {
    assert_eq!(
        text("x").fill("red").fill("blue").render(),
        "#text(\"x\", fill: blue)"
    );
}

#[test]
fn quoted_attributes_are_escaped() {
    assert_eq!(
        text("x").font("A \"B\" \\ C").render(),
        "#text(\"x\", font: \"A \\\"B\\\" \\\\ C\")"
    );
}

#[test]
fn text_accessors_give_back_what_was_set() {
    let styled = text(" raw ").size("12pt");
    assert_eq!(styled.as_str(), " raw ");
    assert_eq!(styled.options(), &TextOptions::default().size("12pt"));
    assert_eq!(TextOptionValue::raw("a\"b").render(), "a\"b");
    assert_eq!(TextOptionValue::str("a\"b").render(), "\"a\\\"b\"");
}

#[test]
fn strings_and_texts_turn_into_text() {
    assert_eq!("abc".into_text(), Text::new("abc"));
    assert_eq!("abc".to_string().into_text(), Text::new("abc"));
    assert_eq!(text("abc").fill("red").into_text(), text("abc").fill("red"));
    let mut output = String::new();
    Paragraph::new("  one line ").render(&mut output);
    assert_eq!(output, "one line\n\n");
}
