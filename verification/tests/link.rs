use report_creation::{link_to_location, link_to_url, text, Link, Text};

#[test]
fn renders_url_links() {
    let mut output = String::new();

    Link::to_url("https://example.com", Text::new("Example")).render(&mut output);

    assert_eq!(
        output,
        "#link(target: \"https://example.com\")[Example]\n\n"
    );
}

#[test]
fn renders_location_links() {
    let mut output = String::new();

    Link::to_location("@introduction", Text::new("Jump to Intro")).render(&mut output);

    assert_eq!(output, "#link(location: @introduction)[Jump to Intro]\n\n");
}

#[test]
fn link_address_is_escaped_and_not_trimmed() {
    let mut output = String::new();
    link_to_url(" https://example.com/\"q\" ", "  Example  ").render(&mut output);
    assert_eq!(
        output,
        "#link(target: \" https://example.com/\\\"q\\\" \")[Example]\n\n"
    );
}

#[test]
fn link_shows_styled_text() {
    let mut output = String::new();
    link_to_location("intro", text("Go").weight("bold")).render(&mut output);
    assert_eq!(
        output,
        "#link(location: intro)[#text(\"Go\", weight: bold)]\n\n"
    );
}
