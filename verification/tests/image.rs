use report_creation::{image, Image, ImageOptionValue, ImageOptions};

#[test]
fn renders_basic_image() {
    let mut rendered = String::new();
    Image::new("./plot.png").render(&mut rendered);

    assert_eq!(rendered, "#image(\"./plot.png\")\n\n");
}

#[test]
fn renders_image_with_options() {
    let mut rendered = String::new();
    let options = ImageOptions::default()
        .alt("Line chart of growth over time")
        .width("80%")
        .height("120pt")
        .fit("cover")
        .format("png")
        .dpi("144")
        .gamma("2.2")
        .frame("inset")
        .invert(true);

    Image::new("./plot.png")
        .with_options(options)
        .render(&mut rendered);

    assert_eq!(
        rendered,
        "#image(\"./plot.png\", alt: \"Line chart of growth over time\", width: 80%, height: 120pt, fit: cover, format: \"png\", dpi: 144, gamma: 2.2, frame: inset, invert: true)\n\n"
    );
}

#[test]
fn escapes_quotes_and_backslashes() {
    let mut rendered = String::new();
    Image::new(".\\\"plot\".png").render(&mut rendered);

    assert_eq!(rendered, "#image(\".\\\\\\\"plot\\\".png\")\n\n");
}

#[test]
fn image_options_keep_declaration_order() {
    let mut rendered = String::new();
    Image::new("p.png")
        .invert(false)
        .frame("inset")
        .gamma("2.2")
        .dpi("144")
        .format("png")
        .fit("cover")
        .height("120pt")
        .width("80%")
        .alt("Chart")
        .render(&mut rendered);
    assert_eq!(
        rendered,
        "#image(\"p.png\", alt: \"Chart\", width: 80%, height: 120pt, fit: cover, format: \"png\", dpi: 144, gamma: 2.2, frame: inset, invert: false)\n\n"
    );
}

#[test]
fn image_path_is_trimmed_and_last_setting_wins() {
    let rendered = Image::new("  ./a b.png\n")
        .width("10%")
        .width("20%")
        .render_markup(false);
    assert_eq!(rendered, "image(\"./a b.png\", width: 20%)");
}

#[test]
fn image_option_values_render() {
    assert_eq!(ImageOptionValue::raw("50%").render(), "50%");
    assert_eq!(ImageOptionValue::str("a\"b").render(), "\"a\\\"b\"");
    assert_eq!(ImageOptionValue::Bool(true).render(), "true");
    assert_eq!(ImageOptionValue::Bool(false).render(), "false");
}

#[test]
fn quoted_image_options_are_escaped() {
    let rendered = Image::new("a.png").alt("say \"x\" \\ y").render_markup(true);
    assert_eq!(rendered, "#image(\"a.png\", alt: \"say \\\"x\\\" \\\\ y\")");
}

#[test]
fn image_block_renders_like_the_image() {
    let mut from_block = String::new();
    image(Image::new("./plot.png").width("50%")).render(&mut from_block);
    let mut direct = String::new();
    Image::new("./plot.png").width("50%").render(&mut direct);
    assert_eq!(from_block, direct);
    assert_eq!(from_block, "#image(\"./plot.png\", width: 50%)\n\n");
}

#[test]
fn image_entries_list_what_is_set() {
    let options = ImageOptions::default().fit("contain").alt("A");
    assert_eq!(
        options.entries(),
        vec!["alt: \"A\"".to_string(), "fit: contain".to_string()]
    );
    assert!(ImageOptions::default().entries().is_empty());
}

#[test]
fn strings_and_images_turn_into_image_blocks() {
    let mut from_str = String::new();
    image(" ./a.png ").render(&mut from_str);
    assert_eq!(from_str, "#image(\"./a.png\")\n\n");

    let mut from_string = String::new();
    image("./b.png".to_string()).render(&mut from_string);
    assert_eq!(from_string, "#image(\"./b.png\")\n\n");
}
