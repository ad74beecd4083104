use report_creation::escape::escape_caption;
use report_creation::{figure, Block, Figure, FigureBody, FigureKind, Image, TableBlock};

#[test]
fn renders_image_figure_with_caption_and_kind() {
    let mut rendered = String::new();
    let figure = Figure::new(Image::new("./diagram.svg").width("50%"))
        .caption("Architecture diagram")
        .kind(FigureKind::Image);

    figure.render(&mut rendered);

    assert_eq!(
        rendered,
        "#figure(image(\"./diagram.svg\", width: 50%), caption: [Architecture diagram], kind: image)\n\n",
    );
}

#[test]
fn renders_table_figure() {
    let mut rendered = String::new();
    let table = TableBlock::new(
        vec!["Column A".to_string(), "Column B".to_string()],
        vec![vec!["1".to_string(), "2".to_string()]],
    );

    Figure::new(table).render(&mut rendered);

    assert!(rendered.starts_with("#figure(table(columns: ((flex: 1,), (flex: 1,)))["));
    assert!(rendered.ends_with(")\n\n"));
}

#[test]
fn escapes_caption_characters() {
    let mut rendered = String::new();
    Figure::new(Image::new("./plot.png"))
        .caption("Bracket [and] slash \\")
        .render(&mut rendered);

    let escaped = escape_caption("Bracket [and] slash \\");
    assert!(rendered.contains(&format!("caption: [{}]", escaped)));
}

#[test]
fn caption_escapes_brackets_and_backslash_exactly() {
    assert_eq!(
        escape_caption("Bracket [and] slash \\"),
        "Bracket \\[and\\] slash \\\\"
    );
    let mut rendered = String::new();
    Figure::new(Image::new("./plot.png"))
        .caption("Bracket [and] slash \\")
        .render(&mut rendered);
    assert_eq!(
        rendered,
        "#figure(image(\"./plot.png\"), caption: [Bracket \\[and\\] slash \\\\])\n\n"
    );
}

#[test]
fn caption_leaves_double_quotes_alone() {
    assert_eq!(escape_caption("say \"hi\""), "say \"hi\"");
}

#[test]
fn table_figure_holds_the_bare_table_call() {
    let mut rendered = String::new();
    let table = TableBlock::new(
        vec!["Column A".to_string(), "Column B".to_string()],
        vec![vec!["1".to_string(), "2".to_string()]],
    );
    Figure::new(table).caption("Numbers").render(&mut rendered);
    assert_eq!(
        rendered,
        "#figure(table(columns: ((flex: 1,), (flex: 1,)))[\n  [Column A] [Column B]\n  [1] [2]\n]\n, caption: [Numbers])\n\n"
    );
}

#[test]
fn figure_kinds_render_by_name() {
    assert_eq!(FigureKind::Auto.render(), "auto");
    assert_eq!(FigureKind::Image.render(), "image");
    assert_eq!(FigureKind::Table.render(), "table");
    assert_eq!(FigureKind::Custom("\"chart\"".to_string()).render(), "\"chart\"");
}

#[test]
fn figure_without_caption_and_kind_has_only_the_body() {
    let mut rendered = String::new();
    figure(Image::new("a.png")).render(&mut rendered);
    assert_eq!(rendered, "#figure(image(\"a.png\"))\n\n");
}

#[test]
fn figure_body_and_block_come_from_conversions() {
    let body: FigureBody = Image::new("a.png").into();
    assert_eq!(body.render_markup(), "image(\"a.png\")");

    let block: Block = figure(Image::new("a.png")).kind(FigureKind::Auto).into();
    let mut rendered = String::new();
    block.render(&mut rendered);
    assert_eq!(rendered, "#figure(image(\"a.png\"), kind: auto)\n\n");

    let block: Block = Image::new("b.png").into();
    let mut rendered = String::new();
    block.render(&mut rendered);
    assert_eq!(rendered, "#image(\"b.png\")\n\n");
}

#[test]
fn figure_takes_a_body_as_it_is() {
    let mut rendered = String::new();
    Figure::new(FigureBody::Image(Image::new("c.png").invert(true))).render(&mut rendered);
    assert_eq!(rendered, "#figure(image(\"c.png\", invert: true))\n\n");

    let table: FigureBody = TableBlock::new(vec!["H".to_string()], Vec::new()).into();
    assert_eq!(
        table.render_markup(),
        "table(columns: ((flex: 1,)))[\n  [H]\n]\n"
    );
}
