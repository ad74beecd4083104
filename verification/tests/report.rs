use report_creation::{
    bullets, code, figure, image, link_to_location, link_to_url, numbered, paragraph, raw, table,
    text, FigureKind, Image, Outline, PageSection, Report, Section,
};

fn valid(report: Report) -> String {
    report
        .render_validated()
        .expect("generated markup should be valid")
}

#[test]
fn renders_configurable_outline_function() {
    let outline = Outline::new()
        .title("\"Custom Outline\"")
        .target("heading.where(level <= 2)")
        .indent("20pt")
        .depth(3);

    let rendered = outline.render_function("custom_outline");

    assert!(rendered.contains("#let custom_outline() = outline("));
    assert!(rendered.contains("  title: \"Custom Outline\""));
    assert!(rendered.contains("  target: heading.where(level <= 2)"));
    assert!(rendered.contains("  indent: 20pt"));
    assert!(rendered.contains("  depth: 3"));
}

#[test]
fn validated_render_surfaces_syntax_errors() {
    let invalid_report =
        Report::new("Broken").add_section(Section::new("Faulty").add_block(raw("[#unclosed(")));

    let validation = invalid_report.render_validated();

    assert!(validation.is_err());
    assert!(validation
        .unwrap_err()
        .iter()
        .any(|err| err.message.contains("unclosed")));
}

#[test]
fn renders_report_with_outline_and_sections() {
    let report = Report::new("Weekly Status")
        .author("Ada Lovelace")
        .add_front_matter(paragraph("This report summarizes the week."))
        .add_section(
            Section::new("Highlights")
                .add_block(bullets(&["Released v1.2", "Onboarded new teammate"]))
                .add_subsection(Section::new("Release Details").add_block(paragraph(
                    "The release focused on stability and internal metrics.",
                ))),
        )
        .add_section(Section::new("Metrics").add_block(table(
            vec!["Key Metric".to_string(), "Value".to_string()],
            vec![vec!["Users".to_string(), "1,024".to_string()]],
        )));

    let rendered = valid(report);

    assert!(rendered.contains("#set document(title: \"Weekly Status\", author: \"Ada Lovelace\""));
    assert!(rendered.contains("#outline()"));
    assert!(rendered.contains("= Weekly Status"));
    assert!(rendered.contains("== Highlights"));
    assert!(rendered.contains("=== Release Details"));
    assert!(rendered.contains("- Released v1.2"));
    assert!(rendered.contains("#table"));
}

#[test]
fn weekly_status_renders_exactly() {
    let report = Report::new("Weekly Status")
        .author("Ada Lovelace")
        .add_front_matter(paragraph("This report summarizes the week."))
        .add_section(
            Section::new("Highlights")
                .add_block(bullets(&["Released v1.2", "Onboarded new teammate"]))
                .add_subsection(Section::new("Release Details").add_block(paragraph(
                    "The release focused on stability and internal metrics.",
                ))),
        )
        .add_section(Section::new("Metrics").add_block(table(
            vec!["Key Metric".to_string(), "Value".to_string()],
            vec![vec!["Users".to_string(), "1,024".to_string()]],
        )));

    assert_eq!(
        valid(report),
        "#set document(title: \"Weekly Status\", author: \"Ada Lovelace\")\n\
         = Weekly Status\n\
         #outline()\n\
         \n\
         This report summarizes the week.\n\
         \n\
         == Highlights\n\
         - Released v1.2\n\
         - Onboarded new teammate\n\
         \n\
         \n\
         === Release Details\n\
         The release focused on stability and internal metrics.\n\
         \n\
         \n\
         == Metrics\n\
         #table(columns: ((flex: 1,), (flex: 1,)))[\n  [Key Metric] [Value]\n  [Users] [1,024]\n]\n\
         \n\
         \n"
    );
}

#[test]
fn supports_code_block_rendering() {
    let report = Report::new("Dev Notes")
        .add_section(Section::new("Snippets").add_block(code(Some("rust"), "fn main() {}")));

    let rendered = valid(report);

    assert!(rendered.contains("```rust\nfn main() {}\n```"));
}

#[test]
fn renders_image_block() {
    let rendered = valid(
        Report::new("Gallery").add_section(
            Section::new("Images").add_block(image(
                Image::new("./diagram.svg")
                    .alt("System diagram")
                    .width("60%"),
            )),
        ),
    );

    assert!(rendered.contains("#image(\"./diagram.svg\", alt: \"System diagram\", width: 60%)",));
}

#[test]
fn renders_figure_block() {
    let rendered = valid(
        Report::new("Findings").add_section(
            Section::new("Results").add_block(
                figure(Image::new("./chart.svg").width("75%"))
                    .caption("Figure 1")
                    .kind(FigureKind::Image)
                    .into(),
            ),
        ),
    );

    assert!(rendered.contains(
        "#figure(image(\"./chart.svg\", width: 75%), caption: [Figure 1], kind: image)",
    ));
}

#[test]
fn renders_table_of_figures_when_enabled() {
    let rendered = valid(
        Report::new("With figures")
            .with_figure_table(true)
            .add_section(
                Section::new("Illustrations").add_block(
                    figure(Image::new("./figure.png").width("50%"))
                        .caption("Sample figure")
                        .into(),
                ),
            ),
    );

    assert!(rendered.contains("#let figure_table()"));
    assert!(rendered.contains("#let figure_table() = outline("));
    assert!(rendered.contains("= Table of Figures"));
    assert!(rendered.contains("#figure_table()"));
}

#[test]
fn renders_table_of_contents_when_enabled() {
    let rendered = valid(
        Report::new("With sections")
            .with_contents_table(true)
            .add_section(Section::new("First"))
            .add_section(Section::new("Second")),
    );

    assert!(rendered.contains("#let contents_table()"));
    assert!(rendered.contains("#let contents_table() = outline("));
    assert!(rendered.contains("= Table of Contents"));
    assert!(rendered.contains("#contents_table()"));
}

#[test]
fn mixes_lists_tables_links_and_code() {
    let rendered = valid(
        Report::new("Mixed Blocks").add_section(
            Section::new("Combo")
                .add_block(paragraph("Intro block"))
                .add_block(bullets(&["Bullet one", "Bullet two"]))
                .add_block(numbered(&["First numbered", "Second numbered"]))
                .add_block(table(
                    vec!["Col A".to_string(), "Col B".to_string()],
                    vec![vec!["A1".to_string(), "B1".to_string()]],
                ))
                .add_block(code(None::<&str>, "plain code"))
                .add_block(link_to_url("https://example.com", text("Example link")))
                .add_block(link_to_location("combo_location", text("Jump to combo")))
                .add_block(raw("#let combo_location = here()"))
                .add_block(raw("#set text(12pt)")),
        ),
    );

    assert!(rendered.contains("- Bullet one"));
    assert!(rendered.contains("+ First numbered"));
    assert!(rendered.contains("#table"));
    assert!(rendered.contains("```typst"));
    assert!(rendered.contains("#link(target: \"https://example.com\")[Example link]"));
    assert!(rendered.contains("#link(location: combo_location)[Jump to combo]"));
    assert!(rendered.contains("#let combo_location = here()"));
    assert!(rendered.contains("#set text(12pt)"));
}

#[test]
fn everything_enabled_renders_every_part_in_order() {
    let rendered = valid(
        Report::new("Everything Everywhere")
            .author("Every Tester")
            .header("Universal Header")
            .footer("Universal Footer")
            .with_outline(true)
            .with_contents_table(true)
            .with_figure_table(true)
            .add_front_matter(paragraph(text("Front matter").fill("blue")))
            .add_section(
                Section::new("Overview")
                    .add_block(paragraph("Overview body."))
                    .add_block(bullets(&["Item A", "Item B"]))
                    .add_block(numbered(&["Step 1", "Step 2"]))
                    .add_block(table(
                        vec!["Key".to_string(), "Value".to_string()],
                        vec![vec!["X".to_string(), "Y".to_string()]],
                    ))
                    .add_block(link_to_url("https://docs.example.com", text("Docs")))
                    .add_subsection(
                        Section::new("Details")
                            .add_block(code(Some("bash"), "echo details"))
                            .add_block(
                                figure(Image::new("./diagram.svg").width("80%"))
                                    .caption("Everything diagram")
                                    .kind(FigureKind::Image)
                                    .into(),
                            ),
                    ),
            ),
    );

    assert_eq!(
        rendered,
        "#set document(title: \"Everything Everywhere\", author: \"Every Tester\")\n\
         #let contents_table() = outline(\n  title: none,\n  indent: auto\n)\n\
         \n\
         #let figure_table() = outline(\n  title: none,\n  target: figure,\n  indent: auto\n)\n\
         \n\
         #set page(header: section(body: [Universal Header]), footer: section(body: [Universal Footer]))\n\
         = Everything Everywhere\n\
         #outline()\n\
         \n\
         = Table of Contents\n\
         #contents_table()\n\
         \n\
         = Table of Figures\n\
         #figure_table()\n\
         \n\
         #text(\"Front matter\", fill: blue)\n\
         \n\
         == Overview\n\
         Overview body.\n\
         \n\
         - Item A\n\
         - Item B\n\
         \n\
         + Step 1\n\
         + Step 2\n\
         \n\
         #table(columns: ((flex: 1,), (flex: 1,)))[\n  [Key] [Value]\n  [X] [Y]\n]\n\
         \n\
         #link(target: \"https://docs.example.com\")[Docs]\n\
         \n\
         \n\
         === Details\n\
         ```bash\n\
         echo details\n\
         ```\n\
         \n\
         #figure(image(\"./diagram.svg\", width: 80%), caption: [Everything diagram], kind: image)\n\
         \n\
         \n"
    );
}

#[test]
fn page_header_and_footer_are_content_wrappers() {
    let rendered = valid(
        Report::new("Branded")
            .header("Company Report")
            .footer("Page {{page()}} of {{pages()}}")
            .add_section(
                Section::new("Summary").add_block(paragraph("Quarterly performance overview.")),
            ),
    );

    assert!(rendered.contains(
        "#set page(header: section(body: [Company Report]), footer: section(body: [Page {{page()}} of {{pages()}}]))\n"
    ));
}

#[test]
fn header_alone_and_footer_alone() {
    let only_header = Report::new("T").with_outline(false).header("H").render_markup();
    assert_eq!(
        only_header,
        "#set document(title: \"T\")\n#set page(header: section(body: [H]))\n= T\n"
    );
    let only_footer = Report::new("T")
        .with_outline(false)
        .footer("F".to_string())
        .render_markup();
    assert_eq!(
        only_footer,
        "#set document(title: \"T\")\n#set page(footer: section(body: [F]))\n= T\n"
    );
}

#[test]
fn page_section_of_several_blocks() {
    let header = PageSection::new()
        .add_block(paragraph(" One "))
        .add_block(raw("#h(1fr)"));
    let rendered = Report::new("T").with_outline(false).header(header).render_markup();
    assert_eq!(
        rendered,
        "#set document(title: \"T\")\n#set page(header: section(body: [One\n\n#h(1fr)]))\n= T\n"
    );
    let empty = Report::new("T")
        .with_outline(false)
        .footer(PageSection::default())
        .render_markup();
    assert_eq!(
        empty,
        "#set document(title: \"T\")\n#set page(footer: section(body: []))\n= T\n"
    );
}

#[test]
fn new_report_has_outline_and_nothing_else() {
    assert_eq!(
        Report::new("Only Title").render_markup(),
        "#set document(title: \"Only Title\")\n= Only Title\n#outline()\n\n"
    );
    assert_eq!(
        Report::default().render_markup(),
        "#set document(title: \"\")\n= \n"
    );
}

#[test]
fn title_and_author_are_escaped_in_the_declaration_only() {
    let rendered = Report::new("A \"B\" \\ C")
        .author("D \"E\"")
        .with_outline(false)
        .render_markup();
    assert_eq!(
        rendered,
        "#set document(title: \"A \\\"B\\\" \\\\ C\", author: \"D \\\"E\\\"\")\n= A \"B\" \\ C\n"
    );
}

#[test]
fn outline_functions_are_defined_when_either_table_is_enabled() {
    let definitions = "#let contents_table() = outline(\n  title: none,\n  indent: auto\n)\n\n\
                       #let figure_table() = outline(\n  title: none,\n  target: figure,\n  indent: auto\n)\n\n";
    let contents = Report::new("T")
        .with_outline(false)
        .with_contents_table(true)
        .render_markup();
    assert_eq!(
        contents,
        format!(
            "#set document(title: \"T\")\n{}= T\n= Table of Contents\n#contents_table()\n\n",
            definitions
        )
    );
    let figures = Report::new("T")
        .with_outline(false)
        .with_figure_table(true)
        .render_markup();
    assert_eq!(
        figures,
        format!(
            "#set document(title: \"T\")\n{}= T\n= Table of Figures\n#figure_table()\n\n",
            definitions
        )
    );
    let neither = Report::new("T").with_outline(false).render_markup();
    assert!(!neither.contains("#let"));
}

#[test]
fn front_matter_stands_before_the_sections_without_extra_line() {
    let rendered = Report::new("T")
        .with_outline(false)
        .add_front_matter(raw("first"))
        .add_front_matter(raw("second"))
        .add_section(Section::new("S"))
        .render_markup();
    assert_eq!(
        rendered,
        "#set document(title: \"T\")\n= T\nfirst\n\nsecond\n\n== S\n\n"
    );
}

#[test]
fn valid_markup_is_returned_unchanged() {
    let report = Report::new("Fine").add_section(Section::new("S").add_block(paragraph("ok")));
    let markup = report.render_markup();
    assert_eq!(report.render_validated().ok(), Some(markup));
}

#[test]
fn every_kind_of_block_gives_valid_markup() {
    let report = Report::new("All \"kinds\" \\ of blocks")
        .author("A. \"Q\" Author")
        .header("Head [1]")
        .footer(PageSection::new().add_block(paragraph(text("Foot").size("8pt"))))
        .with_contents_table(true)
        .with_figure_table(true)
        .add_front_matter(paragraph(text("Styled \"front\"").font("New \"Font\"").lang("en")))
        .add_section(
            Section::new("Blocks")
                .add_block(bullets(&[" a ", "b"]))
                .add_block(numbered(&["one"]))
                .add_block(code(None, "let x = 1;\n"))
                .add_block(table(
                    vec!["H1".to_string(), "H2".to_string()],
                    vec![vec!["only one".to_string()], Vec::new()],
                ))
                .add_block(image(Image::new("a \"b\".png").alt("alt \\ text").invert(true)))
                .add_block(
                    figure(report_creation::TableBlock::new(
                        vec!["Column".to_string()],
                        vec![vec!["cell".to_string()]],
                    ))
                    .caption("Table [with] brackets \\ and \"quotes\"")
                    .kind(FigureKind::Table)
                    .into(),
                )
                .add_block(
                    figure(Image::new("plot.png"))
                        .caption("Plot")
                        .kind(FigureKind::Custom("\"chart\"".to_string()))
                        .into(),
                )
                .add_block(link_to_url("https://example.com/?q=\"x\"", text("Link").fill("blue")))
                .add_block(link_to_location("label", "Plain"))
                .add_block(raw("#pagebreak()"))
                .add_subsection(
                    Section::new("Deeper").add_subsection(Section::new("Deepest")),
                ),
        );

    let rendered = valid(report);
    assert!(rendered.contains("#figure(table(columns: ((flex: 1,)))["));
    assert!(rendered.contains("caption: [Table \\[with\\] brackets \\\\ and \"quotes\"]"));
    assert!(rendered.contains("==== Deepest\n"));
}
