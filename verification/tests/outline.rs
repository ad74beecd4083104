use report_creation::outline::{contents_table_function, figure_table_function};
use report_creation::Outline;

#[test]
fn outline_without_options_is_a_bare_call() {
    assert_eq!(
        Outline::new().render_function("plain"),
        "#let plain() = outline()\n\n"
    );
    assert_eq!(
        Outline::default().render_function("plain"),
        "#let plain() = outline()\n\n"
    );
}

#[test]
fn outline_arguments_stand_in_declared_order() {
    let outline = Outline::new()
        .depth(3)
        .indent("20pt")
        .target("heading.where(level <= 2)")
        .title("\"Custom Outline\"");
    assert_eq!(
        outline.render_function("custom_outline"),
        "#let custom_outline() = outline(\n  title: \"Custom Outline\",\n  target: heading.where(level <= 2),\n  indent: 20pt,\n  depth: 3\n)\n\n"
    );
}

#[test]
fn outline_with_one_argument() {
    assert_eq!(
        Outline::new().depth(255).render_function("deep"),
        "#let deep() = outline(\n  depth: 255\n)\n\n"
    );
    assert_eq!(
        Outline::new().depth(0).render_function("flat"),
        "#let flat() = outline(\n  depth: 0\n)\n\n"
    );
}

#[test]
fn tables_of_contents_and_figures_have_their_defaults() {
    assert_eq!(
        Outline::table_of_contents().render_function("contents_table"),
        "#let contents_table() = outline(\n  title: none,\n  indent: auto\n)\n\n"
    );
    assert_eq!(
        Outline::figure_list().render_function("figure_table"),
        "#let figure_table() = outline(\n  title: none,\n  target: figure,\n  indent: auto\n)\n\n"
    );
    assert_eq!(
        contents_table_function(),
        Outline::table_of_contents().render_function("contents_table")
    );
    assert_eq!(
        figure_table_function(),
        Outline::figure_list().render_function("figure_table")
    );
}
