//! Outline functions: named definitions that list headings or figures and are
//! called from the body of the document.

use crate::strings::{decimal, decimal_string, join, joined, texts};
use vstd::prelude::*;

verus! {

/// An outline as the markup sees it.
#[verifier::ext_equal]
pub struct OutlineView {
    /// The title argument, if it is set, as a fragment of markup.
    pub title: Option<Seq<char>>,
    /// The target argument, if it is set, as a fragment of markup.
    pub target: Option<Seq<char>>,
    /// The indent argument, if it is set, as a fragment of markup.
    pub indent: Option<Seq<char>>,
    /// The depth limit, if it is set.
    pub depth: Option<u8>,
}

/// The list `params` with one more named argument when `value` is set.
pub open spec fn with_param(
    params: Seq<Seq<char>>,
    label: Seq<char>,
    value: Option<Seq<char>>,
) -> Seq<Seq<char>> {
    match value {
        Some(value) => params.push(label + value),
        None => params,
    }
}

impl OutlineView {
    /// An outline with nothing set.
    pub open spec fn empty() -> OutlineView {
        OutlineView { title: None, target: None, indent: None, depth: None }
    }

    /// The depth limit in decimal, if it is set.
    pub open spec fn depth_markup(self) -> Option<Seq<char>> {
        match self.depth {
            Some(depth) => Some(decimal(depth as nat)),
            None => None,
        }
    }

    /// The named arguments that are set, in declaration order: title, target,
    /// indent, depth.
    pub open spec fn params(self) -> Seq<Seq<char>> {
        with_param(
            with_param(
                with_param(
                    with_param(Seq::empty(), "  title: "@, self.title),
                    "  target: "@,
                    self.target,
                ),
                "  indent: "@,
                self.indent,
            ),
            "  depth: "@,
            self.depth_markup(),
        )
    }

    /// The definition of a function `name` that shows this outline: a call of
    /// `outline` without arguments when nothing is set, else with one
    /// argument on each line.
    pub open spec fn function(self, name: Seq<char>) -> Seq<char> {
        if self.params().len() == 0 {
            "#let "@ + name + "() = outline()\n\n"@
        } else {
            "#let "@ + name + "() = outline(\n"@ + joined(self.params(), ",\n"@) + "\n)\n\n"@
        }
    }
}

/// What a field of an outline holds.
pub open spec fn field_view(field: Option<String>) -> Option<Seq<char>> {
    match field {
        Some(value) => Some(value@),
        None => None,
    }
}

/// The description of an outline: optional title, target, indent and depth
/// limit.
#[derive(Debug, Clone)]
pub struct Outline {
    title: Option<String>,
    target: Option<String>,
    indent: Option<String>,
    depth: Option<u8>,
}

impl View for Outline {
    type V = OutlineView;

    closed spec fn view(&self) -> OutlineView {
        OutlineView {
            title: field_view(self.title),
            target: field_view(self.target),
            indent: field_view(self.indent),
            depth: self.depth,
        }
    }
}

impl Default for Outline {
    /// An outline with nothing set.
    fn default() -> (outline: Self)
        ensures
            outline@ == OutlineView::empty(),
    {
        Outline { title: None, target: None, indent: None, depth: None }
    }
}

/// Appends a named argument to `params` when `value` is set.
fn push_param(params: &mut Vec<String>, label: &str, value: &Option<String>)
    ensures
        texts(final(params)@) == with_param(texts(old(params)@), label@, field_view(*value)),
{
    match value {
        Some(value) => {
            let mut param = label.to_owned();
            param.append(value.as_str());
            let ghost before = texts(params@);
            params.push(param);
            assert(texts(params@) =~= before.push(label@ + value@));
        },
        None => {},
    }
}

impl Outline {
    /// An outline with nothing set.
    pub fn new() -> (outline: Self)
        ensures
            outline@ == OutlineView::empty(),
    {
        Outline { title: None, target: None, indent: None, depth: None }
    }

    /// The same outline with the title argument `title`, written as it
    /// stands.
    pub fn title(self, title: &str) -> (outline: Self)
        ensures
            outline@ == (OutlineView { title: Some(title@), ..self@ }),
    {
        let mut outline = self;
        outline.title = Some(title.to_owned());
        outline
    }

    /// The same outline with the target argument `target`, written as it
    /// stands.
    pub fn target(self, target: &str) -> (outline: Self)
        ensures
            outline@ == (OutlineView { target: Some(target@), ..self@ }),
    {
        let mut outline = self;
        outline.target = Some(target.to_owned());
        outline
    }

    /// The same outline with the indent argument `indent`, written as it
    /// stands.
    pub fn indent(self, indent: &str) -> (outline: Self)
        ensures
            outline@ == (OutlineView { indent: Some(indent@), ..self@ }),
    {
        let mut outline = self;
        outline.indent = Some(indent.to_owned());
        outline
    }

    /// The same outline with the depth limit `depth`.
    pub fn depth(self, depth: u8) -> (outline: Self)
        ensures
            outline@ == (OutlineView { depth: Some(depth), ..self@ }),
    {
        let mut outline = self;
        outline.depth = Some(depth);
        outline
    }

    /// The outline of a table of contents: no title of its own and automatic
    /// indent.
    pub fn table_of_contents() -> (outline: Self)
        ensures
            outline@ == (OutlineView {
                title: Some("none"@),
                target: None,
                indent: Some("auto"@),
                depth: None,
            }),
    {
        Outline::new().title("none").indent("auto")
    }

    /// The outline of a list of figures: no title of its own, figures as
    /// target and automatic indent.
    pub fn figure_list() -> (outline: Self)
        ensures
            outline@ == (OutlineView {
                title: Some("none"@),
                target: Some("figure"@),
                indent: Some("auto"@),
                depth: None,
            }),
    {
        Outline::new().title("none").target("figure").indent("auto")
    }

    /// The definition of a function `name` that shows this outline.
    pub fn render_function(&self, name: &str) -> (out: String)
        ensures
            out@ == self@.function(name@),
    {
        let mut params: Vec<String> = Vec::new();
        assert(texts(params@) =~= Seq::empty());
        push_param(&mut params, "  title: ", &self.title);
        push_param(&mut params, "  target: ", &self.target);
        push_param(&mut params, "  indent: ", &self.indent);
        let depth = match self.depth {
            Some(depth) => Some(decimal_string(depth as u64)),
            None => None,
        };
        push_param(&mut params, "  depth: ", &depth);
        assert(texts(params@) == self@.params());
        let mut out = String::new();
        out.append("#let ");
        out.append(name);
        if params.len() == 0 {
            out.append("() = outline()\n\n");
        } else {
            out.append("() = outline(\n");
            let lines = join(&params, ",\n");
            out.append(lines.as_str());
            out.append("\n)\n\n");
        }
        assert(out@ =~= self@.function(name@));
        out
    }
}

/// The definition of the function that shows the table of contents.
pub open spec fn contents_table_definition() -> Seq<char> {
    (OutlineView { title: Some("none"@), target: None, indent: Some("auto"@), depth: None })
        .function("contents_table"@)
}

/// The definition of the function that shows the table of figures.
pub open spec fn figure_table_definition() -> Seq<char> {
    (OutlineView {
        title: Some("none"@),
        target: Some("figure"@),
        indent: Some("auto"@),
        depth: None,
    }).function("figure_table"@)
}

/// The definition of the function `contents_table`.
pub fn contents_table_function() -> (out: String)
    ensures
        out@ == contents_table_definition(),
{
    Outline::table_of_contents().render_function("contents_table")
}

/// The definition of the function `figure_table`.
pub fn figure_table_function() -> (out: String)
    ensures
        out@ == figure_table_definition(),
{
    Outline::figure_list().render_function("figure_table")
}

} // verus!
