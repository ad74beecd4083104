//! The report: the root of a document, and how it is written out, checked
//! and named.

use crate::block::{Block, BlockView, Paragraph, TextView};
use crate::escape::{push_quoted, quoted};
use crate::file_name::{pdf_file_name, stem, typst_file_name};
use crate::outline::{
    contents_table_definition, contents_table_function, figure_table_definition,
    figure_table_function,
};
use crate::render::block::{block_views, body_markup, render_blocks};
use crate::section::{
    heading, lemma_section_views, lemma_section_views_push, section_views, sections_markup,
    Section, SectionView,
};
use crate::strings::{join, joined, repeated, texts, trim, trimmed};
use crate::syntax::{
    error_summary, messages_of, parser_messages, summary, syntax_errors, validated, SyntaxError,
};
use vstd::prelude::*;

verus! {

/// Content for the header or the footer of every page.
#[derive(Debug)]
pub struct PageSection {
    blocks: Vec<Block>,
}

impl View for PageSection {
    type V = Seq<BlockView>;

    closed spec fn view(&self) -> Seq<BlockView> {
        block_views(self.blocks@)
    }
}

impl Default for PageSection {
    /// A page section without content.
    fn default() -> (section: Self)
        ensures
            section@ == Seq::<BlockView>::empty(),
    {
        PageSection { blocks: Vec::new() }
    }
}

impl PageSection {
    /// A page section without content.
    pub fn new() -> (section: Self)
        ensures
            section@ == Seq::<BlockView>::empty(),
    {
        PageSection { blocks: Vec::new() }
    }

    /// The same page section with `block` after its other blocks.
    pub fn add_block(self, block: Block) -> (section: Self)
        ensures
            section@ == self@.push(block@),
    {
        let mut section = self;
        section.blocks.push(block);
        section
    }

    /// The blocks of the page section.
    fn blocks(&self) -> (blocks: &Vec<Block>)
        ensures
            block_views(blocks@) == self@,
    {
        &self.blocks
    }
}

/// What can stand where a page section is asked for: a `PageSection`, or a
/// string, which becomes a page section of one paragraph.
pub trait IntoPageSection: Sized {
    /// The blocks of the page section that this value becomes.
    spec fn page_section(&self) -> Seq<BlockView>;

    /// Turns the value into a page section.
    fn into_page_section(self) -> (section: PageSection)
        ensures
            section@ == self.page_section(),
    ;
}

impl IntoPageSection for PageSection {
    open spec fn page_section(&self) -> Seq<BlockView> {
        self@
    }

    fn into_page_section(self) -> (section: PageSection) {
        self
    }
}

impl<'a> IntoPageSection for &'a str {
    open spec fn page_section(&self) -> Seq<BlockView> {
        seq![BlockView::Paragraph(TextView::plain(self@))]
    }

    fn into_page_section(self) -> (section: PageSection) {
        PageSection::new().add_block(Block::Paragraph(Paragraph::new(self)))
    }
}

impl IntoPageSection for String {
    open spec fn page_section(&self) -> Seq<BlockView> {
        seq![BlockView::Paragraph(TextView::plain(self@))]
    }

    fn into_page_section(self) -> (section: PageSection) {
        PageSection::new().add_block(Block::Paragraph(Paragraph::new(self)))
    }
}

/// The markup of a page section as the value of a page parameter: its blocks
/// as for the top level, trimmed, inside a content wrapper.
pub open spec fn page_section_markup(blocks: Seq<BlockView>) -> Seq<char> {
    "section(body: ["@ + trimmed(body_markup(blocks, 0)) + "])"@
}

/// A report as the markup sees it.
#[verifier::ext_equal]
pub struct ReportView {
    /// The title.
    pub title: Seq<char>,
    /// The author, if one is set.
    pub author: Option<Seq<char>>,
    /// The blocks of the page header, if one is set.
    pub header: Option<Seq<BlockView>>,
    /// The blocks of the page footer, if one is set.
    pub footer: Option<Seq<BlockView>>,
    /// Whether the document starts with an outline.
    pub include_outline: bool,
    /// Whether the document has a table of contents.
    pub include_contents_table: bool,
    /// Whether the document has a table of figures.
    pub include_figure_table: bool,
    /// Whether a PDF file is asked for besides the markup file.
    pub generate_pdf: bool,
    /// The blocks that stand before the first section.
    pub front_matter: Seq<BlockView>,
    /// The top-level sections.
    pub sections: Seq<SectionView>,
}

/// The author argument of the document declaration, or nothing when no
/// author is set.
pub open spec fn author_markup(author: Option<Seq<char>>) -> Seq<char> {
    match author {
        Some(name) => ", author: "@ + quoted(name),
        None => Seq::empty(),
    }
}

/// The list `params` with one more page parameter when `section` is set.
pub open spec fn with_page_param(
    params: Seq<Seq<char>>,
    label: Seq<char>,
    section: Option<Seq<BlockView>>,
) -> Seq<Seq<char>> {
    match section {
        Some(blocks) => params.push(label + page_section_markup(blocks)),
        None => params,
    }
}

/// The parameters of the page declaration: the header, then the footer, each
/// where it is set, with a comma between them.
pub open spec fn page_markup(
    header: Option<Seq<BlockView>>,
    footer: Option<Seq<BlockView>>,
) -> Seq<char> {
    joined(
        with_page_param(with_page_param(Seq::empty(), "header: "@, header), "footer: "@, footer),
        ", "@,
    )
}

impl ReportView {
    /// The report that `Report::new` makes: only the title is set, and the
    /// outline is switched on.
    pub open spec fn titled(title: Seq<char>) -> ReportView {
        ReportView {
            title,
            author: None,
            header: None,
            footer: None,
            include_outline: true,
            include_contents_table: false,
            include_figure_table: false,
            generate_pdf: false,
            front_matter: Seq::empty(),
            sections: Seq::empty(),
        }
    }

    /// The document declaration: the title and, where one is set, the
    /// author, each as a quoted string.
    pub open spec fn document_line(self) -> Seq<char> {
        "#set document(title: "@ + quoted(self.title) + author_markup(self.author) + ")\n"@
    }

    /// The definitions of the two outline functions, which stand ahead of
    /// the body when the table of contents or the table of figures is
    /// switched on.
    pub open spec fn outline_definitions(self) -> Seq<char> {
        if self.include_contents_table || self.include_figure_table {
            contents_table_definition() + figure_table_definition()
        } else {
            Seq::empty()
        }
    }

    /// The page declaration, when a header or a footer is set.
    pub open spec fn page_line(self) -> Seq<char> {
        if self.header is Some || self.footer is Some {
            "#set page("@ + page_markup(self.header, self.footer) + ")\n"@
        } else {
            Seq::empty()
        }
    }

    /// The call of the outline, when it is switched on.
    pub open spec fn outline_call(self) -> Seq<char> {
        if self.include_outline {
            "#outline()\n\n"@
        } else {
            Seq::empty()
        }
    }

    /// The table of contents under its heading, when it is switched on.
    pub open spec fn contents_table(self) -> Seq<char> {
        if self.include_contents_table {
            "= Table of Contents\n"@ + "#contents_table()\n\n"@
        } else {
            Seq::empty()
        }
    }

    /// The table of figures under its heading, when it is switched on.
    pub open spec fn figure_table(self) -> Seq<char> {
        if self.include_figure_table {
            "= Table of Figures\n"@ + "#figure_table()\n\n"@
        } else {
            Seq::empty()
        }
    }

    /// The markup of the whole report: the document declaration, the outline
    /// definitions, the page declaration, the title as a heading of level
    /// one, the outline and the two tables, the front matter, and the
    /// sections at nesting depth one.
    pub open spec fn markup(self) -> Seq<char> {
        self.document_line() + self.outline_definitions() + self.page_line() + heading(
            1,
            self.title,
        ) + self.outline_call() + self.contents_table() + self.figure_table() + body_markup(
            self.front_matter,
            0,
        ) + sections_markup(self.sections, 1)
    }
}

/// What is to be done with a report whose markup is valid.
#[derive(Debug)]
pub struct RenderPlan {
    /// The markup of the report.
    pub markup: String,
    /// The name of the file that the markup is written to.
    pub typ_file: String,
    /// The name of the file that the compiled document is written to, when
    /// one is asked for.
    pub pdf_file: Option<String>,
}

/// The document root: title, author, page header and footer, switches,
/// front matter and sections.
#[derive(Debug)]
pub struct Report {
    title: String,
    author: Option<String>,
    header: Option<PageSection>,
    footer: Option<PageSection>,
    include_outline: bool,
    include_contents_table: bool,
    include_figure_table: bool,
    generate_pdf: bool,
    sections: Vec<Section>,
    front_matter: Vec<Block>,
}

/// What an optional page section holds.
pub open spec fn page_view(section: Option<PageSection>) -> Option<Seq<BlockView>> {
    match section {
        Some(section) => Some(section@),
        None => None,
    }
}

impl View for Report {
    type V = ReportView;

    closed spec fn view(&self) -> ReportView {
        ReportView {
            title: self.title@,
            author: match self.author {
                Some(name) => Some(name@),
                None => None,
            },
            header: page_view(self.header),
            footer: page_view(self.footer),
            include_outline: self.include_outline,
            include_contents_table: self.include_contents_table,
            include_figure_table: self.include_figure_table,
            generate_pdf: self.generate_pdf,
            front_matter: block_views(self.front_matter@),
            sections: section_views(self.sections@),
        }
    }
}

impl Default for Report {
    /// A report without a title and with every switch off.
    fn default() -> (report: Self)
        ensures
            report@ == (ReportView { include_outline: false, ..ReportView::titled(Seq::empty()) }),
    {
        Report {
            title: String::new(),
            author: None,
            header: None,
            footer: None,
            include_outline: false,
            include_contents_table: false,
            include_figure_table: false,
            generate_pdf: false,
            sections: Vec::new(),
            front_matter: Vec::new(),
        }
    }
}

/// The author argument of the document declaration.
fn render_author(author: Option<&str>) -> (out: String)
    ensures
        out@ == author_markup(
            match author {
                Some(name) => Some(name@),
                None => None,
            },
        ),
{
    let mut out = String::new();
    match author {
        Some(name) => {
            out.append(", author: ");
            push_quoted(&mut out, name);
            assert(out@ =~= ", author: "@ + quoted(name@));
        },
        None => {},
    }
    out
}

/// The value of a page parameter for `section`.
fn render_page_section(section: &PageSection) -> (out: String)
    ensures
        out@ == page_section_markup(section@),
{
    let mut body = String::new();
    render_blocks(&mut body, section.blocks(), 0);
    assert(body@ =~= body_markup(section@, 0));
    let mut out = String::new();
    out.append("section(body: [");
    out.append(trim(body.as_str()));
    out.append("])");
    assert(out@ =~= page_section_markup(section@));
    out
}

/// Appends a page parameter to `params` when `section` is set.
fn push_page_param(params: &mut Vec<String>, label: &str, section: Option<&PageSection>)
    ensures
        texts(final(params)@) == with_page_param(
            texts(old(params)@),
            label@,
            match section {
                Some(section) => Some(section@),
                None => None,
            },
        ),
{
    match section {
        Some(section) => {
            let mut param = label.to_owned();
            let value = render_page_section(section);
            param.append(value.as_str());
            let ghost before = texts(params@);
            params.push(param);
            assert(texts(params@) =~= before.push(label@ + page_section_markup(section@)));
        },
        None => {},
    }
}

/// The parameters of the page declaration.
fn render_page(header: Option<&PageSection>, footer: Option<&PageSection>) -> (out: String)
    ensures
        out@ == page_markup(
            match header {
                Some(section) => Some(section@),
                None => None,
            },
            match footer {
                Some(section) => Some(section@),
                None => None,
            },
        ),
{
    let mut parts: Vec<String> = Vec::new();
    assert(texts(parts@) =~= Seq::empty());
    push_page_param(&mut parts, "header: ", header);
    push_page_param(&mut parts, "footer: ", footer);
    join(&parts, ", ")
}

impl Report {
    /// A report with the given title, with the outline switched on and
    /// everything else off or empty.
    pub fn new(title: &str) -> (report: Self)
        ensures
            report@ == ReportView::titled(title@),
    {
        Report {
            title: title.to_owned(),
            author: None,
            header: None,
            footer: None,
            include_outline: true,
            include_contents_table: false,
            include_figure_table: false,
            generate_pdf: false,
            sections: Vec::new(),
            front_matter: Vec::new(),
        }
    }

    /// Chooses whether a PDF file is asked for besides the markup file.
    pub fn generate_pdf(self, generate_pdf: bool) -> (report: Self)
        ensures
            report@ == (ReportView { generate_pdf, ..self@ }),
    {
        let mut report = self;
        report.generate_pdf = generate_pdf;
        report
    }

    /// Sets the author.
    pub fn author(self, author: &str) -> (report: Self)
        ensures
            report@ == (ReportView { author: Some(author@), ..self@ }),
    {
        let mut report = self;
        report.author = Some(author.to_owned());
        report
    }

    /// Sets the page header.
    pub fn header<T: IntoPageSection>(self, header: T) -> (report: Self)
        ensures
            report@ == (ReportView { header: Some(header.page_section()), ..self@ }),
    {
        let mut report = self;
        report.header = Some(header.into_page_section());
        report
    }

    /// Sets the page footer.
    pub fn footer<T: IntoPageSection>(self, footer: T) -> (report: Self)
        ensures
            report@ == (ReportView { footer: Some(footer.page_section()), ..self@ }),
    {
        let mut report = self;
        report.footer = Some(footer.into_page_section());
        report
    }

    /// Chooses whether the document starts with an outline.
    pub fn with_outline(self, include_outline: bool) -> (report: Self)
        ensures
            report@ == (ReportView { include_outline, ..self@ }),
    {
        let mut report = self;
        report.include_outline = include_outline;
        report
    }

    /// Chooses whether the document has a table of contents.
    pub fn with_contents_table(self, include_contents_table: bool) -> (report: Self)
        ensures
            report@ == (ReportView { include_contents_table, ..self@ }),
    {
        let mut report = self;
        report.include_contents_table = include_contents_table;
        report
    }

    /// Chooses whether the document has a table of figures.
    pub fn with_figure_table(self, include_figure_table: bool) -> (report: Self)
        ensures
            report@ == (ReportView { include_figure_table, ..self@ }),
    {
        let mut report = self;
        report.include_figure_table = include_figure_table;
        report
    }

    /// The same report with `block` at the end of its front matter.
    pub fn add_front_matter(self, block: Block) -> (report: Self)
        ensures
            report@ == (ReportView { front_matter: self@.front_matter.push(block@), ..self@ }),
    {
        let mut report = self;
        report.front_matter.push(block);
        assert(report@.front_matter =~= self@.front_matter.push(block@));
        report
    }

    /// The same report with `section` after its other sections.
    pub fn add_section(self, section: Section) -> (report: Self)
        ensures
            report@ == (ReportView { sections: self@.sections.push(section@), ..self@ }),
    {
        let mut report = self;
        report.sections.push(section);
        proof {
            lemma_section_views_push(self.sections@, section);
        }
        report
    }

    /// The markup of the report, not yet checked.
    pub fn render_markup(&self) -> (output: String)
        ensures
            output@ == self@.markup(),
    {
        let mut output = String::new();
        output.append("#set document(title: ");
        push_quoted(&mut output, self.title.as_str());
        let author = render_author(
            match &self.author {
                Some(name) => Some(name.as_str()),
                None => None,
            },
        );
        output.append(author.as_str());
        output.append(")\n");
        assert(output@ =~= self@.document_line());

        if self.include_contents_table || self.include_figure_table {
            let contents = contents_table_function();
            output.append(contents.as_str());
            let figures = figure_table_function();
            output.append(figures.as_str());
        }
        assert(output@ =~= self@.document_line() + self@.outline_definitions());

        if self.header.is_some() || self.footer.is_some() {
            output.append("#set page(");
            let page = render_page(self.header.as_ref(), self.footer.as_ref());
            output.append(page.as_str());
            output.append(")\n");
        }
        assert(output@ =~= self@.document_line() + self@.outline_definitions()
            + self@.page_line());

        output.append("=");
        output.append(" ");
        output.append(self.title.as_str());
        output.append("\n");
        proof {
            reveal_strlit("=");
            assert("="@ =~= repeated('=', 1));
        }

        if self.include_outline {
            output.append("#outline()\n\n");
        }
        if self.include_contents_table {
            output.append("= Table of Contents\n");
            output.append("#contents_table()\n\n");
        }
        if self.include_figure_table {
            output.append("= Table of Figures\n");
            output.append("#figure_table()\n\n");
        }
        assert(output@ =~= self@.document_line() + self@.outline_definitions()
            + self@.page_line() + heading(1, self@.title) + self@.outline_call()
            + self@.contents_table() + self@.figure_table());

        render_blocks(&mut output, &self.front_matter, 0);

        let ghost start = output@;
        let ghost all = self@.sections;
        proof {
            lemma_section_views(self.sections@);
        }
        let mut i: usize = 0;
        assert(output@ =~= start + sections_markup(all.take(0), 1));
        while i < self.sections.len()
            invariant
                i <= self.sections.len(),
                all == self@.sections,
                all.len() == self.sections.len(),
                forall|k: int|
                    0 <= k < self.sections.len() ==> all[k] == (#[trigger] self.sections@[k])@,
                output@ == start + sections_markup(all.take(i as int), 1),
            decreases self.sections.len() - i,
        {
            assert(all.take(i + 1).drop_last() =~= all.take(i as int));
            self.sections[i].render(&mut output, 1);
            i = i + 1;
        }
        assert(all.take(self.sections.len() as int) =~= all);
        assert(output@ =~= self@.markup());
        output
    }

    /// The markup of the report if the parser finds no syntax error in it,
    /// else every error that the parser found.
    pub fn render_validated(&self) -> (result: Result<String, Vec<SyntaxError>>)
        ensures
            match result {
                Ok(markup) => markup@ == self@.markup() && parser_messages(self@.markup()).len()
                    == 0,
                Err(errors) => errors@.len() > 0 && messages_of(errors@) == parser_messages(
                    self@.markup(),
                ),
            },
    {
        let output = self.render_markup();
        let errors = syntax_errors(output.as_str());
        validated(output, errors)
    }

    /// What is to be done once the markup has been checked: for valid
    /// markup, the markup and the names of the files to write; otherwise the
    /// message that names every syntax error.
    pub fn plan(&self, validation: Result<String, Vec<SyntaxError>>) -> (result: Result<
        RenderPlan,
        String,
    >)
        ensures
            match validation {
                Ok(markup) => result matches Ok(plan) && plan.markup == markup && plan.typ_file@
                    == stem(self@.title) + ".typ"@ && match plan.pdf_file {
                    Some(name) => self@.generate_pdf && name@ == stem(self@.title) + ".pdf"@,
                    None => !self@.generate_pdf,
                },
                Err(errors) => result matches Err(message) && message@ == summary(
                    messages_of(errors@),
                ),
            },
    {
        match validation {
            Ok(markup) => {
                let typ_file = typst_file_name(self.title.as_str());
                let pdf_file = if self.generate_pdf {
                    Some(pdf_file_name(self.title.as_str()))
                } else {
                    None
                };
                Ok(RenderPlan { markup, typ_file, pdf_file })
            },
            Err(errors) => Err(error_summary(&errors)),
        }
    }

    /// Renders and checks the report and says what is to be done with it:
    /// the markup and the names of the files to write when the markup is
    /// valid, otherwise the message that names every syntax error.
    pub fn render_plan(&self) -> (result: Result<RenderPlan, String>)
        ensures
            match result {
                Ok(plan) => {
                    &&& parser_messages(self@.markup()).len() == 0
                    &&& plan.markup@ == self@.markup()
                    &&& plan.typ_file@ == stem(self@.title) + ".typ"@
                    &&& match plan.pdf_file {
                        Some(name) => self@.generate_pdf && name@ == stem(self@.title) + ".pdf"@,
                        None => !self@.generate_pdf,
                    }
                },
                Err(message) => {
                    &&& parser_messages(self@.markup()).len() > 0
                    &&& message@ == summary(parser_messages(self@.markup()))
                },
            },
    {
        let validation = self.render_validated();
        self.plan(validation)
    }
}

} // verus!
