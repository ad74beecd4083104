//! The content blocks of a document: one type for each kind of block, the
//! sum of them all, and short functions that build them.

pub mod bullet_list;
pub mod code;
pub mod figure;
pub mod image;
pub mod link;
pub mod numbered_list;
pub mod options;
pub mod paragraph;
pub mod raw;
pub mod table;
pub mod text;

pub use bullet_list::BulletList;
pub use code::{CodeBlock, CodeView};
pub use figure::{
    Figure, FigureBody, FigureBodyView, FigureKind, FigureKindView, FigureView, IntoFigureBody,
};
pub use image::{Image, ImageOptionValue, ImageOptions, ImageView, IntoImage};
pub use link::{DestinationView, Link, LinkDestination, LinkView};
pub use numbered_list::NumberedList;
pub use options::AttrValue;
pub use paragraph::Paragraph;
pub use raw::RawBlock;
pub use table::TableBlock;
pub use text::{IntoText, Text, TextOptionValue, TextOptions, TextView};

use crate::render::list::{list_lines, list_markup};
use crate::render::table::TableView;
use crate::strings::{slice_texts, text_rows, texts};
use vstd::prelude::*;
use vstd::std_specs::convert::FromSpecImpl;

verus! {

/// One unit of content.
#[derive(Debug, Clone)]
pub enum Block {
    /// A paragraph of text.
    Paragraph(Paragraph),
    /// A list whose items are marked with a dash.
    BulletList(BulletList),
    /// A list whose items are numbered.
    NumberedList(NumberedList),
    /// A fenced block of source code.
    Code(CodeBlock),
    /// A table.
    Table(TableBlock),
    /// An image.
    Image(Image),
    /// An image or a table with a caption.
    Figure(Figure),
    /// A link.
    Link(Link),
    /// Markup that is passed through unchanged.
    Raw(RawBlock),
}

/// A block as it is held by a section or a report.
pub type BlockNode = Block;

/// A block as the markup sees it.
pub enum BlockView {
    /// A paragraph of text.
    Paragraph(TextView),
    /// The items of a bullet list.
    BulletList(Seq<Seq<char>>),
    /// The items of a numbered list.
    NumberedList(Seq<Seq<char>>),
    /// A fenced block of source code.
    Code(CodeView),
    /// A table.
    Table(TableView),
    /// An image.
    Image(ImageView),
    /// An image or a table with a caption.
    Figure(FigureView),
    /// A link.
    Link(LinkView),
    /// Markup that is passed through unchanged.
    Raw(Seq<char>),
}

impl BlockView {
    /// The markup of the block, which ends with an empty line.
    pub open spec fn markup(self) -> Seq<char> {
        match self {
            BlockView::Paragraph(text) => paragraph::paragraph_markup(text),
            BlockView::BulletList(items) => list_markup(items, "-"@),
            BlockView::NumberedList(items) => list_markup(items, "+"@),
            BlockView::Code(code) => code.markup(),
            BlockView::Table(table) => table.block_markup(),
            BlockView::Image(image) => image.block_markup(),
            BlockView::Figure(figure) => figure.markup(),
            BlockView::Link(link) => link.markup(),
            BlockView::Raw(content) => raw::raw_markup(content),
        }
    }
}

/// Whether `text` ends with an empty line, that is with two line ends.
pub open spec fn ends_with_empty_line(text: Seq<char>) -> bool {
    text.len() >= 2 && text[text.len() - 1] == '\n' && text[text.len() - 2] == '\n'
}

/// The markup of every block ends with an empty line, so that the next
/// block starts apart from it.  The one exception is a list without items,
/// which is written as a single line end.
pub proof fn lemma_block_ends_with_empty_line(block: BlockView)
    requires
        block matches BlockView::BulletList(items) ==> items.len() > 0,
        block matches BlockView::NumberedList(items) ==> items.len() > 0,
    ensures
        ends_with_empty_line(block.markup()),
{
    reveal_strlit("\n");
    reveal_strlit("\n\n");
    reveal_strlit("]\n");
    reveal_strlit("]\n\n");
    reveal_strlit(")\n\n");
    reveal_strlit("```\n");
    match block {
        BlockView::BulletList(items) => {
            let lines = list_lines(items, "-"@);
            let markup = lines + "\n"@;
            assert(lines.len() > 0 && lines.last() == '\n');
            assert(markup[markup.len() - 2] == lines[lines.len() - 1]);
            assert(markup[markup.len() - 1] == '\n');
        },
        BlockView::NumberedList(items) => {
            let lines = list_lines(items, "+"@);
            let markup = lines + "\n"@;
            assert(lines.len() > 0 && lines.last() == '\n');
            assert(markup[markup.len() - 2] == lines[lines.len() - 1]);
            assert(markup[markup.len() - 1] == '\n');
        },
        _ => {},
    }
}

impl View for Block {
    type V = BlockView;

    open spec fn view(&self) -> BlockView {
        match self {
            Block::Paragraph(paragraph) => BlockView::Paragraph(paragraph@),
            Block::BulletList(list) => BlockView::BulletList(list@),
            Block::NumberedList(list) => BlockView::NumberedList(list@),
            Block::Code(code) => BlockView::Code(code@),
            Block::Table(table) => BlockView::Table(table@),
            Block::Image(image) => BlockView::Image(image@),
            Block::Figure(figure) => BlockView::Figure(figure@),
            Block::Link(link) => BlockView::Link(link@),
            Block::Raw(raw) => BlockView::Raw(raw@),
        }
    }
}

/// The language of a code block as the markup sees it.
pub open spec fn language_view(language: Option<&str>) -> Option<Seq<char>> {
    match language {
        Some(language) => Some(language@),
        None => None,
    }
}

impl Block {
    /// A paragraph block.
    pub fn paragraph<T: IntoText>(text: T) -> (block: Self)
        ensures
            block@ == BlockView::Paragraph(text.text()),
    {
        Block::Paragraph(Paragraph::new(text))
    }

    /// A bullet list block.
    pub fn bullets(items: &[&str]) -> (block: Self)
        ensures
            block@ == BlockView::BulletList(slice_texts(items@)),
    {
        Block::BulletList(BulletList::new(items))
    }

    /// A numbered list block.
    pub fn numbered(items: &[&str]) -> (block: Self)
        ensures
            block@ == BlockView::NumberedList(slice_texts(items@)),
    {
        Block::NumberedList(NumberedList::new(items))
    }

    /// A code block with an optional language tag.
    pub fn code(language: Option<&str>, content: &str) -> (block: Self)
        ensures
            block@ == BlockView::Code(
                CodeView { language: language_view(language), content: content@ },
            ),
    {
        let language = match language {
            Some(language) => Some(language.to_owned()),
            None => None,
        };
        Block::Code(CodeBlock::new(language, content.to_owned()))
    }

    /// A table block.
    pub fn table(headers: Vec<String>, rows: Vec<Vec<String>>) -> (block: Self)
        ensures
            block@ == BlockView::Table(
                TableView { headers: texts(headers@), rows: text_rows(rows@) },
            ),
    {
        Block::Table(TableBlock::new(headers, rows))
    }

    /// A block of raw markup.
    pub fn raw(content: &str) -> (block: Self)
        ensures
            block@ == BlockView::Raw(content@),
    {
        Block::Raw(RawBlock::new(content))
    }

    /// Appends the markup of the block to `output`.
    pub fn render(&self, output: &mut String)
        ensures
            final(output)@ == old(output)@ + self@.markup(),
    {
        match self {
            Block::Paragraph(paragraph) => paragraph.render(output),
            Block::BulletList(list) => list.render(output),
            Block::NumberedList(list) => list.render(output),
            Block::Code(code) => code.render(output),
            Block::Table(table) => table.render(output),
            Block::Image(image) => image.render(output),
            Block::Figure(figure) => figure.render(output),
            Block::Link(link) => link.render(output),
            Block::Raw(raw) => raw.render(output),
        }
    }
}

impl From<Image> for Block {
    fn from(value: Image) -> (block: Self) {
        Block::Image(value)
    }
}

impl FromSpecImpl<Image> for Block {
    open spec fn obeys_from_spec() -> bool {
        true
    }

    open spec fn from_spec(value: Image) -> Self {
        Block::Image(value)
    }
}

impl From<Figure> for Block {
    fn from(value: Figure) -> (block: Self) {
        Block::Figure(value)
    }
}

impl FromSpecImpl<Figure> for Block {
    open spec fn obeys_from_spec() -> bool {
        true
    }

    open spec fn from_spec(value: Figure) -> Self {
        Block::Figure(value)
    }
}

/// A text with no attribute set.
pub fn text(content: &str) -> (text: Text)
    ensures
        text@ == TextView::plain(content@),
{
    Text::new(content)
}

/// A text with the given attributes.
pub fn text_with_options(content: &str, options: TextOptions) -> (text: Text)
    ensures
        text@ == (TextView { content: content@, options: options@ }),
{
    Text::with_options(content, options)
}

/// A paragraph block.
pub fn paragraph<T: IntoText>(text: T) -> (block: Block)
    ensures
        block@ == BlockView::Paragraph(text.text()),
{
    Block::Paragraph(Paragraph::new(text))
}

/// A bullet list block.
pub fn bullets(items: &[&str]) -> (block: Block)
    ensures
        block@ == BlockView::BulletList(slice_texts(items@)),
{
    Block::BulletList(BulletList::new(items))
}

/// A numbered list block.
pub fn numbered(items: &[&str]) -> (block: Block)
    ensures
        block@ == BlockView::NumberedList(slice_texts(items@)),
{
    Block::NumberedList(NumberedList::new(items))
}

/// A code block with an optional language tag.
pub fn code(language: Option<&str>, content: &str) -> (block: Block)
    ensures
        block@ == BlockView::Code(
            CodeView { language: language_view(language), content: content@ },
        ),
{
    Block::code(language, content)
}

/// An image block.
pub fn image<I: IntoImage>(picture: I) -> (block: Block)
    ensures
        block@ == BlockView::Image(picture.picture()),
{
    Block::Image(picture.into_image())
}

/// A figure around an image or a table, without caption and kind.
pub fn figure<B: IntoFigureBody>(body: B) -> (figure: Figure)
    ensures
        figure@ == (FigureView { body: body.figure_body(), caption: None, kind: None }),
{
    Figure::new(body)
}

/// A link to an address.
pub fn link_to_url<C: IntoText>(url: &str, content: C) -> (block: Block)
    ensures
        block@ == BlockView::Link(
            LinkView { destination: DestinationView::Url(url@), content: content.text() },
        ),
{
    Block::Link(Link::to_url(url, content))
}

/// A link to a location in the document.
pub fn link_to_location<C: IntoText>(location: &str, content: C) -> (block: Block)
    ensures
        block@ == BlockView::Link(
            LinkView {
                destination: DestinationView::Location(location@),
                content: content.text(),
            },
        ),
{
    Block::Link(Link::to_location(location, content))
}

/// A table block.
pub fn table(headers: Vec<String>, rows: Vec<Vec<String>>) -> (block: Block)
    ensures
        block@ == BlockView::Table(TableView { headers: texts(headers@), rows: text_rows(rows@) }),
{
    Block::Table(TableBlock::new(headers, rows))
}

/// A block of raw markup, which is neither escaped nor checked.
pub fn raw(content: &str) -> (block: Block)
    ensures
        block@ == BlockView::Raw(content@),
{
    Block::Raw(RawBlock::new(content))
}

} // verus!
