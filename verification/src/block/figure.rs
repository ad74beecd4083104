//! Figures: an image or a table with an optional caption and kind.

use crate::block::image::{Image, ImageView};
use crate::block::table::TableBlock;
use crate::escape::{caption_escaped, escape_caption};
use crate::render::table::TableView;
use vstd::prelude::*;
use vstd::std_specs::convert::FromSpecImpl;

verus! {

/// What a figure shows.
#[derive(Debug, Clone)]
pub enum FigureBody {
    /// An image.
    Image(Image),
    /// A table.
    Table(TableBlock),
}

/// What a figure shows, as the markup sees it.
pub enum FigureBodyView {
    /// An image.
    Image(ImageView),
    /// A table.
    Table(TableView),
}

impl FigureBodyView {
    /// The markup of the body inside the figure call: the bare call of the
    /// image or of the table, without `#` in front of it.
    pub open spec fn markup(self) -> Seq<char> {
        match self {
            FigureBodyView::Image(image) => image.markup(false),
            FigureBodyView::Table(table) => table.markup(false),
        }
    }
}

impl View for FigureBody {
    type V = FigureBodyView;

    open spec fn view(&self) -> FigureBodyView {
        match self {
            FigureBody::Image(image) => FigureBodyView::Image(image@),
            FigureBody::Table(table) => FigureBodyView::Table(table@),
        }
    }
}

impl FigureBody {
    /// The markup of the body inside the figure call.
    pub fn render_markup(&self) -> (out: String)
        ensures
            out@ == self@.markup(),
    {
        match self {
            FigureBody::Image(image) => image.render_markup(false),
            FigureBody::Table(table) => table.render_markup(false),
        }
    }
}

impl From<Image> for FigureBody {
    fn from(value: Image) -> (body: Self) {
        FigureBody::Image(value)
    }
}

impl FromSpecImpl<Image> for FigureBody {
    open spec fn obeys_from_spec() -> bool {
        true
    }

    open spec fn from_spec(value: Image) -> Self {
        FigureBody::Image(value)
    }
}

impl From<TableBlock> for FigureBody {
    fn from(value: TableBlock) -> (body: Self) {
        FigureBody::Table(value)
    }
}

impl FromSpecImpl<TableBlock> for FigureBody {
    open spec fn obeys_from_spec() -> bool {
        true
    }

    open spec fn from_spec(value: TableBlock) -> Self {
        FigureBody::Table(value)
    }
}

/// What can stand where the body of a figure is asked for: an image, a
/// table, or a body itself.
pub trait IntoFigureBody: Sized {
    /// The body that this value becomes.
    spec fn figure_body(&self) -> FigureBodyView;

    /// Turns the value into the body of a figure.
    fn into_figure_body(self) -> (body: FigureBody)
        ensures
            body@ == self.figure_body(),
    ;
}

impl IntoFigureBody for FigureBody {
    open spec fn figure_body(&self) -> FigureBodyView {
        self@
    }

    fn into_figure_body(self) -> (body: FigureBody) {
        self
    }
}

impl IntoFigureBody for Image {
    open spec fn figure_body(&self) -> FigureBodyView {
        FigureBodyView::Image(self@)
    }

    fn into_figure_body(self) -> (body: FigureBody) {
        FigureBody::Image(self)
    }
}

impl IntoFigureBody for TableBlock {
    open spec fn figure_body(&self) -> FigureBodyView {
        FigureBodyView::Table(self@)
    }

    fn into_figure_body(self) -> (body: FigureBody) {
        FigureBody::Table(self)
    }
}

/// The kind under which a figure is counted and listed.
#[derive(Debug, Clone)]
pub enum FigureKind {
    /// Chosen by the document compiler.
    Auto,
    /// An image.
    Image,
    /// A table.
    Table,
    /// A kind of the caller's own, written as it stands.
    Custom(String),
}

/// The kind of a figure, as the markup sees it.
pub enum FigureKindView {
    /// Chosen by the document compiler.
    Auto,
    /// An image.
    Image,
    /// A table.
    Table,
    /// A kind of the caller's own.
    Custom(Seq<char>),
}

impl FigureKindView {
    /// The kind as it stands in the markup.
    pub open spec fn markup(self) -> Seq<char> {
        match self {
            FigureKindView::Auto => "auto"@,
            FigureKindView::Image => "image"@,
            FigureKindView::Table => "table"@,
            FigureKindView::Custom(kind) => kind,
        }
    }
}

impl View for FigureKind {
    type V = FigureKindView;

    open spec fn view(&self) -> FigureKindView {
        match self {
            FigureKind::Auto => FigureKindView::Auto,
            FigureKind::Image => FigureKindView::Image,
            FigureKind::Table => FigureKindView::Table,
            FigureKind::Custom(kind) => FigureKindView::Custom(kind@),
        }
    }
}

impl FigureKind {
    /// The kind as it stands in the markup.
    pub fn render(&self) -> (out: String)
        ensures
            out@ == self@.markup(),
    {
        match self {
            FigureKind::Auto => "auto".to_owned(),
            FigureKind::Image => "image".to_owned(),
            FigureKind::Table => "table".to_owned(),
            FigureKind::Custom(kind) => kind.clone(),
        }
    }
}

/// A figure as the markup sees it.
#[verifier::ext_equal]
pub struct FigureView {
    /// What the figure shows.
    pub body: FigureBodyView,
    /// The caption, if there is one, as it was given.
    pub caption: Option<Seq<char>>,
    /// The kind, if one was chosen.
    pub kind: Option<FigureKindView>,
}

impl FigureView {
    /// The caption argument: the escaped caption in square brackets, or
    /// nothing when there is no caption.
    pub open spec fn caption_markup(self) -> Seq<char> {
        match self.caption {
            Some(caption) => ", caption: ["@ + caption_escaped(caption) + "]"@,
            None => Seq::empty(),
        }
    }

    /// The kind argument, or nothing when no kind was chosen.
    pub open spec fn kind_markup(self) -> Seq<char> {
        match self.kind {
            Some(kind) => ", kind: "@ + kind.markup(),
            None => Seq::empty(),
        }
    }

    /// The markup of the figure as a block of its own: the call around the
    /// body, the caption and the kind where they are set, and an empty line.
    pub open spec fn markup(self) -> Seq<char> {
        "#figure("@ + self.body.markup() + self.caption_markup() + self.kind_markup() + ")\n\n"@
    }
}

/// An image or a table with an optional caption and kind.
#[derive(Debug, Clone)]
pub struct Figure {
    body: FigureBody,
    caption: Option<String>,
    kind: Option<FigureKind>,
}

impl View for Figure {
    type V = FigureView;

    closed spec fn view(&self) -> FigureView {
        FigureView {
            body: self.body@,
            caption: match self.caption {
                Some(caption) => Some(caption@),
                None => None,
            },
            kind: match self.kind {
                Some(kind) => Some(kind@),
                None => None,
            },
        }
    }
}

impl Figure {
    /// A figure around `body`, without caption and kind.
    pub fn new<B: IntoFigureBody>(body: B) -> (figure: Self)
        ensures
            figure@ == (FigureView { body: body.figure_body(), caption: None, kind: None }),
    {
        Figure { body: body.into_figure_body(), caption: None, kind: None }
    }

    /// The same figure with the caption `caption`.
    pub fn caption(self, caption: &str) -> (figure: Self)
        ensures
            figure@ == (FigureView { caption: Some(caption@), ..self@ }),
    {
        let mut figure = self;
        figure.caption = Some(caption.to_owned());
        figure
    }

    /// The same figure with the kind `kind`.
    pub fn kind(self, kind: FigureKind) -> (figure: Self)
        ensures
            figure@ == (FigureView { kind: Some(kind@), ..self@ }),
    {
        let mut figure = self;
        figure.kind = Some(kind);
        figure
    }

    /// Appends the figure to `output`.
    pub fn render(&self, output: &mut String)
        ensures
            final(output)@ == old(output)@ + self@.markup(),
    {
        output.append("#figure(");
        let body = self.body.render_markup();
        output.append(body.as_str());
        match &self.caption {
            Some(caption) => {
                output.append(", caption: [");
                let escaped = escape_caption(caption.as_str());
                output.append(escaped.as_str());
                output.append("]");
            },
            None => {},
        }
        match &self.kind {
            Some(kind) => {
                output.append(", kind: ");
                let name = kind.render();
                output.append(name.as_str());
            },
            None => {},
        }
        output.append(")\n\n");
        assert(output@ =~= old(output)@ + self@.markup());
    }
}

} // verus!
