//! A programmatic builder for Typst documents.
//!
//! A [`Report`] holds front matter and [`Section`]s, a section holds
//! [`Block`]s and nested sections.  Rendering walks this tree and writes
//! Typst markup; the markup is then parsed, and syntax errors are reported
//! before the text is handed out.
//!
//! Every type has a view, the value as the markup sees it, and the view has
//! a `markup` function that says what is written for it.  The rendering
//! functions are proved against these.

pub mod block;
pub mod dispatcher;
pub mod escape;
pub mod file_name;
pub mod outline;
pub mod render;
pub mod report;
pub mod section;
pub mod strings;
pub mod syntax;

pub use block::{
    bullets, code, figure, image, link_to_location, link_to_url, numbered, paragraph, raw, table,
    text, text_with_options, Block, BlockNode, BlockView, BulletList, CodeBlock, Figure,
    FigureBody, FigureKind, Image, ImageOptionValue, ImageOptions, IntoFigureBody, IntoImage,
    IntoText, Link, LinkDestination, NumberedList, Paragraph, RawBlock, TableBlock, Text,
    TextOptionValue, TextOptions,
};
pub use outline::Outline;
pub use report::{IntoPageSection, PageSection, RenderPlan, Report};
pub use section::Section;
pub use syntax::SyntaxError;
