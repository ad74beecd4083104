//! Paragraphs.

use crate::block::text::{IntoText, Text, TextView};
use vstd::prelude::*;

verus! {

/// The markup of a paragraph as a block of its own: the text on one line and
/// an empty line.
pub open spec fn paragraph_markup(content: TextView) -> Seq<char> {
    content.markup() + "\n\n"@
}

/// A paragraph of text.
#[derive(Debug, Clone)]
pub struct Paragraph {
    content: Text,
}

impl View for Paragraph {
    type V = TextView;

    closed spec fn view(&self) -> TextView {
        self.content@
    }
}

impl Paragraph {
    /// A paragraph that holds `content`.
    pub fn new<T: IntoText>(content: T) -> (paragraph: Self)
        ensures
            paragraph@ == content.text(),
    {
        Paragraph { content: content.into_text() }
    }

    /// Appends the paragraph to `output`.
    pub fn render(&self, output: &mut String)
        ensures
            final(output)@ == old(output)@ + paragraph_markup(self@),
    {
        let markup = self.content.render();
        output.append(markup.as_str());
        output.append("\n\n");
    }
}

} // verus!
