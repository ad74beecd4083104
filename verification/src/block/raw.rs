//! Raw markup.

use vstd::prelude::*;

verus! {

/// The markup of a raw block as a block of its own: the content as it was
/// given and an empty line.
pub open spec fn raw_markup(content: Seq<char>) -> Seq<char> {
    content + "\n\n"@
}

/// Markup that is passed through unchanged.  Whether it is valid is up to the
/// caller.
#[derive(Debug, Clone)]
pub struct RawBlock {
    content: String,
}

impl View for RawBlock {
    type V = Seq<char>;

    closed spec fn view(&self) -> Seq<char> {
        self.content@
    }
}

impl RawBlock {
    /// A raw block that holds `content`.
    pub fn new(content: &str) -> (raw: Self)
        ensures
            raw@ == content@,
    {
        RawBlock { content: content.to_owned() }
    }

    /// Appends the content to `output`, with nothing escaped.
    pub fn render(&self, output: &mut String)
        ensures
            final(output)@ == old(output)@ + raw_markup(self@),
    {
        output.append(self.content.as_str());
        output.append("\n\n");
    }
}

} // verus!
