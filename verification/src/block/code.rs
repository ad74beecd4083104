//! Code blocks.

use crate::strings::{trim_end, trimmed_end};
use vstd::prelude::*;

verus! {

/// A code block as the markup sees it.
#[verifier::ext_equal]
pub struct CodeView {
    /// The language tag, if one was given.
    pub language: Option<Seq<char>>,
    /// The code, as it was given.
    pub content: Seq<char>,
}

impl CodeView {
    /// The tag on the opening fence: the language, or `typst` when none was
    /// given.
    pub open spec fn tag(self) -> Seq<char> {
        match self.language {
            Some(language) => language,
            None => "typst"@,
        }
    }

    /// The markup of the code block as a block of its own: the opening fence
    /// with its tag, the code without trailing white space, the closing fence
    /// and an empty line.
    pub open spec fn markup(self) -> Seq<char> {
        "```"@ + self.tag() + "\n"@ + trimmed_end(self.content) + "\n"@ + "```\n"@ + "\n"@
    }
}

/// A fenced block of source code.
#[derive(Debug, Clone)]
pub struct CodeBlock {
    language: Option<String>,
    content: String,
}

impl View for CodeBlock {
    type V = CodeView;

    closed spec fn view(&self) -> CodeView {
        CodeView {
            language: match self.language {
                Some(language) => Some(language@),
                None => None,
            },
            content: self.content@,
        }
    }
}

impl CodeBlock {
    /// A code block with an optional language tag.
    pub fn new(language: Option<String>, content: String) -> (code: Self)
        ensures
            code@ == (CodeView {
                language: match language {
                    Some(language) => Some(language@),
                    None => None,
                },
                content: content@,
            }),
    {
        CodeBlock { language, content }
    }

    /// Appends the code block to `output`.
    pub fn render(&self, output: &mut String)
        ensures
            final(output)@ == old(output)@ + self@.markup(),
    {
        output.append("```");
        match &self.language {
            Some(language) => output.append(language.as_str()),
            None => output.append("typst"),
        }
        output.append("\n");
        output.append(trim_end(self.content.as_str()));
        output.append("\n");
        output.append("```\n");
        output.append("\n");
        assert(output@ =~= old(output)@ + self@.markup());
    }
}

} // verus!
