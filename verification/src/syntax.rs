//! Syntax validation of generated markup with the Typst parser.

use crate::strings::{join, joined, texts};
use vstd::prelude::*;

verus! {

/// One syntax error found in a piece of markup.
#[derive(Debug, Clone)]
pub struct SyntaxError {
    /// What the parser said about the error.
    pub message: String,
}

/// The messages of the errors that the Typst parser reports for `text`, in the
/// order in which it reports them.
pub uninterp spec fn parser_messages(text: Seq<char>) -> Seq<Seq<char>>;

/// The messages held by a list of errors.
pub open spec fn messages_of(errors: Seq<SyntaxError>) -> Seq<Seq<char>> {
    Seq::new(errors.len(), |i: int| errors[i].message@)
}

/// The message that names every syntax error: a fixed opening and the
/// messages with `; ` between them.
pub open spec fn summary(messages: Seq<Seq<char>>) -> Seq<char> {
    "generated Typst markup contains syntax errors: "@ + joined(messages, "; "@)
}

/// Runs `typst::syntax::parse` on `text` and collects `SyntaxNode::errors` of the
/// root node, keeping the message of each error.  Parsing depends on the text
/// alone, which is all the contract claims: the messages are those that the
/// parser gives for this text.
#[verifier::external_body]
fn parse_errors(text: &str) -> (errors: Vec<SyntaxError>)
    ensures
        messages_of(errors@) == parser_messages(text@),
{
    typst::syntax::parse(text)
        .errors()
        .into_iter()
        .map(|error| SyntaxError { message: error.message.to_string() })
        .collect()
}

/// Parses `text` as markup and returns every syntax error found; an empty list
/// means that the text is valid.
pub fn syntax_errors(text: &str) -> (errors: Vec<SyntaxError>)
    ensures
        messages_of(errors@) == parser_messages(text@),
{
    parse_errors(text)
}

/// The outcome of a check: the markup when no error was found, else the
/// errors and no markup.
pub fn validated(markup: String, errors: Vec<SyntaxError>) -> (result: Result<
    String,
    Vec<SyntaxError>,
>)
    ensures
        errors@.len() == 0 ==> result == Ok::<String, Vec<SyntaxError>>(markup),
        errors@.len() > 0 ==> result == Err::<String, Vec<SyntaxError>>(errors),
{
    if errors.len() == 0 {
        Ok(markup)
    } else {
        Err(errors)
    }
}

/// The message that names every error in `errors`.
pub fn error_summary(errors: &Vec<SyntaxError>) -> (out: String)
    ensures
        out@ == summary(messages_of(errors@)),
{
    let mut messages: Vec<String> = Vec::new();
    let mut i: usize = 0;
    assert(texts(messages@) =~= messages_of(errors@).take(0));
    while i < errors.len()
        invariant
            i <= errors.len(),
            texts(messages@) == messages_of(errors@).take(i as int),
        decreases errors.len() - i,
    {
        let ghost before = texts(messages@);
        messages.push(errors[i].message.clone());
        i = i + 1;
        assert(texts(messages@) =~= before.push(errors@[i - 1].message@));
        assert(texts(messages@) =~= messages_of(errors@).take(i as int));
    }
    assert(messages_of(errors@).take(errors.len() as int) =~= messages_of(errors@));
    let mut out = String::new();
    out.append("generated Typst markup contains syntax errors: ");
    let list = join(&messages, "; ");
    out.append(list.as_str());
    out
}

} // verus!
