//! Numbered lists.

use crate::render::list::{list_markup, render_list};
use crate::strings::{owned_items, slice_texts, texts};
use vstd::prelude::*;

verus! {

/// A list whose items are numbered by the document compiler.
#[derive(Debug, Clone)]
pub struct NumberedList {
    items: Vec<String>,
}

impl View for NumberedList {
    type V = Seq<Seq<char>>;

    closed spec fn view(&self) -> Seq<Seq<char>> {
        texts(self.items@)
    }
}

impl NumberedList {
    /// A numbered list of the given items.
    pub fn new(items: &[&str]) -> (list: Self)
        ensures
            list@ == slice_texts(items@),
    {
        NumberedList { items: owned_items(items) }
    }

    /// Appends the list to `output`.
    pub fn render(&self, output: &mut String)
        ensures
            final(output)@ == old(output)@ + list_markup(self@, "+"@),
    {
        render_list(output, &self.items, "+");
    }
}

} // verus!
