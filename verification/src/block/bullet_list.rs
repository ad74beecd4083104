//! Bullet lists.

use crate::render::list::{list_markup, render_list};
use crate::strings::{owned_items, slice_texts, texts};
use vstd::prelude::*;

verus! {

/// A list whose items are marked with a dash.
#[derive(Debug, Clone)]
pub struct BulletList {
    items: Vec<String>,
}

impl View for BulletList {
    type V = Seq<Seq<char>>;

    closed spec fn view(&self) -> Seq<Seq<char>> {
        texts(self.items@)
    }
}

impl BulletList {
    /// A bullet list of the given items.
    pub fn new(items: &[&str]) -> (list: Self)
        ensures
            list@ == slice_texts(items@),
    {
        BulletList { items: owned_items(items) }
    }

    /// Appends the list to `output`.
    pub fn render(&self, output: &mut String)
        ensures
            final(output)@ == old(output)@ + list_markup(self@, "-"@),
    {
        render_list(output, &self.items, "-");
    }
}

} // verus!
