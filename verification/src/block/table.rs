//! Tables.

use crate::render::table::{render_table, table_markup, TableView};
use crate::strings::{text_rows, texts};
use vstd::prelude::*;

verus! {

/// A table: header cells and rows of cells.  Nothing asks that a row has as
/// many cells as the header.
#[derive(Debug, Clone)]
pub struct TableBlock {
    headers: Vec<String>,
    rows: Vec<Vec<String>>,
}

impl View for TableBlock {
    type V = TableView;

    closed spec fn view(&self) -> TableView {
        TableView { headers: texts(self.headers@), rows: text_rows(self.rows@) }
    }
}

impl TableBlock {
    /// A table with the given header cells and rows.
    pub fn new(headers: Vec<String>, rows: Vec<Vec<String>>) -> (table: Self)
        ensures
            table@ == (TableView { headers: texts(headers@), rows: text_rows(rows@) }),
    {
        TableBlock { headers, rows }
    }

    /// The markup of the table, with `#` in front of the call when
    /// `include_hash` is set.
    pub fn render_markup(&self, include_hash: bool) -> (out: String)
        ensures
            out@ == self@.markup(include_hash),
    {
        table_markup(&self.headers, &self.rows, include_hash)
    }

    /// Appends the table to `output` as a block of its own.
    pub fn render(&self, output: &mut String)
        ensures
            final(output)@ == old(output)@ + self@.block_markup(),
    {
        render_table(output, &self.headers, &self.rows);
        output.append("\n");
    }
}

} // verus!
