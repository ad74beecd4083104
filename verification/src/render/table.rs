//! The table renderer, shared by tables that stand alone and tables inside a
//! figure.

use crate::strings::{
    joined, lemma_joined_push, text_rows, texts, trim, trimmed_all,
};
use vstd::prelude::*;

verus! {

/// A table as the markup sees it.
#[verifier::ext_equal]
pub struct TableView {
    /// The header cells.
    pub headers: Seq<Seq<char>>,
    /// The rows, each a list of cells.
    pub rows: Seq<Seq<Seq<char>>>,
}

/// The column specification: one flexible column of equal weight for each
/// header.
pub open spec fn column_spec(columns: nat) -> Seq<char> {
    joined(Seq::new(columns, |i: int| "(flex: 1,)"@), ", "@)
}

/// One row: its cells, each trimmed and in square brackets.
pub open spec fn row_markup(cells: Seq<Seq<char>>) -> Seq<char> {
    "  ["@ + joined(trimmed_all(cells), "] ["@) + "]\n"@
}

/// The rows one after the other.
pub open spec fn rows_markup(rows: Seq<Seq<Seq<char>>>) -> Seq<char>
    decreases rows.len(),
{
    if rows.len() == 0 {
        Seq::empty()
    } else {
        rows_markup(rows.drop_last()) + row_markup(rows.last())
    }
}

impl TableView {
    /// The markup of the table: the call with its column specification, then
    /// the header row and every row as given, whatever its length.  The call
    /// has `#` in front of it when `include_hash` is set.
    pub open spec fn markup(self, include_hash: bool) -> Seq<char> {
        (if include_hash {
            "#table"@
        } else {
            "table"@
        }) + "(columns: ("@ + column_spec(self.headers.len()) + "))[\n"@ + row_markup(
            self.headers,
        ) + rows_markup(self.rows) + "]\n"@
    }

    /// The markup of the table as a block of its own.
    pub open spec fn block_markup(self) -> Seq<char> {
        self.markup(true) + "\n"@
    }
}

/// Appends the column specification for `columns` columns.
fn push_column_spec(out: &mut String, columns: usize)
    ensures
        final(out)@ == old(out)@ + column_spec(columns as nat),
{
    let ghost all = Seq::new(columns as nat, |i: int| "(flex: 1,)"@);
    let mut done: usize = 0;
    assert(out@ =~= old(out)@ + joined(all.take(0), ", "@));
    while done < columns
        invariant
            done <= columns,
            all == Seq::new(columns as nat, |i: int| "(flex: 1,)"@),
            out@ == old(out)@ + joined(all.take(done as int), ", "@),
        decreases columns - done,
    {
        proof {
            lemma_joined_push(all.take(done as int), ", "@, all[done as int]);
            assert(all.take(done as int).push(all[done as int]) =~= all.take(done + 1));
        }
        if done > 0 {
            out.append(", ");
        }
        out.append("(flex: 1,)");
        done = done + 1;
    }
    assert(all.take(columns as int) =~= all);
}

/// Appends one row.
fn push_row(out: &mut String, cells: &Vec<String>)
    ensures
        final(out)@ == old(out)@ + row_markup(texts(cells@)),
{
    let ghost all = trimmed_all(texts(cells@));
    out.append("  [");
    let ghost start = out@;
    let mut idx: usize = 0;
    assert(out@ =~= start + joined(all.take(0), "] ["@));
    while idx < cells.len()
        invariant
            idx <= cells.len(),
            all == trimmed_all(texts(cells@)),
            out@ == start + joined(all.take(idx as int), "] ["@),
        decreases cells.len() - idx,
    {
        proof {
            lemma_joined_push(all.take(idx as int), "] ["@, all[idx as int]);
            assert(all.take(idx as int).push(all[idx as int]) =~= all.take(idx + 1));
        }
        if idx > 0 {
            out.append("] [");
        }
        out.append(trim(cells[idx].as_str()));
        idx = idx + 1;
    }
    assert(all.take(cells.len() as int) =~= all);
    out.append("]\n");
}

/// The markup of a table with the given header cells and rows.  Rows are
/// written as they are given: a row may be shorter or longer than the header.
pub fn table_markup(headers: &Vec<String>, rows: &Vec<Vec<String>>, include_hash: bool) -> (out:
    String)
    ensures
        out@ == (TableView { headers: texts(headers@), rows: text_rows(rows@) }).markup(
            include_hash,
        ),
{
    let ghost all = text_rows(rows@);
    let mut out = String::new();
    if include_hash {
        out.append("#table");
    } else {
        out.append("table");
    }
    out.append("(columns: (");
    push_column_spec(&mut out, headers.len());
    out.append("))[\n");
    push_row(&mut out, headers);
    let ghost start = out@;
    let mut r: usize = 0;
    assert(out@ =~= start + rows_markup(all.take(0)));
    while r < rows.len()
        invariant
            r <= rows.len(),
            all == text_rows(rows@),
            out@ == start + rows_markup(all.take(r as int)),
        decreases rows.len() - r,
    {
        assert(all.take(r + 1).drop_last() =~= all.take(r as int));
        push_row(&mut out, &rows[r]);
        r = r + 1;
    }
    assert(all.take(rows.len() as int) =~= all);
    out.append("]\n");
    out
}

/// Appends a table to `output`, with `#` in front of the call.
pub fn render_table(output: &mut String, headers: &Vec<String>, rows: &Vec<Vec<String>>)
    ensures
        final(output)@ == old(output)@ + (TableView {
            headers: texts(headers@),
            rows: text_rows(rows@),
        }).markup(true),
{
    let markup = table_markup(headers, rows, true);
    output.append(markup.as_str());
}

} // verus!
