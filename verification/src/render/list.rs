//! The list renderer, shared by bullet lists and numbered lists.

use crate::strings::{texts, trim, trimmed};
use vstd::prelude::*;

verus! {

/// The lines of a list: for each item the marker, a space, the trimmed item
/// and a line end.
pub open spec fn list_lines(items: Seq<Seq<char>>, marker: Seq<char>) -> Seq<char>
    decreases items.len(),
{
    if items.len() == 0 {
        Seq::empty()
    } else {
        list_lines(items.drop_last(), marker) + marker + " "@ + trimmed(items.last()) + "\n"@
    }
}

/// The markup of a list as a block of its own: its lines and an empty line.
pub open spec fn list_markup(items: Seq<Seq<char>>, marker: Seq<char>) -> Seq<char> {
    list_lines(items, marker) + "\n"@
}

/// Appends a list to `output`, one line for each item and an empty line after
/// the last.
pub fn render_list(output: &mut String, items: &Vec<String>, marker: &str)
    ensures
        final(output)@ == old(output)@ + list_markup(texts(items@), marker@),
{
    let ghost all = texts(items@);
    let mut i: usize = 0;
    assert(output@ =~= old(output)@ + list_lines(all.take(0), marker@));
    while i < items.len()
        invariant
            i <= items.len(),
            all == texts(items@),
            output@ == old(output)@ + list_lines(all.take(i as int), marker@),
        decreases items.len() - i,
    {
        assert(all.take(i + 1).drop_last() =~= all.take(i as int));
        output.append(marker);
        output.append(" ");
        output.append(trim(items[i].as_str()));
        output.append("\n");
        i = i + 1;
    }
    assert(all.take(items.len() as int) =~= all);
    output.append("\n");
}

} // verus!
