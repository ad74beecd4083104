//! Rendering of a list of blocks.

use crate::block::{Block, BlockView};
use vstd::prelude::*;

verus! {

/// What the markup sees of a list of blocks.
pub open spec fn block_views(blocks: Seq<Block>) -> Seq<BlockView> {
    Seq::new(blocks.len(), |i: int| blocks[i]@)
}

/// The markup of the blocks, one after the other.
pub open spec fn blocks_markup(blocks: Seq<BlockView>) -> Seq<char>
    decreases blocks.len(),
{
    if blocks.len() == 0 {
        Seq::empty()
    } else {
        blocks_markup(blocks.drop_last()) + blocks.last().markup()
    }
}

/// The markup of the blocks of a section at nesting depth `depth`: the blocks
/// one after the other and, below the top level, one more line end.
pub open spec fn body_markup(blocks: Seq<BlockView>, depth: nat) -> Seq<char> {
    blocks_markup(blocks) + if depth > 0 {
        "\n"@
    } else {
        Seq::empty()
    }
}

/// Appends the blocks to `output` in order and, where `depth` is not zero,
/// one more line end.
pub fn render_blocks(output: &mut String, blocks: &Vec<Block>, depth: usize)
    ensures
        final(output)@ == old(output)@ + body_markup(block_views(blocks@), depth as nat),
{
    let ghost all = block_views(blocks@);
    let mut i: usize = 0;
    assert(output@ =~= old(output)@ + blocks_markup(all.take(0)));
    while i < blocks.len()
        invariant
            i <= blocks.len(),
            all == block_views(blocks@),
            output@ == old(output)@ + blocks_markup(all.take(i as int)),
        decreases blocks.len() - i,
    {
        assert(all.take(i + 1).drop_last() =~= all.take(i as int));
        blocks[i].render(output);
        i = i + 1;
    }
    assert(all.take(blocks.len() as int) =~= all);
    if depth > 0 {
        output.append("\n");
    }
    assert(output@ =~= old(output)@ + body_markup(all, depth as nat));
}

} // verus!
