//! Sections: a title, blocks and nested sections.

use crate::block::{Block, BlockView};
use crate::render::block::{block_views, body_markup, render_blocks};
use crate::strings::{push_repeated, repeated};
use vstd::prelude::*;

verus! {

/// A section as the markup sees it.
pub struct SectionView {
    /// The title, as it was given.
    pub title: Seq<char>,
    /// The blocks of the section, in order.
    pub blocks: Seq<BlockView>,
    /// The nested sections, in order.
    pub subsections: Seq<SectionView>,
}

/// A heading line: `level` heading markers, a space, the title and a line
/// end.
pub open spec fn heading(level: nat, title: Seq<char>) -> Seq<char> {
    repeated('=', level) + " "@ + title + "\n"@
}

impl SectionView {
    /// The markup of the section at nesting depth `depth`: a heading of
    /// level `depth + 1`, the blocks of the section, and each nested section
    /// one level deeper.
    pub open spec fn markup(self, depth: nat) -> Seq<char>
        decreases self,
    {
        heading(depth + 1, self.title) + body_markup(self.blocks, depth) + sections_markup(
            self.subsections,
            depth + 1,
        )
    }

    /// The markup of the section under a heading marker that is given as
    /// text.
    spec fn marked(self, marker: Seq<char>, nested: bool) -> Seq<char>
        decreases self,
    {
        marker + " "@ + self.title + "\n"@ + body_markup(
            self.blocks,
            if nested {
                1
            } else {
                0
            },
        ) + all_marked(self.subsections, marker.push('='))
    }
}

/// The markup of the sections, one after the other, each at nesting depth
/// `depth`.
pub open spec fn sections_markup(sections: Seq<SectionView>, depth: nat) -> Seq<char>
    decreases sections,
{
    if sections.len() == 0 {
        Seq::empty()
    } else {
        sections_markup(sections.drop_last(), depth) + sections.last().markup(depth)
    }
}

/// The markup of nested sections under a heading marker that is given as
/// text.
spec fn all_marked(sections: Seq<SectionView>, marker: Seq<char>) -> Seq<char>
    decreases sections,
{
    if sections.len() == 0 {
        Seq::empty()
    } else {
        all_marked(sections.drop_last(), marker) + sections.last().marked(marker, true)
    }
}

/// Writing a section under a marker of `depth + 1` heading markers gives its
/// markup at nesting depth `depth`.
proof fn lemma_marked(section: SectionView, depth: nat)
    ensures
        section.marked(repeated('=', depth + 1), depth > 0) == section.markup(depth),
    decreases section,
{
    lemma_all_marked(section.subsections, depth + 1);
    assert(repeated('=', depth + 1).push('=') =~= repeated('=', depth + 2));
    assert(body_markup(section.blocks, if depth > 0 { 1 } else { 0 }) == body_markup(
        section.blocks,
        depth,
    ));
}

/// The same for a list of nested sections at nesting depth `depth`.
proof fn lemma_all_marked(sections: Seq<SectionView>, depth: nat)
    requires
        depth > 0,
    ensures
        all_marked(sections, repeated('=', depth + 1)) == sections_markup(sections, depth),
    decreases sections,
{
    if sections.len() > 0 {
        lemma_all_marked(sections.drop_last(), depth);
        lemma_marked(sections.last(), depth);
    }
}

/// A heading of level `level` starts with exactly `level` heading markers:
/// after them stands a space, then the title.
pub proof fn lemma_heading_marker(level: nat, title: Seq<char>)
    ensures
        heading(level, title).len() == level + title.len() + 2,
        forall|i: int| 0 <= i < level ==> heading(level, title)[i] == '=',
        heading(level, title)[level as int] == ' ',
        heading(level, title).subrange(level as int + 1, level as int + 1 + title.len()) == title,
        heading(level, title).last() == '\n',
{
    reveal_strlit(" ");
    reveal_strlit("\n");
    assert(heading(level, title).subrange(level as int + 1, level as int + 1 + title.len()) =~= title);
}

/// A section with one nested section is written as a heading of level
/// `depth + 1`, its own blocks, and the nested section under a heading of
/// level `depth + 2`.
pub proof fn lemma_nested_heading_levels(section: SectionView, depth: nat)
    requires
        section.subsections.len() == 1,
    ensures
        section.markup(depth) == heading(depth + 1, section.title) + body_markup(
            section.blocks,
            depth,
        ) + (heading(depth + 2, section.subsections[0].title) + body_markup(
            section.subsections[0].blocks,
            depth + 1,
        ) + sections_markup(section.subsections[0].subsections, depth + 2)),
{
    let inner = section.subsections[0];
    assert(section.subsections.drop_last().len() == 0);
    assert(sections_markup(section.subsections, depth + 1) =~= inner.markup(depth + 1)) by {
        assert(sections_markup(section.subsections.drop_last(), depth + 1) =~= Seq::<
            char,
        >::empty());
    }
}

/// A titled container of blocks and nested sections.
#[derive(Debug)]
pub struct Section {
    title: String,
    blocks: Vec<Block>,
    subsections: Vec<Section>,
}

/// What the markup sees of a list of sections.
pub open spec fn section_views(sections: Seq<Section>) -> Seq<SectionView>
    decreases sections,
{
    if sections.len() == 0 {
        Seq::empty()
    } else {
        section_views(sections.drop_last()).push(sections.last()@)
    }
}

/// The views of a list of sections stand in the order of the sections.
pub proof fn lemma_section_views(sections: Seq<Section>)
    ensures
        section_views(sections).len() == sections.len(),
        forall|i: int| 0 <= i < sections.len() ==> section_views(sections)[i] == (
        #[trigger] sections[i])@,
    decreases sections.len(),
{
    if sections.len() > 0 {
        let front = sections.drop_last();
        lemma_section_views(front);
        assert(section_views(sections) == section_views(front).push(sections.last()@));
        assert forall|i: int| 0 <= i < sections.len() implies section_views(sections)[i] == (
        #[trigger] sections[i])@ by {
            if i < sections.len() - 1 {
                assert(front[i] == sections[i]);
                assert(section_views(front)[i] == front[i]@);
            }
        }
    }
}

/// The views of a list of sections with one more section at its end.
pub proof fn lemma_section_views_push(sections: Seq<Section>, section: Section)
    ensures
        section_views(sections.push(section)) == section_views(sections).push(section@),
{
    assert(sections.push(section).drop_last() =~= sections);
}

impl View for Section {
    type V = SectionView;

    closed spec fn view(&self) -> SectionView
        decreases self,
    {
        SectionView {
            title: self.title@,
            blocks: block_views(self.blocks@),
            subsections: section_views(self.subsections@),
        }
    }
}

impl Default for Section {
    /// A section without a title and without content.
    fn default() -> (section: Self)
        ensures
            section@ == (SectionView {
                title: Seq::empty(),
                blocks: Seq::empty(),
                subsections: Seq::empty(),
            }),
    {
        let section = Section { title: String::new(), blocks: Vec::new(), subsections: Vec::new() };
        assert(section@.blocks =~= Seq::empty());
        assert(section@.subsections =~= Seq::empty());
        section
    }
}

impl Section {
    /// A section with the given title and no content.
    pub fn new(title: &str) -> (section: Self)
        ensures
            section@ == (SectionView {
                title: title@,
                blocks: Seq::empty(),
                subsections: Seq::empty(),
            }),
    {
        let section = Section {
            title: title.to_owned(),
            blocks: Vec::new(),
            subsections: Vec::new(),
        };
        assert(section@.blocks =~= Seq::empty());
        assert(section@.subsections =~= Seq::empty());
        section
    }

    /// The same section with `block` after its other blocks.
    pub fn add_block(self, block: Block) -> (section: Self)
        ensures
            section@ == (SectionView { blocks: self@.blocks.push(block@), ..self@ }),
    {
        let mut section = self;
        section.blocks.push(block);
        assert(section@.blocks =~= self@.blocks.push(block@));
        assert(section@.subsections =~= self@.subsections);
        section
    }

    /// The same section with `subsection` after its other nested sections.
    pub fn add_subsection(self, subsection: Section) -> (section: Self)
        ensures
            section@ == (SectionView {
                subsections: self@.subsections.push(subsection@),
                ..self@
            }),
    {
        let mut section = self;
        section.subsections.push(subsection);
        proof {
            lemma_section_views_push(self.subsections@, subsection);
        }
        section
    }

    /// Appends the section to `output` under the heading marker `marker`.
    fn render_marked(&self, output: &mut String, marker: &str, nested: bool)
        ensures
            final(output)@ == old(output)@ + self@.marked(marker@, nested),
        decreases self,
    {
        output.append(marker);
        output.append(" ");
        output.append(self.title.as_str());
        output.append("\n");
        render_blocks(output, &self.blocks, if nested { 1 } else { 0 });
        let mut deeper = marker.to_owned();
        deeper.push('=');
        let ghost start = output@;
        let ghost inner = self@.subsections;
        proof {
            lemma_section_views(self.subsections@);
        }
        let mut i: usize = 0;
        assert(output@ =~= start + all_marked(inner.take(0), deeper@));
        while i < self.subsections.len()
            invariant
                i <= self.subsections.len(),
                inner == self@.subsections,
                inner.len() == self.subsections.len(),
                forall|k: int|
                    0 <= k < self.subsections.len() ==> inner[k] == (
                    #[trigger] self.subsections@[k])@,
                deeper@ == marker@.push('='),
                output@ == start + all_marked(inner.take(i as int), deeper@),
            decreases self.subsections.len() - i,
        {
            assert(inner.take(i + 1).drop_last() =~= inner.take(i as int));
            self.subsections[i].render_marked(output, deeper.as_str(), true);
            i = i + 1;
        }
        assert(inner.take(self.subsections.len() as int) =~= inner);
        assert(output@ =~= old(output)@ + self@.marked(marker@, nested));
    }

    /// Appends the section to `output` at nesting depth `depth`: a heading
    /// of level `depth + 1`, the blocks, and each nested section one level
    /// deeper.
    pub fn render(&self, output: &mut String, depth: usize)
        ensures
            final(output)@ == old(output)@ + self@.markup(depth as nat),
    {
        let mut marker = String::new();
        push_repeated(&mut marker, '=', depth);
        marker.push('=');
        proof {
            assert(marker@ =~= repeated('=', (depth + 1) as nat));
            lemma_marked(self@, depth as nat);
        }
        self.render_marked(output, marker.as_str(), depth > 0);
    }
}

} // verus!
