//! Named attributes of a function call in the markup: what a value is, and how
//! a list of attributes is written out.

use crate::escape::{push_quoted, quoted};
use crate::strings::texts;
use vstd::prelude::*;

verus! {

/// The value of one attribute.
pub enum AttrValue {
    /// A fragment of markup that is written as it stands.
    Raw(Seq<char>),
    /// A text that is written as a quoted string.
    Quoted(Seq<char>),
    /// A truth value, written `true` or `false`.
    Bool(bool),
}

impl AttrValue {
    /// The value as it stands in the markup.
    pub open spec fn markup(self) -> Seq<char> {
        match self {
            AttrValue::Raw(fragment) => fragment,
            AttrValue::Quoted(text) => quoted(text),
            AttrValue::Bool(flag) => if flag {
                "true"@
            } else {
                "false"@
            },
        }
    }
}

/// One attribute as it stands in the markup: its name, a colon and its value.
pub open spec fn entry(name: Seq<char>, value: AttrValue) -> Seq<char> {
    name + ": "@ + value.markup()
}

/// The entries of the attributes that are set, in the order of their slots.
/// Slot `i` belongs to the attribute `names[i]`.
pub open spec fn entries(names: Seq<Seq<char>>, slots: Seq<Option<AttrValue>>) -> Seq<Seq<char>>
    decreases slots.len(),
{
    if slots.len() == 0 || names.len() == 0 {
        Seq::empty()
    } else {
        let before = entries(names.drop_last(), slots.drop_last());
        match slots.last() {
            Some(value) => before.push(entry(names.last(), value)),
            None => before,
        }
    }
}

/// The parts in order, each with `lead` in front of it.
pub open spec fn led(parts: Seq<Seq<char>>, lead: Seq<char>) -> Seq<char>
    decreases parts.len(),
{
    if parts.len() == 0 {
        Seq::empty()
    } else {
        led(parts.drop_last(), lead) + lead + parts.last()
    }
}

/// `n` slots, none of them set.
pub open spec fn unset(n: nat) -> Seq<Option<AttrValue>> {
    Seq::new(n, |i: int| None)
}

/// Whether no slot is set.
pub open spec fn none_set(slots: Seq<Option<AttrValue>>) -> bool {
    forall|i: int| 0 <= i < slots.len() ==> (#[trigger] slots[i]) is None
}

/// The entries of one more slot.
pub proof fn lemma_entries_push(
    names: Seq<Seq<char>>,
    slots: Seq<Option<AttrValue>>,
    name: Seq<char>,
    slot: Option<AttrValue>,
)
    ensures
        entries(names.push(name), slots.push(slot)) == match slot {
            Some(value) => entries(names, slots).push(entry(name, value)),
            None => entries(names, slots),
        },
{
    assert(names.push(name).drop_last() =~= names);
    assert(slots.push(slot).drop_last() =~= slots);
}

/// Where no attribute is set there are no entries.
pub proof fn lemma_entries_of_none_set(names: Seq<Seq<char>>, slots: Seq<Option<AttrValue>>)
    requires
        none_set(slots),
    ensures
        entries(names, slots).len() == 0,
    decreases slots.len(),
{
    if slots.len() > 0 && names.len() > 0 {
        assert(slots.last() is None);
        assert forall|i: int| 0 <= i < slots.drop_last().len() implies (
        #[trigger] slots.drop_last()[i]) is None by {
            assert(slots.drop_last()[i] == slots[i]);
        }
        lemma_entries_of_none_set(names.drop_last(), slots.drop_last());
    }
}

/// Where an attribute is set there is an entry.
pub proof fn lemma_entries_of_some_set(
    names: Seq<Seq<char>>,
    slots: Seq<Option<AttrValue>>,
    i: int,
)
    requires
        names.len() == slots.len(),
        0 <= i < slots.len(),
        slots[i] is Some,
    ensures
        entries(names, slots).len() > 0,
    decreases slots.len(),
{
    if i < slots.len() - 1 {
        lemma_entries_of_some_set(names.drop_last(), slots.drop_last(), i);
    }
}

/// The entries come in the order of the slots: those of the first `k` slots
/// stand before those of the slots from `k` on, whatever the order in which
/// the attributes were set.
pub proof fn lemma_entries_split(names: Seq<Seq<char>>, slots: Seq<Option<AttrValue>>, k: int)
    requires
        names.len() == slots.len(),
        0 <= k <= slots.len(),
    ensures
        entries(names, slots) == entries(names.take(k), slots.take(k)) + entries(
            names.skip(k),
            slots.skip(k),
        ),
    decreases slots.len(),
{
    let head = entries(names.take(k), slots.take(k));
    if k == slots.len() {
        assert(names.take(k) =~= names);
        assert(slots.take(k) =~= slots);
        assert(slots.skip(k).len() == 0);
        assert(head + entries(names.skip(k), slots.skip(k)) =~= head);
    } else {
        lemma_entries_split(names.drop_last(), slots.drop_last(), k);
        assert(names.drop_last().take(k) =~= names.take(k));
        assert(slots.drop_last().take(k) =~= slots.take(k));
        assert(names.drop_last().skip(k) =~= names.skip(k).drop_last());
        assert(slots.drop_last().skip(k) =~= slots.skip(k).drop_last());
        assert(names.skip(k).last() == names.last());
        assert(slots.skip(k).last() == slots.last());
        let tail = entries(names.skip(k).drop_last(), slots.skip(k).drop_last());
        match slots.last() {
            Some(value) => {
                assert((head + tail).push(entry(names.last(), value)) =~= head + tail.push(
                    entry(names.last(), value),
                ));
            },
            None => {},
        }
    }
}

/// The entry of an attribute that is set stands between the entries of the
/// attributes before it and the entries of the attributes behind it.
pub proof fn lemma_entries_around(names: Seq<Seq<char>>, slots: Seq<Option<AttrValue>>, i: int)
    requires
        names.len() == slots.len(),
        0 <= i < slots.len(),
        slots[i] is Some,
    ensures
        entries(names, slots) == entries(names.take(i), slots.take(i)).push(
            entry(names[i], slots[i]->0),
        ) + entries(names.skip(i + 1), slots.skip(i + 1)),
{
    lemma_entries_split(names, slots, i + 1);
    lemma_entries_push(names.take(i), slots.take(i), names[i], slots[i]);
    assert(names.take(i).push(names[i]) =~= names.take(i + 1));
    assert(slots.take(i).push(slots[i]) =~= slots.take(i + 1));
}

/// One more part with its lead.
pub proof fn lemma_led_push(parts: Seq<Seq<char>>, lead: Seq<char>, part: Seq<char>)
    ensures
        led(parts.push(part), lead) == led(parts, lead) + lead + part,
{
    assert(parts.push(part).drop_last() =~= parts);
}

/// Leading a list that is made of two lists.
pub proof fn lemma_led_concat(first: Seq<Seq<char>>, second: Seq<Seq<char>>, lead: Seq<char>)
    ensures
        led(first + second, lead) == led(first, lead) + led(second, lead),
    decreases second.len(),
{
    if second.len() == 0 {
        assert(first + second =~= first);
        assert(led(first, lead) + led(second, lead) =~= led(first, lead));
    } else {
        assert((first + second).drop_last() =~= first + second.drop_last());
        lemma_led_concat(first, second.drop_last(), lead);
        assert(led(first + second, lead) =~= led(first, lead) + led(second, lead));
    }
}

/// The entry of an attribute: its name, a colon and the value as `markup` has
/// it.
pub fn entry_string(name: &str, markup: &str) -> (out: String)
    ensures
        out@ == name@ + ": "@ + markup@,
{
    let mut out = String::new();
    out.append(name);
    out.append(": ");
    out.append(markup);
    assert(out@ =~= name@ + ": "@ + markup@);
    out
}

/// A text as a quoted string.
pub fn quoted_string(text: &str) -> (out: String)
    ensures
        out@ == quoted(text@),
{
    let mut out = String::new();
    push_quoted(&mut out, text);
    assert(out@ =~= quoted(text@));
    out
}

/// Appends every part to `out`, each with `lead` in front of it.
pub fn push_led(out: &mut String, parts: &Vec<String>, lead: &str)
    ensures
        final(out)@ == old(out)@ + led(texts(parts@), lead@),
{
    let mut i: usize = 0;
    assert(out@ =~= old(out)@ + led(texts(parts@).take(0), lead@));
    while i < parts.len()
        invariant
            i <= parts.len(),
            out@ == old(out)@ + led(texts(parts@).take(i as int), lead@),
        decreases parts.len() - i,
    {
        proof {
            let all = texts(parts@);
            lemma_led_push(all.take(i as int), lead@, all[i as int]);
            assert(all.take(i as int).push(all[i as int]) =~= all.take(i + 1));
        }
        out.append(lead);
        out.append(parts[i].as_str());
        i = i + 1;
    }
    assert(texts(parts@).take(i as int) =~= texts(parts@));
}

} // verus!
