//! Escaping of text that is placed inside quoted strings and captions.

use vstd::prelude::*;

verus! {

/// `s` with every occurrence of `from` replaced by `to`.
pub open spec fn replaced(s: Seq<char>, from: char, to: Seq<char>) -> Seq<char>
    decreases s.len(),
{
    if s.len() == 0 {
        s
    } else {
        replacement(s.first(), from, to) + replaced(s.drop_first(), from, to)
    }
}

/// What stands for the single character `c` after replacing `from` by `to`.
pub open spec fn replacement(c: char, from: char, to: Seq<char>) -> Seq<char> {
    if c == from {
        to
    } else {
        seq![c]
    }
}

/// `s` escaped for a quoted string: first every backslash is doubled, then
/// every double quote gets a backslash in front of it.
pub open spec fn escaped(s: Seq<char>) -> Seq<char> {
    replaced(replaced(s, '\\', seq!['\\', '\\']), '"', seq!['\\', '"'])
}

/// `s` as a quoted string: escaped, between double quotes.
pub open spec fn quoted(s: Seq<char>) -> Seq<char> {
    seq!['"'] + escaped(s) + seq!['"']
}

/// `s` escaped for a caption: first every backslash is doubled, then every
/// opening and every closing square bracket gets a backslash in front of it.
pub open spec fn caption_escaped(s: Seq<char>) -> Seq<char> {
    replaced(
        replaced(replaced(s, '\\', seq!['\\', '\\']), '[', seq!['\\', '[']),
        ']',
        seq!['\\', ']'],
    )
}

/// `s` read from the left, with every pair `first`, `second` that is met
/// replaced by the single character `to`.
pub open spec fn collapsed(s: Seq<char>, first: char, second: char, to: char) -> Seq<char>
    decreases s.len(),
{
    if s.len() < 2 {
        s
    } else if s[0] == first && s[1] == second {
        seq![to] + collapsed(s.skip(2), first, second, to)
    } else {
        seq![s[0]] + collapsed(s.skip(1), first, second, to)
    }
}

/// The two replacements of `escaped` undone, the later one first: every
/// backslash with a double quote behind it becomes a double quote, then every
/// two backslashes become one.
pub open spec fn unescaped(s: Seq<char>) -> Seq<char> {
    collapsed(collapsed(s, '\\', '"', '"'), '\\', '\\', '\\')
}

/// What stands for the single character `c` in an escaped text.
pub open spec fn escaped_char(c: char) -> Seq<char> {
    if c == '\\' {
        seq!['\\', '\\']
    } else if c == '"' {
        seq!['\\', '"']
    } else {
        seq![c]
    }
}

/// Whether `s` can stand between the double quotes of a string: read from
/// the left, every backslash takes the character behind it with it, and no
/// double quote stands alone.
pub open spec fn is_string_body(s: Seq<char>) -> bool
    decreases s.len(),
{
    if s.len() == 0 {
        true
    } else if s[0] == '\\' {
        s.len() >= 2 && is_string_body(s.skip(2))
    } else if s[0] == '"' {
        false
    } else {
        is_string_body(s.skip(1))
    }
}

/// What stands for the single character `c` in an escaped caption.
pub open spec fn caption_char(c: char) -> Seq<char> {
    if c == '\\' || c == '[' || c == ']' {
        seq!['\\', c]
    } else {
        seq![c]
    }
}

/// Whether `s` can stand between the square brackets of a caption: read from
/// the left, every backslash takes the character behind it with it, and no
/// square bracket stands alone.
pub open spec fn is_caption_body(s: Seq<char>) -> bool
    decreases s.len(),
{
    if s.len() == 0 {
        true
    } else if s[0] == '\\' {
        s.len() >= 2 && is_caption_body(s.skip(2))
    } else if s[0] == '[' || s[0] == ']' {
        false
    } else {
        is_caption_body(s.skip(1))
    }
}

/// The three replacements of `caption_escaped` undone, the latest one first.
pub open spec fn caption_unescaped(s: Seq<char>) -> Seq<char> {
    collapsed(collapsed(collapsed(s, '\\', ']', ']'), '\\', '[', '['), '\\', '\\', '\\')
}

/// Replacing in a text with one more character at its end.
pub proof fn lemma_replaced_push(s: Seq<char>, c: char, from: char, to: Seq<char>)
    ensures
        replaced(s.push(c), from, to) == replaced(s, from, to) + replacement(c, from, to),
    decreases s.len(),
{
    if s.len() == 0 {
        assert(s.push(c).drop_first() =~= s);
        assert(replaced(s.push(c), from, to) =~= replacement(c, from, to));
        assert(replaced(s, from, to) + replacement(c, from, to) =~= replacement(c, from, to));
    } else {
        assert(s.push(c).drop_first() =~= s.drop_first().push(c));
        lemma_replaced_push(s.drop_first(), c, from, to);
        assert(replaced(s.push(c), from, to) =~= replaced(s, from, to) + replacement(
            c,
            from,
            to,
        ));
    }
}

/// A replacement never starts with `from` when `to` does not.
proof fn lemma_replaced_first(s: Seq<char>, from: char, to: Seq<char>)
    requires
        to.len() > 0,
        to[0] != from,
    ensures
        s.len() > 0 ==> replaced(s, from, to).len() > 0 && replaced(s, from, to)[0] != from,
{
}

/// Putting `lead` in front of every `mark` and then collapsing every pair
/// `lead`, `mark` back to `mark` gives the text that one started with.
proof fn lemma_collapse_undoes_marking(s: Seq<char>, lead: char, mark: char)
    requires
        lead != mark,
    ensures
        collapsed(replaced(s, mark, seq![lead, mark]), lead, mark, mark) == s,
    decreases s.len(),
{
    let to = seq![lead, mark];
    let out = replaced(s, mark, to);
    if s.len() > 0 {
        let rest = replaced(s.drop_first(), mark, to);
        lemma_collapse_undoes_marking(s.drop_first(), lead, mark);
        lemma_replaced_first(s.drop_first(), mark, to);
        lemma_replaced_len(s.drop_first(), mark, to);
        if s.first() == mark {
            assert(out.skip(2) =~= rest);
            assert(seq![mark] + s.drop_first() =~= s);
        } else {
            assert(out.skip(1) =~= rest);
            assert(seq![s.first()] + s.drop_first() =~= s);
            if rest.len() == 0 {
                assert(s.drop_first().len() == 0);
                assert(out =~= s);
            } else {
                assert(out[1] == rest[0]);
            }
        }
    }
}

/// Doubling every `c` and then collapsing every pair of `c` back to one gives
/// the text that one started with.
proof fn lemma_collapse_undoes_doubling(s: Seq<char>, c: char)
    ensures
        collapsed(replaced(s, c, seq![c, c]), c, c, c) == s,
    decreases s.len(),
{
    let to = seq![c, c];
    let out = replaced(s, c, to);
    if s.len() > 0 {
        let rest = replaced(s.drop_first(), c, to);
        lemma_collapse_undoes_doubling(s.drop_first(), c);
        if s.first() == c {
            assert(out.skip(2) =~= rest);
            assert(seq![c] + s.drop_first() =~= s);
        } else {
            assert(out.skip(1) =~= rest);
            assert(seq![s.first()] + s.drop_first() =~= s);
            if rest.len() == 0 {
                assert(replaced(s.drop_first(), c, to).len() == 0);
                lemma_replaced_len(s.drop_first(), c, to);
                assert(out =~= s);
            }
        }
    }
}

/// A replacement by a text that is not empty is at least as long as the
/// text it was made from.
proof fn lemma_replaced_len(s: Seq<char>, from: char, to: Seq<char>)
    requires
        to.len() > 0,
    ensures
        replaced(s, from, to).len() >= s.len(),
    decreases s.len(),
{
    if s.len() > 0 {
        lemma_replaced_len(s.drop_first(), from, to);
    }
}

/// Escaping can be undone: reversing the two replacements of `escaped`, the
/// later one first, gives back the text that was escaped, whatever it holds.
pub proof fn lemma_unescaped_escaped(s: Seq<char>)
    ensures
        unescaped(escaped(s)) == s,
{
    let doubled = replaced(s, '\\', seq!['\\', '\\']);
    lemma_collapse_undoes_marking(doubled, '\\', '"');
    lemma_collapse_undoes_doubling(s, '\\');
}

/// Replacing in a text that is made of two texts.
pub proof fn lemma_replaced_concat(a: Seq<char>, b: Seq<char>, from: char, to: Seq<char>)
    ensures
        replaced(a + b, from, to) == replaced(a, from, to) + replaced(b, from, to),
    decreases a.len(),
{
    if a.len() == 0 {
        assert(a + b =~= b);
        assert(replaced(a, from, to) + replaced(b, from, to) =~= replaced(b, from, to));
    } else {
        assert((a + b).drop_first() =~= a.drop_first() + b);
        lemma_replaced_concat(a.drop_first(), b, from, to);
        assert(replaced(a + b, from, to) =~= replaced(a, from, to) + replaced(b, from, to));
    }
}

/// Escaping works character by character: the two replacements together
/// put `escaped_char` in the place of every character.
pub proof fn lemma_escaped_by_character(s: Seq<char>)
    requires
        s.len() > 0,
    ensures
        escaped(s) == escaped_char(s.first()) + escaped(s.drop_first()),
{
    let double = seq!['\\', '\\'];
    let mark = seq!['\\', '"'];
    let head = replacement(s.first(), '\\', double);
    let tail = replaced(s.drop_first(), '\\', double);
    lemma_replaced_concat(head, tail, '"', mark);
    reveal_with_fuel(replaced, 3);
    if s.first() == '\\' {
        assert(head.drop_first() =~= seq!['\\']);
        assert(head.drop_first().drop_first() =~= Seq::<char>::empty());
        assert(replaced(head, '"', mark) =~= double);
    } else if s.first() == '"' {
        assert(head.drop_first() =~= Seq::<char>::empty());
        assert(replaced(head, '"', mark) =~= mark);
    } else {
        assert(head.drop_first() =~= Seq::<char>::empty());
        assert(replaced(head, '"', mark) =~= seq![s.first()]);
    }
}

/// An escaped text can stand between the double quotes of a string: whatever
/// the text holds, nothing in its escaped form ends the string early.
pub proof fn lemma_escaped_is_string_body(s: Seq<char>)
    ensures
        is_string_body(escaped(s)),
    decreases s.len(),
{
    if s.len() > 0 {
        lemma_escaped_by_character(s);
        lemma_escaped_is_string_body(s.drop_first());
        let rest = escaped(s.drop_first());
        let all = escaped(s);
        if s.first() == '\\' || s.first() == '"' {
            assert(all.skip(2) =~= rest);
        } else {
            assert(all.skip(1) =~= rest);
        }
    }
}

/// Caption escaping works character by character: the three replacements
/// together put `caption_char` in the place of every character.
pub proof fn lemma_caption_escaped_by_character(s: Seq<char>)
    requires
        s.len() > 0,
    ensures
        caption_escaped(s) == caption_char(s.first()) + caption_escaped(s.drop_first()),
{
    let double = seq!['\\', '\\'];
    let open = seq!['\\', '['];
    let close = seq!['\\', ']'];
    let first = replacement(s.first(), '\\', double);
    let doubled = replaced(s.drop_first(), '\\', double);
    lemma_replaced_concat(first, doubled, '[', open);
    let second = replaced(first, '[', open);
    let opened = replaced(doubled, '[', open);
    lemma_replaced_concat(second, opened, ']', close);
    reveal_with_fuel(replaced, 3);
    if s.first() == '\\' {
        assert(first.drop_first() =~= seq!['\\']);
        assert(first.drop_first().drop_first() =~= Seq::<char>::empty());
        assert(second =~= double);
        assert(replaced(second, ']', close) =~= double);
    } else if s.first() == '[' {
        assert(first.drop_first() =~= Seq::<char>::empty());
        assert(second =~= open);
        assert(second.drop_first() =~= seq!['[']);
        assert(second.drop_first().drop_first() =~= Seq::<char>::empty());
        assert(replaced(second, ']', close) =~= open);
    } else if s.first() == ']' {
        assert(first.drop_first() =~= Seq::<char>::empty());
        assert(second =~= seq![']']);
        assert(second.drop_first() =~= Seq::<char>::empty());
        assert(replaced(second, ']', close) =~= close);
    } else {
        assert(first.drop_first() =~= Seq::<char>::empty());
        assert(second =~= seq![s.first()]);
        assert(replaced(second, ']', close) =~= seq![s.first()]);
    }
}

/// An escaped caption can stand between the square brackets of a caption:
/// whatever the caption holds, no bracket of its escaped form stands alone.
pub proof fn lemma_caption_escaped_is_caption_body(s: Seq<char>)
    ensures
        is_caption_body(caption_escaped(s)),
    decreases s.len(),
{
    if s.len() > 0 {
        lemma_caption_escaped_by_character(s);
        lemma_caption_escaped_is_caption_body(s.drop_first());
        let rest = caption_escaped(s.drop_first());
        let all = caption_escaped(s);
        if s.first() == '\\' || s.first() == '[' || s.first() == ']' {
            assert(all.skip(2) =~= rest);
        } else {
            assert(all.skip(1) =~= rest);
        }
    }
}

/// Caption escaping can be undone in the same way.
pub proof fn lemma_caption_unescaped_escaped(s: Seq<char>)
    ensures
        caption_unescaped(caption_escaped(s)) == s,
{
    let doubled = replaced(s, '\\', seq!['\\', '\\']);
    let opened = replaced(doubled, '[', seq!['\\', '[']);
    lemma_collapse_undoes_marking(opened, '\\', ']');
    lemma_collapse_undoes_marking(doubled, '\\', '[');
    lemma_collapse_undoes_doubling(s, '\\');
}

/// A quoted string is the escaped text between two double quotes, and the
/// text can be had back from what stands between them.
pub proof fn lemma_quoted_round_trip(s: Seq<char>)
    ensures
        quoted(s).len() == escaped(s).len() + 2,
        quoted(s).first() == '"',
        quoted(s).last() == '"',
        unescaped(quoted(s).subrange(1, quoted(s).len() - 1)) == s,
{
    lemma_unescaped_escaped(s);
    assert(quoted(s).subrange(1, quoted(s).len() - 1) =~= escaped(s));
}

/// A copy of `value` in which every `from` is replaced by `to`.
pub fn replace_char(value: &str, from: char, to: &str) -> (out: String)
    ensures
        out@ == replaced(value@, from, to@),
{
    broadcast use vstd::string::axiom_spec_iter;

    let mut out = String::new();
    let chars = value.chars();
    for c in it: chars
        invariant
            it.seq() == value@,
            out@ == replaced(value@.take(it.index()), from, to@),
    {
        proof {
            let k = it.index();
            lemma_replaced_push(value@.take(k), c, from, to@);
            assert(value@.take(k).push(c) =~= value@.take(k + 1));
        }
        if c == from {
            out.append(to);
        } else {
            out.push(c);
        }
    }
    assert(value@.take(value@.len() as int) =~= value@);
    out
}

/// Escapes `value` for use inside a quoted string: backslashes first, then
/// double quotes.
pub fn escape_str(value: &str) -> (out: String)
    ensures
        out@ == escaped(value@),
{
    proof {
        reveal_strlit("\\\\");
        reveal_strlit("\\\"");
        assert("\\\\"@ =~= seq!['\\', '\\']);
        assert("\\\""@ =~= seq!['\\', '"']);
    }
    let doubled = replace_char(value, '\\', "\\\\");
    replace_char(doubled.as_str(), '"', "\\\"")
}

/// Escapes `caption` for use inside a caption: backslashes first, then
/// opening and closing square brackets.
pub fn escape_caption(caption: &str) -> (out: String)
    ensures
        out@ == caption_escaped(caption@),
{
    proof {
        reveal_strlit("\\\\");
        reveal_strlit("\\[");
        reveal_strlit("\\]");
        assert("\\\\"@ =~= seq!['\\', '\\']);
        assert("\\["@ =~= seq!['\\', '[']);
        assert("\\]"@ =~= seq!['\\', ']']);
    }
    let doubled = replace_char(caption, '\\', "\\\\");
    let opened = replace_char(doubled.as_str(), '[', "\\[");
    replace_char(opened.as_str(), ']', "\\]")
}

/// Appends `value` to `out` as a quoted string.
pub fn push_quoted(out: &mut String, value: &str)
    ensures
        final(out)@ == old(out)@ + quoted(value@),
{
    let inner = escape_str(value);
    out.push('"');
    out.append(inner.as_str());
    out.push('"');
    assert(out@ =~= old(out)@ + quoted(value@));
}

} // verus!
