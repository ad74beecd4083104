//! Character-level helpers shared by the renderers: white space, trimming,
//! joining and decimal digits, each with its meaning as a function on
//! sequences of characters.

use vstd::prelude::*;

verus! {

/// `String::push` appends one character to the end of the string.
pub assume_specification[ String::push ](s: &mut String, c: char)
    ensures
        final(s)@ == old(s)@.push(c),
;

/// Whether `c` has the Unicode property `White_Space`.
pub open spec fn is_white_space(c: char) -> bool {
    ||| ('\u{9}' <= c && c <= '\u{d}')
    ||| c == ' '
    ||| c == '\u{85}'
    ||| c == '\u{a0}'
    ||| c == '\u{1680}'
    ||| ('\u{2000}' <= c && c <= '\u{200a}')
    ||| c == '\u{2028}'
    ||| c == '\u{2029}'
    ||| c == '\u{202f}'
    ||| c == '\u{205f}'
    ||| c == '\u{3000}'
}

/// `s` without its leading white space.
pub open spec fn trimmed_start(s: Seq<char>) -> Seq<char>
    decreases s.len(),
{
    if s.len() > 0 && is_white_space(s.first()) {
        trimmed_start(s.drop_first())
    } else {
        s
    }
}

/// `s` without its trailing white space.
pub open spec fn trimmed_end(s: Seq<char>) -> Seq<char>
    decreases s.len(),
{
    if s.len() > 0 && is_white_space(s.last()) {
        trimmed_end(s.drop_last())
    } else {
        s
    }
}

/// `s` without its leading and trailing white space.
pub open spec fn trimmed(s: Seq<char>) -> Seq<char> {
    trimmed_end(trimmed_start(s))
}

/// The words of `s`: its longest runs of characters that are not white space.
pub open spec fn words(s: Seq<char>) -> Seq<Seq<char>>
    decreases s.len(),
{
    if s.len() == 0 {
        Seq::empty()
    } else {
        let before = s.drop_last();
        let found = words(before);
        let c = s.last();
        if is_white_space(c) {
            found
        } else if before.len() > 0 && !is_white_space(before.last()) {
            found.drop_last().push(found.last().push(c))
        } else {
            found.push(seq![c])
        }
    }
}

/// The parts in order, with `sep` between each two neighbours.
pub open spec fn joined(parts: Seq<Seq<char>>, sep: Seq<char>) -> Seq<char>
    decreases parts.len(),
{
    if parts.len() == 0 {
        Seq::empty()
    } else if parts.len() == 1 {
        parts[0]
    } else {
        joined(parts.drop_last(), sep) + sep + parts.last()
    }
}

/// The contents of a list of strings.
pub open spec fn texts(items: Seq<String>) -> Seq<Seq<char>> {
    Seq::new(items.len(), |i: int| items[i]@)
}

/// The contents of a list of string slices.
pub open spec fn slice_texts(items: Seq<&str>) -> Seq<Seq<char>> {
    Seq::new(items.len(), |i: int| items[i]@)
}

/// The contents of a list of rows of strings.
pub open spec fn text_rows(rows: Seq<Vec<String>>) -> Seq<Seq<Seq<char>>> {
    Seq::new(rows.len(), |i: int| texts(rows[i]@))
}

/// Every item trimmed.
pub open spec fn trimmed_all(items: Seq<Seq<char>>) -> Seq<Seq<char>> {
    Seq::new(items.len(), |i: int| trimmed(items[i]))
}

/// `c` repeated `n` times.
pub open spec fn repeated(c: char, n: nat) -> Seq<char> {
    Seq::new(n, |i: int| c)
}

/// The character of the decimal digit `d`.
pub open spec fn digit(d: nat) -> char
    recommends
        d < 10,
{
    if d == 0 {
        '0'
    } else if d == 1 {
        '1'
    } else if d == 2 {
        '2'
    } else if d == 3 {
        '3'
    } else if d == 4 {
        '4'
    } else if d == 5 {
        '5'
    } else if d == 6 {
        '6'
    } else if d == 7 {
        '7'
    } else if d == 8 {
        '8'
    } else {
        '9'
    }
}

/// `n` written in decimal, without leading zeros.
pub open spec fn decimal(n: nat) -> Seq<char>
    decreases n,
{
    if n < 10 {
        seq![digit(n)]
    } else {
        decimal(n / 10).push(digit(n % 10))
    }
}

/// When the first `k` characters are white space and the next one, if any, is
/// not, trimming the start skips exactly those `k`.
pub proof fn lemma_trimmed_start_skips(s: Seq<char>, k: int)
    requires
        0 <= k <= s.len(),
        forall|i: int| 0 <= i < k ==> is_white_space(#[trigger] s[i]),
        k < s.len() ==> !is_white_space(s[k]),
    ensures
        trimmed_start(s) == s.skip(k),
    decreases k,
{
    if k == 0 {
        assert(s.skip(0) =~= s);
    } else {
        let rest = s.drop_first();
        assert forall|i: int| 0 <= i < k - 1 implies is_white_space(#[trigger] rest[i]) by {
            assert(rest[i] == s[i + 1]);
        }
        lemma_trimmed_start_skips(rest, k - 1);
        assert(rest.skip(k - 1) =~= s.skip(k));
    }
}

/// When everything from position `k` on is white space and the character
/// before it, if any, is not, trimming the end keeps exactly the first `k`.
pub proof fn lemma_trimmed_end_takes(s: Seq<char>, k: int)
    requires
        0 <= k <= s.len(),
        forall|i: int| k <= i < s.len() ==> is_white_space(#[trigger] s[i]),
        0 < k ==> !is_white_space(s[k - 1]),
    ensures
        trimmed_end(s) == s.take(k),
    decreases s.len() - k,
{
    if k == s.len() {
        assert(s.take(k) =~= s);
    } else {
        let rest = s.drop_last();
        assert forall|i: int| k <= i < rest.len() implies is_white_space(#[trigger] rest[i]) by {
            assert(rest[i] == s[i]);
        }
        lemma_trimmed_end_takes(rest, k);
        assert(rest.take(k) =~= s.take(k));
    }
}

/// Joining one more part adds the separator and the part, unless it is the
/// first.
pub proof fn lemma_joined_push(parts: Seq<Seq<char>>, sep: Seq<char>, part: Seq<char>)
    ensures
        joined(parts.push(part), sep) == if parts.len() == 0 {
            part
        } else {
            joined(parts, sep) + sep + part
        },
{
    assert(parts.push(part).drop_last() =~= parts);
}

/// A text has at most as many characters as its UTF-8 encoding has bytes.
pub proof fn lemma_chars_within_bytes(chars: Seq<char>)
    ensures
        chars.len() <= vstd::utf8::encode_utf8(chars).len(),
    decreases chars.len(),
{
    if chars.len() > 0 {
        lemma_chars_within_bytes(chars.drop_first());
    }
}

/// Looks at the length of `s` in bytes, which bounds its length in
/// characters.
fn bound_length(s: &str)
    ensures
        s@.len() <= usize::MAX,
{
    let _byte_count: usize = s.as_bytes().len();
    proof {
        lemma_chars_within_bytes(s@);
    }
}

/// Whether `c` is white space, as `char::is_whitespace` has it.
pub fn is_whitespace(c: char) -> (b: bool)
    ensures
        b == is_white_space(c),
{
    ('\u{9}' <= c && c <= '\u{d}') || c == ' ' || c == '\u{85}' || c == '\u{a0}' || c
        == '\u{1680}' || ('\u{2000}' <= c && c <= '\u{200a}') || c == '\u{2028}' || c == '\u{2029}'
        || c == '\u{202f}' || c == '\u{205f}' || c == '\u{3000}'
}

/// The part of `s` between its leading and its trailing white space.
pub fn trim(s: &str) -> (r: &str)
    ensures
        r@ == trimmed(s@),
{
    broadcast use vstd::string::axiom_spec_iter;

    bound_length(s);
    let mut start: Option<usize> = None;
    let mut end: usize = 0;
    let mut pos: usize = 0;
    let chars = s.chars();
    for c in it: chars
        invariant
            it.seq() == s@,
            pos == it.index(),
            s@.len() <= usize::MAX,
            end <= pos,
            forall|i: int| end <= i < pos ==> is_white_space(#[trigger] s@[i]),
            match start {
                None => end == 0,
                Some(first) => {
                    &&& first < end
                    &&& !is_white_space(s@[first as int])
                    &&& !is_white_space(s@[end - 1])
                    &&& forall|i: int| 0 <= i < first ==> is_white_space(#[trigger] s@[i])
                },
            },
    {
        if !is_whitespace(c) {
            if start.is_none() {
                start = Some(pos);
            }
            end = pos + 1;
        }
        pos = pos + 1;
    }
    match start {
        None => {
            proof {
                lemma_trimmed_start_skips(s@, s@.len() as int);
                assert(s@.skip(s@.len() as int) =~= s@.subrange(0, 0));
            }
            s.substring_char(0, 0)
        },
        Some(first) => {
            proof {
                lemma_trimmed_start_skips(s@, first as int);
                let rest = s@.skip(first as int);
                assert forall|i: int| end - first <= i < rest.len() implies is_white_space(
                    #[trigger] rest[i],
                ) by {
                    assert(rest[i] == s@[i + first]);
                }
                assert(rest[end - first - 1] == s@[end - 1]);
                lemma_trimmed_end_takes(rest, end - first);
                assert(rest.take(end - first) =~= s@.subrange(first as int, end as int));
            }
            s.substring_char(first, end)
        },
    }
}

/// The part of `s` before its trailing white space.
pub fn trim_end(s: &str) -> (r: &str)
    ensures
        r@ == trimmed_end(s@),
{
    broadcast use vstd::string::axiom_spec_iter;

    bound_length(s);
    let mut end: usize = 0;
    let mut pos: usize = 0;
    let chars = s.chars();
    for c in it: chars
        invariant
            it.seq() == s@,
            pos == it.index(),
            s@.len() <= usize::MAX,
            end <= pos,
            forall|i: int| end <= i < pos ==> is_white_space(#[trigger] s@[i]),
            0 < end ==> !is_white_space(s@[end - 1]),
    {
        if !is_whitespace(c) {
            end = pos + 1;
        }
        pos = pos + 1;
    }
    proof {
        lemma_trimmed_end_takes(s@, end as int);
        assert(s@.take(end as int) =~= s@.subrange(0, end as int));
    }
    s.substring_char(0, end)
}

/// The words of `input`, as `str::split_whitespace` gives them.
pub fn split_whitespace(input: &str) -> (out: Vec<String>)
    ensures
        texts(out@) == words(input@),
{
    broadcast use vstd::string::axiom_spec_iter;

    let mut out: Vec<String> = Vec::new();
    let mut current = String::new();
    let mut in_word = false;
    let chars = input.chars();
    assert(texts(out@) =~= words(input@.take(0)));
    for c in it: chars
        invariant
            it.seq() == input@,
            in_word <==> it.index() > 0 && !is_white_space(input@[it.index() - 1]),
            !in_word ==> current@.len() == 0 && texts(out@) == words(input@.take(it.index())),
            in_word ==> texts(out@).push(current@) == words(input@.take(it.index())),
    {
        let ghost before = input@.take(it.index());
        let ghost done = texts(out@);
        proof {
            assert(input@.take(it.index() + 1).drop_last() =~= before);
            if it.index() > 0 {
                assert(before.last() == input@[it.index() - 1]);
            }
            if in_word {
                assert(done.push(current@).drop_last() =~= done);
            }
        }
        if is_whitespace(c) {
            if in_word {
                out.push(current);
                current = String::new();
                assert(texts(out@) =~= done.push(out@.last()@));
            }
            in_word = false;
        } else {
            current.push(c);
            if !in_word {
                assert(current@ =~= seq![c]);
            }
            in_word = true;
        }
    }
    assert(input@.take(input@.len() as int) =~= input@);
    if in_word {
        let ghost done = texts(out@);
        out.push(current);
        assert(texts(out@) =~= done.push(out@.last()@));
    }
    out
}

/// Whether two strings hold the same text.
pub fn same_text(a: &str, b: &str) -> (same: bool)
    ensures
        same == (a@ == b@),
{
    broadcast use vstd::utf8::encode_utf8_decode_utf8;

    let left = a.as_bytes();
    let right = b.as_bytes();
    if left.len() != right.len() {
        return false;
    }
    let mut i: usize = 0;
    while i < left.len()
        invariant
            i <= left.len(),
            left.len() == right.len(),
            left@ == vstd::utf8::encode_utf8(a@),
            right@ == vstd::utf8::encode_utf8(b@),
            forall|k: int| 0 <= k < i ==> left@[k] == right@[k],
        decreases left.len() - i,
    {
        if left[i] != right[i] {
            return false;
        }
        i = i + 1;
    }
    assert(left@ =~= right@);
    assert(vstd::utf8::decode_utf8(vstd::utf8::encode_utf8(a@)) == a@);
    assert(vstd::utf8::decode_utf8(vstd::utf8::encode_utf8(b@)) == b@);
    true
}

/// Appends `c` to `out` `count` times.
pub fn push_repeated(out: &mut String, c: char, count: usize)
    ensures
        final(out)@ == old(out)@ + repeated(c, count as nat),
{
    let mut done: usize = 0;
    assert(out@ + repeated(c, 0) =~= out@);
    while done < count
        invariant
            done <= count,
            out@ == old(out)@ + repeated(c, done as nat),
        decreases count - done,
    {
        out.push(c);
        done = done + 1;
        assert(old(out)@ + repeated(c, done as nat) =~= (old(out)@ + repeated(
            c,
            (done - 1) as nat,
        )).push(c));
    }
}

/// The strings of `parts` in order, with `sep` between each two neighbours.
pub fn join(parts: &Vec<String>, sep: &str) -> (out: String)
    ensures
        out@ == joined(texts(parts@), sep@),
{
    let mut out = String::new();
    let mut i: usize = 0;
    while i < parts.len()
        invariant
            i <= parts.len(),
            out@ == joined(texts(parts@).take(i as int), sep@),
        decreases parts.len() - i,
    {
        proof {
            let all = texts(parts@);
            lemma_joined_push(all.take(i as int), sep@, all[i as int]);
            assert(all.take(i as int).push(all[i as int]) =~= all.take(i + 1));
        }
        if i > 0 {
            out.append(sep);
        }
        out.append(parts[i].as_str());
        i = i + 1;
        assert(out@ =~= joined(texts(parts@).take(i as int), sep@));
    }
    assert(texts(parts@).take(i as int) =~= texts(parts@));
    out
}

/// Copies a list of string slices into owned strings.
pub fn owned_items(items: &[&str]) -> (out: Vec<String>)
    ensures
        texts(out@) == slice_texts(items@),
{
    let mut out: Vec<String> = Vec::new();
    let mut i: usize = 0;
    while i < items.len()
        invariant
            i <= items.len(),
            texts(out@) == slice_texts(items@).take(i as int),
        decreases items.len() - i,
    {
        let ghost before = texts(out@);
        out.push(items[i].to_owned());
        i = i + 1;
        assert(texts(out@) =~= before.push(items@[i - 1]@));
        assert(texts(out@) =~= slice_texts(items@).take(i as int));
    }
    assert(slice_texts(items@).take(items.len() as int) =~= slice_texts(items@));
    out
}

/// The character of the decimal digit `d`.
fn digit_char(d: u8) -> (c: char)
    requires
        d < 10,
    ensures
        c == digit(d as nat),
{
    if d == 0 {
        '0'
    } else if d == 1 {
        '1'
    } else if d == 2 {
        '2'
    } else if d == 3 {
        '3'
    } else if d == 4 {
        '4'
    } else if d == 5 {
        '5'
    } else if d == 6 {
        '6'
    } else if d == 7 {
        '7'
    } else if d == 8 {
        '8'
    } else {
        '9'
    }
}

/// `n` written in decimal.
pub fn decimal_string(n: u64) -> (out: String)
    ensures
        out@ == decimal(n as nat),
{
    let mut low: Vec<char> = Vec::new();
    low.push(digit_char((n % 10) as u8));
    let mut rest: u64 = n / 10;
    assert(decimal(n as nat) =~= if rest > 0 {
        decimal(rest as nat) + low@.reverse()
    } else {
        low@.reverse()
    });
    while rest > 0
        invariant
            low@.len() > 0,
            decimal(n as nat) == if rest > 0 {
                decimal(rest as nat) + low@.reverse()
            } else {
                low@.reverse()
            },
        decreases rest,
    {
        let ghost tail = low@.reverse();
        let ghost shown = rest;
        low.push(digit_char((rest % 10) as u8));
        rest = rest / 10;
        assert(low@.reverse() =~= seq![digit((shown % 10) as nat)] + tail);
        assert(decimal(shown as nat) =~= if rest > 0 {
            decimal(rest as nat).push(digit((shown % 10) as nat))
        } else {
            seq![digit((shown % 10) as nat)]
        });
        assert(decimal(n as nat) =~= if rest > 0 {
            decimal(rest as nat) + low@.reverse()
        } else {
            low@.reverse()
        });
    }
    let mut out = String::new();
    let mut left: usize = low.len();
    assert(out@ =~= low@.reverse().take(0));
    while left > 0
        invariant
            left <= low.len(),
            out@ == low@.reverse().take(low.len() - left),
        decreases left,
    {
        left = left - 1;
        out.push(low[left]);
        assert(out@ =~= low@.reverse().take(low.len() - left));
    }
    assert(low@.reverse().take(low.len() as int) =~= low@.reverse());
    out
}

} // verus!
