//! Names of the files that a report is written to, derived from its title.

use crate::strings::{joined, lemma_joined_push};
use vstd::prelude::*;

verus! {

/// Whether `c` is an ASCII letter or digit.
pub open spec fn is_alphanumeric(c: char) -> bool {
    ('0' <= c && c <= '9') || ('a' <= c && c <= 'z') || ('A' <= c && c <= 'Z')
}

/// `c` in lower case where it is an ASCII capital letter, else `c` itself.
pub open spec fn lowercase(c: char) -> char {
    if 'A' <= c && c <= 'Z' {
        ((c as u8) + 32) as char
    } else {
        c
    }
}

/// The words of a title: its longest runs of ASCII letters and digits, in
/// lower case.  Every other character only parts two words.
pub open spec fn stem_words(title: Seq<char>) -> Seq<Seq<char>>
    decreases title.len(),
{
    if title.len() == 0 {
        Seq::empty()
    } else {
        let before = title.drop_last();
        let words = stem_words(before);
        let c = title.last();
        if !is_alphanumeric(c) {
            words
        } else if before.len() > 0 && is_alphanumeric(before.last()) {
            words.drop_last().push(words.last().push(lowercase(c)))
        } else {
            words.push(seq![lowercase(c)])
        }
    }
}

/// The file stem for a title: its words with one underscore between each
/// two, or `report` when the title has no word.
pub open spec fn stem(title: Seq<char>) -> Seq<char> {
    let words = stem_words(title);
    if words.len() == 0 {
        "report"@
    } else {
        joined(words, "_"@)
    }
}

/// A title that ends in a letter or digit has at least one word, and no word
/// is empty.
pub proof fn lemma_stem_words(title: Seq<char>)
    ensures
        title.len() > 0 && is_alphanumeric(title.last()) ==> stem_words(title).len() > 0,
        forall|i: int| 0 <= i < stem_words(title).len() ==> (#[trigger] stem_words(title)[i]).len() > 0,
    decreases title.len(),
{
    if title.len() > 0 {
        lemma_stem_words(title.drop_last());
    }
}

/// A title without any ASCII letter or digit, the empty title among them,
/// gets the stem `report`.
pub proof fn lemma_stem_without_words(title: Seq<char>)
    requires
        forall|i: int| 0 <= i < title.len() ==> !is_alphanumeric(#[trigger] title[i]),
    ensures
        stem_words(title).len() == 0,
        stem(title) == "report"@,
    decreases title.len(),
{
    if title.len() > 0 {
        let before = title.drop_last();
        assert forall|i: int| 0 <= i < before.len() implies !is_alphanumeric(
            #[trigger] before[i],
        ) by {
            assert(before[i] == title[i]);
        }
        lemma_stem_without_words(before);
    }
}

/// Whether `c` is a character that a stem holds besides the underscore: an
/// ASCII digit or small letter.
pub open spec fn is_stem_char(c: char) -> bool {
    ('0' <= c && c <= '9') || ('a' <= c && c <= 'z')
}

/// Whether `word` is a word of a stem: not empty, digits and small letters
/// only.
pub open spec fn is_stem_word(word: Seq<char>) -> bool {
    word.len() > 0 && forall|i: int| 0 <= i < word.len() ==> is_stem_char(#[trigger] word[i])
}

/// Every word of a title is a word of a stem.
pub proof fn lemma_stem_words_are_clean(title: Seq<char>)
    ensures
        forall|i: int|
            0 <= i < stem_words(title).len() ==> is_stem_word(#[trigger] stem_words(title)[i]),
    decreases title.len(),
{
    if title.len() > 0 {
        let before = title.drop_last();
        lemma_stem_words_are_clean(before);
        lemma_stem_words(before);
        let c = title.last();
        if is_alphanumeric(c) {
            assert(is_stem_char(lowercase(c)));
            let found = stem_words(before);
            if before.len() > 0 && is_alphanumeric(before.last()) {
                let longer = found.last().push(lowercase(c));
                assert(is_stem_word(found.last()));
                assert forall|i: int| 0 <= i < longer.len() implies is_stem_char(
                    #[trigger] longer[i],
                ) by {
                    if i < found.last().len() {
                        assert(longer[i] == found.last()[i]);
                    }
                }
                assert(is_stem_word(longer));
            } else {
                assert(is_stem_word(seq![lowercase(c)]));
            }
        }
    }
}

/// A word of a stem behind a text that does not end in a letter or digit is
/// one more word of that text.
proof fn lemma_stem_words_append(front: Seq<char>, word: Seq<char>)
    requires
        front.len() == 0 || !is_alphanumeric(front.last()),
        is_stem_word(word),
    ensures
        stem_words(front + word) == stem_words(front).push(word),
    decreases word.len(),
{
    let c = word.last();
    let shorter = word.drop_last();
    assert((front + word).drop_last() =~= front + shorter);
    assert(is_stem_char(c));
    assert(lowercase(c) == c);
    if shorter.len() == 0 {
        assert(front + shorter =~= front);
        assert(seq![c] =~= word);
    } else {
        assert forall|i: int| 0 <= i < shorter.len() implies is_stem_char(
            #[trigger] shorter[i],
        ) by {
            assert(shorter[i] == word[i]);
        }
        lemma_stem_words_append(front, shorter);
        assert((front + shorter).last() == shorter.last());
        assert(is_stem_char(shorter.last()));
        assert(stem_words(front).push(shorter).drop_last() =~= stem_words(front));
        assert(shorter.push(c) =~= word);
    }
}

/// The words of a stem that was joined from words are those words.
proof fn lemma_stem_words_of_joined(found: Seq<Seq<char>>)
    requires
        found.len() > 0,
        forall|i: int| 0 <= i < found.len() ==> is_stem_word(#[trigger] found[i]),
    ensures
        stem_words(joined(found, seq!['_'])) == found,
    decreases found.len(),
{
    let sep = seq!['_'];
    if found.len() == 1 {
        lemma_stem_words_append(Seq::empty(), found[0]);
        assert(Seq::<char>::empty() + found[0] =~= found[0]);
        assert(Seq::<Seq<char>>::empty().push(found[0]) =~= found);
    } else {
        let front = found.drop_last();
        assert forall|i: int| 0 <= i < front.len() implies is_stem_word(#[trigger] front[i]) by {
            assert(front[i] == found[i]);
        }
        lemma_stem_words_of_joined(front);
        let lead = joined(front, sep) + sep;
        assert(lead.last() == '_');
        assert(lead.drop_last() =~= joined(front, sep));
        assert(stem_words(lead) == front);
        lemma_stem_words_append(lead, found.last());
        assert(front.push(found.last()) =~= found);
    }
}

/// Taking the stem of a stem changes nothing.
pub proof fn lemma_stem_idempotent(title: Seq<char>)
    ensures
        stem(stem(title)) == stem(title),
{
    reveal_strlit("_");
    assert("_"@ =~= seq!['_']);
    let found = stem_words(title);
    if found.len() == 0 {
        reveal_strlit("report");
        let word = "report"@;
        assert(word =~= seq!['r', 'e', 'p', 'o', 'r', 't']);
        assert(is_stem_word(word));
        lemma_stem_words_append(Seq::empty(), word);
        assert(Seq::<char>::empty() + word =~= word);
        assert(stem_words(word) =~= seq![word]);
        assert(joined(seq![word], "_"@) == word);
    } else {
        lemma_stem_words_are_clean(title);
        lemma_stem_words_of_joined(found);
    }
}

/// Joining after the last word got one more character.
proof fn lemma_joined_extend(words: Seq<Seq<char>>, sep: Seq<char>, c: char)
    requires
        words.len() > 0,
    ensures
        joined(words.drop_last().push(words.last().push(c)), sep) == joined(words, sep).push(c),
{
    let front = words.drop_last();
    lemma_joined_push(front, sep, words.last().push(c));
    lemma_joined_push(front, sep, words.last());
    assert(front.push(words.last()) =~= words);
    if front.len() > 0 {
        assert(joined(front, sep) + sep + words.last().push(c) =~= (joined(front, sep) + sep
            + words.last()).push(c));
    }
}

/// Whether `c` is an ASCII letter or digit.
fn is_ascii_alphanumeric(c: char) -> (b: bool)
    ensures
        b == is_alphanumeric(c),
{
    ('0' <= c && c <= '9') || ('a' <= c && c <= 'z') || ('A' <= c && c <= 'Z')
}

/// `c` in lower case where it is an ASCII capital letter.
fn to_ascii_lowercase(c: char) -> (lower: char)
    ensures
        lower == lowercase(c),
{
    if 'A' <= c && c <= 'Z' {
        ((c as u8) + 32) as char
    } else {
        c
    }
}

/// The file stem for `title`: its ASCII letters and digits in lower case,
/// every run of other characters as one underscore, no underscore at either
/// end, and `report` when nothing is left.
pub fn normalized_stem(title: &str) -> (out: String)
    ensures
        out@ == stem(title@),
{
    broadcast use vstd::string::axiom_spec_iter;

    let mut out = String::new();
    let mut in_word = false;
    let mut any = false;
    let chars = title.chars();
    for c in it: chars
        invariant
            it.seq() == title@,
            any <==> stem_words(title@.take(it.index())).len() > 0,
            in_word <==> it.index() > 0 && is_alphanumeric(title@[it.index() - 1]),
            out@ == joined(stem_words(title@.take(it.index())), "_"@),
    {
        proof {
            let k = it.index();
            let before = title@.take(k);
            let now = title@.take(k + 1);
            assert(now.drop_last() =~= before);
            assert(now.last() == c);
            if k > 0 {
                assert(before.last() == title@[k - 1]);
            }
            lemma_stem_words(before);
            lemma_joined_push(stem_words(before), "_"@, seq![lowercase(c)]);
            if stem_words(before).len() > 0 {
                lemma_joined_extend(stem_words(before), "_"@, lowercase(c));
            }
            reveal_strlit("_");
            assert("_"@ =~= seq!['_']);
        }
        if is_ascii_alphanumeric(c) {
            if !in_word && any {
                out.push('_');
            }
            out.push(to_ascii_lowercase(c));
            in_word = true;
            any = true;
            assert(out@ =~= joined(stem_words(title@.take(it.index() + 1)), "_"@));
        } else {
            in_word = false;
        }
    }
    assert(title@.take(title@.len() as int) =~= title@);
    if any {
        out
    } else {
        "report".to_owned()
    }
}

/// The name of the markup file for a report with the given title.
pub fn typst_file_name(title: &str) -> (name: String)
    ensures
        name@ == stem(title@) + ".typ"@,
{
    let mut name = normalized_stem(title);
    name.append(".typ");
    name
}

/// The name of the PDF file for a report with the given title.
pub fn pdf_file_name(title: &str) -> (name: String)
    ensures
        name@ == stem(title@) + ".pdf"@,
{
    let mut name = normalized_stem(title);
    name.append(".pdf");
    name
}

} // verus!
