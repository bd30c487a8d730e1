//! Turning free text into a full-text query that carries no operator of the
//! query language: only letters, digits and white space survive, and what is
//! left is matched as one quoted phrase with a prefix wildcard.

use vstd::prelude::*;
use crate::model::{note_views, Note};
use crate::text::{alphanumeric, chars_of, whitespace};

verus! {

/// Most notes that one search hands back.
pub const MAX_RESULTS: usize = 50;

/// A character that stays in a query: a letter, a digit or white space.
pub open spec fn kept(c: char) -> bool {
    alphanumeric(c) || whitespace(c)
}

/// The text with every character dropped that is not kept.
pub open spec fn cleaned(text: Seq<char>) -> Seq<char> {
    text.filter(|c: char| kept(c))
}

/// The text without the white space it begins with.
pub open spec fn trim_start(text: Seq<char>) -> Seq<char>
    decreases text.len(),
{
    if text.len() > 0 && whitespace(text.first()) {
        trim_start(text.drop_first())
    } else {
        text
    }
}

/// The text without the white space it ends with.
pub open spec fn trim_end(text: Seq<char>) -> Seq<char>
    decreases text.len(),
{
    if text.len() > 0 && whitespace(text.last()) {
        trim_end(text.drop_last())
    } else {
        text
    }
}

/// The text without white space at either end.
pub open spec fn trimmed(text: Seq<char>) -> Seq<char> {
    trim_end(trim_start(text))
}

/// Whether the text holds nothing but white space.
pub open spec fn blank(text: Seq<char>) -> bool {
    forall|i: int| 0 <= i < text.len() ==> whitespace(#[trigger] text[i])
}

/// The phrase in double quotes, followed by the prefix wildcard.
pub open spec fn quoted_prefix(phrase: Seq<char>) -> Seq<char> {
    seq!['"'] + phrase + seq!['"', '*']
}

/// The full-text query that stands for a free text: empty where nothing is
/// left of it, else what is left as a quoted phrase with a prefix wildcard.
pub open spec fn sanitized(query: Seq<char>) -> Seq<char> {
    let phrase = trimmed(cleaned(query));
    if phrase.len() == 0 {
        Seq::empty()
    } else {
        quoted_prefix(phrase)
    }
}

/// At most the first fifty of the rows, in their order.
pub open spec fn capped<T>(rows: Seq<T>) -> Seq<T> {
    if rows.len() > MAX_RESULTS {
        rows.take(MAX_RESULTS as int)
    } else {
        rows
    }
}

/// At most the first fifty of the notes, in their order.
pub fn cap_results(notes: Vec<Note>) -> (kept: Vec<Note>)
    ensures
        kept@ == capped(notes@),
        note_views(kept@) == capped(note_views(notes@)),
        kept.len() <= MAX_RESULTS,
{
    let mut kept = notes;
    if kept.len() > MAX_RESULTS {
        kept.truncate(MAX_RESULTS);
    }
    assert(note_views(kept@) =~= capped(note_views(notes@)));
    kept
}

/// A character that a search can find: alphanumeric and no white space.
pub open spec fn searchable(c: char) -> bool {
    alphanumeric(c) && !whitespace(c)
}

/// Where `trim_start` cuts: everything before the cut is white space, and
/// what follows it, if anything, does not begin with white space.
proof fn lemma_trim_start_cut(text: Seq<char>) -> (cut: int)
    ensures
        0 <= cut <= text.len(),
        trim_start(text) == text.skip(cut),
        forall|i: int| 0 <= i < cut ==> whitespace(#[trigger] text[i]),
        cut < text.len() ==> !whitespace(text[cut]),
    decreases text.len(),
{
    if text.len() > 0 && whitespace(text.first()) {
        let rest = lemma_trim_start_cut(text.drop_first());
        assert(text.drop_first().skip(rest) =~= text.skip(rest + 1));
        assert forall|i: int| 0 <= i < rest + 1 implies whitespace(#[trigger] text[i]) by {
            if i > 0 {
                assert(text[i] == text.drop_first()[i - 1]);
            }
        }
        rest + 1
    } else {
        assert(text.skip(0) =~= text);
        0
    }
}

/// Where `trim_end` cuts: everything from the cut on is white space, and
/// what stands before it, if anything, does not end with white space.
proof fn lemma_trim_end_cut(text: Seq<char>) -> (cut: int)
    ensures
        0 <= cut <= text.len(),
        trim_end(text) == text.take(cut),
        forall|i: int| cut <= i < text.len() ==> whitespace(#[trigger] text[i]),
        cut > 0 ==> !whitespace(text[cut - 1]),
    decreases text.len(),
{
    if text.len() > 0 && whitespace(text.last()) {
        let cut = lemma_trim_end_cut(text.drop_last());
        assert(text.drop_last().take(cut) =~= text.take(cut));
        assert forall|i: int| cut <= i < text.len() implies whitespace(#[trigger] text[i]) by {
            if i < text.len() - 1 {
                assert(text[i] == text.drop_last()[i]);
            }
        }
        if cut > 0 {
            assert(text[cut - 1] == text.drop_last()[cut - 1]);
        }
        cut
    } else {
        assert(text.take(text.len() as int) =~= text);
        text.len() as int
    }
}

/// Trimming cuts a text at two places: white space stands before the
/// first and from the second on, and what is between them neither begins
/// nor ends with white space.
pub proof fn lemma_trimmed_cuts(text: Seq<char>) -> (cuts: (int, int))
    ensures
        0 <= cuts.0 <= cuts.1 <= text.len(),
        trimmed(text) == text.subrange(cuts.0, cuts.1),
        forall|i: int| 0 <= i < cuts.0 ==> whitespace(#[trigger] text[i]),
        forall|i: int| cuts.1 <= i < text.len() ==> whitespace(#[trigger] text[i]),
        cuts.0 < cuts.1 ==> !whitespace(text[cuts.0]) && !whitespace(text[cuts.1 - 1]),
{
    let start = lemma_trim_start_cut(text);
    let tail = text.skip(start);
    let length = lemma_trim_end_cut(tail);
    assert(tail.take(length) =~= text.subrange(start, start + length));
    assert forall|i: int| start + length <= i < text.len() implies whitespace(
        #[trigger] text[i],
    ) by {
        assert(text[i] == tail[i - start]);
    }
    if length > 0 {
        assert(tail[length - 1] == text[start + length - 1]);
    }
    (start, start + length)
}

/// Nothing is left of a text after trimming exactly when it holds nothing
/// but white space.
pub proof fn lemma_trimmed_empty_iff_blank(text: Seq<char>)
    ensures
        trimmed(text).len() == 0 <==> blank(text),
{
    let cuts = lemma_trimmed_cuts(text);
    if cuts.0 < cuts.1 {
        assert(!whitespace(text[cuts.0]));
    } else {
        assert forall|i: int| 0 <= i < text.len() implies whitespace(#[trigger] text[i]) by {
            if i < cuts.0 {
            } else {
            }
        }
    }
}

/// A text of white space only leaves nothing to search for.
pub proof fn lemma_blank_sanitizes_to_nothing(query: Seq<char>)
    requires
        blank(query),
    ensures
        sanitized(query).len() == 0,
{
    lemma_sanitized_empty_iff_nothing_searchable(query);
}

/// A query is empty after sanitizing exactly when the text holds no
/// character that a search can find.
pub proof fn lemma_sanitized_empty_iff_nothing_searchable(query: Seq<char>)
    ensures
        sanitized(query).len() == 0 <==> forall|i: int|
            0 <= i < query.len() ==> !searchable(#[trigger] query[i]),
{
    let pred = |c: char| kept(c);
    let clean = cleaned(query);
    lemma_trimmed_empty_iff_blank(clean);
    assert(quoted_prefix(trimmed(clean)).len() > 0);
    if blank(clean) {
        assert forall|i: int| 0 <= i < query.len() implies !searchable(#[trigger] query[i]) by {
            if searchable(query[i]) {
                assert(pred(query[i]));
                query.lemma_filter_contains(pred, i);
                let j = choose|j: int| 0 <= j < clean.len() && clean[j] == query[i];
                assert(whitespace(clean[j]));
            }
        }
    } else {
        let j = choose|j: int| 0 <= j < clean.len() && !whitespace(#[trigger] clean[j]);
        query.lemma_filter_pred(pred, j);
        assert(pred(clean[j]));
        assert(clean.contains(clean[j]));
        query.lemma_filter_contains_rev(pred, clean[j]);
        let i = choose|i: int| 0 <= i < query.len() && query[i] == clean[j];
        assert(searchable(query[i]));
    }
}

/// A filter that every element passes leaves the sequence as it is.
proof fn lemma_filter_keeps_all(s: Seq<char>, pred: spec_fn(char) -> bool)
    requires
        forall|i: int| 0 <= i < s.len() ==> pred(#[trigger] s[i]),
    ensures
        s.filter(pred) == s,
    decreases s.len(),
{
    reveal(Seq::filter);
    if s.len() > 0 {
        lemma_filter_keeps_all(s.drop_last(), pred);
        assert(s.drop_last().push(s.last()) =~= s);
    }
}

/// The empty text and a text of three spaces leave nothing to search for.
pub proof fn lemma_empty_and_spaces_sanitize_to_nothing()
    ensures
        sanitized(""@).len() == 0,
        sanitized("   "@).len() == 0,
{
    reveal_strlit("");
    reveal_strlit("   ");
    assert(blank(""@));
    assert(blank("   "@));
    lemma_blank_sanitizes_to_nothing(""@);
    lemma_blank_sanitizes_to_nothing("   "@);
}

/// The text `foo bar` is searched for as the phrase `"foo bar"*`, and so
/// is the same text with operators of the query language around it.
pub proof fn lemma_foo_bar_is_quoted()
    ensures
        sanitized("foo bar"@) == "\"foo bar\"*"@,
        sanitized(" \"foo* bar\" "@) == "\"foo bar\"*"@,
{
    reveal_strlit("foo bar");
    reveal_strlit("\"foo bar\"*");
    reveal_strlit(" \"foo* bar\" ");
    let plain = "foo bar"@;
    let pred = |c: char| kept(c);
    assert forall|i: int| 0 <= i < plain.len() implies pred(#[trigger] plain[i]) by {}
    lemma_filter_keeps_all(plain, pred);
    assert(trim_start(plain) == plain);
    assert(trim_end(plain) == plain);
    assert(quoted_prefix(plain) =~= "\"foo bar\"*"@);

    let dressed = " \"foo* bar\" "@;
    reveal_with_fuel(Seq::filter, 13);
    assert(dressed.len() == 12);
    assert(cleaned(dressed) =~= seq![' ', 'f', 'o', 'o', ' ', 'b', 'a', 'r', ' ']);
    let clean = cleaned(dressed);
    assert(clean.drop_first() =~= plain + seq![' ']);
    assert(trim_start(clean) == trim_start(clean.drop_first()));
    assert(trim_start(plain + seq![' ']) == plain + seq![' ']);
    assert((plain + seq![' ']).drop_last() =~= plain);
    assert(trim_end(plain + seq![' ']) == trim_end(plain));
}

/// What a sanitized query looks like where it is not empty: one phrase in
/// double quotes with the prefix wildcard behind it. The phrase is not
/// empty, holds only characters that are alphanumeric or white space, and
/// neither begins nor ends with white space.
pub proof fn lemma_sanitized_is_quoted_phrase(query: Seq<char>)
    ensures
        sanitized(query).len() > 0 ==> {
            let phrase = trimmed(cleaned(query));
            &&& sanitized(query) == quoted_prefix(phrase)
            &&& sanitized(query).len() == phrase.len() + 3
            &&& phrase.len() > 0
            &&& forall|i: int| 0 <= i < phrase.len() ==> kept(#[trigger] phrase[i])
            &&& !whitespace(phrase.first())
            &&& !whitespace(phrase.last())
        },
{
    let pred = |c: char| kept(c);
    let clean = cleaned(query);
    let phrase = trimmed(clean);
    if sanitized(query).len() > 0 {
        let cuts = lemma_trimmed_cuts(clean);
        assert forall|i: int| 0 <= i < phrase.len() implies kept(#[trigger] phrase[i]) by {
            query.lemma_filter_pred(pred, cuts.0 + i);
            assert(pred(clean[cuts.0 + i]));
        }
        assert(phrase.first() == clean[cuts.0]);
        assert(phrase.last() == clean[cuts.1 - 1]);
    }
}

/// The kept characters of a text, in order.
fn clean(query: &str) -> (out: Vec<char>)
    ensures
        out@ == cleaned(query@),
{
    let chars = chars_of(query);
    let mut out: Vec<char> = Vec::new();
    let mut i: usize = 0;
    proof {
        reveal(Seq::filter);
        assert(chars@.take(0) =~= Seq::<char>::empty());
    }
    while i < chars.len()
        invariant
            i <= chars.len(),
            out@ == cleaned(chars@.take(i as int)),
        decreases chars.len() - i,
    {
        let c = chars[i];
        proof {
            assert(chars@.take(i + 1) =~= chars@.take(i as int).push(c));
            chars@.take(i as int).lemma_filter_push(c, |c: char| kept(c));
        }
        if c.is_alphanumeric() || c.is_whitespace() {
            out.push(c);
        }
        i += 1;
    }
    proof {
        assert(chars@.take(i as int) =~= chars@);
    }
    out
}

/// Where the text without white space at either end begins and ends.
fn trim_bounds(text: &Vec<char>) -> (bounds: (usize, usize))
    ensures
        bounds.0 <= bounds.1 <= text.len(),
        text@.subrange(bounds.0 as int, bounds.1 as int) == trimmed(text@),
{
    let mut start: usize = 0;
    proof {
        assert(text@.skip(0) =~= text@);
    }
    while start < text.len() && text[start].is_whitespace()
        invariant
            start <= text.len(),
            trim_start(text@) == trim_start(text@.skip(start as int)),
        decreases text.len() - start,
    {
        proof {
            assert(text@.skip(start as int).drop_first() =~= text@.skip(start + 1));
        }
        start += 1;
    }
    let ghost tail = text@.skip(start as int);
    assert(trim_start(text@) == tail);
    let mut end: usize = text.len();
    proof {
        assert(tail.take(end - start) =~= tail);
    }
    while end > start && text[end - 1].is_whitespace()
        invariant
            start <= end <= text.len(),
            tail == text@.skip(start as int),
            trim_end(tail) == trim_end(tail.take(end - start)),
        decreases end,
    {
        proof {
            assert(tail.take(end - start).last() == text@[end - 1]);
            assert(tail.take(end - start).drop_last() =~= tail.take(end - 1 - start));
        }
        end -= 1;
    }
    proof {
        let head = tail.take(end - start);
        if end > start {
            assert(head.last() == text@[end - 1]);
        }
        assert(trim_end(head) == head);
        assert(head =~= text@.subrange(start as int, end as int));
    }
    (start, end)
}

/// Whether the text holds nothing but white space.
pub fn is_blank(text: &str) -> (yes: bool)
    ensures
        yes == blank(text@),
{
    let chars = chars_of(text);
    let mut i: usize = 0;
    while i < chars.len()
        invariant
            i <= chars.len(),
            chars@ == text@,
            forall|j: int| 0 <= j < i ==> whitespace(#[trigger] text@[j]),
        decreases chars.len() - i,
    {
        if !chars[i].is_whitespace() {
            return false;
        }
        i += 1;
    }
    true
}

/// The full-text query for a free text. Every character that is neither
/// alphanumeric nor white space is dropped, white space at either end goes,
/// and what is left is wrapped as a quoted phrase with a prefix wildcard;
/// where nothing is left the result is empty.
pub fn sanitize_fts_query(query: &str) -> (out: String)
    ensures
        out@ == sanitized(query@),
{
    let clean_chars = clean(query);
    let (start, end) = trim_bounds(&clean_chars);
    let mut out = String::new();
    if start == end {
        return out;
    }
    out.push('"');
    let mut i: usize = start;
    proof {
        assert(clean_chars@.subrange(start as int, start as int) =~= Seq::<char>::empty());
        assert(out@ =~= seq!['"'] + clean_chars@.subrange(start as int, i as int));
    }
    while i < end
        invariant
            start <= i <= end <= clean_chars.len(),
            out@ == seq!['"'] + clean_chars@.subrange(start as int, i as int),
        decreases end - i,
    {
        out.push(clean_chars[i]);
        proof {
            assert(clean_chars@.subrange(start as int, i + 1) =~= clean_chars@.subrange(
                start as int,
                i as int,
            ).push(clean_chars@[i as int]));
            assert(out@ =~= seq!['"'] + clean_chars@.subrange(start as int, i + 1));
        }
        i += 1;
    }
    out.push('"');
    out.push('*');
    proof {
        let phrase = clean_chars@.subrange(start as int, end as int);
        assert(out@ =~= quoted_prefix(phrase));
    }
    out
}

} // verus!
