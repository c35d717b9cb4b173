//! Reading fields of matched elements: the shared pieces of record extraction.

use crate::dom::{
    attr, attr_of, first_text, first_text_of, select_first, select_first_exec, text, text_of,
    Document, TokenView,
};
use crate::text::{chars_of, trim_start, trim_start_chars, CharClass};
use crate::time::{date_spec, date_time_spec, parse_date, parse_date_time, Date, DateTime};
use vstd::prelude::*;

verus! {

/// All the text of the node at `k`, where there is one.
pub open spec fn opt_text(t: Seq<TokenView>, k: Option<int>) -> Option<Seq<char>> {
    match k {
        Some(k) => Some(text_of(t, k)),
        None => None,
    }
}

/// The first text node under the node at `k`, where there is one.
pub open spec fn opt_first_text(t: Seq<TokenView>, k: Option<int>) -> Option<Seq<char>> {
    match k {
        Some(k) => first_text_of(t, k),
        None => None,
    }
}

/// The attribute `name` of the node at `k`, where there is one.
pub open spec fn opt_attr(t: Seq<TokenView>, k: Option<int>, name: Seq<char>) -> Option<Seq<char>> {
    match k {
        Some(k) => attr_of(t, k, name),
        None => None,
    }
}

/// The timestamp of the element at `i`, tried in two ways: first the `title`
/// attribute of the first node under it that `by_attr` marks, read in the format
/// `fmt`; failing that, the text of the first node under it that `by_text` marks,
/// without the leading "posted at" marker, read in the same format.
pub open spec fn stamp_of(
    t: Seq<TokenView>,
    by_attr: Seq<bool>,
    by_text: Seq<bool>,
    i: int,
    fmt: Seq<char>,
) -> Option<DateTime> {
    let from_attr = match opt_attr(t, select_first(t, by_attr, i), "title"@) {
        Some(v) => date_time_spec(v, fmt),
        None => None,
    };
    if from_attr is Some {
        from_attr
    } else {
        match opt_text(t, select_first(t, by_text, i)) {
            Some(v) => date_time_spec(trim_start(v, CharClass::PostedMarker), fmt),
            None => None,
        }
    }
}

/// All the text of the first node under `i` that `m` marks.
pub fn selected_text(doc: &Document, m: &Vec<bool>, i: usize) -> (r: Option<Vec<char>>)
    requires
        i < doc.tokens().len(),
        m@.len() == doc.tokens().len(),
    ensures
        crate::text::opt_chars(r) == opt_text(doc.tokens(), select_first(doc.tokens(), m@, i as int)),
{
    match select_first_exec(doc, m, i) {
        Some(k) => Some(text(doc, k)),
        None => None,
    }
}

/// The first text node under the first node under `i` that `m` marks.
pub fn selected_first_text(doc: &Document, m: &Vec<bool>, i: usize) -> (r: Option<Vec<char>>)
    requires
        i < doc.tokens().len(),
        m@.len() == doc.tokens().len(),
    ensures
        crate::text::opt_chars(r) == opt_first_text(
            doc.tokens(),
            select_first(doc.tokens(), m@, i as int),
        ),
{
    match select_first_exec(doc, m, i) {
        Some(k) => first_text(doc, k),
        None => None,
    }
}

/// The attribute `name` of the first node under `i` that `m` marks.
pub fn selected_attr(doc: &Document, m: &Vec<bool>, i: usize, name: &str) -> (r: Option<
    Vec<char>,
>)
    requires
        i < doc.tokens().len(),
        m@.len() == doc.tokens().len(),
    ensures
        crate::text::opt_chars(r) == opt_attr(
            doc.tokens(),
            select_first(doc.tokens(), m@, i as int),
            name@,
        ),
{
    match select_first_exec(doc, m, i) {
        Some(k) => attr(doc, k, &chars_of(name)),
        None => None,
    }
}

/// The timestamp of the element at `i`, from an attribute or else from visible text.
pub fn stamp(doc: &Document, by_attr: &Vec<bool>, by_text: &Vec<bool>, i: usize, fmt: &str) -> (r:
    Option<DateTime>)
    requires
        i < doc.tokens().len(),
        by_attr@.len() == doc.tokens().len(),
        by_text@.len() == doc.tokens().len(),
    ensures
        r == stamp_of(doc.tokens(), by_attr@, by_text@, i as int, fmt@),
{
    if let Some(v) = selected_attr(doc, by_attr, i, "title") {
        if let Some(d) = parse_date_time(&v, fmt) {
            return Some(d);
        }
    }
    match selected_text(doc, by_text, i) {
        Some(v) => parse_date_time(&trim_start_chars(&v, CharClass::PostedMarker), fmt),
        None => None,
    }
}

/// The date of the element at `i`, tried in the same two ways as `stamp_of`.
pub open spec fn date_of(
    t: Seq<TokenView>,
    by_attr: Seq<bool>,
    by_text: Seq<bool>,
    i: int,
    fmt: Seq<char>,
) -> Option<Date> {
    let from_attr = match opt_attr(t, select_first(t, by_attr, i), "title"@) {
        Some(v) => date_spec(v, fmt),
        None => None,
    };
    if from_attr is Some {
        from_attr
    } else {
        match opt_text(t, select_first(t, by_text, i)) {
            Some(v) => date_spec(trim_start(v, CharClass::PostedMarker), fmt),
            None => None,
        }
    }
}

/// The date of the element at `i`, from an attribute or else from visible text.
pub fn date(doc: &Document, by_attr: &Vec<bool>, by_text: &Vec<bool>, i: usize, fmt: &str) -> (r:
    Option<Date>)
    requires
        i < doc.tokens().len(),
        by_attr@.len() == doc.tokens().len(),
        by_text@.len() == doc.tokens().len(),
    ensures
        r == date_of(doc.tokens(), by_attr@, by_text@, i as int, fmt@),
{
    if let Some(v) = selected_attr(doc, by_attr, i, "title") {
        if let Some(d) = parse_date(&v, fmt) {
            return Some(d);
        }
    }
    match selected_text(doc, by_text, i) {
        Some(v) => parse_date(&trim_start_chars(&v, CharClass::PostedMarker), fmt),
        None => None,
    }
}

/// Stripping the characters of class `k` drops a prefix made of them and stops at the
/// first character outside the class.
pub proof fn lemma_trim_start_prefix(marker: Seq<char>, s: Seq<char>, k: CharClass)
    requires
        forall|x: int| 0 <= x < marker.len() ==> crate::text::in_class(#[trigger] marker[x], k),
        s.len() > 0 ==> !crate::text::in_class(s[0], k),
    ensures
        trim_start(marker + s, k) == s,
    decreases marker.len(),
{
    if marker.len() > 0 {
        assert((marker + s).drop_first() =~= marker.drop_first() + s);
        lemma_trim_start_prefix(marker.drop_first(), s, k);
    } else {
        assert(marker + s =~= s);
    }
}

/// The timestamp falls back from the attribute to the visible text: a `title` attribute
/// that parses gives the timestamp it holds; without the attribute, a text made of the
/// "posted at" marker followed by `s` gives the timestamp that `s` holds, the same one
/// an attribute holding `s` would give.
pub proof fn lemma_timestamp_fallback(
    t: Seq<TokenView>,
    by_attr: Seq<bool>,
    by_text: Seq<bool>,
    i: int,
    fmt: Seq<char>,
    marker: Seq<char>,
    s: Seq<char>,
)
    requires
        forall|x: int|
            0 <= x < marker.len() ==> crate::text::in_class(
                #[trigger] marker[x],
                CharClass::PostedMarker,
            ),
        s.len() > 0 ==> !crate::text::in_class(s[0], CharClass::PostedMarker),
    ensures
        opt_attr(t, select_first(t, by_attr, i), "title"@) == Some(s) && date_time_spec(s, fmt)
            is Some ==> stamp_of(t, by_attr, by_text, i, fmt) == date_time_spec(s, fmt),
        opt_attr(t, select_first(t, by_attr, i), "title"@) is None && opt_text(
            t,
            select_first(t, by_text, i),
        ) == Some(marker + s) ==> stamp_of(t, by_attr, by_text, i, fmt) == date_time_spec(s, fmt),
{
    lemma_trim_start_prefix(marker, s, CharClass::PostedMarker);
}

} // verus!
