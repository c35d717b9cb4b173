//! The body of a post as an ordered sequence of text runs, images and quotes.

use crate::dom::{
    attr, attr_of, end_from, lemma_end_from_after, lemma_end_from_split, lemma_subtree_end_bounds,
    subtree_end, subtree_end_exec, texts, texts_in, Document, Token, TokenView,
};
use crate::text::{
    chars_of, eq_chars, split_at_spaces, split_spaces, string_of, trim, trim_chars, CharClass,
};
use crate::time::{date_time_spec, parse_date_time, DateTime};
use vstd::prelude::*;

verus! {

/// One block of a post's body.
#[derive(Clone, Debug, PartialEq, Eq)]
pub enum Content {
    /// A run of text, trimmed and never empty.
    Text(String),
    /// The address of an image; always starts with `http`.
    Image(String),
    /// A quoted post: its author, its time and its text.
    Quote(String, DateTime, String),
}

/// The mathematical value of a `Content`.
pub enum ContentView {
    Text(Seq<char>),
    Image(Seq<char>),
    Quote(Seq<char>, DateTime, Seq<char>),
}

impl View for Content {
    type V = ContentView;

    open spec fn view(&self) -> ContentView {
        match self {
            Content::Text(s) => ContentView::Text(s@),
            Content::Image(s) => ContentView::Image(s@),
            Content::Quote(a, d, s) => ContentView::Quote(a@, *d, s@),
        }
    }
}

pub open spec fn contents_view(v: Seq<Content>) -> Seq<ContentView> {
    v.map_values(|c: Content| c@)
}

/// The format of the time in a quote's header.
pub open spec fn quote_time_format() -> Seq<char> {
    "%Y-%m-%d %H:%M"@
}

pub open spec fn starts_with_http(s: Seq<char>) -> bool {
    s.len() >= 4 && s[0] == 'h' && s[1] == 't' && s[2] == 't' && s[3] == 'p'
}

/// What a text node contributes: its trimmed text, unless that is empty.
pub open spec fn text_items(s: Seq<char>) -> Seq<ContentView> {
    if trim(s).len() > 0 {
        seq![ContentView::Text(trim(s))]
    } else {
        Seq::empty()
    }
}

/// What an image at `j` contributes: its `src`, where that starts with `http`.
pub open spec fn image_items(t: Seq<TokenView>, j: int) -> Seq<ContentView> {
    match attr_of(t, j, "src"@) {
        Some(src) => if starts_with_http(src) {
            seq![ContentView::Image(src)]
        } else {
            Seq::empty()
        },
        None => Seq::empty(),
    }
}

/// The quote that a blockquote's text nodes describe: the first holds the header
/// `author _ date time ...` split at single spaces, the second the quoted text.
pub open spec fn quote_of(texts: Seq<Seq<char>>) -> Option<ContentView> {
    if texts.len() < 2 {
        None
    } else {
        let info = split_spaces(texts[0]);
        if info.len() < 4 {
            None
        } else {
            match date_time_spec(info[2] + seq![' '] + info[3], quote_time_format()) {
                Some(d) => Some(ContentView::Quote(info[0], d, trim(texts[1]))),
                None => None,
            }
        }
    }
}

/// What a blockquote at `j` contributes: its quote, if it can be reconstructed.
pub open spec fn quote_items(t: Seq<TokenView>, j: int) -> Seq<ContentView> {
    match quote_of(texts_in(t, j, subtree_end(t, j))) {
        Some(q) => seq![q],
        None => Seq::empty(),
    }
}

/// Where the walk goes on after the subtree at `j`, within `hi`.
pub open spec fn skip_to(t: Seq<TokenView>, j: int, hi: int) -> int {
    if subtree_end(t, j) < hi {
        subtree_end(t, j)
    } else {
        hi
    }
}

/// The content of the nodes from `j` up to `hi`, in document order: text nodes give
/// their trimmed text, `img` and `blockquote` elements give an image or a quote and
/// hide their subtree, any other element is looked through.
pub open spec fn walk(t: Seq<TokenView>, j: int, hi: int) -> Seq<ContentView>
    decreases hi - j,
    via walk_decreases
{
    if j < 0 || j >= hi || j >= t.len() {
        Seq::empty()
    } else {
        match t[j] {
            TokenView::Text(s) => text_items(s) + walk(t, j + 1, hi),
            TokenView::Element(name, _) => if name == "img"@ {
                image_items(t, j) + walk(t, skip_to(t, j, hi), hi)
            } else if name == "blockquote"@ {
                quote_items(t, j) + walk(t, skip_to(t, j, hi), hi)
            } else {
                walk(t, j + 1, hi)
            },
            _ => walk(t, j + 1, hi),
        }
    }
}

#[via_fn]
proof fn walk_decreases(t: Seq<TokenView>, j: int, hi: int) {
    if 0 <= j < t.len() {
        lemma_subtree_end_bounds(t, j);
    }
}

/// The content of the element at `i`: the walk over its children.
pub open spec fn content_of(t: Seq<TokenView>, i: int) -> Seq<ContentView> {
    walk(t, i + 1, subtree_end(t, i))
}

/// The content from `p` on splits where the walk closes `d` levels: what lies before
/// that point, then what lies after it.
proof fn lemma_walk_split(t: Seq<TokenView>, p: int, d: nat, hi: int)
    requires
        0 <= p,
        end_from(t, p, d) <= hi,
    ensures
        walk(t, p, hi) == walk(t, p, end_from(t, p, d)) + walk(t, end_from(t, p, d), hi),
    decreases hi - p,
{
    let e = end_from(t, p, d);
    if p >= t.len() {
        assert(e == t.len());
        assert(walk(t, p, e) =~= Seq::<ContentView>::empty());
        assert(walk(t, p, hi) =~= Seq::<ContentView>::empty());
        assert(walk(t, e, hi) =~= Seq::<ContentView>::empty());
        assert(walk(t, p, hi) =~= walk(t, p, e) + walk(t, e, hi));
        return;
    }
    lemma_end_from_after(t, p, d);
    lemma_end_from_after(t, p + 1, d + 1);
    if t[p] is Close {
        if d <= 1 {
            assert(walk(t, p + 1, p + 1) =~= Seq::<ContentView>::empty());
            assert(walk(t, p, e) =~= Seq::<ContentView>::empty());
        } else {
            lemma_walk_split(t, p + 1, (d - 1) as nat, hi);
        }
        assert(walk(t, p, hi) =~= walk(t, p, e) + walk(t, e, hi));
    } else {
        assert(e == end_from(t, p + 1, d + 1));
        let is_leaf = match t[p] {
            TokenView::Element(name, _) => name == "img"@ || name == "blockquote"@,
            _ => false,
        };
        if is_leaf {
            let s = subtree_end(t, p);
            assert(s == end_from(t, p + 1, 1));
            lemma_end_from_after(t, p + 1, 1);
            if d >= 1 {
                lemma_end_from_split(t, p + 1, d, 1);
                lemma_end_from_after(t, s, d);
                lemma_walk_split(t, s, d, hi);
            } else {
                assert(e == s);
                assert(walk(t, s, s) =~= Seq::<ContentView>::empty());
            }
            assert(skip_to(t, p, hi) == s);
            assert(skip_to(t, p, e) == s || (skip_to(t, p, e) == e && e == s));
            assert(walk(t, p, hi) =~= walk(t, p, e) + walk(t, e, hi));
        } else {
            lemma_walk_split(t, p + 1, d + 1, hi);
            assert(walk(t, p, hi) =~= walk(t, p, e) + walk(t, e, hi));
        }
    }
}

/// Document order is kept and depth is dropped: the content from the node at `j` on is
/// the content of that node's subtree followed by the content of the nodes after it, so
/// sibling subtrees contribute one after the other, however deeply each is nested.
pub proof fn lemma_order_preserved(t: Seq<TokenView>, j: int, hi: int)
    requires
        0 <= j < t.len(),
        subtree_end(t, j) <= hi,
    ensures
        walk(t, j, hi) == walk(t, j, subtree_end(t, j)) + walk(t, subtree_end(t, j), hi),
{
    if t[j] is Close {
        assert(walk(t, j + 1, j + 1) =~= Seq::<ContentView>::empty());
        assert(walk(t, j, j + 1) =~= Seq::<ContentView>::empty());
        assert(walk(t, j, hi) =~= walk(t, j, j + 1) + walk(t, j + 1, hi));
    } else {
        assert(subtree_end(t, j) == end_from(t, j, 0));
        lemma_walk_split(t, j, 0, hi);
    }
}

/// An element that is neither an image nor a quote adds nothing of its own: its
/// content is that of its children.
pub proof fn lemma_wrapper_flattened(t: Seq<TokenView>, j: int, hi: int)
    requires
        0 <= j < hi,
        j < t.len(),
        t[j] matches TokenView::Element(name, _) && name != "img"@ && name != "blockquote"@,
    ensures
        walk(t, j, hi) == walk(t, j + 1, hi),
{
}

/// An image yields its `src` verbatim where that starts with `http`, and nothing
/// otherwise (a relative or protocol-relative address, or no `src`); the walk goes
/// on after the image.
pub proof fn lemma_image_filter(t: Seq<TokenView>, j: int, hi: int)
    requires
        0 <= j < hi,
        j < t.len(),
        t[j] matches TokenView::Element(name, _) && name == "img"@,
    ensures
        walk(t, j, hi) == match attr_of(t, j, "src"@) {
            Some(src) => if starts_with_http(src) {
                seq![ContentView::Image(src)]
            } else {
                Seq::empty()
            },
            None => Seq::empty(),
        } + walk(t, skip_to(t, j, hi), hi),
        forall|k: int|
            0 <= k < image_items(t, j).len() ==> (#[trigger] image_items(t, j)[k] matches ContentView::Image(s)
                && starts_with_http(s)),
{
}

/// A blockquote with fewer than two text nodes, with a header of fewer than four
/// space-separated fields, or whose date and time do not parse, yields no quote; the
/// walk goes on after it all the same.
pub proof fn lemma_quote_degradation(t: Seq<TokenView>, j: int, hi: int)
    requires
        0 <= j < hi,
        j < t.len(),
        t[j] matches TokenView::Element(name, _) && name == "blockquote"@,
        ({
            let texts = texts_in(t, j, subtree_end(t, j));
            texts.len() < 2 || split_spaces(texts[0]).len() < 4 || date_time_spec(
                split_spaces(texts[0])[2] + seq![' '] + split_spaces(texts[0])[3],
                quote_time_format(),
            ) is None
        }),
    ensures
        quote_items(t, j) == Seq::<ContentView>::empty(),
        walk(t, j, hi) == walk(t, skip_to(t, j, hi), hi),
{
    reveal_strlit("img");
    reveal_strlit("blockquote");
    assert("img"@.len() == 3);
    assert("blockquote"@.len() == 10);
    assert("blockquote"@ != "img"@);
    assert(quote_items(t, j) =~= Seq::<ContentView>::empty());
    assert(walk(t, j, hi) =~= walk(t, skip_to(t, j, hi), hi));
}

/// Rebuilds the quote that a blockquote's text nodes describe.
pub fn parse_blockquote(texts: &Vec<Vec<char>>) -> (r: Option<Content>)
    ensures
        match r {
            Some(c) => quote_of(texts@.map_values(|v: Vec<char>| v@)) == Some(c@),
            None => quote_of(texts@.map_values(|v: Vec<char>| v@)) is None,
        },
{
    let ghost tv = texts@.map_values(|v: Vec<char>| v@);
    if texts.len() < 2 {
        return None;
    }
    let info = split_at_spaces(&texts[0]);
    assert(tv[0] == texts@[0]@);
    if info.len() < 4 {
        return None;
    }
    let ghost iv = info@.map_values(|f: Vec<char>| f@);
    assert(iv[2] == info@[2]@ && iv[3] == info@[3]@ && iv[0] == info@[0]@);
    let mut head: Vec<char> = crate::text::copy_chars(&info[2]);
    head.push(' ');
    let stamp = crate::text::concat_chars(&head, &info[3]);
    assert(stamp@ =~= iv[2] + seq![' '] + iv[3]);
    match parse_date_time(&stamp, "%Y-%m-%d %H:%M") {
        Some(d) => {
            assert(tv[1] == texts@[1]@);
            let body = trim_chars(&texts[1], CharClass::Whitespace);
            Some(Content::Quote(string_of(&info[0]), d, string_of(&body)))
        },
        None => None,
    }
}

/// The content of the children of the element at `i`, in document order.
pub fn parse_content(doc: &Document, i: usize) -> (r: Vec<Content>)
    requires
        i < doc.tokens().len(),
    ensures
        contents_view(r@) == content_of(doc.tokens(), i as int),
{
    let end = subtree_end_exec(doc, i);
    let img = chars_of("img");
    let blockquote = chars_of("blockquote");
    let src = chars_of("src");
    let mut out: Vec<Content> = Vec::new();
    let mut j: usize = i + 1;
    let ghost t = doc.tokens();
    assert(contents_view(out@) =~= Seq::<ContentView>::empty());
    while j < end
        invariant
            i < j <= doc.tokens().len(),
            t == doc.tokens(),
            end == subtree_end(t, i as int),
            end <= t.len(),
            img@ == "img"@,
            blockquote@ == "blockquote"@,
            src@ == "src"@,
            content_of(t, i as int) == contents_view(out@) + walk(t, j as int, end as int),
        decreases end - j,
    {
        let ghost before = contents_view(out@);
        proof {
            lemma_subtree_end_bounds(t, j as int);
        }
        match doc.token(j) {
            Token::Text(s) => {
                let tr = trim_chars(s, CharClass::Whitespace);
                if tr.len() > 0 {
                    out.push(Content::Text(string_of(&tr)));
                }
                assert(contents_view(out@) =~= before + text_items(s@));
                j = j + 1;
            },
            Token::Element(name, _) => {
                if eq_chars(name, &img) {
                    let next = subtree_end_exec(doc, j);
                    if let Some(v) = attr(doc, j, &src) {
                        if v.len() >= 4 && v[0] == 'h' && v[1] == 't' && v[2] == 't' && v[3]
                            == 'p' {
                            out.push(Content::Image(string_of(&v)));
                        }
                    }
                    assert(contents_view(out@) =~= before + image_items(t, j as int));
                    j = if next < end { next } else { end };
                } else if eq_chars(name, &blockquote) {
                    let next = subtree_end_exec(doc, j);
                    let ts = texts(doc, j, next);
                    if let Some(q) = parse_blockquote(&ts) {
                        out.push(q);
                    }
                    assert(contents_view(out@) =~= before + quote_items(t, j as int));
                    j = if next < end { next } else { end };
                } else {
                    j = j + 1;
                }
            },
            _ => {
                j = j + 1;
            },
        }
        assert(contents_view(out@) + walk(t, j as int, end as int) =~= content_of(t, i as int));
    }
    out
}

} // verus!
