//! The parsed document, held as the sequence of edges of a depth-first walk of its
//! tree, with CSS queries evaluated on it by scraper.

use ego_tree::iter::Edge;
use scraper::{ElementRef, Html, Node, Selector};
use crate::text::{copy_chars, eq_chars, opt_chars, opt_index};
use vstd::prelude::*;

verus! {

/// scraper's parsed document, opaque here.
#[verifier::external_type_specification]
#[verifier::external_body]
pub struct ExHtml(Html);

/// scraper's compiled CSS selector, opaque here.
#[verifier::external_type_specification]
#[verifier::external_body]
pub struct ExSelector(Selector);

/// One edge of the depth-first walk of a document tree: a node is opened, then its
/// children follow, then it is closed.
pub enum Token {
    /// A text node opens.
    Text(Vec<char>),
    /// An element opens, with its local name and its attributes (name, value).
    Element(Vec<char>, Vec<(Vec<char>, Vec<char>)>),
    /// Any other node opens: the document root, a doctype, a comment.
    Other,
    /// The node opened last and not yet closed closes.
    Close,
}

/// The mathematical value of a `Token`.
pub enum TokenView {
    Text(Seq<char>),
    Element(Seq<char>, Seq<(Seq<char>, Seq<char>)>),
    Other,
    Close,
}

impl View for Token {
    type V = TokenView;

    open spec fn view(&self) -> TokenView {
        match self {
            Token::Text(s) => TokenView::Text(s@),
            Token::Element(n, a) => TokenView::Element(
                n@,
                a@.map_values(|p: (Vec<char>, Vec<char>)| (p.0@, p.1@)),
            ),
            Token::Other => TokenView::Other,
            Token::Close => TokenView::Close,
        }
    }
}

/// The edges of the tree into which html5ever parses `text`, in the order of
/// ego_tree's depth-first traversal from the root.
pub uninterp spec fn html_tokens(text: Seq<char>) -> Seq<TokenView>;

/// For each edge of `html_tokens(text)`, whether it opens an element that the CSS
/// selector `selector` matches.
pub uninterp spec fn css_matches(text: Seq<char>, selector: Seq<char>) -> Seq<bool>;

/// Whether scraper accepts `selector` as CSS selector syntax.
pub uninterp spec fn selector_accepted(selector: Seq<char>) -> bool;

/// A parsed HTML document: its text, scraper's tree of it, and the walk of that tree.
/// Only `Document::parse` builds one, so the three always agree.
pub struct Document {
    source: String,
    html: Html,
    tokens: Vec<Token>,
}

/// A compiled CSS selector with the text it was compiled from. Only `compile` builds
/// one, so the two always agree.
pub struct Query {
    source: String,
    selector: Selector,
}

impl Query {
    /// The text of the selector.
    pub closed spec fn text(&self) -> Seq<char> {
        self.source@
    }
}

/// Relies on scraper's `Selector::parse`: whether it accepts a selector depends on the
/// selector's text alone.
#[verifier::external_body]
pub(crate) fn compile(text: &str) -> (r: Option<Query>)
    ensures
        r is Some <==> selector_accepted(text@),
        r is Some ==> r->0.text() == text@,
{
    Selector::parse(text).ok().map(|selector| Query { source: text.to_string(), selector })
}

impl Document {
    /// The text the document was parsed from.
    pub closed spec fn source(&self) -> Seq<char> {
        self.source@
    }

    /// The edges of the document's tree.
    pub closed spec fn tokens(&self) -> Seq<TokenView> {
        self.tokens@.map_values(|t: Token| t@)
    }

    /// Relies on scraper's `Html::parse_document` and on ego_tree's `traverse`: the tree,
    /// walked from its root, depends on the text alone.
    #[verifier::external_body]
    pub(crate) fn parse(text: &str) -> (r: Document)
        ensures
            r.source() == text@,
            r.tokens() == html_tokens(text@),
    {
        let html = Html::parse_document(text);
        let tokens = html.tree.root().traverse().map(|edge| match edge {
            Edge::Open(node) => match node.value() {
                Node::Text(t) => Token::Text(t.chars().collect()),
                Node::Element(e) => Token::Element(e.name().chars().collect(), e.attrs().map(
                    |(k, v)| (k.chars().collect(), v.chars().collect())).collect()),
                _ => Token::Other,
            },
            Edge::Close(_) => Token::Close,
        }).collect();
        Document { source: text.to_string(), html, tokens }
    }

    /// Relies on scraper's `Selector::matches`, asked of each element that ego_tree's
    /// `traverse` opens; other edges never match.
    #[verifier::external_body]
    pub(crate) fn matches(&self, q: &Query) -> (r: Vec<bool>)
        ensures
            r@ == css_matches(self.source(), q.text()),
            r@.len() == self.tokens().len(),
    {
        self.html.tree.root().traverse().map(|edge| match edge {
            Edge::Open(node) => ElementRef::wrap(node).is_some_and(|e| q.selector.matches(&e)),
            Edge::Close(_) => false,
        }).collect()
    }

    pub fn len(&self) -> (r: usize)
        ensures
            r == self.tokens().len(),
    {
        self.tokens.len()
    }

    pub fn token(&self, i: usize) -> (r: &Token)
        requires
            i < self.tokens().len(),
        ensures
            r@ == self.tokens()[i as int],
    {
        &self.tokens[i]
    }
}

// ---------------------------------------------------------------------------
// The shape of the walk: where a node's subtree ends.

/// The index just past the edge that closes the node open at depth `d` when the walk
/// stands at `j`.
pub open spec fn end_from(t: Seq<TokenView>, j: int, d: nat) -> int
    decreases t.len() - j,
{
    if j >= t.len() || j < 0 {
        t.len() as int
    } else if t[j] is Close {
        if d <= 1 {
            j + 1
        } else {
            end_from(t, j + 1, (d - 1) as nat)
        }
    } else {
        end_from(t, j + 1, d + 1)
    }
}

/// The index just past the subtree of the node that opens at `i`: the subtree is
/// `t[i..subtree_end(t, i)]`.
pub open spec fn subtree_end(t: Seq<TokenView>, i: int) -> int {
    if 0 <= i < t.len() && t[i] is Close {
        i + 1
    } else {
        end_from(t, i + 1, 1)
    }
}

proof fn lemma_end_from_bounds(t: Seq<TokenView>, j: int, d: nat)
    requires
        0 <= j,
    ensures
        j < end_from(t, j, d) <= t.len() || (j >= t.len() && end_from(t, j, d) == t.len()),
    decreases t.len() - j,
{
    if j < t.len() {
        if t[j] is Close {
            if d > 1 {
                lemma_end_from_bounds(t, j + 1, (d - 1) as nat);
            }
        } else {
            lemma_end_from_bounds(t, j + 1, d + 1);
        }
    }
}

/// Closing `c` levels and then `d` more is closing `d + c` levels.
pub proof fn lemma_end_from_split(t: Seq<TokenView>, j: int, d: nat, c: nat)
    requires
        0 <= j,
        d >= 1,
        c >= 1,
    ensures
        end_from(t, j, d + c) == end_from(t, end_from(t, j, c), d),
    decreases t.len() - j,
{
    if j < t.len() {
        if t[j] is Close {
            if c > 1 {
                lemma_end_from_split(t, j + 1, d, (c - 1) as nat);
                assert((d + c - 1) as nat == d + (c - 1) as nat);
            }
        } else {
            lemma_end_from_split(t, j + 1, d, c + 1);
        }
    }
}

/// The walk never goes back: the end lies after the start, or at the end of the walk.
pub proof fn lemma_end_from_after(t: Seq<TokenView>, j: int, d: nat)
    requires
        0 <= j <= t.len(),
    ensures
        j <= end_from(t, j, d) <= t.len(),
        j < t.len() ==> j < end_from(t, j, d),
{
    lemma_end_from_bounds(t, j, d);
}

/// A subtree holds its own opening edge and stays within the walk.
pub proof fn lemma_subtree_end_bounds(t: Seq<TokenView>, i: int)
    requires
        0 <= i < t.len(),
    ensures
        i < subtree_end(t, i) <= t.len(),
{
    if !(t[i] is Close) {
        lemma_end_from_bounds(t, i + 1, 1);
    }
}

pub fn subtree_end_exec(doc: &Document, i: usize) -> (r: usize)
    requires
        i < doc.tokens().len(),
    ensures
        r == subtree_end(doc.tokens(), i as int),
        i < r <= doc.tokens().len(),
{
    proof {
        lemma_subtree_end_bounds(doc.tokens(), i as int);
    }
    let n = doc.len();
    if let Token::Close = doc.token(i) {
        return i + 1;
    }
    let mut j: usize = i + 1;
    let mut d: usize = 1;
    while j < n
        invariant
            i < j <= n == doc.tokens().len(),
            1 <= d <= j - i,
            subtree_end(doc.tokens(), i as int) == end_from(doc.tokens(), j as int, d as nat),
        decreases n - j,
    {
        match doc.token(j) {
            Token::Close => {
                if d <= 1 {
                    return j + 1;
                }
                d = d - 1;
            },
            _ => {
                d = d + 1;
            },
        }
        j = j + 1;
    }
    n
}

// ---------------------------------------------------------------------------
// Reading nodes.

/// The texts of the text nodes in `t[lo..hi]`, in document order.
pub open spec fn texts_in(t: Seq<TokenView>, lo: int, hi: int) -> Seq<Seq<char>>
    decreases hi - lo,
{
    if hi <= lo || hi > t.len() {
        Seq::empty()
    } else {
        let prev = texts_in(t, lo, hi - 1);
        match t[hi - 1] {
            TokenView::Text(s) => prev.push(s),
            _ => prev,
        }
    }
}

/// The texts of the text nodes in `t[lo..hi]`, joined.
pub open spec fn joined_text(t: Seq<TokenView>, lo: int, hi: int) -> Seq<char>
    decreases hi - lo,
{
    if hi <= lo || hi > t.len() {
        Seq::empty()
    } else {
        let prev = joined_text(t, lo, hi - 1);
        match t[hi - 1] {
            TokenView::Text(s) => prev + s,
            _ => prev,
        }
    }
}

/// All the text under the node at `i`, joined in document order (`ElementRef::text`,
/// collected).
pub open spec fn text_of(t: Seq<TokenView>, i: int) -> Seq<char> {
    joined_text(t, i, subtree_end(t, i))
}

/// The first text node under the node at `i` (`ElementRef::text`, first item).
pub open spec fn first_text_of(t: Seq<TokenView>, i: int) -> Option<Seq<char>> {
    let ts = texts_in(t, i, subtree_end(t, i));
    if ts.len() > 0 {
        Some(ts[0])
    } else {
        None
    }
}

/// The value of the first attribute named `name` among `attrs[k..]`.
pub open spec fn lookup(attrs: Seq<(Seq<char>, Seq<char>)>, name: Seq<char>, k: int) -> Option<
    Seq<char>,
>
    decreases attrs.len() - k,
{
    if k < 0 || k >= attrs.len() {
        None
    } else if attrs[k].0 == name {
        Some(attrs[k].1)
    } else {
        lookup(attrs, name, k + 1)
    }
}

/// The value of the attribute `name` of the element at `i`; `None` for any other node.
pub open spec fn attr_of(t: Seq<TokenView>, i: int, name: Seq<char>) -> Option<Seq<char>> {
    if 0 <= i < t.len() {
        match t[i] {
            TokenView::Element(_, attrs) => lookup(attrs, name, 0),
            _ => None,
        }
    } else {
        None
    }
}

/// The value of the attribute `name` of the element at `i`.
pub fn attr(doc: &Document, i: usize, name: &Vec<char>) -> (r: Option<Vec<char>>)
    requires
        i < doc.tokens().len(),
    ensures
        opt_chars(r) == attr_of(doc.tokens(), i as int, name@),
{
    match doc.token(i) {
        Token::Element(tag, attrs) => {
            let ghost a = attrs@.map_values(|p: (Vec<char>, Vec<char>)| (p.0@, p.1@));
            let mut k: usize = 0;
            while k < attrs.len()
                invariant
                    i < doc.tokens().len(),
                    doc.tokens()[i as int] == TokenView::Element(tag@, a),
                    k <= attrs@.len() == a.len(),
                    a == attrs@.map_values(|p: (Vec<char>, Vec<char>)| (p.0@, p.1@)),
                    lookup(a, name@, 0) == lookup(a, name@, k as int),
                decreases attrs@.len() - k,
            {
                if eq_chars(&attrs[k].0, name) {
                    assert(doc.tokens()[i as int] == TokenView::Element(tag@, a));
                    assert(a[k as int] == (attrs@[k as int].0@, attrs@[k as int].1@));
                    assert(lookup(a, name@, k as int) == Some(attrs@[k as int].1@));
                    return Some(copy_chars(&attrs[k].1));
                }
                k = k + 1;
            }
            None
        },
        _ => None,
    }
}

/// All the text under the node at `i`, joined.
pub fn text(doc: &Document, i: usize) -> (r: Vec<char>)
    requires
        i < doc.tokens().len(),
    ensures
        r@ == text_of(doc.tokens(), i as int),
{
    let end = subtree_end_exec(doc, i);
    let mut r: Vec<char> = Vec::new();
    let mut j: usize = i;
    while j < end
        invariant
            i <= j <= end <= doc.tokens().len(),
            r@ == joined_text(doc.tokens(), i as int, j as int),
        decreases end - j,
    {
        if let Token::Text(s) = doc.token(j) {
            let mut k: usize = 0;
            let ghost before = r@;
            while k < s.len()
                invariant
                    k <= s@.len(),
                    r@ == before + s@.subrange(0, k as int),
                decreases s@.len() - k,
            {
                r.push(s[k]);
                k = k + 1;
                assert(r@ =~= before + s@.subrange(0, k as int));
            }
            assert(s@.subrange(0, k as int) =~= s@);
        }
        j = j + 1;
    }
    r
}

/// The first text node under the node at `i`.
pub fn first_text(doc: &Document, i: usize) -> (r: Option<Vec<char>>)
    requires
        i < doc.tokens().len(),
    ensures
        opt_chars(r) == first_text_of(doc.tokens(), i as int),
{
    let end = subtree_end_exec(doc, i);
    let mut j: usize = i;
    while j < end
        invariant
            i <= j <= end <= doc.tokens().len(),
            end == subtree_end(doc.tokens(), i as int),
            texts_in(doc.tokens(), i as int, j as int).len() == 0,
        decreases end - j,
    {
        if let Token::Text(s) = doc.token(j) {
            proof {
                assert(doc.tokens()[j as int] == TokenView::Text(s@));
                assert(texts_in(doc.tokens(), i as int, j + 1) =~= seq![s@]);
                assert(texts_in(doc.tokens(), i as int, j + 1)[0] == s@);
                lemma_texts_in_extend(doc.tokens(), i as int, j as int + 1, end as int);
                assert(texts_in(doc.tokens(), i as int, end as int)[0] == s@);
            }
            return Some(copy_chars(s));
        }
        j = j + 1;
    }
    None
}

/// The texts of the text nodes in `lo..hi`.
pub fn texts(doc: &Document, lo: usize, hi: usize) -> (r: Vec<Vec<char>>)
    requires
        lo <= hi <= doc.tokens().len(),
    ensures
        r@.map_values(|v: Vec<char>| v@) == texts_in(doc.tokens(), lo as int, hi as int),
{
    let mut r: Vec<Vec<char>> = Vec::new();
    let mut j: usize = lo;
    assert(r@.map_values(|v: Vec<char>| v@) =~= texts_in(doc.tokens(), lo as int, lo as int));
    while j < hi
        invariant
            lo <= j <= hi <= doc.tokens().len(),
            r@.map_values(|v: Vec<char>| v@) == texts_in(doc.tokens(), lo as int, j as int),
        decreases hi - j,
    {
        if let Token::Text(s) = doc.token(j) {
            let ghost before = r@;
            r.push(copy_chars(s));
            assert(r@.map_values(|v: Vec<char>| v@) =~= before.map_values(|v: Vec<char>| v@).push(
                s@,
            ));
        }
        j = j + 1;
    }
    r
}

/// Texts found before `hi` stay in place when the range grows.
proof fn lemma_texts_in_extend(t: Seq<TokenView>, lo: int, hi: int, hi2: int)
    requires
        lo <= hi <= hi2 <= t.len(),
    ensures
        texts_in(t, lo, hi2).len() >= texts_in(t, lo, hi).len(),
        forall|k: int|
            0 <= k < texts_in(t, lo, hi).len() ==> texts_in(t, lo, hi2)[k] == #[trigger] texts_in(
                t,
                lo,
                hi,
            )[k],
    decreases hi2 - hi,
{
    if hi < hi2 {
        lemma_texts_in_extend(t, lo, hi, hi2 - 1);
    }
}

// ---------------------------------------------------------------------------
// Selecting nodes.

/// The first index in `lo..hi` that `m` marks.
pub open spec fn first_marked(m: Seq<bool>, lo: int, hi: int) -> Option<int>
    decreases hi - lo,
{
    if lo >= hi || lo < 0 || lo >= m.len() {
        None
    } else if m[lo] {
        Some(lo)
    } else {
        first_marked(m, lo + 1, hi)
    }
}

/// All indices in `lo..hi` that `m` marks, in increasing order.
pub open spec fn all_marked(m: Seq<bool>, lo: int, hi: int) -> Seq<int>
    decreases hi - lo,
{
    if hi <= lo || lo < 0 || hi > m.len() {
        Seq::empty()
    } else if m[hi - 1] {
        all_marked(m, lo, hi - 1).push(hi - 1)
    } else {
        all_marked(m, lo, hi - 1)
    }
}

/// The first node strictly under the node at `i` that `m` marks (`ElementRef::select`,
/// first item).
pub open spec fn select_first(t: Seq<TokenView>, m: Seq<bool>, i: int) -> Option<int> {
    first_marked(m, i + 1, subtree_end(t, i))
}

/// The nodes strictly under the node at `i` that `m` marks, in document order.
pub open spec fn select_all(t: Seq<TokenView>, m: Seq<bool>, i: int) -> Seq<int> {
    all_marked(m, i + 1, subtree_end(t, i))
}

pub fn first_marked_exec(m: &Vec<bool>, lo: usize, hi: usize) -> (r: Option<usize>)
    requires
        hi <= m@.len(),
    ensures
        opt_index(r) == first_marked(m@, lo as int, hi as int),
        r matches Some(k) ==> lo <= k < hi,
{
    let mut j: usize = lo;
    while j < hi
        invariant
            lo <= j,
            hi <= m@.len(),
            first_marked(m@, lo as int, hi as int) == first_marked(m@, j as int, hi as int),
        decreases hi - j,
    {
        if m[j] {
            return Some(j);
        }
        j = j + 1;
    }
    None
}

pub fn all_marked_exec(m: &Vec<bool>, lo: usize, hi: usize) -> (r: Vec<usize>)
    requires
        lo <= hi <= m@.len(),
    ensures
        r@.map_values(|k: usize| k as int) == all_marked(m@, lo as int, hi as int),
        forall|x: int| 0 <= x < r@.len() ==> lo <= #[trigger] r@[x] < hi,
{
    let mut r: Vec<usize> = Vec::new();
    let mut j: usize = lo;
    assert(r@.map_values(|k: usize| k as int) =~= all_marked(m@, lo as int, lo as int));
    while j < hi
        invariant
            lo <= j <= hi <= m@.len(),
            r@.map_values(|k: usize| k as int) == all_marked(m@, lo as int, j as int),
            forall|x: int| 0 <= x < r@.len() ==> lo <= #[trigger] r@[x] < j,
        decreases hi - j,
    {
        if m[j] {
            let ghost before = r@;
            r.push(j);
            assert(r@.map_values(|k: usize| k as int) =~= before.map_values(|k: usize| k as int).push(
                j as int,
            ));
        }
        j = j + 1;
    }
    r
}

/// The first node strictly under the node at `i` that `m` marks.
pub fn select_first_exec(doc: &Document, m: &Vec<bool>, i: usize) -> (r: Option<usize>)
    requires
        i < doc.tokens().len(),
        m@.len() == doc.tokens().len(),
    ensures
        opt_index(r) == select_first(doc.tokens(), m@, i as int),
        r matches Some(k) ==> k < doc.tokens().len(),
{
    let end = subtree_end_exec(doc, i);
    first_marked_exec(m, i + 1, end)
}

/// The nodes strictly under the node at `i` that `m` marks.
pub fn select_all_exec(doc: &Document, m: &Vec<bool>, i: usize) -> (r: Vec<usize>)
    requires
        i < doc.tokens().len(),
        m@.len() == doc.tokens().len(),
    ensures
        r@.map_values(|k: usize| k as int) == select_all(doc.tokens(), m@, i as int),
        forall|x: int| 0 <= x < r@.len() ==> #[trigger] r@[x] < doc.tokens().len(),
{
    let end = subtree_end_exec(doc, i);
    all_marked_exec(m, i + 1, end)
}

} // verus!
