//! Listing pages: one article record per listed thread.

use crate::dom::{
    all_marked, all_marked_exec, compile, css_matches, html_tokens, select_all, select_all_exec,
    select_first, selector_accepted, Document, Query, TokenView,
};
use crate::extract::{
    opt_attr, opt_text, selected_attr, selected_text, stamp, stamp_of,
};
use crate::text::{chars_of, concat_chars, eq_chars, parse_u32, parse_u32_spec, string_of};
use crate::time::{Date, DateTime};
use vstd::prelude::*;

verus! {

/// The compiled CSS queries that locate the parts of a listing page.
pub struct Selectors {
    pub items: Query,
    pub title: Query,
    pub author_picture: Query,
    pub author_name: Query,
    pub published_at: Query,
    pub published_at_normal: Query,
    pub view: Query,
    pub reply: Query,
    pub preview_images: Query,
    pub last_reply_name: Query,
    pub last_reply_published_at: Query,
    pub last_reply_published_at_normal: Query,
    pub href: Query,
}

/// For each query of a `Selectors`, which edges of a document it matches.
pub struct Marks {
    pub items: Vec<bool>,
    pub title: Vec<bool>,
    pub author_picture: Vec<bool>,
    pub author_name: Vec<bool>,
    pub published_at: Vec<bool>,
    pub published_at_normal: Vec<bool>,
    pub view: Vec<bool>,
    pub reply: Vec<bool>,
    pub preview_images: Vec<bool>,
    pub last_reply_name: Vec<bool>,
    pub last_reply_published_at: Vec<bool>,
    pub last_reply_published_at_normal: Vec<bool>,
    pub href: Vec<bool>,
}

/// The mathematical value of a `Marks`.
pub struct MarkSet {
    pub items: Seq<bool>,
    pub title: Seq<bool>,
    pub author_picture: Seq<bool>,
    pub author_name: Seq<bool>,
    pub published_at: Seq<bool>,
    pub published_at_normal: Seq<bool>,
    pub view: Seq<bool>,
    pub reply: Seq<bool>,
    pub preview_images: Seq<bool>,
    pub last_reply_name: Seq<bool>,
    pub last_reply_published_at: Seq<bool>,
    pub last_reply_published_at_normal: Seq<bool>,
    pub href: Seq<bool>,
}

/// The texts of the listing-page queries.
pub open spec fn selector_texts() -> Seq<Seq<char>> {
    seq![
        "#threadlisttableid > tbody"@,
        "tr > th > div.post_inforight > div.post_infolist > div > a.s"@,
        "tr > th > div.post_avatar > a > img"@,
        "tr > th > div.post_inforight > div.post_infolist_other > div:nth-child(1) > span.author > a"@,
        "tr > th > div.post_inforight > div.post_infolist_other > div:nth-child(1) > span.dateline > span"@,
        "tr > th > div.post_inforight > div.post_infolist_other > div:nth-child(1) > span.dateline"@,
        "tr > th > div.post_inforight > div.post_infolist_other > div.z.nums > span.views"@,
        "tr > th > div.post_inforight > div.post_infolist_other > div.z.nums > span.reply"@,
        "tr > th > div.post_inforight > div.post_infolist > div > a > img"@,
        "tr > th > div.post_inforight > div.post_infolist_other > span > a"@,
        "tr > th > div.post_inforight > div.post_infolist_other > span > span:nth-child(3) > span"@,
        "tr > th > div.post_inforight > div.post_infolist_other > span > span:nth-child(3)"@,
        "tr > th > div.post_inforight > div.post_infolist > div > a.s"@,
    ]
}

impl Selectors {
    /// The texts of the queries, in the order of the fields.
    pub open spec fn texts(&self) -> Seq<Seq<char>> {
        seq![
            self.items.text(),
            self.title.text(),
            self.author_picture.text(),
            self.author_name.text(),
            self.published_at.text(),
            self.published_at_normal.text(),
            self.view.text(),
            self.reply.text(),
            self.preview_images.text(),
            self.last_reply_name.text(),
            self.last_reply_published_at.text(),
            self.last_reply_published_at_normal.text(),
            self.href.text(),
        ]
    }

    /// Compiles the listing-page queries; `None` only where scraper refuses one of them.
    pub fn new() -> (r: Option<Self>)
        ensures
            r is Some <==> forall|k: int|
                0 <= k < selector_texts().len() ==> selector_accepted(#[trigger] selector_texts()[k]),
            r matches Some(s) ==> s.texts() == selector_texts(),
    {
        let items = match compile("#threadlisttableid > tbody") {
            Some(q) => q,
            None => {
                assert(!selector_accepted(selector_texts()[0]));
                return None;
            },
        };
        let title = match compile("tr > th > div.post_inforight > div.post_infolist > div > a.s") {
            Some(q) => q,
            None => {
                assert(!selector_accepted(selector_texts()[1]));
                return None;
            },
        };
        let author_picture = match compile("tr > th > div.post_avatar > a > img") {
            Some(q) => q,
            None => {
                assert(!selector_accepted(selector_texts()[2]));
                return None;
            },
        };
        let author_name = match compile("tr > th > div.post_inforight > div.post_infolist_other > div:nth-child(1) > span.author > a") {
            Some(q) => q,
            None => {
                assert(!selector_accepted(selector_texts()[3]));
                return None;
            },
        };
        let published_at = match compile("tr > th > div.post_inforight > div.post_infolist_other > div:nth-child(1) > span.dateline > span") {
            Some(q) => q,
            None => {
                assert(!selector_accepted(selector_texts()[4]));
                return None;
            },
        };
        let published_at_normal = match compile("tr > th > div.post_inforight > div.post_infolist_other > div:nth-child(1) > span.dateline") {
            Some(q) => q,
            None => {
                assert(!selector_accepted(selector_texts()[5]));
                return None;
            },
        };
        let view = match compile("tr > th > div.post_inforight > div.post_infolist_other > div.z.nums > span.views") {
            Some(q) => q,
            None => {
                assert(!selector_accepted(selector_texts()[6]));
                return None;
            },
        };
        let reply = match compile("tr > th > div.post_inforight > div.post_infolist_other > div.z.nums > span.reply") {
            Some(q) => q,
            None => {
                assert(!selector_accepted(selector_texts()[7]));
                return None;
            },
        };
        let preview_images = match compile("tr > th > div.post_inforight > div.post_infolist > div > a > img") {
            Some(q) => q,
            None => {
                assert(!selector_accepted(selector_texts()[8]));
                return None;
            },
        };
        let last_reply_name = match compile("tr > th > div.post_inforight > div.post_infolist_other > span > a") {
            Some(q) => q,
            None => {
                assert(!selector_accepted(selector_texts()[9]));
                return None;
            },
        };
        let last_reply_published_at = match compile("tr > th > div.post_inforight > div.post_infolist_other > span > span:nth-child(3) > span") {
            Some(q) => q,
            None => {
                assert(!selector_accepted(selector_texts()[10]));
                return None;
            },
        };
        let last_reply_published_at_normal = match compile("tr > th > div.post_inforight > div.post_infolist_other > span > span:nth-child(3)") {
            Some(q) => q,
            None => {
                assert(!selector_accepted(selector_texts()[11]));
                return None;
            },
        };
        let href = match compile("tr > th > div.post_inforight > div.post_infolist > div > a.s") {
            Some(q) => q,
            None => {
                assert(!selector_accepted(selector_texts()[12]));
                return None;
            },
        };
        let s = Selectors {
            items,
            title,
            author_picture,
            author_name,
            published_at,
            published_at_normal,
            view,
            reply,
            preview_images,
            last_reply_name,
            last_reply_published_at,
            last_reply_published_at_normal,
            href,
        };
        assert(s.texts() =~= selector_texts());
        Some(s)
    }
}

/// The marks of each query of `sels` on the document parsed from `source`.
pub open spec fn marks_of(source: Seq<char>, sels: &Selectors) -> MarkSet {
    MarkSet {
        items: css_matches(source, sels.items.text()),
        title: css_matches(source, sels.title.text()),
        author_picture: css_matches(source, sels.author_picture.text()),
        author_name: css_matches(source, sels.author_name.text()),
        published_at: css_matches(source, sels.published_at.text()),
        published_at_normal: css_matches(source, sels.published_at_normal.text()),
        view: css_matches(source, sels.view.text()),
        reply: css_matches(source, sels.reply.text()),
        preview_images: css_matches(source, sels.preview_images.text()),
        last_reply_name: css_matches(source, sels.last_reply_name.text()),
        last_reply_published_at: css_matches(source, sels.last_reply_published_at.text()),
        last_reply_published_at_normal: css_matches(source, sels.last_reply_published_at_normal.text()),
        href: css_matches(source, sels.href.text()),
    }
}

impl View for Marks {
    type V = MarkSet;

    open spec fn view(&self) -> MarkSet {
        MarkSet {
            items: self.items@,
            title: self.title@,
            author_picture: self.author_picture@,
            author_name: self.author_name@,
            published_at: self.published_at@,
            published_at_normal: self.published_at_normal@,
            view: self.view@,
            reply: self.reply@,
            preview_images: self.preview_images@,
            last_reply_name: self.last_reply_name@,
            last_reply_published_at: self.last_reply_published_at@,
            last_reply_published_at_normal: self.last_reply_published_at_normal@,
            href: self.href@,
        }
    }
}

impl Marks {
    /// Every mark sequence has one entry per edge of a walk of `n` edges.
    pub open spec fn sized(&self, n: int) -> bool {
        &&& self.items@.len() == n
        &&& self.title@.len() == n
        &&& self.author_picture@.len() == n
        &&& self.author_name@.len() == n
        &&& self.published_at@.len() == n
        &&& self.published_at_normal@.len() == n
        &&& self.view@.len() == n
        &&& self.reply@.len() == n
        &&& self.preview_images@.len() == n
        &&& self.last_reply_name@.len() == n
        &&& self.last_reply_published_at@.len() == n
        &&& self.last_reply_published_at_normal@.len() == n
        &&& self.href@.len() == n
    }

    /// Evaluates every query of `sels` on `doc`.
    pub fn of(doc: &Document, sels: &Selectors) -> (r: Marks)
        ensures
            r@ == marks_of(doc.source(), sels),
            r.sized(doc.tokens().len() as int),
    {
        Marks {
            items: doc.matches(&sels.items),
            title: doc.matches(&sels.title),
            author_picture: doc.matches(&sels.author_picture),
            author_name: doc.matches(&sels.author_name),
            published_at: doc.matches(&sels.published_at),
            published_at_normal: doc.matches(&sels.published_at_normal),
            view: doc.matches(&sels.view),
            reply: doc.matches(&sels.reply),
            preview_images: doc.matches(&sels.preview_images),
            last_reply_name: doc.matches(&sels.last_reply_name),
            last_reply_published_at: doc.matches(&sels.last_reply_published_at),
            last_reply_published_at_normal: doc.matches(&sels.last_reply_published_at_normal),
            href: doc.matches(&sels.href),
        }
    }
}

// ---------------------------------------------------------------------------
// Records.

/// A listed thread's author.
#[derive(Clone, Debug, PartialEq, Eq)]
pub struct Author {
    pub name: String,
    pub picture: String,
}

/// The last reply to a listed thread.
#[derive(Clone, Debug, PartialEq, Eq)]
pub struct LastReply {
    pub name: String,
    pub published_at: DateTime,
}

/// One listed thread.
#[derive(Clone, Debug, PartialEq, Eq)]
pub struct Article {
    pub title: String,
    pub author: Author,
    pub published_at: Date,
    pub view: u32,
    pub reply: u32,
    pub last_reply: LastReply,
    pub preview_images: Vec<String>,
    pub href: String,
}

pub struct ArticleView {
    pub title: Seq<char>,
    pub author_name: Seq<char>,
    pub author_picture: Seq<char>,
    pub published_at: Date,
    pub view: u32,
    pub reply: u32,
    pub last_reply_name: Seq<char>,
    pub last_reply_published_at: DateTime,
    pub preview_images: Seq<Seq<char>>,
    pub href: Seq<char>,
}

impl View for Article {
    type V = ArticleView;

    open spec fn view(&self) -> ArticleView {
        ArticleView {
            title: self.title@,
            author_name: self.author.name@,
            author_picture: self.author.picture@,
            published_at: self.published_at,
            view: self.view,
            reply: self.reply,
            last_reply_name: self.last_reply.name@,
            last_reply_published_at: self.last_reply.published_at,
            preview_images: self.preview_images@.map_values(|s: String| s@),
            href: self.href@,
        }
    }
}

pub open spec fn articles_view(v: Seq<Article>) -> Seq<ArticleView> {
    v.map_values(|a: Article| a@)
}

// ---------------------------------------------------------------------------
// What a listing page holds.

/// The address that relative links of the forum are resolved against.
pub open spec fn forum_base() -> Seq<char> {
    "https://www.javbus.com/forum/"@
}

/// Whether an image source is one of the two decorative icons of the listing.
pub open spec fn is_icon(src: Seq<char>) -> bool {
    src == "template/javbus/images/folder_lock.gif"@ || src == "template/javbus/images/pollsmall.gif"@
}

/// The preview images of the nodes at `ks`: each `src`, icons left out, made absolute.
pub open spec fn previews_of(t: Seq<TokenView>, ks: Seq<int>) -> Seq<Seq<char>>
    decreases ks.len(),
{
    if ks.len() == 0 {
        Seq::empty()
    } else {
        let prev = previews_of(t, ks.drop_last());
        match crate::dom::attr_of(t, ks.last(), "src"@) {
            Some(src) => if is_icon(src) {
                prev
            } else {
                prev.push(forum_base() + src)
            },
            None => prev,
        }
    }
}

/// The article whose row is at `i`, or `None` where a field of it is missing.
pub open spec fn article_of(t: Seq<TokenView>, m: MarkSet, i: int) -> Option<ArticleView> {
    let title = opt_text(t, select_first(t, m.title, i));
    let picture = opt_attr(t, select_first(t, m.author_picture, i), "src"@);
    let name = opt_text(t, select_first(t, m.author_name, i));
    let published_at = crate::extract::date_of(
        t,
        m.published_at,
        m.published_at_normal,
        i,
        "%Y-%m-%d"@,
    );
    let view = match opt_text(t, select_first(t, m.view, i)) {
        Some(v) => parse_u32_spec(v),
        None => None,
    };
    let reply = match opt_text(t, select_first(t, m.reply, i)) {
        Some(v) => parse_u32_spec(v),
        None => None,
    };
    let last_name = opt_text(t, select_first(t, m.last_reply_name, i));
    let last_at = stamp_of(
        t,
        m.last_reply_published_at,
        m.last_reply_published_at_normal,
        i,
        "%Y-%m-%d %H:%M"@,
    );
    let href = opt_attr(t, select_first(t, m.href, i), "href"@);
    if title is Some && picture is Some && name is Some && published_at is Some && view is Some
        && reply is Some && last_name is Some && last_at is Some && href is Some {
        Some(
            ArticleView {
                title: title->0,
                author_name: name->0,
                author_picture: picture->0,
                published_at: published_at->0,
                view: view->0,
                reply: reply->0,
                last_reply_name: last_name->0,
                last_reply_published_at: last_at->0,
                preview_images: previews_of(t, select_all(t, m.preview_images, i)),
                href: forum_base() + href->0,
            },
        )
    } else {
        None
    }
}

/// The articles whose rows are at `ks`, in order, leaving out those with a missing field.
pub open spec fn articles_of(t: Seq<TokenView>, m: MarkSet, ks: Seq<int>) -> Seq<ArticleView>
    decreases ks.len(),
{
    if ks.len() == 0 {
        Seq::empty()
    } else {
        let prev = articles_of(t, m, ks.drop_last());
        match article_of(t, m, ks.last()) {
            Some(a) => prev.push(a),
            None => prev,
        }
    }
}

/// The articles of the listing page `text`, in document order.
pub open spec fn listing_of(text: Seq<char>, sels: &Selectors) -> Seq<ArticleView> {
    let t = html_tokens(text);
    let m = marks_of(text, sels);
    articles_of(t, m, all_marked(m.items, 0, t.len() as int))
}

// ---------------------------------------------------------------------------
// Extraction.

/// The preview images of the nodes at `ks`.
fn parse_previews(doc: &Document, ks: &Vec<usize>) -> (r: Vec<String>)
    requires
        forall|x: int| 0 <= x < ks@.len() ==> #[trigger] ks@[x] < doc.tokens().len(),
    ensures
        r@.map_values(|s: String| s@) == previews_of(
            doc.tokens(),
            ks@.map_values(|k: usize| k as int),
        ),
{
    let ghost kv = ks@.map_values(|k: usize| k as int);
    let base = chars_of("https://www.javbus.com/forum/");
    let src = chars_of("src");
    let lock = chars_of("template/javbus/images/folder_lock.gif");
    let poll = chars_of("template/javbus/images/pollsmall.gif");
    let mut r: Vec<String> = Vec::new();
    let mut x: usize = 0;
    assert(kv.subrange(0, 0) =~= Seq::<int>::empty());
    assert(r@.map_values(|s: String| s@) =~= Seq::<Seq<char>>::empty());
    while x < ks.len()
        invariant
            x <= ks@.len() == kv.len(),
            kv == ks@.map_values(|k: usize| k as int),
            forall|y: int| 0 <= y < ks@.len() ==> #[trigger] ks@[y] < doc.tokens().len(),
            base@ == forum_base(),
            src@ == "src"@,
            lock@ == "template/javbus/images/folder_lock.gif"@,
            poll@ == "template/javbus/images/pollsmall.gif"@,
            r@.map_values(|s: String| s@) == previews_of(doc.tokens(), kv.subrange(0, x as int)),
        decreases ks@.len() - x,
    {
        let ghost before = r@.map_values(|s: String| s@);
        assert(kv.subrange(0, x + 1).drop_last() =~= kv.subrange(0, x as int));
        if let Some(v) = crate::dom::attr(doc, ks[x], &src) {
            if !eq_chars(&v, &lock) && !eq_chars(&v, &poll) {
                let full = string_of(&concat_chars(&base, &v));
                r.push(full);
                assert(r@.map_values(|s: String| s@) =~= before.push(forum_base() + v@));
            }
        }
        x = x + 1;
    }
    assert(kv.subrange(0, x as int) =~= kv);
    r
}

/// The article whose row is at `i`.
pub fn parse_single_article(doc: &Document, m: &Marks, i: usize) -> (r: Option<Article>)
    requires
        i < doc.tokens().len(),
        m.sized(doc.tokens().len() as int),
    ensures
        match r {
            Some(a) => article_of(doc.tokens(), m@, i as int) == Some(a@),
            None => article_of(doc.tokens(), m@, i as int) is None,
        },
{
    let title = match selected_text(doc, &m.title, i) {
        Some(v) => v,
        None => return None,
    };
    let picture = match selected_attr(doc, &m.author_picture, i, "src") {
        Some(v) => v,
        None => return None,
    };
    let name = match selected_text(doc, &m.author_name, i) {
        Some(v) => v,
        None => return None,
    };
    let published_at = match crate::extract::date(
        doc,
        &m.published_at,
        &m.published_at_normal,
        i,
        "%Y-%m-%d",
    ) {
        Some(d) => d,
        None => return None,
    };
    let view = match selected_text(doc, &m.view, i) {
        Some(v) => match parse_u32(&v) {
            Some(n) => n,
            None => return None,
        },
        None => return None,
    };
    let reply = match selected_text(doc, &m.reply, i) {
        Some(v) => match parse_u32(&v) {
            Some(n) => n,
            None => return None,
        },
        None => return None,
    };
    let last_name = match selected_text(doc, &m.last_reply_name, i) {
        Some(v) => v,
        None => return None,
    };
    let last_at = match stamp(
        doc,
        &m.last_reply_published_at,
        &m.last_reply_published_at_normal,
        i,
        "%Y-%m-%d %H:%M",
    ) {
        Some(d) => d,
        None => return None,
    };
    let ks = select_all_exec(doc, &m.preview_images, i);
    let preview_images = parse_previews(doc, &ks);
    let href = match selected_attr(doc, &m.href, i, "href") {
        Some(v) => v,
        None => return None,
    };
    let href = concat_chars(&chars_of("https://www.javbus.com/forum/"), &href);
    Some(
        Article {
            title: string_of(&title),
            author: Author { name: string_of(&name), picture: string_of(&picture) },
            published_at,
            view,
            reply,
            last_reply: LastReply { name: string_of(&last_name), published_at: last_at },
            preview_images,
            href: string_of(&href),
        },
    )
}

/// The articles of the listing page `text`, in document order; rows with a missing
/// field are left out.
pub fn parse_page(text: &str, selectors: &Selectors) -> (r: Vec<Article>)
    ensures
        articles_view(r@) == listing_of(text@, selectors),
{
    let doc = Document::parse(text);
    let m = Marks::of(&doc, selectors);
    let ks = all_marked_exec(&m.items, 0, doc.len());
    let ghost kv = ks@.map_values(|k: usize| k as int);
    let mut r: Vec<Article> = Vec::new();
    let mut x: usize = 0;
    assert(kv.subrange(0, 0) =~= Seq::<int>::empty());
    assert(articles_view(r@) =~= Seq::<ArticleView>::empty());
    while x < ks.len()
        invariant
            x <= ks@.len() == kv.len(),
            kv == ks@.map_values(|k: usize| k as int),
            kv == all_marked(m@.items, 0, doc.tokens().len() as int),
            forall|y: int| 0 <= y < ks@.len() ==> 0 <= #[trigger] ks@[y] < doc.tokens().len(),
            m.sized(doc.tokens().len() as int),
            articles_view(r@) == articles_of(doc.tokens(), m@, kv.subrange(0, x as int)),
        decreases ks@.len() - x,
    {
        let ghost before = articles_view(r@);
        assert(kv.subrange(0, x + 1).drop_last() =~= kv.subrange(0, x as int));
        if let Some(a) = parse_single_article(&doc, &m, ks[x]) {
            r.push(a);
            assert(articles_view(r@) =~= before.push(a@));
        }
        x = x + 1;
    }
    assert(kv.subrange(0, x as int) =~= kv);
    r
}

// ---------------------------------------------------------------------------
// Laws.

/// Parsing is deterministic: two results of `parse_page` on the same text and queries
/// are equal.
pub proof fn lemma_parse_deterministic(
    text: Seq<char>,
    sels: &Selectors,
    r1: Seq<Article>,
    r2: Seq<Article>,
)
    requires
        articles_view(r1) == listing_of(text, sels),
        articles_view(r2) == listing_of(text, sels),
    ensures
        articles_view(r1) == articles_view(r2),
{
}

/// Rows are read one by one: the articles of a list of rows are those of its first
/// part followed by those of its second.
pub proof fn lemma_articles_concat(t: Seq<TokenView>, m: MarkSet, a: Seq<int>, b: Seq<int>)
    ensures
        articles_of(t, m, a + b) == articles_of(t, m, a) + articles_of(t, m, b),
    decreases b.len(),
{
    if b.len() == 0 {
        assert(a + b =~= a);
        assert(articles_of(t, m, a) + articles_of(t, m, b) =~= articles_of(t, m, a));
    } else {
        lemma_articles_concat(t, m, a, b.drop_last());
        assert((a + b).drop_last() =~= a + b.drop_last());
        assert((a + b).last() == b.last());
        assert(articles_of(t, m, a + b) =~= articles_of(t, m, a) + articles_of(t, m, b));
    }
}

/// A row whose view count is missing or is no number is left out of the listing, and
/// the rows before and after it are read as if it were not there.
pub proof fn lemma_row_without_views_dropped(
    t: Seq<TokenView>,
    m: MarkSet,
    before: Seq<int>,
    k: int,
    after: Seq<int>,
)
    requires
        match opt_text(t, select_first(t, m.view, k)) {
            Some(v) => parse_u32_spec(v) is None,
            None => true,
        },
    ensures
        article_of(t, m, k) is None,
        articles_of(t, m, before + seq![k] + after) == articles_of(t, m, before) + articles_of(
            t,
            m,
            after,
        ),
{
    lemma_articles_concat(t, m, before + seq![k], after);
    lemma_articles_concat(t, m, before, seq![k]);
    assert(article_of(t, m, k) is None);
    assert(seq![k].drop_last() =~= Seq::<int>::empty());
    assert(seq![k].last() == k);
    assert(articles_of(t, m, Seq::<int>::empty()) =~= Seq::<ArticleView>::empty());
    assert(articles_of(t, m, seq![k]) =~= Seq::<ArticleView>::empty());
    assert(articles_of(t, m, before) + articles_of(t, m, seq![k]) =~= articles_of(t, m, before));
}

} // verus!
