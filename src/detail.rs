//! Thread pages: the thread's title, its page count, its posts and their replies.

use crate::content::{content_of, contents_view, parse_content, Content, ContentView};
use crate::dom::{
    compile, css_matches, first_marked, select_first_exec, first_marked_exec, all_marked, all_marked_exec,
    html_tokens, select_all, select_all_exec, selector_accepted, Document, Query, TokenView,
};
use crate::extract::{
    opt_attr, opt_first_text, opt_text, selected_attr, selected_first_text, selected_text, stamp,
    stamp_of,
};
use crate::text::{
    parse_u32, parse_u32_spec, string_of, trim, trim_both, trim_chars, CharClass,
};
use crate::time::{date_time_spec, parse_date_time, DateTime};
use vstd::prelude::*;

verus! {

/// The compiled CSS queries that locate the parts of a thread page.
pub struct Selectors {
    pub title: Query,
    pub page: Query,
    pub main_author_name: Query,
    pub main_author_picture: Query,
    pub main_published_at: Query,
    pub main_content: Query,
    pub main_replys: Query,
    pub reply_name: Query,
    pub reply_picture: Query,
    pub reply_published_at: Query,
    pub reply_published_at_normal: Query,
    pub reply_content: Query,
    pub items: Query,
    pub item_name: Query,
    pub item_picture: Query,
    pub item_published_at: Query,
    pub item_published_at_normal: Query,
    pub item_count: Query,
    pub item_content: Query,
    pub item_replys: Query,
}

/// For each query of a `Selectors`, which edges of a document it matches.
pub struct Marks {
    pub title: Vec<bool>,
    pub page: Vec<bool>,
    pub main_author_name: Vec<bool>,
    pub main_author_picture: Vec<bool>,
    pub main_published_at: Vec<bool>,
    pub main_content: Vec<bool>,
    pub main_replys: Vec<bool>,
    pub reply_name: Vec<bool>,
    pub reply_picture: Vec<bool>,
    pub reply_published_at: Vec<bool>,
    pub reply_published_at_normal: Vec<bool>,
    pub reply_content: Vec<bool>,
    pub items: Vec<bool>,
    pub item_name: Vec<bool>,
    pub item_picture: Vec<bool>,
    pub item_published_at: Vec<bool>,
    pub item_published_at_normal: Vec<bool>,
    pub item_count: Vec<bool>,
    pub item_content: Vec<bool>,
    pub item_replys: Vec<bool>,
}

/// The texts of the thread-page queries.
pub open spec fn selector_texts() -> Seq<Seq<char>> {
    seq![
        "#thread_subject"@,
        "#ct > div.wp.cl > div.mn > div.pgs.mtm.mbm.cl > div.pg > label > span"@,
        "#ct > div.wp.cl > div.sd.sd_allbox > div.viewthread_authorinfo > div.authi > a"@,
        "#ct > div.wp.cl > div.sd.sd_allbox > div.viewthread_authorinfo > div.avatar > a > img"@,
        "#postlist > div.nthread_info.cl > div > div > span:nth-child(2)"@,
        "#postlist > div.nthread_firstpostbox > table.nthread_firstpost > tbody > tr:nth-child(1) > td > div > div > div:nth-child(2) > table > tbody > tr > td.t_f"@,
        "#postlist > div.nthread_firstpostbox > table.nthread_firstpost > tbody > tr:nth-child(1) > td > div > div > div.cm > div.pstl"@,
        "div.psta.vm > a.xi2.xw1"@,
        "div.psta.vm > a:nth-child(1) > img"@,
        "div.psti > span > span"@,
        "div.psti > span"@,
        "div.psti"@,
        "#postlist > div.nthread_postbox"@,
        "table.plhin > tbody > tr:nth-child(1) > td.plc > div.pi > div > div.authi > a.xw1"@,
        "table.plhin > tbody > tr:nth-child(1) > td.pls > div.pls.favatar > div > div.avatar > a > img"@,
        "table.plhin > tbody > tr:nth-child(1) > td.plc > div.pi > div > div.authi > em > span"@,
        "table.plhin > tbody > tr:nth-child(1) > td.plc > div.pi > div > div.authi > em"@,
        "table.plhin > tbody > tr:nth-child(1) > td.plc > div.pi > strong > a > em"@,
        "table.plhin > tbody > tr:nth-child(1) > td.plc > div.pct > div > div:nth-child(1) > table > tbody > tr > td.t_f"@,
        "table.plhin > tbody > tr:nth-child(1) > td.plc > div.pct > div.pcb > div.cm > div.pstl.xs1.cl"@,
    ]
}

impl Selectors {
    /// The texts of the queries, in the order of the fields.
    pub open spec fn texts(&self) -> Seq<Seq<char>> {
        seq![
            self.title.text(),
            self.page.text(),
            self.main_author_name.text(),
            self.main_author_picture.text(),
            self.main_published_at.text(),
            self.main_content.text(),
            self.main_replys.text(),
            self.reply_name.text(),
            self.reply_picture.text(),
            self.reply_published_at.text(),
            self.reply_published_at_normal.text(),
            self.reply_content.text(),
            self.items.text(),
            self.item_name.text(),
            self.item_picture.text(),
            self.item_published_at.text(),
            self.item_published_at_normal.text(),
            self.item_count.text(),
            self.item_content.text(),
            self.item_replys.text(),
        ]
    }

    /// Compiles the thread-page queries; `None` only where scraper refuses one of them.
    pub fn new() -> (r: Option<Self>)
        ensures
            r is Some <==> forall|k: int|
                0 <= k < selector_texts().len() ==> selector_accepted(#[trigger] selector_texts()[k]),
            r matches Some(s) ==> s.texts() == selector_texts(),
    {
        let title = match compile("#thread_subject") {
            Some(q) => q,
            None => {
                assert(!selector_accepted(selector_texts()[0]));
                return None;
            },
        };
        let page = match compile("#ct > div.wp.cl > div.mn > div.pgs.mtm.mbm.cl > div.pg > label > span") {
            Some(q) => q,
            None => {
                assert(!selector_accepted(selector_texts()[1]));
                return None;
            },
        };
        let main_author_name = match compile("#ct > div.wp.cl > div.sd.sd_allbox > div.viewthread_authorinfo > div.authi > a") {
            Some(q) => q,
            None => {
                assert(!selector_accepted(selector_texts()[2]));
                return None;
            },
        };
        let main_author_picture = match compile("#ct > div.wp.cl > div.sd.sd_allbox > div.viewthread_authorinfo > div.avatar > a > img") {
            Some(q) => q,
            None => {
                assert(!selector_accepted(selector_texts()[3]));
                return None;
            },
        };
        let main_published_at = match compile("#postlist > div.nthread_info.cl > div > div > span:nth-child(2)") {
            Some(q) => q,
            None => {
                assert(!selector_accepted(selector_texts()[4]));
                return None;
            },
        };
        let main_content = match compile("#postlist > div.nthread_firstpostbox > table.nthread_firstpost > tbody > tr:nth-child(1) > td > div > div > div:nth-child(2) > table > tbody > tr > td.t_f") {
            Some(q) => q,
            None => {
                assert(!selector_accepted(selector_texts()[5]));
                return None;
            },
        };
        let main_replys = match compile("#postlist > div.nthread_firstpostbox > table.nthread_firstpost > tbody > tr:nth-child(1) > td > div > div > div.cm > div.pstl") {
            Some(q) => q,
            None => {
                assert(!selector_accepted(selector_texts()[6]));
                return None;
            },
        };
        let reply_name = match compile("div.psta.vm > a.xi2.xw1") {
            Some(q) => q,
            None => {
                assert(!selector_accepted(selector_texts()[7]));
                return None;
            },
        };
        let reply_picture = match compile("div.psta.vm > a:nth-child(1) > img") {
            Some(q) => q,
            None => {
                assert(!selector_accepted(selector_texts()[8]));
                return None;
            },
        };
        let reply_published_at = match compile("div.psti > span > span") {
            Some(q) => q,
            None => {
                assert(!selector_accepted(selector_texts()[9]));
                return None;
            },
        };
        let reply_published_at_normal = match compile("div.psti > span") {
            Some(q) => q,
            None => {
                assert(!selector_accepted(selector_texts()[10]));
                return None;
            },
        };
        let reply_content = match compile("div.psti") {
            Some(q) => q,
            None => {
                assert(!selector_accepted(selector_texts()[11]));
                return None;
            },
        };
        let items = match compile("#postlist > div.nthread_postbox") {
            Some(q) => q,
            None => {
                assert(!selector_accepted(selector_texts()[12]));
                return None;
            },
        };
        let item_name = match compile("table.plhin > tbody > tr:nth-child(1) > td.plc > div.pi > div > div.authi > a.xw1") {
            Some(q) => q,
            None => {
                assert(!selector_accepted(selector_texts()[13]));
                return None;
            },
        };
        let item_picture = match compile("table.plhin > tbody > tr:nth-child(1) > td.pls > div.pls.favatar > div > div.avatar > a > img") {
            Some(q) => q,
            None => {
                assert(!selector_accepted(selector_texts()[14]));
                return None;
            },
        };
        let item_published_at = match compile("table.plhin > tbody > tr:nth-child(1) > td.plc > div.pi > div > div.authi > em > span") {
            Some(q) => q,
            None => {
                assert(!selector_accepted(selector_texts()[15]));
                return None;
            },
        };
        let item_published_at_normal = match compile("table.plhin > tbody > tr:nth-child(1) > td.plc > div.pi > div > div.authi > em") {
            Some(q) => q,
            None => {
                assert(!selector_accepted(selector_texts()[16]));
                return None;
            },
        };
        let item_count = match compile("table.plhin > tbody > tr:nth-child(1) > td.plc > div.pi > strong > a > em") {
            Some(q) => q,
            None => {
                assert(!selector_accepted(selector_texts()[17]));
                return None;
            },
        };
        let item_content = match compile("table.plhin > tbody > tr:nth-child(1) > td.plc > div.pct > div > div:nth-child(1) > table > tbody > tr > td.t_f") {
            Some(q) => q,
            None => {
                assert(!selector_accepted(selector_texts()[18]));
                return None;
            },
        };
        let item_replys = match compile("table.plhin > tbody > tr:nth-child(1) > td.plc > div.pct > div.pcb > div.cm > div.pstl.xs1.cl") {
            Some(q) => q,
            None => {
                assert(!selector_accepted(selector_texts()[19]));
                return None;
            },
        };
        let s = Selectors {
            title,
            page,
            main_author_name,
            main_author_picture,
            main_published_at,
            main_content,
            main_replys,
            reply_name,
            reply_picture,
            reply_published_at,
            reply_published_at_normal,
            reply_content,
            items,
            item_name,
            item_picture,
            item_published_at,
            item_published_at_normal,
            item_count,
            item_content,
            item_replys,
        };
        assert(s.texts() =~= selector_texts());
        Some(s)
    }
}


/// For each query of a `Selectors`, which edges of a document it matches.
pub struct MarkSet {
    pub title: Seq<bool>,
    pub page: Seq<bool>,
    pub main_author_name: Seq<bool>,
    pub main_author_picture: Seq<bool>,
    pub main_published_at: Seq<bool>,
    pub main_content: Seq<bool>,
    pub main_replys: Seq<bool>,
    pub reply_name: Seq<bool>,
    pub reply_picture: Seq<bool>,
    pub reply_published_at: Seq<bool>,
    pub reply_published_at_normal: Seq<bool>,
    pub reply_content: Seq<bool>,
    pub items: Seq<bool>,
    pub item_name: Seq<bool>,
    pub item_picture: Seq<bool>,
    pub item_published_at: Seq<bool>,
    pub item_published_at_normal: Seq<bool>,
    pub item_count: Seq<bool>,
    pub item_content: Seq<bool>,
    pub item_replys: Seq<bool>,
}

/// The marks of each query of `sels` on the document parsed from `source`.
pub open spec fn marks_of(source: Seq<char>, sels: &Selectors) -> MarkSet {
    MarkSet {
        title: css_matches(source, sels.title.text()),
        page: css_matches(source, sels.page.text()),
        main_author_name: css_matches(source, sels.main_author_name.text()),
        main_author_picture: css_matches(source, sels.main_author_picture.text()),
        main_published_at: css_matches(source, sels.main_published_at.text()),
        main_content: css_matches(source, sels.main_content.text()),
        main_replys: css_matches(source, sels.main_replys.text()),
        reply_name: css_matches(source, sels.reply_name.text()),
        reply_picture: css_matches(source, sels.reply_picture.text()),
        reply_published_at: css_matches(source, sels.reply_published_at.text()),
        reply_published_at_normal: css_matches(source, sels.reply_published_at_normal.text()),
        reply_content: css_matches(source, sels.reply_content.text()),
        items: css_matches(source, sels.items.text()),
        item_name: css_matches(source, sels.item_name.text()),
        item_picture: css_matches(source, sels.item_picture.text()),
        item_published_at: css_matches(source, sels.item_published_at.text()),
        item_published_at_normal: css_matches(source, sels.item_published_at_normal.text()),
        item_count: css_matches(source, sels.item_count.text()),
        item_content: css_matches(source, sels.item_content.text()),
        item_replys: css_matches(source, sels.item_replys.text()),
    }
}

impl View for Marks {
    type V = MarkSet;

    open spec fn view(&self) -> MarkSet {
        MarkSet {
            title: self.title@,
            page: self.page@,
            main_author_name: self.main_author_name@,
            main_author_picture: self.main_author_picture@,
            main_published_at: self.main_published_at@,
            main_content: self.main_content@,
            main_replys: self.main_replys@,
            reply_name: self.reply_name@,
            reply_picture: self.reply_picture@,
            reply_published_at: self.reply_published_at@,
            reply_published_at_normal: self.reply_published_at_normal@,
            reply_content: self.reply_content@,
            items: self.items@,
            item_name: self.item_name@,
            item_picture: self.item_picture@,
            item_published_at: self.item_published_at@,
            item_published_at_normal: self.item_published_at_normal@,
            item_count: self.item_count@,
            item_content: self.item_content@,
            item_replys: self.item_replys@,
        }
    }
}

impl Marks {
    /// Every mark sequence has one entry per edge of a walk of `n` edges.
    pub open spec fn sized(&self, n: int) -> bool {
        &&& self.title@.len() == n
        &&& self.page@.len() == n
        &&& self.main_author_name@.len() == n
        &&& self.main_author_picture@.len() == n
        &&& self.main_published_at@.len() == n
        &&& self.main_content@.len() == n
        &&& self.main_replys@.len() == n
        &&& self.reply_name@.len() == n
        &&& self.reply_picture@.len() == n
        &&& self.reply_published_at@.len() == n
        &&& self.reply_published_at_normal@.len() == n
        &&& self.reply_content@.len() == n
        &&& self.items@.len() == n
        &&& self.item_name@.len() == n
        &&& self.item_picture@.len() == n
        &&& self.item_published_at@.len() == n
        &&& self.item_published_at_normal@.len() == n
        &&& self.item_count@.len() == n
        &&& self.item_content@.len() == n
        &&& self.item_replys@.len() == n
    }

    /// Evaluates every query of `sels` on `doc`.
    pub fn of(doc: &Document, sels: &Selectors) -> (r: Marks)
        ensures
            r@ == marks_of(doc.source(), sels),
            r.sized(doc.tokens().len() as int),
    {
        Marks {
            title: doc.matches(&sels.title),
            page: doc.matches(&sels.page),
            main_author_name: doc.matches(&sels.main_author_name),
            main_author_picture: doc.matches(&sels.main_author_picture),
            main_published_at: doc.matches(&sels.main_published_at),
            main_content: doc.matches(&sels.main_content),
            main_replys: doc.matches(&sels.main_replys),
            reply_name: doc.matches(&sels.reply_name),
            reply_picture: doc.matches(&sels.reply_picture),
            reply_published_at: doc.matches(&sels.reply_published_at),
            reply_published_at_normal: doc.matches(&sels.reply_published_at_normal),
            reply_content: doc.matches(&sels.reply_content),
            items: doc.matches(&sels.items),
            item_name: doc.matches(&sels.item_name),
            item_picture: doc.matches(&sels.item_picture),
            item_published_at: doc.matches(&sels.item_published_at),
            item_published_at_normal: doc.matches(&sels.item_published_at_normal),
            item_count: doc.matches(&sels.item_count),
            item_content: doc.matches(&sels.item_content),
            item_replys: doc.matches(&sels.item_replys),
        }
    }
}

// ---------------------------------------------------------------------------
// Records.

/// A short comment attached to a post.
#[derive(Clone, Debug, PartialEq, Eq)]
pub struct Reply {
    pub author_name: String,
    pub author_picture: String,
    pub published_at: DateTime,
    pub content: String,
}

/// A post of a thread.
#[derive(Clone, Debug, PartialEq, Eq)]
pub struct Talk {
    pub author_name: String,
    pub author_picture: String,
    pub published_at: DateTime,
    /// The floor number shown as `#N`; 1 for the thread's opening post.
    pub count: u32,
    pub content: Vec<Content>,
    pub replys: Vec<Reply>,
}

/// The first page of a thread.
#[derive(Clone, Debug, PartialEq, Eq)]
pub struct TalkPage {
    pub total_page: u32,
    pub title: String,
    pub href: String,
    pub talks: Vec<Talk>,
}

/// What a page of a thread yields: the whole first page, or the posts of a later one.
#[derive(Clone, Debug, PartialEq, Eq)]
pub enum Update {
    All(TalkPage),
    Talk(Vec<Talk>),
}

pub struct ReplyView {
    pub author_name: Seq<char>,
    pub author_picture: Seq<char>,
    pub published_at: DateTime,
    pub content: Seq<char>,
}

pub struct TalkView {
    pub author_name: Seq<char>,
    pub author_picture: Seq<char>,
    pub published_at: DateTime,
    pub count: u32,
    pub content: Seq<ContentView>,
    pub replys: Seq<ReplyView>,
}

pub struct TalkPageView {
    pub total_page: u32,
    pub title: Seq<char>,
    pub href: Seq<char>,
    pub talks: Seq<TalkView>,
}

pub enum UpdateView {
    All(TalkPageView),
    Talk(Seq<TalkView>),
}

impl View for Reply {
    type V = ReplyView;

    open spec fn view(&self) -> ReplyView {
        ReplyView {
            author_name: self.author_name@,
            author_picture: self.author_picture@,
            published_at: self.published_at,
            content: self.content@,
        }
    }
}

pub open spec fn replys_view(v: Seq<Reply>) -> Seq<ReplyView> {
    v.map_values(|r: Reply| r@)
}

impl View for Talk {
    type V = TalkView;

    open spec fn view(&self) -> TalkView {
        TalkView {
            author_name: self.author_name@,
            author_picture: self.author_picture@,
            published_at: self.published_at,
            count: self.count,
            content: contents_view(self.content@),
            replys: replys_view(self.replys@),
        }
    }
}

pub open spec fn talks_view(v: Seq<Talk>) -> Seq<TalkView> {
    v.map_values(|t: Talk| t@)
}

impl View for TalkPage {
    type V = TalkPageView;

    open spec fn view(&self) -> TalkPageView {
        TalkPageView {
            total_page: self.total_page,
            title: self.title@,
            href: self.href@,
            talks: talks_view(self.talks@),
        }
    }
}

impl View for Update {
    type V = UpdateView;

    open spec fn view(&self) -> UpdateView {
        match self {
            Update::All(p) => UpdateView::All(p@),
            Update::Talk(v) => UpdateView::Talk(talks_view(v@)),
        }
    }
}

pub open spec fn opt_update_view(u: Option<Update>) -> Option<UpdateView> {
    match u {
        Some(u) => Some(u@),
        None => None,
    }
}

// ---------------------------------------------------------------------------
// What a thread page holds.

/// The format of post timestamps.
pub open spec fn post_time_format() -> Seq<char> {
    "%Y-%m-%d %H:%M:%S"@
}

/// The format of reply timestamps.
pub open spec fn reply_time_format() -> Seq<char> {
    "%Y-%m-%d %H:%M"@
}

/// The reply whose element is at `i`, or `None` where a field of it is missing.
pub open spec fn reply_of(t: Seq<TokenView>, m: MarkSet, i: int) -> Option<ReplyView> {
    let name = opt_text(t, crate::dom::select_first(t, m.reply_name, i));
    let picture = opt_attr(t, crate::dom::select_first(t, m.reply_picture, i), "src"@);
    let at = stamp_of(t, m.reply_published_at, m.reply_published_at_normal, i, reply_time_format());
    let content = opt_first_text(t, crate::dom::select_first(t, m.reply_content, i));
    if name is Some && picture is Some && at is Some && content is Some {
        Some(
            ReplyView {
                author_name: name->0,
                author_picture: picture->0,
                published_at: at->0,
                content: trim(content->0),
            },
        )
    } else {
        None
    }
}

/// The replies whose elements are at `ks`, in order, leaving out those with a missing field.
pub open spec fn replys_of(t: Seq<TokenView>, m: MarkSet, ks: Seq<int>) -> Seq<ReplyView>
    decreases ks.len(),
{
    if ks.len() == 0 {
        Seq::empty()
    } else {
        let prev = replys_of(t, m, ks.drop_last());
        match reply_of(t, m, ks.last()) {
            Some(r) => prev.push(r),
            None => prev,
        }
    }
}

/// The post whose element (a repeated post box) is at `i`, or `None` where a field of
/// it is missing.
pub open spec fn talk_of(t: Seq<TokenView>, m: MarkSet, i: int) -> Option<TalkView> {
    let name = opt_text(t, crate::dom::select_first(t, m.item_name, i));
    let picture = opt_attr(t, crate::dom::select_first(t, m.item_picture, i), "src"@);
    let at = stamp_of(t, m.item_published_at, m.item_published_at_normal, i, post_time_format());
    let count = match opt_text(t, crate::dom::select_first(t, m.item_count, i)) {
        Some(c) => parse_u32_spec(c),
        None => None,
    };
    let content = crate::dom::select_first(t, m.item_content, i);
    if name is Some && picture is Some && at is Some && count is Some && content is Some {
        Some(
            TalkView {
                author_name: name->0,
                author_picture: picture->0,
                published_at: at->0,
                count: count->0,
                content: content_of(t, content->0),
                replys: replys_of(t, m, select_all(t, m.item_replys, i)),
            },
        )
    } else {
        None
    }
}

/// The posts whose elements are at `ks`, in order, leaving out those with a missing field.
pub open spec fn talks_of(t: Seq<TokenView>, m: MarkSet, ks: Seq<int>) -> Seq<TalkView>
    decreases ks.len(),
{
    if ks.len() == 0 {
        Seq::empty()
    } else {
        let prev = talks_of(t, m, ks.drop_last());
        match talk_of(t, m, ks.last()) {
            Some(r) => prev.push(r),
            None => prev,
        }
    }
}

/// The first element of the whole document that `mark` marks.
pub open spec fn doc_first(t: Seq<TokenView>, mark: Seq<bool>) -> Option<int> {
    first_marked(mark, 0, t.len() as int)
}

/// The elements of the whole document that `mark` marks, in document order.
pub open spec fn doc_all(t: Seq<TokenView>, mark: Seq<bool>) -> Seq<int> {
    all_marked(mark, 0, t.len() as int)
}

/// The thread's opening post, from its own part of the page, with floor number 1; `None`
/// where a field of it is missing.
pub open spec fn main_talk_of(t: Seq<TokenView>, m: MarkSet) -> Option<TalkView> {
    let name = opt_text(t, doc_first(t, m.main_author_name));
    let picture = opt_attr(t, doc_first(t, m.main_author_picture), "src"@);
    let at = match opt_text(t, doc_first(t, m.main_published_at)) {
        Some(v) => date_time_spec(trim(v), post_time_format()),
        None => None,
    };
    let content = doc_first(t, m.main_content);
    if name is Some && picture is Some && at is Some && content is Some {
        Some(
            TalkView {
                author_name: name->0,
                author_picture: picture->0,
                published_at: at->0,
                count: 1,
                content: content_of(t, content->0),
                replys: replys_of(t, m, doc_all(t, m.main_replys)),
            },
        )
    } else {
        None
    }
}

/// The thread's title: the first text of its title element, trimmed.
pub open spec fn title_of(t: Seq<TokenView>, m: MarkSet) -> Option<Seq<char>> {
    match opt_first_text(t, doc_first(t, m.title)) {
        Some(v) => Some(trim(v)),
        None => None,
    }
}

/// The thread's page count, read from the `title` attribute of the pager's label
/// without its decoration; 1 where there is none, or where it reads 0.
pub open spec fn total_page_of(t: Seq<TokenView>, m: MarkSet) -> u32 {
    match opt_attr(t, doc_first(t, m.page), "title"@) {
        Some(v) => match parse_u32_spec(trim_both(v, CharClass::PageMarks)) {
            Some(n) => if n >= 1 {
                n
            } else {
                1
            },
            None => 1,
        },
        None => 1,
    }
}

/// The posts of the page: the repeated post boxes, in document order.
pub open spec fn item_talks_of(t: Seq<TokenView>, m: MarkSet) -> Seq<TalkView> {
    talks_of(t, m, doc_all(t, m.items))
}

/// What the first page of a thread yields: `None` without a title; else the title, the
/// page count, the opening post (where it is complete) and the other posts.
pub open spec fn first_page_of(t: Seq<TokenView>, m: MarkSet, href: Seq<char>) -> Option<UpdateView> {
    match title_of(t, m) {
        Some(title) => Some(
            UpdateView::All(
                TalkPageView {
                    total_page: total_page_of(t, m),
                    title,
                    href,
                    talks: match main_talk_of(t, m) {
                        Some(main) => seq![main] + item_talks_of(t, m),
                        None => item_talks_of(t, m),
                    },
                },
            ),
        ),
        None => None,
    }
}

/// What a later page of a thread yields: its posts.
pub open spec fn normal_page_of(t: Seq<TokenView>, m: MarkSet) -> UpdateView {
    UpdateView::Talk(item_talks_of(t, m))
}


// ---------------------------------------------------------------------------
// Extraction.

/// The reply whose element is at `i`.
pub fn parse_reply(doc: &Document, m: &Marks, i: usize) -> (r: Option<Reply>)
    requires
        i < doc.tokens().len(),
        m.sized(doc.tokens().len() as int),
    ensures
        match r {
            Some(x) => reply_of(doc.tokens(), m@, i as int) == Some(x@),
            None => reply_of(doc.tokens(), m@, i as int) is None,
        },
{
    let name = match selected_text(doc, &m.reply_name, i) {
        Some(v) => v,
        None => return None,
    };
    let picture = match selected_attr(doc, &m.reply_picture, i, "src") {
        Some(v) => v,
        None => return None,
    };
    let published_at = match stamp(
        doc,
        &m.reply_published_at,
        &m.reply_published_at_normal,
        i,
        "%Y-%m-%d %H:%M",
    ) {
        Some(v) => v,
        None => return None,
    };
    let content = match selected_first_text(doc, &m.reply_content, i) {
        Some(v) => v,
        None => return None,
    };
    let content = trim_chars(&content, CharClass::Whitespace);
    Some(
        Reply {
            author_name: string_of(&name),
            author_picture: string_of(&picture),
            published_at,
            content: string_of(&content),
        },
    )
}

/// The replies whose elements are at `ks`, leaving out those with a missing field.
pub fn parse_replys(doc: &Document, m: &Marks, ks: &Vec<usize>) -> (r: Vec<Reply>)
    requires
        forall|x: int| 0 <= x < ks@.len() ==> #[trigger] ks@[x] < doc.tokens().len(),
        m.sized(doc.tokens().len() as int),
    ensures
        replys_view(r@) == replys_of(doc.tokens(), m@, ks@.map_values(|k: usize| k as int)),
{
    let ghost kv = ks@.map_values(|k: usize| k as int);
    let mut r: Vec<Reply> = Vec::new();
    let mut x: usize = 0;
    assert(kv.subrange(0, 0) =~= Seq::<int>::empty());
    assert(replys_view(r@) =~= Seq::<ReplyView>::empty());
    while x < ks.len()
        invariant
            x <= ks@.len() == kv.len(),
            kv == ks@.map_values(|k: usize| k as int),
            forall|y: int| 0 <= y < ks@.len() ==> #[trigger] ks@[y] < doc.tokens().len(),
            m.sized(doc.tokens().len() as int),
            replys_view(r@) == replys_of(doc.tokens(), m@, kv.subrange(0, x as int)),
        decreases ks@.len() - x,
    {
        let ghost before = replys_view(r@);
        assert(kv.subrange(0, x + 1).drop_last() =~= kv.subrange(0, x as int));
        if let Some(reply) = parse_reply(doc, m, ks[x]) {
            r.push(reply);
            assert(replys_view(r@) =~= before.push(reply@));
        }
        x = x + 1;
    }
    assert(kv.subrange(0, x as int) =~= kv);
    r
}

/// The post whose element (a repeated post box) is at `i`.
pub fn parse_item(doc: &Document, m: &Marks, i: usize) -> (r: Option<Talk>)
    requires
        i < doc.tokens().len(),
        m.sized(doc.tokens().len() as int),
    ensures
        match r {
            Some(x) => talk_of(doc.tokens(), m@, i as int) == Some(x@),
            None => talk_of(doc.tokens(), m@, i as int) is None,
        },
{
    let name = match selected_text(doc, &m.item_name, i) {
        Some(v) => v,
        None => return None,
    };
    let picture = match selected_attr(doc, &m.item_picture, i, "src") {
        Some(v) => v,
        None => return None,
    };
    let published_at = match stamp(
        doc,
        &m.item_published_at,
        &m.item_published_at_normal,
        i,
        "%Y-%m-%d %H:%M:%S",
    ) {
        Some(v) => v,
        None => return None,
    };
    let count = match selected_text(doc, &m.item_count, i) {
        Some(v) => match parse_u32(&v) {
            Some(n) => n,
            None => return None,
        },
        None => return None,
    };
    let content = match select_first_exec(doc, &m.item_content, i) {
        Some(k) => parse_content(doc, k),
        None => return None,
    };
    let ks = select_all_exec(doc, &m.item_replys, i);
    let replys = parse_replys(doc, m, &ks);
    Some(
        Talk {
            author_name: string_of(&name),
            author_picture: string_of(&picture),
            published_at,
            count,
            content,
            replys,
        },
    )
}

/// The posts whose elements are at `ks`, leaving out those with a missing field.
pub fn parse_items(doc: &Document, m: &Marks, ks: &Vec<usize>) -> (r: Vec<Talk>)
    requires
        forall|x: int| 0 <= x < ks@.len() ==> #[trigger] ks@[x] < doc.tokens().len(),
        m.sized(doc.tokens().len() as int),
    ensures
        talks_view(r@) == talks_of(doc.tokens(), m@, ks@.map_values(|k: usize| k as int)),
{
    let ghost kv = ks@.map_values(|k: usize| k as int);
    let mut r: Vec<Talk> = Vec::new();
    let mut x: usize = 0;
    assert(kv.subrange(0, 0) =~= Seq::<int>::empty());
    assert(talks_view(r@) =~= Seq::<TalkView>::empty());
    while x < ks.len()
        invariant
            x <= ks@.len() == kv.len(),
            kv == ks@.map_values(|k: usize| k as int),
            forall|y: int| 0 <= y < ks@.len() ==> #[trigger] ks@[y] < doc.tokens().len(),
            m.sized(doc.tokens().len() as int),
            talks_view(r@) == talks_of(doc.tokens(), m@, kv.subrange(0, x as int)),
        decreases ks@.len() - x,
    {
        let ghost before = talks_view(r@);
        assert(kv.subrange(0, x + 1).drop_last() =~= kv.subrange(0, x as int));
        if let Some(talk) = parse_item(doc, m, ks[x]) {
            r.push(talk);
            assert(talks_view(r@) =~= before.push(talk@));
        }
        x = x + 1;
    }
    assert(kv.subrange(0, x as int) =~= kv);
    r
}

/// The posts of the page, in document order.
fn parse_item_talks(doc: &Document, m: &Marks) -> (r: Vec<Talk>)
    requires
        m.sized(doc.tokens().len() as int),
    ensures
        talks_view(r@) == item_talks_of(doc.tokens(), m@),
{
    let ks = all_marked_exec(&m.items, 0, doc.len());
    parse_items(doc, m, &ks)
}

/// The thread's opening post, with floor number 1.
pub fn parse_main_talk(doc: &Document, m: &Marks) -> (r: Option<Talk>)
    requires
        m.sized(doc.tokens().len() as int),
    ensures
        match r {
            Some(x) => main_talk_of(doc.tokens(), m@) == Some(x@),
            None => main_talk_of(doc.tokens(), m@) is None,
        },
{
    let n = doc.len();
    let name = match first_marked_exec(&m.main_author_name, 0, n) {
        Some(k) => crate::dom::text(doc, k),
        None => return None,
    };
    let picture = match first_marked_exec(&m.main_author_picture, 0, n) {
        Some(k) => match crate::dom::attr(doc, k, &crate::text::chars_of("src")) {
            Some(v) => v,
            None => return None,
        },
        None => return None,
    };
    let published_at = match first_marked_exec(&m.main_published_at, 0, n) {
        Some(k) => {
            let v = trim_chars(&crate::dom::text(doc, k), CharClass::Whitespace);
            match parse_date_time(&v, "%Y-%m-%d %H:%M:%S") {
                Some(d) => d,
                None => return None,
            }
        },
        None => return None,
    };
    let content = match first_marked_exec(&m.main_content, 0, n) {
        Some(k) => parse_content(doc, k),
        None => return None,
    };
    let ks = all_marked_exec(&m.main_replys, 0, n);
    let replys = parse_replys(doc, m, &ks);
    Some(
        Talk {
            author_name: string_of(&name),
            author_picture: string_of(&picture),
            published_at,
            count: 1,
            content,
            replys,
        },
    )
}

/// The whole first page of a thread; `None` exactly where the title is missing.
pub fn parse_first_page(href: String, doc: &Document, m: &Marks) -> (r: Option<Update>)
    requires
        m.sized(doc.tokens().len() as int),
    ensures
        opt_update_view(r) == first_page_of(doc.tokens(), m@, href@),
{
    let n = doc.len();
    let title = match first_marked_exec(&m.title, 0, n) {
        Some(k) => match crate::dom::first_text(doc, k) {
            Some(v) => trim_chars(&v, CharClass::Whitespace),
            None => return None,
        },
        None => return None,
    };
    let total_page = match first_marked_exec(&m.page, 0, n) {
        Some(k) => match crate::dom::attr(doc, k, &crate::text::chars_of("title")) {
            Some(v) => match parse_u32(&trim_chars(&v, CharClass::PageMarks)) {
                Some(p) => if p >= 1 {
                    p
                } else {
                    1
                },
                None => 1,
            },
            None => 1,
        },
        None => 1,
    };
    assert(title_of(doc.tokens(), m@) == Some(title@));
    assert(total_page_of(doc.tokens(), m@) == total_page);
    let mut talks: Vec<Talk> = Vec::new();
    if let Some(main) = parse_main_talk(doc, m) {
        talks.push(main);
        assert(talks_view(talks@) =~= seq![main@]);
    } else {
        assert(talks_view(talks@) =~= Seq::<TalkView>::empty());
    }
    let mut items = parse_item_talks(doc, m);
    let ghost first = talks_view(talks@);
    let ghost rest = talks_view(items@);
    talks.append(&mut items);
    assert(talks_view(talks@) =~= first + rest);
    assert(talks_view(talks@) == match main_talk_of(doc.tokens(), m@) {
        Some(main) => seq![main] + item_talks_of(doc.tokens(), m@),
        None => item_talks_of(doc.tokens(), m@),
    });
    Some(Update::All(TalkPage { total_page, title: string_of(&title), href, talks }))
}

/// The posts of a later page of a thread.
pub fn parse_normal_page(doc: &Document, m: &Marks) -> (r: Option<Update>)
    requires
        m.sized(doc.tokens().len() as int),
    ensures
        opt_update_view(r) == Some(normal_page_of(doc.tokens(), m@)),
{
    Some(Update::Talk(parse_item_talks(doc, m)))
}

/// What the page `text` of the thread at `href` yields. The first page yields the
/// whole page record, or `None` without a title; a later page yields its posts.
pub fn parse_page(href: String, text: &str, selectors: &Selectors, is_first_page: bool) -> (r:
    Option<Update>)
    ensures
        opt_update_view(r) == page_of(text@, selectors, href@, is_first_page),
        is_first_page ==> (r is None || r matches Some(Update::All(_))),
        !is_first_page ==> r matches Some(Update::Talk(_)),
{
    let doc = Document::parse(text);
    let m = Marks::of(&doc, selectors);
    if is_first_page {
        parse_first_page(href, &doc, &m)
    } else {
        parse_normal_page(&doc, &m)
    }
}

/// What the page `text` of the thread at `href` yields, as a function of the text.
pub open spec fn page_of(
    text: Seq<char>,
    sels: &Selectors,
    href: Seq<char>,
    is_first_page: bool,
) -> Option<UpdateView> {
    let t = html_tokens(text);
    let m = marks_of(text, sels);
    if is_first_page {
        first_page_of(t, m, href)
    } else {
        Some(normal_page_of(t, m))
    }
}

/// What page `page` (numbered from 1) of the thread at `href` yields, its text being
/// `text`: the first page is read as a whole page, any other as a batch of posts.
pub fn load_update(href: String, text: &str, selectors: &Selectors, page: u32) -> (r: Option<
    Update,
>)
    ensures
        opt_update_view(r) == page_of(text@, selectors, href@, page == 1),
        page == 1 ==> (r is None || r matches Some(Update::All(_))),
        page != 1 ==> r matches Some(Update::Talk(_)),
{
    parse_page(href, text, selectors, page == 1)
}

// ---------------------------------------------------------------------------
// Laws.

/// Parsing is deterministic: two results of `parse_page` on the same text, queries,
/// address and page kind are equal.
pub proof fn lemma_parse_deterministic(
    text: Seq<char>,
    sels: &Selectors,
    href: Seq<char>,
    is_first_page: bool,
    r1: Option<Update>,
    r2: Option<Update>,
)
    requires
        opt_update_view(r1) == page_of(text, sels, href, is_first_page),
        opt_update_view(r2) == page_of(text, sels, href, is_first_page),
    ensures
        opt_update_view(r1) == opt_update_view(r2),
{
}

/// The page number alone decides the kind of page: page 1 is read for its title, its
/// page count and all its posts, and yields nothing only without a title; any other
/// page yields its repeated posts and no title or page count, whatever its markup.
pub proof fn lemma_page_classification(
    text: Seq<char>,
    sels: &Selectors,
    href: Seq<char>,
    page: u32,
)
    ensures
        page == 1 ==> page_of(text, sels, href, page == 1) == first_page_of(
            html_tokens(text),
            marks_of(text, sels),
            href,
        ),
        page == 1 ==> (page_of(text, sels, href, page == 1) is None <==> title_of(
            html_tokens(text),
            marks_of(text, sels),
        ) is None),
        page == 1 ==> (page_of(text, sels, href, page == 1) matches Some(UpdateView::All(p))
            ==> p.total_page == total_page_of(html_tokens(text), marks_of(text, sels))
            && p.total_page >= 1),
        page != 1 ==> page_of(text, sels, href, page == 1) == Some(
            UpdateView::Talk(item_talks_of(html_tokens(text), marks_of(text, sels))),
        ),
{
}

/// Posts are read one by one: the posts of a list of post boxes are those of its
/// first part followed by those of its second.
pub proof fn lemma_talks_concat(t: Seq<TokenView>, m: MarkSet, a: Seq<int>, b: Seq<int>)
    ensures
        talks_of(t, m, a + b) == talks_of(t, m, a) + talks_of(t, m, b),
    decreases b.len(),
{
    if b.len() == 0 {
        assert(a + b =~= a);
        assert(talks_of(t, m, a) + talks_of(t, m, b) =~= talks_of(t, m, a));
    } else {
        lemma_talks_concat(t, m, a, b.drop_last());
        assert((a + b).drop_last() =~= a + b.drop_last());
        assert((a + b).last() == b.last());
        match talk_of(t, m, b.last()) {
            Some(x) => {
                assert(talks_of(t, m, a + b) =~= talks_of(t, m, a) + talks_of(t, m, b));
            },
            None => {
                assert(talks_of(t, m, a + b) =~= talks_of(t, m, a) + talks_of(t, m, b));
            },
        }
    }
}

/// A post box whose author name cannot be found is left out of the posts, and its
/// siblings before and after it are read as if it were not there.
pub proof fn lemma_required_field_drop(
    t: Seq<TokenView>,
    m: MarkSet,
    before: Seq<int>,
    k: int,
    after: Seq<int>,
)
    requires
        crate::dom::select_first(t, m.item_name, k) is None,
    ensures
        talk_of(t, m, k) is None,
        talks_of(t, m, before + seq![k] + after) == talks_of(t, m, before) + talks_of(t, m, after),
{
    lemma_talks_concat(t, m, before + seq![k], after);
    lemma_talks_concat(t, m, before, seq![k]);
    assert(talk_of(t, m, k) is None);
    assert(seq![k].drop_last() =~= Seq::<int>::empty());
    assert(seq![k].last() == k);
    assert(talks_of(t, m, Seq::<int>::empty()) =~= Seq::<TalkView>::empty());
    assert(talks_of(t, m, seq![k]) =~= Seq::<TalkView>::empty());
    assert(talks_of(t, m, before) + talks_of(t, m, seq![k]) =~= talks_of(t, m, before));
}

/// A quote that cannot be rebuilt never costs its post: whether a post box yields a post
/// depends on its author, picture, time, floor number and body element alone, not on
/// what the body holds.
pub proof fn lemma_post_survives_its_content(t: Seq<TokenView>, m: MarkSet, i: int)
    ensures
        talk_of(t, m, i) is Some <==> (opt_text(t, crate::dom::select_first(t, m.item_name, i))
            is Some && opt_attr(t, crate::dom::select_first(t, m.item_picture, i), "src"@) is Some
            && stamp_of(t, m.item_published_at, m.item_published_at_normal, i, post_time_format())
            is Some && (match opt_text(t, crate::dom::select_first(t, m.item_count, i)) {
            Some(c) => parse_u32_spec(c),
            None => None,
        }) is Some && crate::dom::select_first(t, m.item_content, i) is Some),
{
}

} // verus!
