//! The state of the listing pane and of the thread pane, and the decisions each takes
//! on the user's input and on the outcome of a page load. The caller performs the
//! loads and draws the state.

use crate::detail::{TalkPage, Update};
use crate::left_bar::{LeftBar, LeftBarItem};
use crate::summary::Article;
use crate::text::{chars_of, parse_u32, parse_u32_spec};
use vstd::prelude::*;

verus! {

/// A request of the listing pane.
#[derive(Clone, Debug, PartialEq, Eq)]
pub enum SummaryEvent {
    /// Load this page of the listing.
    Load(u32),
    /// Open the thread at this address.
    LoadDetail(String),
}

/// A request of the thread pane: load this page of the thread at this address.
#[derive(Clone, Debug, PartialEq, Eq)]
pub enum DetailEvent {
    Load(String, u32),
}

/// The listing pane: the page shown, the page typed into the pager, whether a load
/// runs, and the articles shown.
pub struct Summary {
    pub page: u32,
    pub page_input_value: u32,
    pub is_loading: bool,
    pub articles: Vec<Article>,
}

/// The thread pane: the page shown, the page typed into the pager, whether a load
/// runs, and the thread shown.
pub struct Detail {
    pub page: u32,
    pub page_input_value: u32,
    pub is_loading: bool,
    pub talk: Option<TalkPage>,
}

/// Starts a load unless one runs: whether it started.
fn begin(is_loading: &mut bool) -> (r: bool)
    ensures
        r == !*old(is_loading),
        *final(is_loading),
{
    if *is_loading {
        false
    } else {
        *is_loading = true;
        true
    }
}

impl Summary {
    pub fn new() -> (r: Self)
        ensures
            r.page == 0,
            r.page_input_value == 0,
            !r.is_loading,
            r.articles@.len() == 0,
    {
        Summary { page: 0, page_input_value: 0, is_loading: false, articles: Vec::new() }
    }

    /// A load is asked for: it starts unless one runs; the result says whether it did.
    pub fn event_load(&mut self) -> (r: bool)
        ensures
            r == !old(self).is_loading,
            final(self).is_loading,
            final(self).page == old(self).page,
            final(self).page_input_value == old(self).page_input_value,
            final(self).articles@ == old(self).articles@,
    {
        begin(&mut self.is_loading)
    }

    /// The load of `page` failed: the pane stays as it was.
    pub fn load_failure(&mut self)
        ensures
            !final(self).is_loading,
            final(self).page == old(self).page,
            final(self).page_input_value == old(self).page_input_value,
            final(self).articles@ == old(self).articles@,
    {
        self.is_loading = false;
    }

    /// The load of `page` yielded `articles`: they replace those shown.
    pub fn load_success(&mut self, articles: Vec<Article>, page: u32)
        ensures
            !final(self).is_loading,
            final(self).page == page,
            final(self).page_input_value == page,
            final(self).articles@ == articles@,
    {
        self.page = page;
        self.page_input_value = page;
        self.articles = articles;
        self.is_loading = false;
    }

    /// The pager's text became `text`. A page number other than 0 is taken and the
    /// result is `None`; otherwise the value to write back into the pager is returned:
    /// 1 for 0, the value kept so far for anything that is no number.
    pub fn on_input_change(&mut self, text: &str) -> (r: Option<u32>)
        ensures
            match parse_u32_spec(text@) {
                Some(p) => if p != 0 {
                    r is None && final(self).page_input_value == p
                } else {
                    r == Some(1u32) && final(self).page_input_value == 1
                },
                None => r == Some(old(self).page_input_value) && final(self).page_input_value
                    == old(self).page_input_value,
            },
            final(self).page == old(self).page,
            final(self).is_loading == old(self).is_loading,
            final(self).articles@ == old(self).articles@,
    {
        if let Some(p) = parse_u32(&chars_of(text)) {
            if p != 0 {
                self.page_input_value = p;
                return None;
            }
            self.page_input_value = 1;
        }
        Some(self.page_input_value)
    }

    /// The pager's stepper was pressed: the typed page goes down to no less than 1, or
    /// up to no more than `u32::MAX`. The result is the new value, where it changed.
    pub fn on_step(&mut self, increment: bool) -> (r: Option<u32>)
        ensures
            increment ==> (if old(self).page_input_value == u32::MAX {
                r is None && final(self).page_input_value == old(self).page_input_value
            } else {
                r == Some((old(self).page_input_value + 1) as u32) && final(self).page_input_value
                    == old(self).page_input_value + 1
            }),
            !increment ==> (if old(self).page_input_value <= 1 {
                r is None && final(self).page_input_value == old(self).page_input_value
            } else {
                r == Some((old(self).page_input_value - 1) as u32) && final(self).page_input_value
                    == old(self).page_input_value - 1
            }),
            final(self).page == old(self).page,
            final(self).is_loading == old(self).is_loading,
            final(self).articles@ == old(self).articles@,
    {
        if increment {
            if self.page_input_value == u32::MAX {
                return None;
            }
            self.page_input_value = self.page_input_value + 1;
        } else {
            if self.page_input_value <= 1 {
                return None;
            }
            self.page_input_value = self.page_input_value - 1;
        }
        Some(self.page_input_value)
    }

    /// The pager's Enter key: load the typed page.
    pub fn on_press_enter(&self) -> (r: SummaryEvent)
        ensures
            r == SummaryEvent::Load(self.page_input_value),
    {
        SummaryEvent::Load(self.page_input_value)
    }

    /// The pager's "previous" button: enabled above page 1.
    pub fn previous_page(&self) -> (r: Option<SummaryEvent>)
        ensures
            self.page > 1 ==> r == Some(SummaryEvent::Load((self.page - 1) as u32)),
            self.page <= 1 ==> r is None,
    {
        if self.page > 1 {
            Some(SummaryEvent::Load(self.page - 1))
        } else {
            None
        }
    }

    /// The pager's "next" button.
    pub fn next_page(&self) -> (r: Option<SummaryEvent>)
        ensures
            self.page < u32::MAX ==> r == Some(SummaryEvent::Load((self.page + 1) as u32)),
            self.page == u32::MAX ==> r is None,
    {
        if self.page < u32::MAX {
            Some(SummaryEvent::Load(self.page + 1))
        } else {
            None
        }
    }
}

impl Detail {
    pub fn new() -> (r: Self)
        ensures
            r.page == 0,
            r.page_input_value == 0,
            !r.is_loading,
            r.talk is None,
    {
        Detail { page: 0, page_input_value: 0, is_loading: false, talk: None }
    }

    pub open spec fn max_page_spec(&self) -> u32 {
        match self.talk {
            Some(t) => t.total_page,
            None => 1,
        }
    }

    /// The thread's page count, or 1 with no thread shown.
    pub fn max_page(&self) -> (r: u32)
        ensures
            r == self.max_page_spec(),
    {
        match &self.talk {
            Some(t) => t.total_page,
            None => 1,
        }
    }

    /// A load is asked for: it starts unless one runs; the result says whether it did.
    pub fn event_load(&mut self) -> (r: bool)
        ensures
            r == !old(self).is_loading,
            final(self).is_loading,
            final(self).page == old(self).page,
            final(self).page_input_value == old(self).page_input_value,
            final(self).talk == old(self).talk,
    {
        begin(&mut self.is_loading)
    }

    /// The load failed: the pane stays as it was.
    pub fn load_failure(&mut self)
        ensures
            !final(self).is_loading,
            final(self).page == old(self).page,
            final(self).page_input_value == old(self).page_input_value,
            final(self).talk == old(self).talk,
    {
        self.is_loading = false;
    }

    /// The load of `page` yielded `update`. A whole page replaces the thread shown; the
    /// posts of a later page replace the posts of the thread shown, which keeps its
    /// title and page count.
    pub fn load_success(&mut self, update: Update, page: u32)
        ensures
            !final(self).is_loading,
            final(self).page == page,
            final(self).page_input_value == page,
            match update {
                Update::All(p) => final(self).talk == Some(p),
                Update::Talk(ts) => match old(self).talk {
                    Some(t) => final(self).talk matches Some(n) && n.total_page == t.total_page
                        && n.title == t.title && n.href == t.href && n.talks@ == ts@,
                    None => final(self).talk is None,
                },
            },
    {
        self.page = page;
        self.page_input_value = page;
        match update {
            Update::All(p) => {
                self.talk = Some(p);
            },
            Update::Talk(ts) => {
                if let Some(t) = self.talk.take() {
                    self.talk = Some(
                        TalkPage { total_page: t.total_page, title: t.title, href: t.href, talks: ts },
                    );
                }
            },
        }
        self.is_loading = false;
    }

    /// The pager's text became `text`, with a thread shown. A page number from 1 to the
    /// page count is taken and the result is `None`; otherwise the value to write back
    /// into the pager is returned: 1 for 0, the page count for a larger number, the
    /// value kept so far for anything that is no number. With no thread shown nothing
    /// happens.
    pub fn on_input_change(&mut self, text: &str) -> (r: Option<u32>)
        ensures
            old(self).talk is None ==> r is None && final(self).page_input_value
                == old(self).page_input_value,
            old(self).talk is Some ==> match parse_u32_spec(text@) {
                Some(p) => if p != 0 && p <= old(self).max_page_spec() {
                    r is None && final(self).page_input_value == p
                } else {
                    let v = if p == 0 {
                        1
                    } else {
                        old(self).max_page_spec()
                    };
                    r == Some(v) && final(self).page_input_value == v
                },
                None => r == Some(old(self).page_input_value) && final(self).page_input_value
                    == old(self).page_input_value,
            },
            final(self).page == old(self).page,
            final(self).is_loading == old(self).is_loading,
            final(self).talk == old(self).talk,
    {
        if self.talk.is_none() {
            return None;
        }
        let max_page = self.max_page();
        if let Some(p) = parse_u32(&chars_of(text)) {
            if p != 0 && p <= max_page {
                self.page_input_value = p;
                return None;
            }
            if p == 0 {
                self.page_input_value = 1;
            }
            if p > max_page {
                self.page_input_value = max_page;
            }
        }
        Some(self.page_input_value)
    }

    /// The pager's stepper was pressed: the typed page goes down to no less than 1, or
    /// up to no more than the page count. The result is the new value, where it changed.
    pub fn on_step(&mut self, increment: bool) -> (r: Option<u32>)
        ensures
            increment ==> (if old(self).page_input_value == old(self).max_page_spec()
                || old(self).page_input_value == u32::MAX {
                r is None && final(self).page_input_value == old(self).page_input_value
            } else {
                r == Some((old(self).page_input_value + 1) as u32) && final(self).page_input_value
                    == old(self).page_input_value + 1
            }),
            !increment ==> (if old(self).page_input_value <= 1 {
                r is None && final(self).page_input_value == old(self).page_input_value
            } else {
                r == Some((old(self).page_input_value - 1) as u32) && final(self).page_input_value
                    == old(self).page_input_value - 1
            }),
            final(self).page == old(self).page,
            final(self).is_loading == old(self).is_loading,
            final(self).talk == old(self).talk,
    {
        if increment {
            let max_page = self.max_page();
            if self.page_input_value == max_page || self.page_input_value == u32::MAX {
                return None;
            }
            self.page_input_value = self.page_input_value + 1;
        } else {
            if self.page_input_value <= 1 {
                return None;
            }
            self.page_input_value = self.page_input_value - 1;
        }
        Some(self.page_input_value)
    }

    /// The pager's Enter key: load the typed page of the thread shown.
    pub fn on_press_enter(&self) -> (r: Option<DetailEvent>)
        ensures
            match self.talk {
                Some(t) => r matches Some(DetailEvent::Load(h, p)) && h@ == t.href@ && p
                    == self.page_input_value,
                None => r is None,
            },
    {
        match &self.talk {
            Some(t) => Some(DetailEvent::Load(t.href.clone(), self.page_input_value)),
            None => None,
        }
    }

    /// The pager's "previous" button: enabled above page 1.
    pub fn previous_page(&self) -> (r: Option<DetailEvent>)
        ensures
            match self.talk {
                Some(t) => if self.page > 1 {
                    r matches Some(DetailEvent::Load(h, p)) && h@ == t.href@ && p == self.page - 1
                } else {
                    r is None
                },
                None => r is None,
            },
    {
        match &self.talk {
            Some(t) => if self.page > 1 {
                Some(DetailEvent::Load(t.href.clone(), self.page - 1))
            } else {
                None
            },
            None => None,
        }
    }

    /// The pager's "next" button: enabled below the page count.
    pub fn next_page(&self) -> (r: Option<DetailEvent>)
        ensures
            match self.talk {
                Some(t) => if self.page < t.total_page {
                    r matches Some(DetailEvent::Load(h, p)) && h@ == t.href@ && p == self.page + 1
                } else {
                    r is None
                },
                None => r is None,
            },
    {
        match &self.talk {
            Some(t) => if self.page < t.total_page {
                Some(DetailEvent::Load(t.href.clone(), self.page + 1))
            } else {
                None
            },
            None => None,
        }
    }
}

/// The finder: the listing pane beside the thread pane. Opening an article of the
/// listing loads the first page of its thread in the thread pane.
pub struct Find {
    pub summary: Summary,
    pub detail: Detail,
}

impl Find {
    pub fn new() -> (r: Self)
        ensures
            r.summary.page == 0 && !r.summary.is_loading && r.summary.articles@.len() == 0,
            r.detail.page == 0 && !r.detail.is_loading && r.detail.talk is None,
    {
        Find { summary: Summary::new(), detail: Detail::new() }
    }

    /// What the finder asks for first: the first page of the listing.
    pub fn start(&self) -> (r: SummaryEvent)
        ensures
            r == SummaryEvent::Load(1),
    {
        SummaryEvent::Load(1)
    }

    /// What the thread pane is asked to do on a request of the listing pane: load page 1
    /// of an opened thread; nothing for a request to load the listing.
    pub fn route(&self, event: &SummaryEvent) -> (r: Option<DetailEvent>)
        ensures
            match event {
                SummaryEvent::LoadDetail(href) => r matches Some(DetailEvent::Load(h, p)) && h@
                    == href@ && p == 1,
                SummaryEvent::Load(_) => r is None,
            },
    {
        match event {
            SummaryEvent::LoadDetail(href) => Some(DetailEvent::Load(href.clone(), 1)),
            SummaryEvent::Load(_) => None,
        }
    }
}

/// The whole application: the side bar and the panes it switches between.
pub struct Bustop {
    pub left_bar: LeftBar,
    pub find: Find,
}

impl Bustop {
    pub fn new() -> (r: Self)
        ensures
            r.left_bar.selected() == LeftBarItem::Forum,
    {
        Bustop { left_bar: LeftBar::new(), find: Find::new() }
    }

    /// The pane shown beside the side bar: the one selected in it.
    pub fn main_content(&self) -> (r: LeftBarItem)
        ensures
            r == self.left_bar.selected(),
    {
        *self.left_bar.selected_item()
    }
}

} // verus!
