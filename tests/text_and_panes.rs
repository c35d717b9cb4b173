use bustop::detail::{TalkPage, Update};
use bustop::http::{detail_url, listing_url, HostSite};
use bustop::icon::IconName;
use bustop::left_bar::{LeftBar, LeftBarItem};
use bustop::text::{parse_u32, split_at_spaces, trim_chars, trim_start_chars, CharClass};
use bustop::viewer::{Bustop, Detail, DetailEvent, Find, Summary, SummaryEvent};

fn s(v: &[char]) -> String {
    v.iter().collect()
}

fn chars_of(s: &str) -> Vec<char> {
    s.chars().collect()
}

#[test]
fn trimming_by_class() {
    assert_eq!(s(&trim_chars(&chars_of("\u{3000} a b \n"), CharClass::Whitespace)), "a b");
    assert_eq!(s(&trim_chars(&chars_of("   "), CharClass::Whitespace)), "");
    assert_eq!(s(&trim_chars(&chars_of("共 12 頁"), CharClass::PageMarks)), "12");
    assert_eq!(s(&trim_start_chars(&chars_of(" 發表於 2024-03-01 10:00:00"), CharClass::PostedMarker)), "2024-03-01 10:00:00");
    assert_eq!(s(&trim_start_chars(&chars_of("於表 x 於"), CharClass::PostedMarker)), "x 於");
}

#[test]
fn parsing_decimal_numbers() {
    assert_eq!(parse_u32(&chars_of("0")), Some(0));
    assert_eq!(parse_u32(&chars_of("+17")), Some(17));
    assert_eq!(parse_u32(&chars_of("007")), Some(7));
    assert_eq!(parse_u32(&chars_of("4294967295")), Some(u32::MAX));
    assert_eq!(parse_u32(&chars_of("4294967296")), None);
    assert_eq!(parse_u32(&chars_of("99999999999999999999")), None);
    assert_eq!(parse_u32(&chars_of("")), None);
    assert_eq!(parse_u32(&chars_of("+")), None);
    assert_eq!(parse_u32(&chars_of("-1")), None);
    assert_eq!(parse_u32(&chars_of(" 1")), None);
    assert_eq!(parse_u32(&chars_of("1a")), None);
}

#[test]
fn splitting_at_spaces_keeps_empty_fields() {
    let fields: Vec<String> = split_at_spaces(&chars_of("a  b c")).iter().map(|f| s(f)).collect();
    assert_eq!(fields, vec!["a", "", "b", "c"]);
    let fields: Vec<String> = split_at_spaces(&chars_of("")).iter().map(|f| s(f)).collect();
    assert_eq!(fields, vec![""]);
}

#[test]
fn addresses_of_pages() {
    assert_eq!(listing_url(12), "https://www.javbus.com/forum/forum.php?mod=forumdisplay&fid=2&page=12");
    assert_eq!(detail_url("https://f/t?tid=9", 0), "https://f/t?tid=9&page=0");
    assert_eq!(detail_url("h", u32::MAX), "h&page=4294967295");
}

#[test]
fn referers_by_host() {
    assert_eq!(HostSite::from_host(Some("uc.javbus22.com")), HostSite::Avatar);
    assert_eq!(HostSite::from_host(Some("www.javbus.com")), HostSite::Preview);
    assert_eq!(HostSite::from_host(Some("forum.javcdn.cc")), HostSite::Image);
    assert_eq!(HostSite::from_host(Some("example.org")), HostSite::Unknown);
    assert_eq!(HostSite::from_host(None), HostSite::Unknown);
    assert_eq!(HostSite::Avatar.referer(), Some("https://www.javbus.com/"));
    assert_eq!(HostSite::Preview.referer(), Some("https://www.javbus.com/forum/forum.php"));
    assert_eq!(HostSite::Image.referer(), Some("https://www.javbus.com/"));
    assert_eq!(HostSite::Unknown.referer(), None);
}

#[test]
fn icons_and_side_bar() {
    assert_eq!(IconName::House.path(), "icons/house.svg");
    assert_eq!(IconName::LoaderCircle.path(), "icons/loader_circle.svg");
    assert_eq!(IconName::ChevronRight.path(), "icons/chevron_right.svg");
    assert_eq!(LeftBarItem::all_items(), vec![LeftBarItem::Forum, LeftBarItem::Find]);
    assert_eq!(LeftBarItem::Forum.icon(), IconName::House);
    assert_eq!(LeftBarItem::Find.icon(), IconName::BookMarked);
    assert_eq!(LeftBarItem::Find.id(), "Find");
    let mut bar = LeftBar::new();
    assert_eq!(*bar.selected_item(), LeftBarItem::Forum);
    bar.on_click(LeftBarItem::Find);
    assert_eq!(*bar.selected_item(), LeftBarItem::Find);
}

#[test]
fn listing_pane_pager() {
    let mut pane = Summary::new();
    assert!(pane.event_load());
    assert!(!pane.event_load());
    pane.load_success(vec![], 3);
    assert_eq!((pane.page, pane.page_input_value, pane.is_loading), (3, 3, false));
    assert_eq!(pane.on_input_change("9"), None);
    assert_eq!(pane.page_input_value, 9);
    assert_eq!(pane.on_input_change("0"), Some(1));
    assert_eq!(pane.on_input_change("abc"), Some(1));
    assert_eq!(pane.on_step(false), None);
    assert_eq!(pane.on_step(true), Some(2));
    assert_eq!(pane.on_press_enter(), SummaryEvent::Load(2));
    assert_eq!(pane.previous_page(), Some(SummaryEvent::Load(2)));
    assert_eq!(pane.next_page(), Some(SummaryEvent::Load(4)));
    pane.load_failure();
    assert!(!pane.is_loading);
}

fn page(total: u32) -> TalkPage {
    TalkPage { total_page: total, title: "t".to_string(), href: "h".to_string(), talks: vec![] }
}

#[test]
fn thread_pane_pager() {
    let mut pane = Detail::new();
    assert_eq!(pane.on_input_change("2"), None);
    assert_eq!(pane.on_press_enter(), None);
    assert_eq!(pane.max_page(), 1);
    pane.load_success(Update::Talk(vec![]), 2);
    assert!(pane.talk.is_none());
    pane.load_success(Update::All(page(5)), 1);
    assert_eq!(pane.max_page(), 5);
    assert_eq!(pane.on_input_change("4"), None);
    assert_eq!(pane.page_input_value, 4);
    assert_eq!(pane.on_input_change("9"), Some(5));
    assert_eq!(pane.on_input_change("0"), Some(1));
    assert_eq!(pane.on_input_change("x"), Some(1));
    assert_eq!(pane.on_step(false), None);
    assert_eq!(pane.on_step(true), Some(2));
    assert_eq!(pane.on_press_enter(), Some(DetailEvent::Load("h".to_string(), 2)));
    assert_eq!(pane.previous_page(), None);
    assert_eq!(pane.next_page(), Some(DetailEvent::Load("h".to_string(), 2)));
    pane.load_success(Update::Talk(vec![]), 5);
    assert_eq!(pane.talk.as_ref().map(|t| t.title.clone()), Some("t".to_string()));
    assert_eq!(pane.next_page(), None);
    assert_eq!(pane.previous_page(), Some(DetailEvent::Load("h".to_string(), 4)));
    pane.page_input_value = 5;
    assert_eq!(pane.on_step(true), None);
}

#[test]
fn finder_routes_opened_articles_to_the_thread_pane() {
    let find = Find::new();
    assert_eq!(find.start(), SummaryEvent::Load(1));
    assert_eq!(find.route(&SummaryEvent::LoadDetail("u".to_string())), Some(DetailEvent::Load("u".to_string(), 1)));
    assert_eq!(find.route(&SummaryEvent::Load(4)), None);
}

#[test]
fn application_shows_the_selected_pane() {
    let mut app = Bustop::new();
    assert_eq!(app.main_content(), LeftBarItem::Forum);
    app.left_bar.on_click(LeftBarItem::Find);
    assert_eq!(app.main_content(), LeftBarItem::Find);
}

#[test]
fn page_number_in_address_reads_back() {
    for n in [0u32, 7, 10, 99, 100, 4294967295] {
        let url = detail_url("", n);
        let digits = url.strip_prefix("&page=").expect("address ends with the page number");
        assert_eq!(parse_u32(&chars_of(digits)), Some(n));
    }
}
