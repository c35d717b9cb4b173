use bustop::content::Content;
use bustop::detail::{load_update, parse_page, Reply, Selectors, Talk, Update};
use bustop::time::{Date, DateTime};

fn at(year: i32, month: u32, day: u32, hour: u32, minute: u32, second: u32) -> DateTime {
    DateTime { date: Date { year, month, day }, hour, minute, second }
}

fn reply_html(name: &str, stamp_html: &str, text: &str) -> String {
    format!(
        "<div class=\"pstl xs1 cl\"><div class=\"psta vm\"><a href=\"#\"><img src=\"http://a/{name}.png\"></a><a class=\"xi2 xw1\">{name}</a></div><div class=\"psti\">{text}{stamp_html}</div></div>"
    )
}

fn item_html(name_html: &str, picture: &str, stamp_html: &str, count: &str, body: &str, replies: &str) -> String {
    format!(
        "<div class=\"nthread_postbox\"><table class=\"plhin\"><tbody><tr>\
<td class=\"pls\"><div class=\"pls favatar\"><div><div class=\"avatar\"><a><img src=\"{picture}\"></a></div></div></div></td>\
<td class=\"plc\"><div class=\"pi\"><strong><a><em>{count}</em></a></strong><div><div class=\"authi\">{name_html}<em>{stamp_html}</em></div></div></div>\
<div class=\"pct\"><div class=\"pcb\"><div><table><tbody><tr><td class=\"t_f\">{body}</td></tr></tbody></table></div><div class=\"cm\">{replies}</div></div></div></td>\
</tr></tbody></table></div>"
    )
}

fn thread_html(items: &str) -> String {
    format!(
        "<html><head></head><body>\
<div id=\"ct\"><div class=\"wp cl\">\
<div class=\"mn\"><div class=\"pgs mtm mbm cl\"><div class=\"pg\"><label><span title=\"共 3 頁\">/ 3</span></label></div></div></div>\
<div class=\"sd sd_allbox\"><div class=\"viewthread_authorinfo\"><div class=\"avatar\"><a><img src=\"http://a/main.png\"></a></div><div class=\"authi\"><a>MainAuthor</a></div></div></div>\
</div></div>\
<h1><span id=\"thread_subject\">  A thread title  </span></h1>\
<div id=\"postlist\">\
<div class=\"nthread_info cl\"><div><div><span>posted</span><span> 2024-03-01 09:00:00 </span></div></div></div>\
<div class=\"nthread_firstpostbox\"><table class=\"nthread_firstpost\"><tbody><tr><td><div><div>\
<div>head</div>\
<div><table><tbody><tr><td class=\"t_f\">Opening words<br><img src=\"http://x/y.png\"><img src=\"/relative.png\"></td></tr></tbody></table></div>\
<div class=\"cm\"><div class=\"pstl\"><div class=\"psta vm\"><a href=\"#\"><img src=\"http://a/r.png\"></a><a class=\"xi2 xw1\">Replier</a></div><div class=\"psti\">Nice post <span class=\"xg1\">發表於 2024-03-02 11:30</span></div></div></div>\
</div></div></td></tr></tbody></table></div>\
{items}\
</div></body></html>"
    )
}

fn good_item() -> String {
    item_html(
        "<a class=\"xw1\">Poster</a>",
        "http://a/p2.png",
        "<span title=\"2024-03-01 10:00:00\">yesterday</span>",
        "2",
        "<p>Body <span>text</span></p>",
        &reply_html("Commenter", "<span><span title=\"2024-03-03 12:05\">today</span></span>", "Agreed"),
    )
}

fn selectors() -> Selectors {
    Selectors::new().expect("the thread-page queries compile")
}

fn main_talk() -> Talk {
    Talk {
        author_name: "MainAuthor".to_string(),
        author_picture: "http://a/main.png".to_string(),
        published_at: at(2024, 3, 1, 9, 0, 0),
        count: 1,
        content: vec![
            Content::Text("Opening words".to_string()),
            Content::Image("http://x/y.png".to_string()),
        ],
        replys: vec![Reply {
            author_name: "Replier".to_string(),
            author_picture: "http://a/r.png".to_string(),
            published_at: at(2024, 3, 2, 11, 30, 0),
            content: "Nice post".to_string(),
        }],
    }
}

fn item_talk() -> Talk {
    Talk {
        author_name: "Poster".to_string(),
        author_picture: "http://a/p2.png".to_string(),
        published_at: at(2024, 3, 1, 10, 0, 0),
        count: 2,
        content: vec![Content::Text("Body".to_string()), Content::Text("text".to_string())],
        replys: vec![Reply {
            author_name: "Commenter".to_string(),
            author_picture: "http://a/Commenter.png".to_string(),
            published_at: at(2024, 3, 3, 12, 5, 0),
            content: "Agreed".to_string(),
        }],
    }
}

#[test]
fn first_page_yields_title_count_and_posts() {
    let html = thread_html(&good_item());
    let r = parse_page("https://f/t?tid=1".to_string(), &html, &selectors(), true);
    let Some(Update::All(page)) = r else { panic!("expected a whole page") };
    assert_eq!(page.title, "A thread title");
    assert_eq!(page.total_page, 3);
    assert_eq!(page.href, "https://f/t?tid=1");
    assert_eq!(page.talks, vec![main_talk(), item_talk()]);
}

#[test]
fn continuation_page_yields_posts_only() {
    let html = thread_html(&good_item());
    let r = parse_page("h".to_string(), &html, &selectors(), false);
    assert_eq!(r, Some(Update::Talk(vec![item_talk()])));
}

#[test]
fn page_number_decides_the_kind_of_page() {
    let html = thread_html(&good_item());
    let sels = selectors();
    assert!(matches!(load_update("h".to_string(), &html, &sels, 1), Some(Update::All(_))));
    assert!(matches!(load_update("h".to_string(), &html, &sels, 2), Some(Update::Talk(_))));
    assert!(matches!(load_update("h".to_string(), &html, &sels, 7), Some(Update::Talk(_))));
}

#[test]
fn first_page_without_title_fails() {
    let html = thread_html(&good_item()).replace("thread_subject", "other_subject");
    assert_eq!(parse_page("h".to_string(), &html, &selectors(), true), None);
    let later = parse_page("h".to_string(), &html, &selectors(), false);
    assert_eq!(later, Some(Update::Talk(vec![item_talk()])));
}

#[test]
fn missing_page_count_defaults_to_one() {
    let html = thread_html(&good_item()).replace("title=\"共 3 頁\"", "data-x=\"1\"");
    let Some(Update::All(page)) = parse_page("h".to_string(), &html, &selectors(), true) else {
        panic!("expected a whole page")
    };
    assert_eq!(page.total_page, 1);
}

#[test]
fn parsing_twice_gives_the_same_result() {
    let html = thread_html(&good_item());
    let sels = selectors();
    let a = parse_page("h".to_string(), &html, &sels, true);
    let b = parse_page("h".to_string(), &html, &sels, true);
    assert_eq!(a, b);
    assert!(a.is_some());
}

#[test]
fn post_without_author_name_is_dropped() {
    let nameless = item_html(
        "<a class=\"other\">Ghost</a>",
        "http://a/g.png",
        "<span title=\"2024-03-01 10:00:00\">x</span>",
        "3",
        "ghost body",
        "",
    );
    let html = thread_html(&format!("{}{}{}", good_item(), nameless, good_item()));
    let r = parse_page("h".to_string(), &html, &selectors(), false);
    assert_eq!(r, Some(Update::Talk(vec![item_talk(), item_talk()])));
}

#[test]
fn timestamp_from_attribute_or_marked_text() {
    let by_attr = item_html(
        "<a class=\"xw1\">A</a>",
        "http://a/a.png",
        "<span title=\"2024-03-01 10:00:00\">x</span>",
        "5",
        "b",
        "",
    );
    let by_text = item_html(
        "<a class=\"xw1\">A</a>",
        "http://a/a.png",
        "發表於 2024-03-01 10:00:00",
        "5",
        "b",
        "",
    );
    let html = thread_html(&format!("{}{}", by_attr, by_text));
    let Some(Update::Talk(talks)) = parse_page("h".to_string(), &html, &selectors(), false) else {
        panic!("expected posts")
    };
    assert_eq!(talks.len(), 2);
    assert_eq!(talks[0].published_at, at(2024, 3, 1, 10, 0, 0));
    assert_eq!(talks[1].published_at, at(2024, 3, 1, 10, 0, 0));
}

#[test]
fn unparsable_timestamp_drops_the_post() {
    let bad = item_html("<a class=\"xw1\">A</a>", "http://a/a.png", "發表於 yesterday", "5", "b", "");
    let html = thread_html(&format!("{}{}", bad, good_item()));
    let r = parse_page("h".to_string(), &html, &selectors(), false);
    assert_eq!(r, Some(Update::Talk(vec![item_talk()])));
}

#[test]
fn floor_number_that_is_no_number_drops_the_post() {
    let bad = item_html(
        "<a class=\"xw1\">A</a>",
        "http://a/a.png",
        "<span title=\"2024-03-01 10:00:00\">x</span>",
        "#5",
        "b",
        "",
    );
    let html = thread_html(&bad);
    let r = parse_page("h".to_string(), &html, &selectors(), false);
    assert_eq!(r, Some(Update::Talk(vec![])));
}

#[test]
fn incomplete_main_post_leaves_the_other_posts() {
    let html = thread_html(&good_item()).replace("<a>MainAuthor</a>", "<b>MainAuthor</b>");
    let Some(Update::All(page)) = parse_page("h".to_string(), &html, &selectors(), true) else {
        panic!("expected a whole page")
    };
    assert_eq!(page.talks, vec![item_talk()]);
}

#[test]
fn reply_with_missing_picture_is_dropped() {
    let replies = format!(
        "{}<div class=\"pstl xs1 cl\"><div class=\"psta vm\"><a class=\"xi2 xw1\">NoPic</a></div><div class=\"psti\">hi<span>發表於 2024-03-03 12:05</span></div></div>",
        reply_html("Commenter", "<span><span title=\"2024-03-03 12:05\">today</span></span>", "Agreed")
    );
    let item = item_html(
        "<a class=\"xw1\">Poster</a>",
        "http://a/p2.png",
        "<span title=\"2024-03-01 10:00:00\">yesterday</span>",
        "2",
        "<p>Body <span>text</span></p>",
        &replies,
    );
    let html = thread_html(&item);
    let r = parse_page("h".to_string(), &html, &selectors(), false);
    assert_eq!(r, Some(Update::Talk(vec![item_talk()])));
}

#[test]
fn page_count_of_zero_reads_as_one() {
    let html = thread_html(&good_item()).replace("title=\"共 3 頁\"", "title=\"共 0 頁\"");
    let Some(Update::All(page)) = parse_page("h".to_string(), &html, &selectors(), true) else {
        panic!("expected a whole page")
    };
    assert_eq!(page.total_page, 1);
}
