use bustop::summary::{parse_page, Article, Author, LastReply, Selectors};
use bustop::time::{Date, DateTime};

fn row(title: &str, views: &str, images: &str) -> String {
    format!(
        "<tbody><tr><th>\
<div class=\"post_avatar\"><a><img src=\"http://a/u1.png\"></a></div>\
<div class=\"post_inforight\">\
<div class=\"post_infolist\"><div><a class=\"s\" href=\"forum.php?mod=viewthread&amp;tid=1\">{title}</a>{images}</div></div>\
<div class=\"post_infolist_other\">\
<div><span class=\"author\"><a>Alice</a></span><span class=\"dateline\"><span title=\"2024-03-01\">3 days ago</span></span></div>\
<div class=\"z nums\"><span class=\"views\">{views}</span><span class=\"reply\">7</span></div>\
<span><a>Bob</a><span>x</span><span><span title=\"2024-03-02 09:15\">yesterday</span></span></span>\
</div></div></th></tr></tbody>"
    )
}

fn listing(rows: &str) -> String {
    format!("<html><body><table id=\"threadlisttableid\">{rows}</table></body></html>")
}

fn selectors() -> Selectors {
    Selectors::new().expect("the listing queries compile")
}

fn first_article() -> Article {
    Article {
        title: "Title One".to_string(),
        author: Author { name: "Alice".to_string(), picture: "http://a/u1.png".to_string() },
        published_at: Date { year: 2024, month: 3, day: 1 },
        view: 120,
        reply: 7,
        last_reply: LastReply {
            name: "Bob".to_string(),
            published_at: DateTime { date: Date { year: 2024, month: 3, day: 2 }, hour: 9, minute: 15, second: 0 },
        },
        preview_images: vec!["https://www.javbus.com/forum/data/p1.jpg".to_string()],
        href: "https://www.javbus.com/forum/forum.php?mod=viewthread&tid=1".to_string(),
    }
}

const IMAGES: &str = "<a><img src=\"data/p1.jpg\"></a><a><img src=\"template/javbus/images/folder_lock.gif\"></a><a><img src=\"template/javbus/images/pollsmall.gif\"></a>";

#[test]
fn row_missing_view_count_is_dropped() {
    let html = listing(&format!("{}{}", row("Title One", "120", IMAGES), row("Title Two", "", "")));
    assert_eq!(parse_page(&html, &selectors()), vec![first_article()]);
}

#[test]
fn rows_come_in_document_order() {
    let html = listing(&format!("{}{}", row("Title One", "120", IMAGES), row("Title Two", "5", "")));
    let r = parse_page(&html, &selectors());
    assert_eq!(r.len(), 2);
    assert_eq!(r[0], first_article());
    assert_eq!(r[1].title, "Title Two");
    assert_eq!(r[1].view, 5);
    assert!(r[1].preview_images.is_empty());
}

#[test]
fn view_count_out_of_range_drops_the_row() {
    let html = listing(&row("T", "4294967296", ""));
    assert!(parse_page(&html, &selectors()).is_empty());
    let html = listing(&row("T", "4294967295", ""));
    assert_eq!(parse_page(&html, &selectors())[0].view, u32::MAX);
}

#[test]
fn date_falls_back_to_visible_text() {
    let html = listing(&row("T", "1", "")).replace("<span title=\"2024-03-01\">3 days ago</span>", "2024-04-05");
    let r = parse_page(&html, &selectors());
    assert_eq!(r[0].published_at, Date { year: 2024, month: 4, day: 5 });
}

#[test]
fn empty_document_yields_no_article() {
    assert!(parse_page("", &selectors()).is_empty());
}
