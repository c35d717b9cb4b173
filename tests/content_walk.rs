use bustop::content::Content;
use bustop::detail::{parse_page, Selectors, Update};
use bustop::time::{Date, DateTime};

fn body_of(body: &str) -> Vec<Content> {
    let html = format!(
        "<html><body><div id=\"postlist\"><div class=\"nthread_postbox\"><table class=\"plhin\"><tbody><tr>\
<td class=\"pls\"><div class=\"pls favatar\"><div><div class=\"avatar\"><a><img src=\"http://a/p.png\"></a></div></div></div></td>\
<td class=\"plc\"><div class=\"pi\"><strong><a><em>4</em></a></strong><div><div class=\"authi\"><a class=\"xw1\">P</a><em><span title=\"2024-01-02 03:04:05\">x</span></em></div></div></div>\
<div class=\"pct\"><div class=\"pcb\"><div><table><tbody><tr><td class=\"t_f\">{body}</td></tr></tbody></table></div></div></div></td>\
</tr></tbody></table></div></div></body></html>"
    );
    let sels = Selectors::new().expect("the thread-page queries compile");
    match parse_page("h".to_string(), &html, &sels, false) {
        Some(Update::Talk(mut talks)) => {
            assert_eq!(talks.len(), 1);
            talks.remove(0).content
        }
        other => panic!("unexpected {:?}", other),
    }
}

fn text(s: &str) -> Content {
    Content::Text(s.to_string())
}

#[test]
fn text_image_and_quote_keep_document_order() {
    let body = "one<div><span> two </span><img src=\"http://x/a.png\"><div><p>three</p></div></div>\
<blockquote><font>Quoted 發表於 2024-02-28 08:15</font><br>  the quoted words </blockquote>four";
    let quote = Content::Quote(
        "Quoted".to_string(),
        DateTime { date: Date { year: 2024, month: 2, day: 28 }, hour: 8, minute: 15, second: 0 },
        "the quoted words".to_string(),
    );
    assert_eq!(
        body_of(body),
        vec![text("one"), text("two"), Content::Image("http://x/a.png".to_string()), text("three"), quote, text("four")]
    );
}

#[test]
fn whitespace_only_text_is_dropped() {
    assert_eq!(body_of("  <p>\n\t </p> <b> x </b>  "), vec![text("x")]);
}

#[test]
fn relative_image_is_dropped_absolute_kept_verbatim() {
    let body = "<img src=\"/relative.png\"><img src=\"//cdn/x.png\"><img><img src=\"http://x/y.png\"><img src=\"https://s/z.jpg?q=1\">";
    assert_eq!(
        body_of(body),
        vec![Content::Image("http://x/y.png".to_string()), Content::Image("https://s/z.jpg?q=1".to_string())]
    );
}

#[test]
fn quote_with_one_text_node_is_dropped() {
    assert_eq!(body_of("a<blockquote>only header</blockquote>b"), vec![text("a"), text("b")]);
}

#[test]
fn quote_with_short_header_is_dropped() {
    assert_eq!(
        body_of("a<blockquote><font>Name 2024-02-28 08:15</font><br>body</blockquote>b"),
        vec![text("a"), text("b")]
    );
}

#[test]
fn quote_with_bad_date_is_dropped() {
    assert_eq!(
        body_of("a<blockquote><font>Name at 2024-13-45 08:15</font><br>body</blockquote>b"),
        vec![text("a"), text("b")]
    );
}

#[test]
fn quote_subtree_text_is_not_repeated() {
    let body = "<blockquote><font>N x 2024-02-28 08:15</font><br>q<i>inner</i></blockquote>";
    let quote = Content::Quote(
        "N".to_string(),
        DateTime { date: Date { year: 2024, month: 2, day: 28 }, hour: 8, minute: 15, second: 0 },
        "q".to_string(),
    );
    assert_eq!(body_of(body), vec![quote]);
}
