use matrix_feed::feed::{
    feed_body, feed_can_show, feed_entry_at, feed_messages, feed_page, try_feed_page,
};
use matrix_feed::message::{MediaContent, MediaInfo, MediaSource, Message, MessageType, TextContent};

fn text_message(body: &str, ts: u64) -> Message {
    Message {
        sender: "@alice:example.org".to_string(),
        msgtype: MessageType::Text(TextContent { body: body.to_string() }),
        origin_server_ts: ts,
    }
}

fn image_message(uri: &str, ts: u64) -> Message {
    Message {
        sender: "@alice:example.org".to_string(),
        msgtype: MessageType::Image(MediaContent {
            source: MediaSource::Plain(uri.to_string()),
            info: Some(MediaInfo {
                mimetype: Some("image/png".to_string()),
                size: Some(10),
                thumbnail_source: None,
            }),
        }),
        origin_server_ts: ts,
    }
}

fn check_entry(entry: &str, html: &str) {
    let prefix = format!("\t\t\t{}\n\t\t\t<time>", html);
    assert!(entry.starts_with(&prefix), "{:?}", entry);
    assert!(entry.ends_with("</time>\n"), "{:?}", entry);
}

#[test]
fn feed_entry_layout() {
    let msgs = vec![text_message("hi", 1700000000000)];
    let body = feed_messages(&msgs);
    check_entry(&body, "<p>hi</p>");
    assert_eq!(body.len(), "\t\t\t<p>hi</p>\n\t\t\t<time>23:13, 14 Nov 2023</time>\n".len());
}

#[test]
fn feed_is_one_entry_per_message_in_order() {
    let a = vec![text_message("first", 1700000000000)];
    let b = vec![text_message("second", 1700000000000)];
    let both = vec![text_message("first", 1700000000000), text_message("second", 1700000000000)];
    assert_eq!(feed_messages(&both), format!("{}{}", feed_messages(&a), feed_messages(&b)));
}

#[test]
fn empty_feed() {
    assert_eq!(feed_messages(&vec![]), "");
}

#[test]
fn feed_page_defaults() {
    let page = feed_page(None, None, &vec![]);
    assert_eq!(page.avatar, "");
    assert_eq!(page.name, "Room");
    assert_eq!(page.messages, "");
}

#[test]
fn feed_page_with_avatar_and_name() {
    let page = feed_page(
        Some("mxc://example.org/avatar".to_string()),
        Some("Garden".to_string()),
        &vec![],
    );
    assert_eq!(page.avatar, "https://example.org/_matrix/media/v3/download/example.org/avatar");
    assert_eq!(page.name, "Garden");
}

#[test]
fn feed_refuses_what_it_cannot_show() {
    assert!(try_feed_page(Some("avatar".to_string()), None, &vec![]).is_none());
    let bad = vec![image_message("mxc://bad_server/x", 0)];
    assert!(!feed_can_show(&bad));
    assert!(try_feed_page(None, None, &bad).is_none());
    let too_late = vec![text_message("x", 8210266876800000)];
    assert!(!feed_can_show(&too_late));
    let good = vec![image_message("mxc://example.org/x", 0), text_message("y", 8210266876799999)];
    assert!(feed_can_show(&good));
    let page = try_feed_page(None, Some("R".to_string()), &good).unwrap();
    assert!(page.messages.starts_with("\t\t\t<img src=\"https://example.org/_matrix/media/v3/download/example.org/x\" type=\"image/png\">\n\t\t\t<time>"));
}

#[test]
fn feed_entry_at_a_fixed_offset() {
    assert_eq!(
        feed_entry_at(&text_message("hi\nyou", 1700000000000), 3600),
        "\t\t\t<p>hi<br>you</p>\n\t\t\t<time>23:13, 14 Nov 2023</time>\n"
    );
    assert_eq!(
        feed_entry_at(&image_message("mxc://example.org/x", 0), 0),
        "\t\t\t<img src=\"https://example.org/_matrix/media/v3/download/example.org/x\" type=\"image/png\">\n\t\t\t<time>00:00, 01 Jan 1970</time>\n"
    );
}

#[test]
fn feed_body_fills_the_template() {
    let body = feed_body("{{name}}|{{avatar}}|{{{messages}}}", None, None, &vec![]);
    assert_eq!(body, Some("Room||".to_string()));
    let body = feed_body(
        "<h1>{{name}}</h1><img src=\"{{avatar}}\">",
        Some("mxc://example.org/av".to_string()),
        Some("Tom & Jerry".to_string()),
        &vec![],
    );
    assert_eq!(
        body,
        Some("<h1>Tom &amp; Jerry</h1><img src=\"https://example.org/_matrix/media/v3/download/example.org/av\">".to_string())
    );
}

#[test]
fn feed_body_holds_the_entries() {
    let body = feed_body("[{{{messages}}}]", None, None, &vec![text_message("hi", 0)]).unwrap();
    assert!(body.starts_with("[\t\t\t<p>hi</p>\n\t\t\t<time>"));
    assert!(body.ends_with("</time>\n]"));
}

#[test]
fn feed_body_refuses_a_broken_template_or_avatar() {
    assert_eq!(feed_body("{{#if name}}unclosed", None, None, &vec![]), None);
    assert_eq!(feed_body("{{name}}", Some("not-mxc".to_string()), None, &vec![]), None);
}
