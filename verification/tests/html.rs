use matrix_feed::html::{html_ready, time_html_at, ToHtml};
use matrix_feed::html_string::{time_html_string_at, ToHtmlString};
use matrix_feed::message::{MediaContent, MediaInfo, MediaSource, MessageType, TextContent};
use matrix_feed::time::Timestamp;

fn media(uri: &str, mime: Option<&str>, thumb: Option<&str>) -> MediaContent {
    MediaContent {
        source: MediaSource::Plain(uri.to_string()),
        info: Some(MediaInfo {
            mimetype: mime.map(|m| m.to_string()),
            size: Some(1234),
            thumbnail_source: thumb.map(|t| MediaSource::Plain(t.to_string())),
        }),
    }
}

fn text(body: &str) -> MessageType {
    MessageType::Text(TextContent { body: body.to_string() })
}

#[test]
fn text_message_html() {
    assert_eq!(text("hello\nworld").to_html(), "<p>hello<br>world</p>");
}

#[test]
fn audio_message_html() {
    let m = MessageType::Audio(media("mxc://example.org/snd", Some("audio/ogg"), None));
    assert_eq!(
        m.to_html(),
        "<audio controls><source src=\"https://example.org/_matrix/media/v3/download/example.org/snd\" type=\"audio/ogg\"></audio>"
    );
}

#[test]
fn image_message_html() {
    let m = MessageType::Image(media("mxc://example.org/pic", Some("image/png"), None));
    assert_eq!(
        m.to_html(),
        "<img src=\"https://example.org/_matrix/media/v3/download/example.org/pic\" type=\"image/png\">"
    );
}

#[test]
fn video_message_html() {
    let m = MessageType::Video(media(
        "mxc://example.org/vid",
        Some("video/mp4"),
        Some("mxc://example.org/thumb"),
    ));
    assert_eq!(
        m.to_html(),
        "<video controls loop poster=\"https://example.org/_matrix/media/v3/download/example.org/thumb\"><source src=\"https://example.org/_matrix/media/v3/download/example.org/vid\" type=\"video/mp4\"></video>"
    );
}

#[test]
fn video_without_thumbnail_is_its_own_poster() {
    let m = MessageType::Video(media("mxc://example.org/vid", Some("video/mp4"), None));
    assert_eq!(
        m.to_html(),
        "<video controls loop poster=\"https://example.org/_matrix/media/v3/download/example.org/vid\"><source src=\"https://example.org/_matrix/media/v3/download/example.org/vid\" type=\"video/mp4\"></video>"
    );
    assert_eq!(
        m.to_html_string(),
        "<video controls poster=\"https://n0g.rip/_matrix/media/r0/download/n0g.rip/vid\"><source src=\"https://n0g.rip/_matrix/media/r0/download/n0g.rip/vid\" type=\"video/mp4\"></video>"
    );
}

#[test]
fn video_without_metadata_cannot_render() {
    let bare = MessageType::Video(MediaContent {
        source: MediaSource::Plain("mxc://example.org/vid".to_string()),
        info: None,
    });
    assert!(!html_ready(&bare));
}

#[test]
fn video_with_encrypted_thumbnail_renders_nothing() {
    let m = MessageType::Video(MediaContent {
        source: MediaSource::Plain("mxc://example.org/vid".to_string()),
        info: Some(MediaInfo {
            mimetype: Some("video/mp4".to_string()),
            size: None,
            thumbnail_source: Some(MediaSource::Encrypted),
        }),
    });
    assert!(html_ready(&m));
    assert_eq!(m.to_html(), "");
    assert_eq!(m.to_html_string(), "");
}

#[test]
fn encrypted_media_and_other_messages_render_nothing() {
    let m = MessageType::Image(MediaContent { source: MediaSource::Encrypted, info: None });
    assert_eq!(m.to_html(), "");
    assert_eq!(MessageType::Other.to_html(), "");
}

#[test]
fn readiness_of_media() {
    assert!(html_ready(&MessageType::Audio(media("mxc://example.org/snd", Some("audio/ogg"), None))));
    assert!(!html_ready(&MessageType::Audio(media("mxc://example.org/snd", None, None))));
    assert!(!html_ready(&MessageType::Image(media("not-a-uri", Some("image/png"), None))));
    assert!(!html_ready(&MessageType::Video(media(
        "mxc://example.org/vid",
        Some("video/mp4"),
        Some("mxc://bad_server/thumb"),
    ))));
    assert!(html_ready(&text("anything")));
}

#[test]
fn html_string_links_through_the_home_server() {
    let m = MessageType::Image(media("mxc://example.org/pic", Some("image/png"), None));
    assert_eq!(
        m.to_html_string(),
        "<img src=\"https://n0g.rip/_matrix/media/r0/download/n0g.rip/pic\" type=\"image/png\">"
    );
    let a = MessageType::Audio(media("mxc://example.org/snd", Some("audio/ogg"), None));
    assert_eq!(
        a.to_html_string(),
        "<audio controls><source src=\"https://n0g.rip/_matrix/media/r0/download/n0g.rip/snd\" type=\"audio/ogg\"></audio>"
    );
}

#[test]
fn html_string_video_does_not_loop() {
    let m = MessageType::Video(media(
        "mxc://example.org/vid",
        Some("video/mp4"),
        Some("mxc://example.org/thumb"),
    ));
    assert_eq!(
        m.to_html_string(),
        "<video controls poster=\"https://n0g.rip/_matrix/media/r0/download/n0g.rip/thumb\"><source src=\"https://n0g.rip/_matrix/media/r0/download/n0g.rip/vid\" type=\"video/mp4\"></video>"
    );
}

#[test]
fn text_renders_alike_in_both_forms() {
    let m = text("a\nb");
    assert_eq!(m.to_html(), m.to_html_string());
    assert_eq!(MessageType::Other.to_html(), MessageType::Other.to_html_string());
}

#[test]
fn feed_time_format() {
    assert_eq!(time_html_at(0, 0), "<time>00:00, 01 Jan 1970</time>");
    assert_eq!(time_html_at(1700000000000, 3600), "<time>23:13, 14 Nov 2023</time>");
    assert_eq!(time_html_at(1700000000000, -19800), "<time>16:43, 14 Nov 2023</time>");
}

#[test]
fn times_do_not_show_seconds() {
    assert_eq!(time_html_at(1700000059999, 3600), time_html_at(1700000040000, 3600));
    assert_eq!(time_html_at(1700000059999, 3600), "<time>23:14, 14 Nov 2023</time>");
    assert_eq!(time_html_string_at(59999, 0), time_html_string_at(0, 0));
}

#[test]
fn short_time_format() {
    assert_eq!(time_html_string_at(1700000000000, 3600), "<time>Nov 14, 23:13</time>");
    assert_eq!(time_html_string_at(0, 0), "<time>Jan 01, 00:00</time>");
}

#[test]
fn timestamp_renders_in_local_time() {
    let html = Timestamp(1700000000000).to_html();
    assert!(html.starts_with("<time>"));
    assert!(html.ends_with(" Nov 2023</time>"));
    assert_eq!(html.len(), "<time>23:13, 14 Nov 2023</time>".len());
    let short = Timestamp(1700000000000).to_html_string();
    assert!(short.starts_with("<time>Nov 1"));
}
