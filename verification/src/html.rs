//! HTML fragments for the feed page.
use vstd::prelude::*;

use crate::message::{MediaContent, MediaSource, MessageType};
use crate::mxc::{is_valid_mxc, media_url, mxc_valid, url};
use crate::text::{br_lines, lemma_br_lines_no_line_feed, replace_newlines};
use crate::time::{
    chrono_format, feed_time_format, format_instant, local_offset, offset_in_range, Timestamp,
    MAX_TIMESTAMP_MILLIS,
};

verus! {

/// Types that render as a fragment of the feed page.
pub trait ToHtml {
    /// Whether rendering is defined for this value.
    spec fn html_defined(&self) -> bool;

    /// Whether `html` is a rendering of this value.
    spec fn renders_as(&self, html: Seq<char>) -> bool;

    fn to_html(&self) -> (r: String)
        requires
            self.html_defined(),
        ensures
            self.renders_as(r@),
    ;
}

/// An audio player for the file at `src`.
pub open spec fn audio_html(src: Seq<char>, mime: Seq<char>) -> Seq<char> {
    "<audio controls><source src=\""@ + src + "\" type=\""@ + mime + "\"></audio>"@
}

/// An image.
pub open spec fn image_html(src: Seq<char>, mime: Seq<char>) -> Seq<char> {
    "<img src=\""@ + src + "\" type=\""@ + mime + "\">"@
}

/// A paragraph of text, its line feeds turned into line breaks.
pub open spec fn text_html(body: Seq<char>) -> Seq<char> {
    "<p>"@ + br_lines(body) + "</p>"@
}

/// A looping video player with a poster image.
pub open spec fn video_html(poster: Seq<char>, src: Seq<char>, mime: Seq<char>) -> Seq<char> {
    "<video controls loop poster=\""@ + poster + "\"><source src=\""@ + src + "\" type=\""@ + mime
        + "\"></video>"@
}

/// Whether the feed can render a message: every media file that it shows has a valid
/// `mxc://` URI and a MIME type.
pub open spec fn message_html_defined(m: MessageType) -> bool {
    match m {
        MessageType::Audio(a) => a.source matches MediaSource::Plain(uri) ==> mxc_valid(uri@)
            && a.mime() is Some,
        MessageType::Image(i) => i.source matches MediaSource::Plain(uri) ==> mxc_valid(uri@)
            && i.mime() is Some,
        MessageType::Video(v) => match (v.poster(), v.source) {
            (MediaSource::Plain(t), MediaSource::Plain(u)) => mxc_valid(t@) && mxc_valid(u@)
                && v.mime() is Some,
            _ => true,
        },
        _ => true,
    }
}

/// The feed's HTML for a message; a video's poster is its thumbnail, or the video itself where
/// the metadata names no thumbnail. Empty for encrypted media, for videos whose poster is
/// encrypted and for kinds of message that the feed does not show.
pub open spec fn message_html(m: MessageType) -> Seq<char> {
    match m {
        MessageType::Audio(a) => match a.source {
            MediaSource::Plain(uri) => audio_html(media_url(uri@), a.mime().unwrap()),
            MediaSource::Encrypted => Seq::empty(),
        },
        MessageType::Image(i) => match i.source {
            MediaSource::Plain(uri) => image_html(media_url(uri@), i.mime().unwrap()),
            MediaSource::Encrypted => Seq::empty(),
        },
        MessageType::Text(t) => text_html(t.body@),
        MessageType::Video(v) => match (v.poster(), v.source) {
            (MediaSource::Plain(t), MediaSource::Plain(u)) => video_html(
                media_url(t@),
                media_url(u@),
                v.mime().unwrap(),
            ),
            _ => Seq::empty(),
        },
        MessageType::Other => Seq::empty(),
    }
}

/// An audio or image message with a plain file shows that file, at its download address and
/// with its MIME type, whatever thumbnail the metadata names.
pub proof fn lemma_media_html_shows_the_file(m: MediaContent, uri: String)
    requires
        m.source == MediaSource::Plain(uri),
    ensures
        message_html(MessageType::Image(m)) == image_html(media_url(uri@), m.mime().unwrap()),
        message_html(MessageType::Audio(m)) == audio_html(media_url(uri@), m.mime().unwrap()),
{
}

/// Two messages with the same file and MIME type render alike: audio and image HTML does not
/// depend on the thumbnail or size that the metadata names.
pub proof fn lemma_media_html_ignores_thumbnail(a: MediaContent, b: MediaContent)
    requires
        a.source == b.source,
        a.mime() == b.mime(),
    ensures
        message_html(MessageType::Image(a)) == message_html(MessageType::Image(b)),
        message_html(MessageType::Audio(a)) == message_html(MessageType::Audio(b)),
{
}

/// A video's poster is its plain thumbnail where the metadata names one, and the video itself
/// where it names none; its source is always the video itself.
pub proof fn lemma_video_poster(v: MediaContent, uri: String)
    requires
        v.source == MediaSource::Plain(uri),
    ensures
        v.thumbnail() is None ==> message_html(MessageType::Video(v)) == video_html(
            media_url(uri@),
            media_url(uri@),
            v.mime().unwrap(),
        ),
        forall|t: String|
            v.thumbnail() == Some(MediaSource::Plain(t)) ==> message_html(MessageType::Video(v))
                == video_html(media_url(t@), media_url(uri@), v.mime().unwrap()),
{
}

/// The feed HTML of a text message holds no line feed: every line feed of the body becomes a
/// line break.
pub proof fn lemma_text_html_single_line(body: Seq<char>)
    ensures
        forall|i: int| 0 <= i < text_html(body).len() ==> text_html(body)[i] != '\n',
{
    reveal_strlit("<p>");
    reveal_strlit("</p>");
    lemma_br_lines_no_line_feed(body);
    let b = br_lines(body);
    assert forall|i: int| 0 <= i < text_html(body).len() implies text_html(body)[i] != '\n' by {
        if i < 3 {
            assert(text_html(body)[i] == "<p>"@[i]);
        } else if i < 3 + b.len() {
            assert(text_html(body)[i] == b[i - 3]);
        } else {
            assert(text_html(body)[i] == "</p>"@[i - 3 - b.len()]);
        }
    }
}

/// Whether the feed can render a message of this type.
pub fn html_ready(t: &MessageType) -> (r: bool)
    ensures
        r == message_html_defined(*t),
{
    match t {
        MessageType::Audio(a) | MessageType::Image(a) => match &a.source {
            MediaSource::Plain(uri) => is_valid_mxc(uri) && a.has_mimetype(),
            MediaSource::Encrypted => true,
        },
        MessageType::Video(v) => match (v.plain_poster(), &v.source) {
            (Some(poster), MediaSource::Plain(uri)) => is_valid_mxc(poster) && is_valid_mxc(uri)
                && v.has_mimetype(),
            _ => true,
        },
        _ => true,
    }
}

fn media_html(open: &str, src: &String, media: &MediaContent, close: &str) -> (r: String)
    requires
        mxc_valid(src@),
        media.mime() is Some,
    ensures
        r@ == open@ + media_url(src@) + "\" type=\""@ + media.mime().unwrap() + close@,
{
    let mut r = String::new();
    r.append(open);
    r.append(url(src).as_str());
    r.append("\" type=\"");
    r.append(media.mimetype().as_str());
    r.append(close);
    r
}

impl ToHtml for MessageType {
    open spec fn html_defined(&self) -> bool {
        message_html_defined(*self)
    }

    open spec fn renders_as(&self, html: Seq<char>) -> bool {
        html == message_html(*self)
    }

    fn to_html(&self) -> (r: String) {
        match self {
            MessageType::Audio(audio) => match &audio.source {
                MediaSource::Plain(uri) => media_html(
                    "<audio controls><source src=\"",
                    uri,
                    audio,
                    "\"></audio>",
                ),
                MediaSource::Encrypted => String::new(),
            },
            MessageType::Image(image) => match &image.source {
                MediaSource::Plain(uri) => media_html("<img src=\"", uri, image, "\">"),
                MediaSource::Encrypted => String::new(),
            },
            MessageType::Text(text) => {
                let mut r = String::new();
                r.append("<p>");
                r.append(replace_newlines(text.body.as_str()).as_str());
                r.append("</p>");
                r
            },
            MessageType::Video(video) => match (video.plain_poster(), &video.source) {
                (Some(poster), MediaSource::Plain(uri)) => {
                    let mut r = String::new();
                    r.append("<video controls loop poster=\"");
                    r.append(url(poster).as_str());
                    r.append(media_html("\"><source src=\"", uri, video, "\"></video>").as_str());
                    assert(r@ =~= video_html(media_url(poster@), media_url(uri@), video.mime().unwrap()));
                    r
                },
                _ => String::new(),
            },
            MessageType::Other => String::new(),
        }
    }
}

/// The feed's HTML for an instant seen at UTC offset `offset`.
pub open spec fn time_html(millis: u64, offset: i32) -> Seq<char> {
    "<time>"@ + chrono_format(millis, offset, feed_time_format()) + "</time>"@
}

/// The feed's HTML for the instant `millis`, seen at UTC offset `offset`.
pub fn time_html_at(millis: u64, offset: i32) -> (r: String)
    requires
        millis <= MAX_TIMESTAMP_MILLIS,
        offset_in_range(offset as int),
    ensures
        r@ == time_html(millis, offset),
        offset % 60 == 0 ==> r@ == time_html((millis - millis % 60000) as u64, offset),
{
    let mut r = String::new();
    r.append("<time>");
    r.append(format_instant(millis, offset, "%H:%M, %d %b %Y").as_str());
    r.append("</time>");
    r
}

impl ToHtml for Timestamp {
    open spec fn html_defined(&self) -> bool {
        self.0 <= MAX_TIMESTAMP_MILLIS
    }

    /// The time in the server's local time zone, whose offset the environment decides.
    open spec fn renders_as(&self, html: Seq<char>) -> bool {
        exists|offset: i32| offset_in_range(offset as int) && html == time_html(self.0, offset)
    }

    fn to_html(&self) -> (r: String) {
        let offset = local_offset(self.0);
        time_html_at(self.0, offset)
    }
}

} // verus!
