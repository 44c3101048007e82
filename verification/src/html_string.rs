//! HTML strings that link media through the home server's own download path.
use vstd::prelude::*;

use crate::html::{message_html, message_html_defined, text_html};
use crate::message::{MediaContent, MediaSource, MessageType};
use crate::mxc::{mxc_checked_parts, mxc_media_id, mxc_valid};
use crate::text::replace_newlines;
use crate::time::{
    chrono_format, format_instant, local_offset, offset_in_range, short_time_format, Timestamp,
    MAX_TIMESTAMP_MILLIS,
};

verus! {

/// Types that render as an HTML string that links media through the home server.
pub trait ToHtmlString {
    /// Whether rendering is defined for this value.
    spec fn html_string_defined(&self) -> bool;

    /// Whether `html` is a rendering of this value.
    spec fn renders_as_string(&self, html: Seq<char>) -> bool;

    fn to_html_string(&self) -> (r: String)
        requires
            self.html_string_defined(),
        ensures
            self.renders_as_string(r@),
    ;
}

/// The home server's download path, to which a media ID is appended.
pub open spec fn download_path() -> Seq<char> {
    "https://n0g.rip/_matrix/media/r0/download/n0g.rip/"@
}

/// The home server's download address for the media of a valid MXC URI.
pub open spec fn home_media_url(uri: Seq<char>) -> Seq<char> {
    download_path() + mxc_media_id(uri)
}

/// The home server's download address for the media of a valid MXC URI.
pub(crate) fn home_url(uri: &String) -> (r: String)
    requires
        mxc_valid(uri@),
    ensures
        r@ == home_media_url(uri@),
{
    match mxc_checked_parts(uri) {
        Some((_server, media)) => {
            let mut r = String::new();
            r.append("https://n0g.rip/_matrix/media/r0/download/n0g.rip/");
            r.append(media.as_str());
            r
        },
        None => {
            proof {
                assert(false);
            }
            String::new()
        },
    }
}

/// An audio player.
pub open spec fn audio_html_string(src: Seq<char>, mime: Seq<char>) -> Seq<char> {
    "<audio controls><source src=\""@ + src + "\" type=\""@ + mime + "\"></audio>"@
}

/// An image.
pub open spec fn image_html_string(src: Seq<char>, mime: Seq<char>) -> Seq<char> {
    "<img src=\""@ + src + "\" type=\""@ + mime + "\">"@
}

/// A video player with a poster image (not looping).
pub open spec fn video_html_string(poster: Seq<char>, src: Seq<char>, mime: Seq<char>) -> Seq<
    char,
> {
    "<video controls poster=\""@ + poster + "\"><source src=\""@ + src + "\" type=\""@ + mime
        + "\"></video>"@
}

/// The HTML string of a message, media linked through the home server; empty for encrypted
/// media, for videos whose poster (thumbnail, or the video itself) is encrypted and for other
/// kinds of message.
pub open spec fn message_html_string(m: MessageType) -> Seq<char> {
    match m {
        MessageType::Audio(a) => match a.source {
            MediaSource::Plain(uri) => audio_html_string(home_media_url(uri@), a.mime().unwrap()),
            MediaSource::Encrypted => Seq::empty(),
        },
        MessageType::Image(i) => match i.source {
            MediaSource::Plain(uri) => image_html_string(home_media_url(uri@), i.mime().unwrap()),
            MediaSource::Encrypted => Seq::empty(),
        },
        MessageType::Text(t) => text_html(t.body@),
        MessageType::Video(v) => match (v.poster(), v.source) {
            (MediaSource::Plain(t), MediaSource::Plain(u)) => video_html_string(
                home_media_url(t@),
                home_media_url(u@),
                v.mime().unwrap(),
            ),
            _ => Seq::empty(),
        },
        MessageType::Other => Seq::empty(),
    }
}

fn media_html_string(open: &str, src: &String, media: &MediaContent, close: &str) -> (r: String)
    requires
        mxc_valid(src@),
        media.mime() is Some,
    ensures
        r@ == open@ + home_media_url(src@) + "\" type=\""@ + media.mime().unwrap() + close@,
{
    let mut r = String::new();
    r.append(open);
    r.append(home_url(src).as_str());
    r.append("\" type=\"");
    r.append(media.mimetype().as_str());
    r.append(close);
    r
}

impl ToHtmlString for MessageType {
    /// The same media need URIs and MIME types as for the feed's HTML.
    open spec fn html_string_defined(&self) -> bool {
        message_html_defined(*self)
    }

    open spec fn renders_as_string(&self, html: Seq<char>) -> bool {
        html == message_html_string(*self)
    }

    fn to_html_string(&self) -> (r: String) {
        match self {
            MessageType::Audio(audio) => match &audio.source {
                MediaSource::Plain(uri) => media_html_string(
                    "<audio controls><source src=\"",
                    uri,
                    audio,
                    "\"></audio>",
                ),
                MediaSource::Encrypted => String::new(),
            },
            MessageType::Image(image) => match &image.source {
                MediaSource::Plain(uri) => media_html_string("<img src=\"", uri, image, "\">"),
                MediaSource::Encrypted => String::new(),
            },
            MessageType::Text(text) => {
                let mut r = String::new();
                r.append("<p>");
                r.append(replace_newlines(text.body.as_str()).as_str());
                r.append("</p>");
                r
            },
            MessageType::Video(video) => match (video.plain_poster(), &video.source) {
                (Some(poster), MediaSource::Plain(uri)) => {
                    let mut r = String::new();
                    r.append("<video controls poster=\"");
                    r.append(home_url(poster).as_str());
                    r.append(
                        media_html_string("\"><source src=\"", uri, video, "\"></video>").as_str(),
                    );
                    assert(r@ =~= video_html_string(
                        home_media_url(poster@),
                        home_media_url(uri@),
                        video.mime().unwrap(),
                    ));
                    r
                },
                _ => String::new(),
            },
            MessageType::Other => String::new(),
        }
    }
}

/// An audio or image message with a plain file links that file's media ID through the home
/// server, with its MIME type, whatever thumbnail the metadata names.
pub proof fn lemma_media_html_string_shows_the_file(m: MediaContent, uri: String)
    requires
        m.source == MediaSource::Plain(uri),
    ensures
        message_html_string(MessageType::Image(m)) == image_html_string(
            download_path() + mxc_media_id(uri@),
            m.mime().unwrap(),
        ),
        message_html_string(MessageType::Audio(m)) == audio_html_string(
            download_path() + mxc_media_id(uri@),
            m.mime().unwrap(),
        ),
{
}

/// Two messages with the same file and MIME type render alike as HTML strings: the rendering
/// of audio and images does not depend on the thumbnail or size that the metadata names.
pub proof fn lemma_media_html_string_ignores_thumbnail(a: MediaContent, b: MediaContent)
    requires
        a.source == b.source,
        a.mime() == b.mime(),
    ensures
        message_html_string(MessageType::Image(a)) == message_html_string(MessageType::Image(b)),
        message_html_string(MessageType::Audio(a)) == message_html_string(MessageType::Audio(b)),
{
}

/// A video's poster is its plain thumbnail where the metadata names one, and the video itself
/// where it names none; its source is always the video itself.
pub proof fn lemma_video_poster_string(v: MediaContent, uri: String)
    requires
        v.source == MediaSource::Plain(uri),
    ensures
        v.thumbnail() is None ==> message_html_string(MessageType::Video(v)) == video_html_string(
            download_path() + mxc_media_id(uri@),
            download_path() + mxc_media_id(uri@),
            v.mime().unwrap(),
        ),
        forall|t: String|
            v.thumbnail() == Some(MediaSource::Plain(t)) ==> message_html_string(
                MessageType::Video(v),
            ) == video_html_string(
                download_path() + mxc_media_id(t@),
                download_path() + mxc_media_id(uri@),
                v.mime().unwrap(),
            ),
{
}

/// Text messages, and kinds of message that neither rendering shows, render the same way as
/// HTML strings and as feed HTML; the two differ only in how media are linked.
pub proof fn lemma_non_media_render_alike(m: MessageType)
    requires
        m is Text || m is Other,
    ensures
        message_html_string(m) == message_html(m),
{
}

/// The short HTML time for an instant seen at UTC offset `offset`.
pub open spec fn time_html_string(millis: u64, offset: i32) -> Seq<char> {
    "<time>"@ + chrono_format(millis, offset, short_time_format()) + "</time>"@
}

/// The short HTML time for the instant `millis`, seen at UTC offset `offset`.
pub fn time_html_string_at(millis: u64, offset: i32) -> (r: String)
    requires
        millis <= MAX_TIMESTAMP_MILLIS,
        offset_in_range(offset as int),
    ensures
        r@ == time_html_string(millis, offset),
        offset % 60 == 0 ==> r@ == time_html_string((millis - millis % 60000) as u64, offset),
{
    let mut r = String::new();
    r.append("<time>");
    r.append(format_instant(millis, offset, "%b %d, %H:%M").as_str());
    r.append("</time>");
    r
}

impl ToHtmlString for Timestamp {
    open spec fn html_string_defined(&self) -> bool {
        self.0 <= MAX_TIMESTAMP_MILLIS
    }

    /// The time in the server's local time zone, whose offset the environment decides.
    open spec fn renders_as_string(&self, html: Seq<char>) -> bool {
        exists|offset: i32|
            offset_in_range(offset as int) && html == time_html_string(self.0, offset)
    }

    fn to_html_string(&self) -> (r: String) {
        let offset = local_offset(self.0);
        time_html_string_at(self.0, offset)
    }
}

} // verus!
