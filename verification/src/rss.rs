//! The room as an RSS channel: one item per message.
use vstd::prelude::*;

use ::rss::{Channel as RssChannel, Enclosure as RssEnclosure, Guid as RssGuid, Image as RssImage, Item as RssItem};

use crate::feed::local_offsets;
use crate::message::{MediaContent, MediaSource, Message, MessageType};
use crate::mxc::{is_valid_mxc, media_url, mxc_valid, url};
use crate::text::{decimal, decimal_string, lemma_decimal_injective};
use crate::time::{
    chrono_rfc2822, local_offset, offset_in_range, rfc2822_instant, MAX_RFC2822_MILLIS,
    MAX_TIMESTAMP_MILLIS,
};

verus! {

/// A media file attached to an RSS item.
pub struct Enclosure {
    pub url: String,
    pub length: String,
    pub mime_type: String,
}

/// The unique identifier of an RSS item, which is not a link.
pub struct Guid {
    pub value: String,
    pub permalink: bool,
}

/// An RSS item for one message.
pub struct Item {
    pub title: String,
    pub guid: Guid,
    pub enclosure: Option<Enclosure>,
    pub content: Option<String>,
    pub pub_date: String,
}

/// The RSS channel of the room.
pub struct Channel {
    pub title: String,
    pub image_url: Option<String>,
    pub link: String,
    pub items: Vec<Item>,
}

/// An item's title: the kind of message.
pub open spec fn title_of(t: MessageType) -> Seq<char> {
    match t {
        MessageType::Audio(_) => "Audio"@,
        MessageType::Image(_) => "Image"@,
        MessageType::Text(_) => "Text"@,
        MessageType::Video(_) => "Video"@,
        MessageType::Other => "Message"@,
    }
}

/// An item's content: the body of a text message.
pub open spec fn text_of(t: MessageType) -> Option<Seq<char>> {
    match t {
        MessageType::Text(text) => Some(text.body@),
        _ => None,
    }
}

/// Whether the enclosure of a message can be written: every plain media file has a valid
/// `mxc://` URI and a MIME type, and an image also a size.
pub open spec fn enclosure_defined(t: MessageType) -> bool {
    match t {
        MessageType::Audio(a) => a.source matches MediaSource::Plain(u) ==> mxc_valid(u@)
            && a.mime() is Some,
        MessageType::Image(i) => i.source matches MediaSource::Plain(u) ==> mxc_valid(u@)
            && i.file_size() is Some && i.mime() is Some,
        MessageType::Video(v) => v.source matches MediaSource::Plain(u) ==> mxc_valid(u@)
            && v.mime() is Some,
        _ => true,
    }
}

/// The enclosure of a message as (address, length, MIME type): the plain media file of an
/// audio, image or video message; the length is given for images only.
pub open spec fn enclosure_of(t: MessageType) -> Option<(Seq<char>, Seq<char>, Seq<char>)> {
    match t {
        MessageType::Audio(a) => match a.source {
            MediaSource::Plain(u) => Some((media_url(u@), Seq::empty(), a.mime().unwrap())),
            MediaSource::Encrypted => None,
        },
        MessageType::Image(i) => match i.source {
            MediaSource::Plain(u) => Some(
                (media_url(u@), decimal(i.file_size().unwrap() as nat), i.mime().unwrap()),
            ),
            MediaSource::Encrypted => None,
        },
        MessageType::Video(v) => match v.source {
            MediaSource::Plain(u) => Some((media_url(u@), Seq::empty(), v.mime().unwrap())),
            MediaSource::Encrypted => None,
        },
        _ => None,
    }
}

/// The enclosure of a media message with a plain file is that file itself: its download
/// address, with its MIME type; whatever thumbnail the metadata names, the enclosure never
/// points at the thumbnail.
pub proof fn lemma_enclosure_is_the_file(m: MediaContent, uri: String)
    requires
        m.source == MediaSource::Plain(uri),
    ensures
        enclosure_of(MessageType::Audio(m)) == Some(
            (media_url(uri@), Seq::<char>::empty(), m.mime().unwrap()),
        ),
        enclosure_of(MessageType::Video(m)) == Some(
            (media_url(uri@), Seq::<char>::empty(), m.mime().unwrap()),
        ),
        enclosure_of(MessageType::Image(m)) is Some,
        enclosure_of(MessageType::Image(m)).unwrap().0 == media_url(uri@),
        enclosure_of(MessageType::Image(m)).unwrap().2 == m.mime().unwrap(),
{
}

/// Two media messages with the same file, MIME type and size have the same enclosure: the
/// enclosure does not depend on the thumbnail that the metadata names.
pub proof fn lemma_enclosure_ignores_thumbnail(a: MediaContent, b: MediaContent)
    requires
        a.source == b.source,
        a.mime() == b.mime(),
        a.file_size() == b.file_size(),
    ensures
        enclosure_of(MessageType::Audio(a)) == enclosure_of(MessageType::Audio(b)),
        enclosure_of(MessageType::Image(a)) == enclosure_of(MessageType::Image(b)),
        enclosure_of(MessageType::Video(a)) == enclosure_of(MessageType::Video(b)),
{
}

/// An enclosure as (address, length, MIME type).
pub open spec fn enclosure_view(e: Option<Enclosure>) -> Option<(Seq<char>, Seq<char>, Seq<char>)> {
    match e {
        Some(e) => Some((e.url@, e.length@, e.mime_type@)),
        None => None,
    }
}

/// The title of a message's item.
pub fn message_title(message: &Message) -> (r: String)
    ensures
        r@ == title_of(message.msgtype),
{
    match message.msgtype {
        MessageType::Audio(_) => "Audio",
        MessageType::Image(_) => "Image",
        MessageType::Text(_) => "Text",
        MessageType::Video(_) => "Video",
        _ => "Message",
    }.to_owned()
}

/// The content of a message's item: the body of a text message, nothing otherwise.
pub fn message_text(message: &Message) -> (r: Option<String>)
    ensures
        r.deep_view() == text_of(message.msgtype),
{
    if let MessageType::Text(text) = &message.msgtype {
        Some(text.body.clone())
    } else {
        None
    }
}

/// The enclosure of a message's item.
pub fn message_enclosure(message: &Message) -> (r: Option<Enclosure>)
    requires
        enclosure_defined(message.msgtype),
    ensures
        enclosure_view(r) == enclosure_of(message.msgtype),
        match message.msgtype {
            MessageType::Video(m) => match m.source {
                MediaSource::Plain(u) => r is Some && r.unwrap().url@ == media_url(u@)
                    && r.unwrap().length@ == Seq::<char>::empty(),
                MediaSource::Encrypted => r is None,
            },
            MessageType::Audio(m) => match m.source {
                MediaSource::Plain(u) => r is Some && r.unwrap().url@ == media_url(u@)
                    && r.unwrap().length@ == Seq::<char>::empty(),
                MediaSource::Encrypted => r is None,
            },
            MessageType::Image(m) => match m.source {
                MediaSource::Plain(u) => r is Some && r.unwrap().url@ == media_url(u@),
                MediaSource::Encrypted => r is None,
            },
            _ => r is None,
        },
{
    match &message.msgtype {
        MessageType::Audio(audio) => if let MediaSource::Plain(uri) = &audio.source {
            Some(Enclosure { url: url(uri), length: String::new(), mime_type: audio.mimetype() })
        } else {
            None
        },
        MessageType::Image(image) => if let MediaSource::Plain(uri) = &image.source {
            Some(
                Enclosure {
                    url: url(uri),
                    length: decimal_string(image.size()),
                    mime_type: image.mimetype(),
                },
            )
        } else {
            None
        },
        MessageType::Video(video) => if let MediaSource::Plain(uri) = &video.source {
            Some(Enclosure { url: url(uri), length: String::new(), mime_type: video.mimetype() })
        } else {
            None
        },
        _ => None,
    }
}

/// Whether `item` is the RSS item of `m`, its date seen at UTC offset `offset`.
pub open spec fn item_of(item: Item, m: Message, offset: i32) -> bool {
    &&& item.title@ == title_of(m.msgtype)
    &&& item.guid.value@ == decimal(m.origin_server_ts as nat)
    &&& !item.guid.permalink
    &&& enclosure_view(item.enclosure) == enclosure_of(m.msgtype)
    &&& item.content.deep_view() == text_of(m.msgtype)
    &&& item.pub_date@ == chrono_rfc2822(m.origin_server_ts, offset)
}

/// Items of messages received at different times have different identifiers, whatever the
/// time zone.
pub proof fn lemma_guids_distinct(
    item1: Item,
    m1: Message,
    offset1: i32,
    item2: Item,
    m2: Message,
    offset2: i32,
)
    requires
        item_of(item1, m1, offset1),
        item_of(item2, m2, offset2),
        m1.origin_server_ts != m2.origin_server_ts,
    ensures
        item1.guid.value@ != item2.guid.value@,
{
    if item1.guid.value@ == item2.guid.value@ {
        lemma_decimal_injective(m1.origin_server_ts as nat, m2.origin_server_ts as nat);
    }
}

/// The RSS item of a message, its date seen at UTC offset `offset`.
pub fn rss_item(message: &Message, offset: i32) -> (r: Item)
    requires
        enclosure_defined(message.msgtype),
        offset_in_range(offset as int),
        message.origin_server_ts + offset * 1000 <= MAX_RFC2822_MILLIS,
    ensures
        item_of(r, *message, offset),
{
    Item {
        title: message_title(message),
        guid: Guid { value: decimal_string(message.origin_server_ts), permalink: false },
        enclosure: message_enclosure(message),
        content: message_text(message),
        pub_date: rfc2822_instant(message.origin_server_ts, offset),
    }
}

/// Whether the RSS channel can hold every message of `msgs`.
pub open spec fn rss_ready(msgs: Seq<Message>) -> bool {
    forall|i: int|
        0 <= i < msgs.len() ==> #[trigger] enclosure_defined(msgs[i].msgtype)
            && msgs[i].origin_server_ts <= MAX_TIMESTAMP_MILLIS
}

/// Whether every message's date, seen at its UTC offset, lies in a year of at most four
/// digits, so that RFC 2822 can write it.
pub open spec fn dates_writable(msgs: Seq<Message>, offsets: Seq<i32>) -> bool {
    forall|i: int|
        0 <= i < msgs.len() ==> #[trigger] msgs[i].origin_server_ts + offsets[i] * 1000
            <= MAX_RFC2822_MILLIS
}

/// Whether `items` are the RSS items of `msgs`, in order, the `i`-th date seen at UTC offset
/// `offsets[i]`.
pub open spec fn items_of(items: Seq<Item>, msgs: Seq<Message>, offsets: Seq<i32>) -> bool {
    &&& items.len() == msgs.len()
    &&& forall|i: int| 0 <= i < msgs.len() ==> item_of(#[trigger] items[i], msgs[i], offsets[i])
}

/// The RSS items of `msgs`, in order, each date in the server's local time zone; `None` where
/// a date falls after the year 9999 in that zone (RFC 2822 cannot write it).
pub fn rss_items(msgs: &Vec<Message>) -> (r: Option<Vec<Item>>)
    requires
        rss_ready(msgs@),
    ensures
        exists|offsets: Seq<i32>|
            {
                &&& local_offsets(offsets, msgs@.len())
                &&& (r is Some <==> dates_writable(msgs@, offsets))
                &&& (r matches Some(items) ==> items_of(items@, msgs@, offsets))
            },
{
    let mut items: Vec<Item> = Vec::new();
    let ghost mut offsets: Seq<i32> = Seq::empty();
    for i in 0..msgs.len()
        invariant
            rss_ready(msgs@),
            items@.len() == i,
            local_offsets(offsets, i as nat),
            forall|j: int| 0 <= j < i ==> item_of(#[trigger] items@[j], msgs@[j], offsets[j]),
            forall|j: int|
                0 <= j < i ==> #[trigger] msgs@[j].origin_server_ts + offsets[j] * 1000
                    <= MAX_RFC2822_MILLIS,
    {
        let m = &msgs[i];
        assert(enclosure_defined(msgs@[i as int].msgtype));
        let offset = local_offset(m.origin_server_ts);
        if (m.origin_server_ts as i128) + (offset as i128) * 1000 <= MAX_RFC2822_MILLIS as i128 {
            items.push(rss_item(m, offset));
            proof {
                offsets = offsets.push(offset);
            }
        } else {
            let ghost witness = offsets.push(offset) + Seq::new(
                (msgs@.len() - i - 1) as nat,
                |k: int| 0i32,
            );
            assert(!dates_writable(msgs@, witness)) by {
                assert(witness[i as int] == offset);
            }
            assert(local_offsets(witness, msgs@.len())) by {
                assert forall|k: int| 0 <= k < msgs@.len() implies offset_in_range(
                    #[trigger] witness[k] as int,
                ) by {
                    if k < i {
                        assert(witness[k] == offsets[k]);
                    }
                }
            }
            return None;
        }
    }
    assert(dates_writable(msgs@, offsets));
    Some(items)
}

/// Whether `c` is the RSS channel of a room with the given name, avatar, home server and
/// messages: titled by the name (`Room` without one), with the avatar's download address as
/// image, linked to the home server, and with the items of the messages, in order, the
/// `i`-th date seen at UTC offset `offsets[i]`.
pub open spec fn channel_of(
    c: Channel,
    name: Option<String>,
    avatar: Option<String>,
    homeserver: Seq<char>,
    msgs: Seq<Message>,
    offsets: Seq<i32>,
) -> bool {
    &&& c.title@ == match name {
        Some(n) => n@,
        None => "Room"@,
    }
    &&& c.image_url.deep_view() == match avatar {
        Some(a) => Some(media_url(a@)),
        None => None,
    }
    &&& c.link@ == homeserver
    &&& items_of(c.items@, msgs, offsets)
}

/// Whether `r` is what building the channel gives where the local time zone has the UTC
/// offsets `offsets`: the channel, unless a date cannot be written.
pub open spec fn channel_outcome(
    r: Option<Channel>,
    name: Option<String>,
    avatar: Option<String>,
    homeserver: Seq<char>,
    msgs: Seq<Message>,
    offsets: Seq<i32>,
) -> bool {
    &&& local_offsets(offsets, msgs.len())
    &&& (r is Some <==> dates_writable(msgs, offsets))
    &&& (r matches Some(c) ==> channel_of(c, name, avatar, homeserver, msgs, offsets))
}

/// The RSS channel of a room; `None` where a message's date falls after the year 9999 in the
/// server's local time zone.
pub fn rss_channel(
    name: Option<String>,
    avatar: Option<String>,
    homeserver: String,
    msgs: &Vec<Message>,
) -> (r: Option<Channel>)
    requires
        avatar matches Some(a) ==> mxc_valid(a@),
        rss_ready(msgs@),
    ensures
        exists|offsets: Seq<i32>| channel_outcome(r, name, avatar, homeserver@, msgs@, offsets),
{
    let title = match &name {
        Some(n) => n.clone(),
        None => "Room".to_owned(),
    };
    let image_url = match &avatar {
        Some(a) => Some(url(a)),
        None => None,
    };
    let items = rss_items(msgs);
    let ghost offsets = choose|offsets: Seq<i32>|
        {
            &&& local_offsets(offsets, msgs@.len())
            &&& (items is Some <==> dates_writable(msgs@, offsets))
            &&& (items matches Some(items) ==> items_of(items@, msgs@, offsets))
        };
    let r = match items {
        Some(items) => Some(Channel { title, image_url, link: homeserver, items }),
        None => None,
    };
    assert(channel_outcome(r, name, avatar, homeserver@, msgs@, offsets));
    r
}

/// Whether the enclosure of a message of this type can be written.
pub fn enclosure_ready(t: &MessageType) -> (r: bool)
    ensures
        r == enclosure_defined(*t),
{
    match t {
        MessageType::Audio(a) | MessageType::Video(a) => match &a.source {
            MediaSource::Plain(uri) => is_valid_mxc(uri) && a.has_mimetype(),
            MediaSource::Encrypted => true,
        },
        MessageType::Image(i) => match &i.source {
            MediaSource::Plain(uri) => is_valid_mxc(uri) && i.has_size() && i.has_mimetype(),
            MediaSource::Encrypted => true,
        },
        _ => true,
    }
}

/// Whether the RSS channel can hold every message of `msgs`.
pub fn rss_can_hold(msgs: &Vec<Message>) -> (r: bool)
    ensures
        r == rss_ready(msgs@),
{
    for i in 0..msgs.len()
        invariant
            forall|j: int|
                0 <= j < i ==> #[trigger] enclosure_defined(msgs@[j].msgtype)
                    && msgs@[j].origin_server_ts <= MAX_TIMESTAMP_MILLIS,
    {
        if !enclosure_ready(&msgs[i].msgtype) || msgs[i].origin_server_ts > MAX_TIMESTAMP_MILLIS {
            assert(!(enclosure_defined(msgs@[i as int].msgtype)
                && msgs@[i as int].origin_server_ts <= MAX_TIMESTAMP_MILLIS));
            return false;
        }
    }
    true
}

/// The RSS channel, or `None` where the avatar or a message cannot be written (there the
/// channel cannot be built), or where `rss_channel` gives none.
pub fn try_rss_channel(
    name: Option<String>,
    avatar: Option<String>,
    homeserver: String,
    msgs: &Vec<Message>,
) -> (r: Option<Channel>)
    ensures
        !((avatar matches Some(a) ==> mxc_valid(a@)) && rss_ready(msgs@)) ==> r is None,
        (avatar matches Some(a) ==> mxc_valid(a@)) && rss_ready(msgs@) ==> exists|
            offsets: Seq<i32>,
        | channel_outcome(r, name, avatar, homeserver@, msgs@, offsets),
{
    let avatar_ok = match &avatar {
        Some(a) => is_valid_mxc(a),
        None => true,
    };
    if avatar_ok && rss_can_hold(msgs) {
        rss_channel(name, avatar, homeserver, msgs)
    } else {
        None
    }
}

/// An RSS item as (title, identifier, whether the identifier is a link, enclosure as
/// (address, length, MIME type), content, date).
pub type ItemView = (
    Seq<char>,
    Seq<char>,
    bool,
    Option<(Seq<char>, Seq<char>, Seq<char>)>,
    Option<Seq<char>>,
    Seq<char>,
);

/// The fields of an item.
pub open spec fn item_view(item: Item) -> ItemView {
    (
        item.title@,
        item.guid.value@,
        item.guid.permalink,
        enclosure_view(item.enclosure),
        item.content.deep_view(),
        item.pub_date@,
    )
}

/// The fields of each item, in order.
pub open spec fn item_views(items: Seq<Item>) -> Seq<ItemView> {
    items.map_values(|item: Item| item_view(item))
}

/// What the rss crate writes (`Display for Channel`) for a channel with the given title, image
/// address, link and items, its other fields left at their defaults.
pub uninterp spec fn rss_xml(
    title: Seq<char>,
    image_url: Option<Seq<char>>,
    link: Seq<char>,
    items: Seq<ItemView>,
) -> Seq<char>;

/// The XML document of a channel, written by the rss crate (`Channel::to_string`), the
/// channel built from `c` field by field with every other field at its default, as the
/// crate's builders leave them.
/// Trusted: the text is the named result `rss_xml` of the channel's fields.
#[verifier::external_body]
fn channel_xml(c: Channel) -> (s: String)
    ensures
        s@ == rss_xml(c.title@, c.image_url.deep_view(), c.link@, item_views(c.items@)),
{
    let items = c.items.into_iter().map(|i| RssItem {
        title: Some(i.title),
        guid: Some(RssGuid { value: i.guid.value, permalink: i.guid.permalink }),
        enclosure: i.enclosure.map(|e| RssEnclosure { url: e.url, length: e.length, mime_type: e.mime_type }),
        content: i.content,
        pub_date: Some(i.pub_date),
        ..Default::default()
    });
    let image = c.image_url.map(|url| RssImage { url, ..Default::default() });
    RssChannel { title: c.title, image, link: c.link, items: items.collect(), ..Default::default() }.to_string()
}

/// The fields of the item of `m`, its date seen at UTC offset `offset`.
pub open spec fn expected_item_view(m: Message, offset: i32) -> ItemView {
    (
        title_of(m.msgtype),
        decimal(m.origin_server_ts as nat),
        false,
        enclosure_of(m.msgtype),
        text_of(m.msgtype),
        chrono_rfc2822(m.origin_server_ts, offset),
    )
}

/// The XML document of the RSS channel of a room with the given name, avatar, home server and
/// messages, the `i`-th date seen at UTC offset `offsets[i]`.
pub open spec fn channel_xml_of(
    name: Option<String>,
    avatar: Option<String>,
    homeserver: Seq<char>,
    msgs: Seq<Message>,
    offsets: Seq<i32>,
) -> Seq<char> {
    rss_xml(
        match name {
            Some(n) => n@,
            None => "Room"@,
        },
        match avatar {
            Some(a) => Some(media_url(a@)),
            None => None,
        },
        homeserver,
        Seq::new(msgs.len(), |i: int| expected_item_view(msgs[i], offsets[i])),
    )
}

/// The RSS document of a room, or `None` where the channel cannot be built (an invalid
/// avatar, a message that cannot be written, or a date after the year 9999 in the server's
/// local time zone).
pub fn rss_body(
    name: Option<String>,
    avatar: Option<String>,
    homeserver: String,
    msgs: &Vec<Message>,
) -> (r: Option<String>)
    ensures
        !((avatar matches Some(a) ==> mxc_valid(a@)) && rss_ready(msgs@)) ==> r is None,
        (avatar matches Some(a) ==> mxc_valid(a@)) && rss_ready(msgs@) ==> exists|
            offsets: Seq<i32>,
        |
            {
                &&& local_offsets(offsets, msgs@.len())
                &&& (r is Some <==> dates_writable(msgs@, offsets))
                &&& (r matches Some(xml) ==> xml@ == channel_xml_of(
                    name,
                    avatar,
                    homeserver@,
                    msgs@,
                    offsets,
                ))
            },
{
    let ghost name0 = name;
    let ghost avatar0 = avatar;
    let ghost homeserver0 = homeserver@;
    let channel = try_rss_channel(name, avatar, homeserver, msgs);
    let ghost outcome = channel;
    match channel {
        Some(c) => {
            let ghost offsets = choose|offsets: Seq<i32>|
                channel_outcome(outcome, name0, avatar0, homeserver0, msgs@, offsets);
            proof {
                assert(item_views(c.items@) =~= Seq::new(
                    msgs@.len(),
                    |i: int| expected_item_view(msgs@[i], offsets[i]),
                ));
            }
            let xml = channel_xml(c);
            assert(xml@ == channel_xml_of(name0, avatar0, homeserver0, msgs@, offsets));
            Some(xml)
        },
        None => None,
    }
}

} // verus!
