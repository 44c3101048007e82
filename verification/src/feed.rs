//! The feed page and the RSS channel of the room.
use vstd::prelude::*;

use crate::html::{html_ready, message_html, message_html_defined, time_html, time_html_at, ToHtml};
use crate::message::Message;
use crate::mxc::{is_valid_mxc, media_url, mxc_valid, url};
use crate::time::{local_offset, offset_in_range, MAX_TIMESTAMP_MILLIS};

verus! {

/// Whether the feed page can show every message of `msgs`.
pub open spec fn feed_ready(msgs: Seq<Message>) -> bool {
    forall|i: int|
        0 <= i < msgs.len() ==> #[trigger] message_html_defined(msgs[i].msgtype)
            && msgs[i].origin_server_ts <= MAX_TIMESTAMP_MILLIS
}

/// A message's entry in the feed page, its time seen at UTC offset `offset`.
pub open spec fn feed_entry(m: Message, offset: i32) -> Seq<char> {
    "\t\t\t"@ + message_html(m.msgtype) + "\n\t\t\t"@ + time_html(m.origin_server_ts, offset)
        + "\n"@
}

/// The entries of `msgs` in order, the `i`-th time seen at UTC offset `offsets[i]`.
pub open spec fn feed_entries(msgs: Seq<Message>, offsets: Seq<i32>) -> Seq<char>
    decreases msgs.len(),
{
    if msgs.len() == 0 {
        Seq::empty()
    } else {
        feed_entries(msgs.drop_last(), offsets.take(msgs.len() - 1)) + feed_entry(
            msgs.last(),
            offsets[msgs.len() - 1],
        )
    }
}

/// The entries of two runs of messages, one after the other, are the entries of the whole run:
/// the feed is the concatenation of one entry per message, in order.
pub proof fn lemma_feed_entries_append(
    a: Seq<Message>,
    offsets_a: Seq<i32>,
    b: Seq<Message>,
    offsets_b: Seq<i32>,
)
    requires
        offsets_a.len() == a.len(),
        offsets_b.len() == b.len(),
    ensures
        feed_entries(a + b, offsets_a + offsets_b) == feed_entries(a, offsets_a) + feed_entries(
            b,
            offsets_b,
        ),
    decreases b.len(),
{
    if b.len() == 0 {
        assert(a + b =~= a);
        assert(offsets_a + offsets_b =~= offsets_a);
        assert(feed_entries(a, offsets_a) + feed_entries(b, offsets_b) =~= feed_entries(
            a,
            offsets_a,
        ));
    } else {
        let n = (a + b).len();
        assert((a + b).drop_last() =~= a + b.drop_last());
        assert((offsets_a + offsets_b).take(n - 1) =~= offsets_a + offsets_b.take(b.len() - 1));
        lemma_feed_entries_append(a, offsets_a, b.drop_last(), offsets_b.take(b.len() - 1));
        assert((a + b).last() == b.last());
        assert((offsets_a + offsets_b)[n - 1] == offsets_b[b.len() - 1]);
        assert(feed_entries(a + b, offsets_a + offsets_b) =~= feed_entries(a, offsets_a)
            + feed_entries(b, offsets_b));
    }
}

/// Offsets that the local time zone can have, one for each of `n` messages.
pub open spec fn local_offsets(offsets: Seq<i32>, n: nat) -> bool {
    offsets.len() == n && forall|i: int| 0 <= i < n ==> offset_in_range(#[trigger] offsets[i] as int)
}

/// A message's entry in the feed page, its time seen at UTC offset `offset`.
pub fn feed_entry_at(m: &Message, offset: i32) -> (r: String)
    requires
        message_html_defined(m.msgtype),
        m.origin_server_ts <= MAX_TIMESTAMP_MILLIS,
        offset_in_range(offset as int),
    ensures
        r@ == feed_entry(*m, offset),
{
    let mut r = String::new();
    r.append("\t\t\t");
    r.append(m.msgtype.to_html().as_str());
    r.append("\n\t\t\t");
    r.append(time_html_at(m.origin_server_ts, offset).as_str());
    r.append("\n");
    r
}

/// The feed entries of `msgs`, each time in the server's local time zone.
pub fn feed_messages(msgs: &Vec<Message>) -> (r: String)
    requires
        feed_ready(msgs@),
    ensures
        exists|offsets: Seq<i32>|
            local_offsets(offsets, msgs@.len()) && r@ == feed_entries(msgs@, offsets),
{
    let mut r = String::new();
    let ghost mut offsets: Seq<i32> = Seq::empty();
    for i in 0..msgs.len()
        invariant
            feed_ready(msgs@),
            local_offsets(offsets, i as nat),
            r@ == feed_entries(msgs@.take(i as int), offsets),
    {
        let m = &msgs[i];
        assert(message_html_defined(msgs@[i as int].msgtype));
        let offset = local_offset(m.origin_server_ts);
        r.append(feed_entry_at(m, offset).as_str());
        proof {
            let next = offsets.push(offset);
            assert(msgs@.take(i + 1).drop_last() =~= msgs@.take(i as int));
            assert(next.take(i as int) =~= offsets);
            offsets = next;
        }
    }
    assert(msgs@.take(msgs@.len() as int) =~= msgs@);
    r
}

/// What the feed page template is filled with.
pub struct FeedPage {
    pub avatar: String,
    pub name: String,
    pub messages: String,
}

/// The feed page for a room: the download address of its avatar (empty without one), its
/// name (`Room` without one) and the entries of its messages.
pub fn feed_page(avatar: Option<String>, name: Option<String>, msgs: &Vec<Message>) -> (r:
    FeedPage)
    requires
        avatar matches Some(a) ==> mxc_valid(a@),
        feed_ready(msgs@),
    ensures
        r.avatar@ == match avatar {
            Some(a) => media_url(a@),
            None => Seq::empty(),
        },
        r.name@ == match name {
            Some(n) => n@,
            None => "Room"@,
        },
        exists|offsets: Seq<i32>|
            local_offsets(offsets, msgs@.len()) && r.messages@ == feed_entries(msgs@, offsets),
{
    let avatar = match avatar {
        Some(a) => url(&a),
        None => String::new(),
    };
    let name = match name {
        Some(n) => n,
        None => "Room".to_owned(),
    };
    FeedPage { avatar, name, messages: feed_messages(msgs) }
}

/// Whether the feed page can show every message of `msgs`.
pub fn feed_can_show(msgs: &Vec<Message>) -> (r: bool)
    ensures
        r == feed_ready(msgs@),
{
    for i in 0..msgs.len()
        invariant
            forall|j: int|
                0 <= j < i ==> #[trigger] message_html_defined(msgs@[j].msgtype)
                    && msgs@[j].origin_server_ts <= MAX_TIMESTAMP_MILLIS,
    {
        if !html_ready(&msgs[i].msgtype) || msgs[i].origin_server_ts > MAX_TIMESTAMP_MILLIS {
            assert(!(message_html_defined(msgs@[i as int].msgtype)
                && msgs@[i as int].origin_server_ts <= MAX_TIMESTAMP_MILLIS));
            return false;
        }
    }
    true
}

/// The feed page, or `None` where the avatar or a message cannot be shown (there the page
/// cannot be built).
pub fn try_feed_page(avatar: Option<String>, name: Option<String>, msgs: &Vec<Message>) -> (r:
    Option<FeedPage>)
    ensures
        r is Some <==> (avatar matches Some(a) ==> mxc_valid(a@)) && feed_ready(msgs@),
        r matches Some(page) ==> {
            &&& page.avatar@ == match avatar {
                Some(a) => media_url(a@),
                None => Seq::empty(),
            }
            &&& page.name@ == match name {
                Some(n) => n@,
                None => "Room"@,
            }
            &&& exists|offsets: Seq<i32>|
                local_offsets(offsets, msgs@.len()) && page.messages@ == feed_entries(
                    msgs@,
                    offsets,
                )
        },
{
    let avatar_ok = match &avatar {
        Some(a) => is_valid_mxc(a),
        None => true,
    };
    if avatar_ok && feed_can_show(msgs) {
        Some(feed_page(avatar, name, msgs))
    } else {
        None
    }
}

/// What handlebars renders from the page template `template` with the values `avatar`, `name`
/// and `messages`; nothing where the template does not parse or does not render.
pub uninterp spec fn feed_render(
    template: Seq<char>,
    avatar: Seq<char>,
    name: Seq<char>,
    messages: Seq<char>,
) -> Option<Seq<char>>;

/// Renders the page template `template` with the values of `page`, through handlebars
/// (`Handlebars::new`, `register_template_string`, `render`), the values passed as a JSON
/// object with the keys `avatar`, `name` and `messages`.
/// Trusted: the result is the named result `feed_render` of the template and the three values;
/// handlebars' errors (a template that does not parse or render) give `None`.
#[verifier::external_body]
fn render_template(template: &str, page: &FeedPage) -> (r: Option<String>)
    ensures
        r.deep_view() == feed_render(template@, page.avatar@, page.name@, page.messages@),
{
    let mut data = serde_json::Map::new();
    data.insert("avatar".to_owned(), page.avatar.clone().into());
    data.insert("name".to_owned(), page.name.clone().into());
    data.insert("messages".to_owned(), page.messages.clone().into());
    let mut handlebars = handlebars::Handlebars::new();
    match handlebars.register_template_string("feed", template) {
        Ok(()) => handlebars.render("feed", &data).ok(),
        Err(_) => None,
    }
}

/// The feed page of a room rendered with the page template `template`: `None` where the
/// avatar or a message cannot be shown, or where the template does not render.
pub fn feed_body(
    template: &str,
    avatar: Option<String>,
    name: Option<String>,
    msgs: &Vec<Message>,
) -> (r: Option<String>)
    ensures
        !((avatar matches Some(a) ==> mxc_valid(a@)) && feed_ready(msgs@)) ==> r is None,
        (avatar matches Some(a) ==> mxc_valid(a@)) && feed_ready(msgs@) ==> exists|
            offsets: Seq<i32>,
        |
            local_offsets(offsets, msgs@.len()) && r.deep_view() == feed_render(
                template@,
                match avatar {
                    Some(a) => media_url(a@),
                    None => Seq::empty(),
                },
                match name {
                    Some(n) => n@,
                    None => "Room"@,
                },
                feed_entries(msgs@, offsets),
            ),
{
    match try_feed_page(avatar, name, msgs) {
        Some(page) => render_template(template, &page),
        None => None,
    }
}

} // verus!
