//! The live chat: room messages pushed to a web socket, and the socket session's decisions.
use vstd::prelude::*;

use crate::message::{Message, MessageType};

verus! {

/// The account whose messages the chat shows as the visitor's own.
pub open spec fn bot_user() -> Seq<char> {
    "@bot:n0g.rip"@
}

/// A chat line: the body in a paragraph of class `me` for the bot's messages and `you` for
/// everyone else's.
pub open spec fn chat_line(sender: Seq<char>, body: Seq<char>) -> Seq<char> {
    "<p class=\""@ + (if sender == bot_user() {
        "me"@
    } else {
        "you"@
    }) + "\">"@ + body + "</p>"@
}

/// The chat line of a message: text messages have one, other messages none.
pub open spec fn message_line(m: Message) -> Option<Seq<char>> {
    match m.msgtype {
        MessageType::Text(text) => Some(chat_line(m.sender@, text.body@)),
        _ => None,
    }
}

/// The chat line for a text message from `sender`.
pub fn format_chat_line(sender: &String, body: &String) -> (r: String)
    ensures
        r@ == chat_line(sender@, body@),
{
    let mut r = String::new();
    r.append("<p class=\"");
    let bot = "@bot:n0g.rip".to_owned();
    if *sender == bot {
        r.append("me");
    } else {
        r.append("you");
    }
    r.append("\">");
    r.append(body.as_str());
    r.append("</p>");
    r
}

/// The chat line of a room message, if it is a text message.
pub fn chat_line_of(message: &Message) -> (r: Option<String>)
    ensures
        r.deep_view() == message_line(*message),
        !(message.msgtype is Text) ==> r is None,
        message.msgtype is Text ==> r is Some,
{
    if let MessageType::Text(text) = &message.msgtype {
        Some(format_chat_line(&message.sender, &text.body))
    } else {
        None
    }
}

/// The chat lines of `msgs`, last message first, messages without a line left out.
pub open spec fn lines_reversed(msgs: Seq<Message>) -> Seq<Seq<char>>
    decreases msgs.len(),
{
    if msgs.len() == 0 {
        Seq::empty()
    } else {
        lines_reversed(msgs.drop_first()) + match message_line(msgs[0]) {
            Some(line) => seq![line],
            None => Seq::empty(),
        }
    }
}

/// The number of text messages in `msgs`.
pub open spec fn text_count(msgs: Seq<Message>) -> nat
    decreases msgs.len(),
{
    if msgs.len() == 0 {
        0
    } else {
        text_count(msgs.drop_first()) + if msgs[0].msgtype is Text {
            1nat
        } else {
            0nat
        }
    }
}

/// Exactly the text messages have chat lines: images, audio, video and other messages have
/// none.
pub proof fn lemma_only_text_has_a_line(m: Message)
    ensures
        message_line(m) is Some <==> m.msgtype is Text,
{
}

/// The history holds one line per text message.
pub proof fn lemma_one_line_per_text(msgs: Seq<Message>)
    ensures
        lines_reversed(msgs).len() == text_count(msgs),
    decreases msgs.len(),
{
    if msgs.len() > 0 {
        lemma_only_text_has_a_line(msgs[0]);
        lemma_one_line_per_text(msgs.drop_first());
    }
}

/// The room lists messages newest first and the history shows them oldest first: the lines of
/// a run of messages followed by an older run are the older run's lines, then the newer run's.
pub proof fn lemma_history_oldest_first(newer: Seq<Message>, older: Seq<Message>)
    ensures
        lines_reversed(newer + older) == lines_reversed(older) + lines_reversed(newer),
    decreases newer.len(),
{
    if newer.len() == 0 {
        assert(newer + older =~= older);
        assert(lines_reversed(older) + lines_reversed(newer) =~= lines_reversed(older));
    } else {
        assert((newer + older).drop_first() =~= newer.drop_first() + older);
        assert((newer + older)[0] == newer[0]);
        lemma_history_oldest_first(newer.drop_first(), older);
        assert(lines_reversed(newer + older) =~= lines_reversed(older) + lines_reversed(newer));
    }
}

/// The frame that ends the history.
pub open spec fn loaded_frame() -> Seq<char> {
    ":loaded"@
}

/// The frames that open a chat: the lines of the room's recent messages, which come newest
/// first, in the order they were sent, then `:loaded`.
pub fn history_frames(msgs: &Vec<Message>) -> (r: Vec<String>)
    ensures
        r.deep_view() == lines_reversed(msgs@).push(loaded_frame()),
{
    let mut frames: Vec<String> = Vec::new();
    let mut i = msgs.len();
    assert(msgs@.skip(i as int) =~= Seq::<Message>::empty());
    while i > 0
        invariant
            i <= msgs@.len(),
            frames.deep_view() == lines_reversed(msgs@.skip(i as int)),
        decreases i,
    {
        i = i - 1;
        assert(msgs@.skip(i as int).drop_first() =~= msgs@.skip(i + 1));
        match chat_line_of(&msgs[i]) {
            Some(line) => {
                frames.push(line);
            },
            None => {},
        }
        assert(frames.deep_view() =~= lines_reversed(msgs@.skip(i as int)));
    }
    assert(msgs@.skip(0) =~= msgs@);
    frames.push(":loaded".to_owned());
    assert(frames.deep_view() =~= lines_reversed(msgs@).push(loaded_frame()));
    frames
}

/// How long a web socket may stay silent, in nanoseconds, before the session gives it up.
pub const HEARTBEAT_TIMEOUT_NANOS: u64 = 10_000_000_000;

/// How often, in nanoseconds, the session checks the heartbeat and pings the client.
pub const HEARTBEAT_INTERVAL_NANOS: u64 = 5_000_000_000;

/// Why a web socket is closed: a close code and an optional description.
pub struct CloseReason {
    pub code: u16,
    pub description: Option<String>,
}

/// What happens to a chat session: a web socket frame, the end of the stream or an error on
/// it, or a tick of the heartbeat clock.
pub enum SocketEvent {
    Text(String),
    Binary(Vec<u8>),
    Close(Option<CloseReason>),
    Ping(Vec<u8>),
    Pong,
    Continuation,
    Nop,
    StreamError,
    StreamEnd,
    Tick,
}

/// What the session does in answer: post a text to the room, send a frame back, wait, or
/// close the socket (and stop listening to the room) with an optional reason.
pub enum SessionAction {
    SendToRoom(String),
    SendBinary(Vec<u8>),
    Pong(Vec<u8>),
    Ping,
    Wait,
    Close(Option<CloseReason>),
}

/// A chat session's state: when the client last showed it was alive, in nanoseconds since
/// a fixed start.
pub struct ChatSession {
    pub last_heartbeat: u64,
}

/// Whether, at time `now`, a client last heard from at `last` has been silent too long.
pub open spec fn timed_out(last: u64, now: u64) -> bool {
    now - last > HEARTBEAT_TIMEOUT_NANOS
}

/// The session's answer to an event at time `now`, and its next state.
pub open spec fn session_step(s: ChatSession, event: SocketEvent, now: u64) -> (
    ChatSession,
    SessionAction,
) {
    match event {
        SocketEvent::Text(text) => (s, SessionAction::SendToRoom(text)),
        SocketEvent::Binary(bytes) => (s, SessionAction::SendBinary(bytes)),
        SocketEvent::Close(reason) => (s, SessionAction::Close(reason)),
        SocketEvent::Ping(bytes) => (ChatSession { last_heartbeat: now }, SessionAction::Pong(bytes)),
        SocketEvent::Pong => (ChatSession { last_heartbeat: now }, SessionAction::Wait),
        SocketEvent::Continuation => (s, SessionAction::Wait),
        SocketEvent::Nop => (s, SessionAction::Wait),
        SocketEvent::StreamError => (s, SessionAction::Close(None)),
        SocketEvent::StreamEnd => (s, SessionAction::Close(None)),
        SocketEvent::Tick => if timed_out(s.last_heartbeat, now) {
            (s, SessionAction::Close(None))
        } else {
            (s, SessionAction::Ping)
        },
    }
}

impl ChatSession {
    /// A session that starts at time `now`, counting the client alive then.
    pub fn new(now: u64) -> (s: ChatSession)
        ensures
            s.last_heartbeat == now,
    {
        ChatSession { last_heartbeat: now }
    }

    /// Decides what to do about `event`, which happened at time `now`: texts go to the room,
    /// binary frames are echoed, pings are answered and, like pongs, count as a heartbeat;
    /// a close frame, an error or the end of the stream closes the session, and so does a
    /// tick more than ten seconds after the last heartbeat; other ticks ping the client.
    pub fn step(&mut self, event: SocketEvent, now: u64) -> (a: SessionAction)
        ensures
            (*final(self), a) == session_step(*old(self), event, now),
    {
        match event {
            SocketEvent::Text(text) => SessionAction::SendToRoom(text),
            SocketEvent::Binary(bytes) => SessionAction::SendBinary(bytes),
            SocketEvent::Close(reason) => SessionAction::Close(reason),
            SocketEvent::Ping(bytes) => {
                self.last_heartbeat = now;
                SessionAction::Pong(bytes)
            },
            SocketEvent::Pong => {
                self.last_heartbeat = now;
                SessionAction::Wait
            },
            SocketEvent::Continuation => SessionAction::Wait,
            SocketEvent::Nop => SessionAction::Wait,
            SocketEvent::StreamError => SessionAction::Close(None),
            SocketEvent::StreamEnd => SessionAction::Close(None),
            SocketEvent::Tick => {
                if now >= self.last_heartbeat && now - self.last_heartbeat > HEARTBEAT_TIMEOUT_NANOS {
                    SessionAction::Close(None)
                } else {
                    SessionAction::Ping
                }
            },
        }
    }
}

/// A session closes only on a close frame, an error or the end of the stream, or on a tick
/// more than ten seconds after the last heartbeat.
pub proof fn lemma_close_only_on_end_or_timeout(s: ChatSession, event: SocketEvent, now: u64)
    ensures
        session_step(s, event, now).1 is Close ==> {
            ||| event is Close
            ||| event is StreamError
            ||| event is StreamEnd
            ||| (event is Tick && timed_out(s.last_heartbeat, now))
        },
{
}

/// A ping or pong from the client keeps the session open: a tick up to ten seconds later
/// pings the client again instead of closing.
pub proof fn lemma_heartbeat_keeps_session(s: ChatSession, heartbeat: SocketEvent, t: u64, later: u64)
    requires
        heartbeat is Ping || heartbeat is Pong,
        later - t <= HEARTBEAT_TIMEOUT_NANOS,
    ensures
        session_step(session_step(s, heartbeat, t).0, SocketEvent::Tick, later).1 is Ping,
{
}

/// Only pings and pongs change the session's state, and they set the heartbeat to their time.
pub proof fn lemma_state_changes_only_on_heartbeat(s: ChatSession, event: SocketEvent, now: u64)
    ensures
        (event is Ping || event is Pong) ==> session_step(s, event, now).0.last_heartbeat == now,
        !(event is Ping || event is Pong) ==> session_step(s, event, now).0 == s,
{
}

} // verus!
