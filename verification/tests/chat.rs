use matrix_feed::chat::{
    chat_line_of, format_chat_line, history_frames, ChatSession, CloseReason, SessionAction,
    SocketEvent, HEARTBEAT_TIMEOUT_NANOS,
};
use matrix_feed::message::{Message, MessageType, TextContent};

fn text_message(sender: &str, body: &str) -> Message {
    Message {
        sender: sender.to_string(),
        msgtype: MessageType::Text(TextContent { body: body.to_string() }),
        origin_server_ts: 0,
    }
}

#[test]
fn bot_lines_are_mine_others_are_yours() {
    assert_eq!(format_chat_line(&"@bot:n0g.rip".to_string(), &"hi".to_string()), "<p class=\"me\">hi</p>");
    assert_eq!(format_chat_line(&"@alice:n0g.rip".to_string(), &"yo".to_string()), "<p class=\"you\">yo</p>");
}

#[test]
fn only_text_messages_have_lines() {
    assert_eq!(chat_line_of(&text_message("@x:y.z", "a")), Some("<p class=\"you\">a</p>".to_string()));
    let other = Message { sender: "@x:y.z".to_string(), msgtype: MessageType::Other, origin_server_ts: 0 };
    assert_eq!(chat_line_of(&other), None);
}

#[test]
fn history_is_oldest_first_then_loaded() {
    // The room returns its newest message first.
    let msgs = vec![
        text_message("@bot:n0g.rip", "third"),
        Message { sender: "@x:y.z".to_string(), msgtype: MessageType::Other, origin_server_ts: 0 },
        text_message("@alice:y.z", "first"),
    ];
    assert_eq!(
        history_frames(&msgs),
        vec![
            "<p class=\"you\">first</p>".to_string(),
            "<p class=\"me\">third</p>".to_string(),
            ":loaded".to_string(),
        ]
    );
    assert_eq!(history_frames(&vec![]), vec![":loaded".to_string()]);
}

#[test]
fn text_frames_go_to_the_room() {
    let mut s = ChatSession::new(0);
    match s.step(SocketEvent::Text("hello".to_string()), 1) {
        SessionAction::SendToRoom(t) => assert_eq!(t, "hello"),
        _ => panic!("text not forwarded"),
    }
    assert_eq!(s.last_heartbeat, 0);
}

#[test]
fn binary_frames_are_echoed() {
    let mut s = ChatSession::new(0);
    match s.step(SocketEvent::Binary(vec![1, 2, 3]), 1) {
        SessionAction::SendBinary(b) => assert_eq!(b, vec![1, 2, 3]),
        _ => panic!("binary not echoed"),
    }
}

#[test]
fn pings_are_answered_and_count_as_heartbeat() {
    let mut s = ChatSession::new(0);
    match s.step(SocketEvent::Ping(vec![9]), 7) {
        SessionAction::Pong(b) => assert_eq!(b, vec![9]),
        _ => panic!("ping not answered"),
    }
    assert_eq!(s.last_heartbeat, 7);
    assert!(matches!(s.step(SocketEvent::Pong, 42), SessionAction::Wait));
    assert_eq!(s.last_heartbeat, 42);
}

#[test]
fn heartbeat_keeps_the_session_open() {
    let mut s = ChatSession::new(0);
    s.step(SocketEvent::Pong, 20_000_000_000);
    assert!(matches!(
        s.step(SocketEvent::Tick, 20_000_000_000 + HEARTBEAT_TIMEOUT_NANOS),
        SessionAction::Ping
    ));
}

#[test]
fn silent_client_times_out() {
    let mut s = ChatSession::new(0);
    assert!(matches!(s.step(SocketEvent::Tick, 5_000_000_000), SessionAction::Ping));
    assert!(matches!(s.step(SocketEvent::Tick, 10_000_000_000), SessionAction::Ping));
    assert!(matches!(s.step(SocketEvent::Tick, 10_000_000_001), SessionAction::Close(None)));
}

#[test]
fn tick_before_last_heartbeat_does_not_close() {
    let mut s = ChatSession::new(50);
    assert!(matches!(s.step(SocketEvent::Tick, 10), SessionAction::Ping));
}

#[test]
fn close_frame_closes_with_its_reason() {
    let mut s = ChatSession::new(0);
    let reason = CloseReason { code: 1000, description: Some("bye".to_string()) };
    match s.step(SocketEvent::Close(Some(reason)), 1) {
        SessionAction::Close(Some(r)) => {
            assert_eq!(r.code, 1000);
            assert_eq!(r.description, Some("bye".to_string()));
        }
        _ => panic!("close frame not honoured"),
    }
}

#[test]
fn stream_errors_and_end_close_without_reason() {
    let mut s = ChatSession::new(0);
    assert!(matches!(s.step(SocketEvent::StreamError, 1), SessionAction::Close(None)));
    assert!(matches!(s.step(SocketEvent::StreamEnd, 1), SessionAction::Close(None)));
}

#[test]
fn continuation_and_nop_are_ignored() {
    let mut s = ChatSession::new(3);
    assert!(matches!(s.step(SocketEvent::Continuation, 100), SessionAction::Wait));
    assert!(matches!(s.step(SocketEvent::Nop, 100), SessionAction::Wait));
    assert_eq!(s.last_heartbeat, 3);
}
