use twitch_chat_metrics::chat::{
    ClearMsgEvent, DomainEvent, PrivmsgEvent, RawEvent, UserBasics,
};
use twitch_chat_metrics::session::{Session, SessionEvent, SessionState};

fn raw(id: &str, text: &str) -> RawEvent {
    RawEvent::Privmsg(PrivmsgEvent {
        message_id: id.to_string(),
        server_timestamp: 0,
        sender: UserBasics {
            id: "u1".to_string(),
            login: "u1".to_string(),
            name: "One".to_string(),
        },
        message_text: text.to_string(),
        emotes: Vec::new(),
        bits: None,
        badge_info: Vec::new(),
    })
}

fn joined(channel: &str) -> Session {
    let mut s = Session::new(channel.to_string());
    assert!(s.start());
    s.on_join_result(true);
    s
}

#[test]
fn empty_channel_terminates_immediately() {
    let mut s = Session::new(String::new());
    let join = s.start();
    assert!(!join);
    assert_eq!(s.state, SessionState::Terminated);
    // Nothing is ever delivered afterwards, whatever arrives.
    assert!(s.step(SessionEvent::Message(raw("m1", "hello"))).is_none());
    assert!(s.step(SessionEvent::Cancel).is_none());
    assert_eq!(s.state, SessionState::Terminated);
}

#[test]
fn nonempty_channel_connects_and_joins() {
    let mut s = Session::new("somechannel".to_string());
    assert!(s.start());
    assert_eq!(s.state, SessionState::Connecting);
    s.on_join_result(true);
    assert_eq!(s.state, SessionState::Joined);
}

#[test]
fn join_failure_is_fatal_for_the_session() {
    let mut s = Session::new("somechannel".to_string());
    assert!(s.start());
    s.on_join_result(false);
    assert_eq!(s.state, SessionState::Terminated);
    assert!(s.step(SessionEvent::Message(raw("m1", "hello"))).is_none());
}

#[test]
fn joined_session_delivers_in_arrival_order() {
    let mut s = joined("chan");
    let out1 = s.step(SessionEvent::Message(raw("m1", "one")));
    let skipped = s.step(SessionEvent::Message(RawEvent::Other));
    let out2 = s.step(SessionEvent::Message(RawEvent::ClearMsg(ClearMsgEvent {
        message_id: "m1".to_string(),
        sender_login: "u1".to_string(),
        message_text: "one".to_string(),
    })));
    assert!(matches!(out1, Some(DomainEvent::Chat(m)) if m.id == "m1"));
    assert!(skipped.is_none());
    assert!(matches!(out2, Some(DomainEvent::Cleared(c)) if c.id == "m1"));
    assert_eq!(s.state, SessionState::Joined);
}

#[test]
fn cancel_drains_and_then_terminates() {
    let mut s = joined("chan");
    assert!(s.step(SessionEvent::Cancel).is_none());
    assert_eq!(s.state, SessionState::Draining);
    // Anything after the stop delivers nothing and terminates the session.
    assert!(s.step(SessionEvent::Message(raw("m2", "late"))).is_none());
    assert_eq!(s.state, SessionState::Terminated);
    assert!(s.step(SessionEvent::Message(raw("m3", "later"))).is_none());
    assert_eq!(s.state, SessionState::Terminated);
}

#[test]
fn stream_end_drains_like_a_stop() {
    let mut s = joined("chan");
    assert!(s.step(SessionEvent::StreamEnded).is_none());
    assert_eq!(s.state, SessionState::Draining);
    assert!(s.step(SessionEvent::StreamEnded).is_none());
    assert_eq!(s.state, SessionState::Terminated);
}
