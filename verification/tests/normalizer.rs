use twitch_chat_metrics::chat::{
    normalize, Badge, ClearMsgEvent, DomainEvent, Emote, Message, PrivmsgEvent, RawEvent,
    UserBasics,
};

fn user(id: &str, name: &str) -> UserBasics {
    UserBasics { id: id.to_string(), login: id.to_string(), name: name.to_string() }
}

fn privmsg(id: &str, author: &str, text: &str, badges: Vec<&str>, bits: Option<u64>) -> RawEvent {
    RawEvent::Privmsg(PrivmsgEvent {
        message_id: id.to_string(),
        server_timestamp: 1_600_000_000,
        sender: user(author, author),
        message_text: text.to_string(),
        emotes: Vec::new(),
        bits,
        badge_info: badges
            .into_iter()
            .map(|name| Badge { name: name.to_string(), version: "1".to_string() })
            .collect(),
    })
}

#[test]
fn normalize_privmsg_maps_all_fields() {
    let raw = privmsg("m1", "u1", "hello", vec!["moderator", "subscriber"], Some(50));
    match normalize(raw) {
        Some(DomainEvent::Chat(m)) => {
            assert_eq!(m.id, "m1");
            assert_eq!(m.timestamp, 1_600_000_000);
            assert_eq!(m.author.id, "u1");
            assert_eq!(m.message, "hello");
            assert_eq!(m.bits, Some(50));
            assert!(m.subscriber);
        }
        _ => panic!("expected a chat message"),
    }
}

#[test]
fn normalize_privmsg_without_subscriber_badge() {
    let raw = privmsg("m2", "u2", "hi", vec!["moderator"], None);
    match normalize(raw) {
        Some(DomainEvent::Chat(m)) => {
            assert!(!m.subscriber);
            assert_eq!(m.bits, None);
        }
        _ => panic!("expected a chat message"),
    }
}

#[test]
fn normalize_badge_match_is_case_sensitive() {
    let raw = privmsg("m3", "u3", "hi", vec!["Subscriber"], None);
    match normalize(raw) {
        Some(DomainEvent::Chat(m)) => assert!(!m.subscriber),
        _ => panic!("expected a chat message"),
    }
}

#[test]
fn normalize_clearmsg_maps_all_fields() {
    let raw = RawEvent::ClearMsg(ClearMsgEvent {
        message_id: "m9".to_string(),
        sender_login: "u9".to_string(),
        message_text: "bad".to_string(),
    });
    match normalize(raw) {
        Some(DomainEvent::Cleared(c)) => {
            assert_eq!(c.id, "m9");
            assert_eq!(c.author, "u9");
            assert_eq!(c.message, "bad");
        }
        _ => panic!("expected a cleared event"),
    }
}

#[test]
fn normalize_keeps_emotes_in_order() {
    let raw = RawEvent::Privmsg(PrivmsgEvent {
        message_id: "m4".to_string(),
        server_timestamp: 0,
        sender: user("u4", "Four"),
        message_text: "Kappa Keepo".to_string(),
        emotes: vec![
            Emote { id: "25".to_string(), start: 0, end: 5, code: "Kappa".to_string() },
            Emote { id: "1902".to_string(), start: 6, end: 11, code: "Keepo".to_string() },
        ],
        bits: None,
        badge_info: Vec::new(),
    });
    match normalize(raw) {
        Some(DomainEvent::Chat(m)) => {
            assert_eq!(m.emotes.len(), 2);
            assert_eq!(m.emotes[0].code, "Kappa");
            assert_eq!(m.emotes[0].start, 0);
            assert_eq!(m.emotes[0].end, 5);
            assert_eq!(m.emotes[1].id, "1902");
        }
        _ => panic!("expected a chat message"),
    }
}

#[test]
fn normalize_drops_other_kinds() {
    assert!(normalize(RawEvent::Other).is_none());
}

#[test]
fn normalize_stream_keeps_order_and_counts() {
    let raws = vec![
        privmsg("m1", "u1", "one", vec![], None),
        RawEvent::Other,
        RawEvent::ClearMsg(ClearMsgEvent {
            message_id: "m1".to_string(),
            sender_login: "u1".to_string(),
            message_text: "one".to_string(),
        }),
        RawEvent::Other,
        privmsg("m2", "u2", "two", vec![], None),
    ];
    let outs: Vec<DomainEvent> = raws.into_iter().filter_map(normalize).collect();
    assert_eq!(outs.len(), 3);
    assert!(matches!(&outs[0], DomainEvent::Chat(m) if m.id == "m1"));
    assert!(matches!(&outs[1], DomainEvent::Cleared(c) if c.id == "m1"));
    assert!(matches!(&outs[2], DomainEvent::Chat(m) if m.id == "m2"));
}

#[test]
fn display_line_is_name_colon_text() {
    let m = Message {
        id: "m1".to_string(),
        timestamp: 0,
        author: user("u1", "Someone"),
        message: "hello there".to_string(),
        emotes: vec![Emote {
            id: "25".to_string(),
            start: 0,
            end: 5,
            code: "Kappa".to_string(),
        }],
        bits: None,
        subscriber: false,
    };
    assert_eq!(m.display_line(), "Someone: hello there");
}

#[test]
fn duplicate_copies_every_field() {
    let m = Message {
        id: "m1".to_string(),
        timestamp: 7,
        author: user("u1", "Someone"),
        message: "text".to_string(),
        emotes: vec![Emote {
            id: "25".to_string(),
            start: 1,
            end: 3,
            code: "Kappa".to_string(),
        }],
        bits: Some(3),
        subscriber: true,
    };
    let d = m.duplicate();
    assert_eq!(d.id, m.id);
    assert_eq!(d.timestamp, m.timestamp);
    assert_eq!(d.author.id, m.author.id);
    assert_eq!(d.message, m.message);
    assert_eq!(d.emotes.len(), 1);
    assert_eq!(d.emotes[0].code, "Kappa");
    assert_eq!(d.bits, Some(3));
    assert!(d.subscriber);
}
