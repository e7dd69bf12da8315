use tokio::sync::oneshot::error::TryRecvError;
use twitch_chat_metrics::chat::{DomainEvent, Message, UserBasics};
use twitch_chat_metrics::supervisor::Supervisor;
use twitch_chat_metrics::ui::UIState;

fn chat_event(id: &str, name: &str, text: &str) -> DomainEvent {
    DomainEvent::Chat(Message {
        id: format!("msg-{id}-{text}"),
        timestamp: 0,
        author: UserBasics {
            id: id.to_string(),
            login: id.to_string(),
            name: name.to_string(),
        },
        message: text.to_string(),
        emotes: Vec::new(),
        bits: None,
        subscriber: false,
    })
}

#[test]
fn restart_lowercases_the_channel() {
    let mut sup = Supervisor::new();
    let mut ui = UIState::default();
    let start = sup.restart(&mut ui, "MyChannel");
    assert_eq!(start.channel, "mychannel");
    assert_eq!(sup.channel, "mychannel");
}

#[test]
fn restart_resets_consumers_before_new_events() {
    let mut sup = Supervisor::new();
    let mut ui = UIState::default();
    let start1 = sup.restart(&mut ui, "chan");
    assert!(ui.deliver(start1.generation, &chat_event("u1", "One", "hello")));
    assert_eq!(ui.overview.total_messages, 1);

    let start2 = sup.restart(&mut ui, "chan");
    // The reset happened before any event of the new session can arrive.
    assert_eq!(ui.overview.total_messages, 0);
    assert_eq!(ui.chat.messages.len(), 0);
    assert_eq!(ui.giveaway.people_entered.len(), 0);
    assert!(start2.generation > start1.generation);
}

#[test]
fn restart_sends_old_cancellation_exactly_once() {
    let mut sup = Supervisor::new();
    let mut ui = UIState::default();
    let start1 = sup.restart(&mut ui, "chan");
    let mut stop1 = start1.stop;
    assert!(matches!(stop1.try_recv(), Err(TryRecvError::Empty)));

    let _start2 = sup.restart(&mut ui, "chan");
    // The old session's signal was sent, and it carries exactly one value.
    assert!(matches!(stop1.try_recv(), Ok(())));
    assert!(matches!(stop1.try_recv(), Err(TryRecvError::Closed)));
}

#[test]
fn stale_events_are_rejected_after_restart() {
    let mut sup = Supervisor::new();
    let mut ui = UIState::default();
    let start1 = sup.restart(&mut ui, "chan");
    assert!(ui.deliver(start1.generation, &chat_event("u1", "One", "old channel")));

    let start2 = sup.restart(&mut ui, "newchan");
    // An event of the old session that was still in flight changes nothing.
    assert!(!ui.deliver(start1.generation, &chat_event("u1", "One", "late")));
    assert_eq!(ui.overview.total_messages, 0);
    assert_eq!(ui.chat.messages.len(), 0);
    // The new session's events flow.
    assert!(ui.deliver(start2.generation, &chat_event("u2", "Two", "fresh")));
    assert_eq!(ui.overview.total_messages, 1);
}

#[test]
fn cancel_twice_is_a_safe_noop() {
    let mut sup = Supervisor::new();
    let mut ui = UIState::default();
    let _start = sup.restart(&mut ui, "chan");
    sup.cancel_current();
    sup.cancel_current();
    assert!(sup.stop_trigger.is_none());
}

#[test]
fn cancel_after_receiver_dropped_is_a_safe_noop() {
    let mut sup = Supervisor::new();
    let mut ui = UIState::default();
    let start = sup.restart(&mut ui, "chan");
    drop(start.stop);
    sup.cancel_current();
    assert!(sup.stop_trigger.is_none());
}

#[test]
fn restart_repeatedly_with_same_channel_gives_fresh_sessions() {
    let mut sup = Supervisor::new();
    let mut ui = UIState::default();
    let mut last_generation = 0u64;
    for _ in 0..3 {
        let start = sup.restart(&mut ui, "SameChannel");
        assert_eq!(start.channel, "samechannel");
        assert!(start.generation > last_generation);
        assert_eq!(ui.overview.total_messages, 0);
        last_generation = start.generation;
        assert!(ui.deliver(start.generation, &chat_event("u1", "One", "hello")));
        assert_eq!(ui.overview.total_messages, 1);
    }
}

#[test]
fn delivery_fans_out_to_every_consumer_in_order() {
    let mut sup = Supervisor::new();
    let mut ui = UIState::default();
    let start = sup.restart(&mut ui, "chan");
    assert!(ui.deliver(start.generation, &chat_event("u1", "One", "first")));
    assert!(ui.deliver(start.generation, &chat_event("u2", "Two", "second")));
    // Overview and giveaway both saw the identical sequence.
    assert_eq!(ui.overview.total_messages, 2);
    assert_eq!(ui.overview.unique_chatters.len(), 2);
    assert_eq!(ui.giveaway.people_entered.len(), 2);
    assert_eq!(ui.giveaway.people_entered[0].0, "u1");
    assert_eq!(ui.giveaway.people_entered[1].0, "u2");
    // The chat history is newest first.
    assert_eq!(ui.chat.messages[0].message, "second");
    assert_eq!(ui.chat.messages[1].message, "first");
}

#[test]
fn chat_history_respects_the_configured_cap() {
    let mut sup = Supervisor::new();
    let mut ui = UIState::default();
    ui.settings.chat_buffer = 2;
    let start = sup.restart(&mut ui, "chan");
    for i in 0..5u32 {
        let text = format!("line {i}");
        assert!(ui.deliver(start.generation, &chat_event("u1", "One", &text)));
    }
    assert_eq!(ui.chat.messages.len(), 2);
    assert_eq!(ui.chat.messages[0].message, "line 4");
    assert_eq!(ui.chat.messages[1].message, "line 3");
}
