use twitch_chat_metrics::Settings;

#[test]
fn default_chat_buffer_is_two_hundred_fifty() {
    assert_eq!(Settings::default_chat_buffer(), 250);
}

#[test]
fn settings_default_values() {
    let s = Settings::default();
    assert!(!s.changes);
    assert_eq!(s.twitch_channel, "");
    assert_eq!(s.chat_buffer, 250);
}
