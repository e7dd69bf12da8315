//! Settings shared between the control surface and the ingestion core.

use vstd::prelude::*;

verus! {

/// Number of chat messages the history display retains by default.
pub const DEFAULT_CHAT_BUFFER: usize = 250;

/// The abstract value of the settings.
#[verifier::ext_equal]
pub ghost struct SettingsView {
    /// Whether a setting was edited and still needs to be saved.
    pub changes: bool,
    /// The channel login name to ingest from.
    pub twitch_channel: Seq<char>,
    /// How many messages the chat history display retains.
    pub chat_buffer: usize,
}

/// The user-editable settings.
///
/// `twitch_channel` is the raw channel name as typed; the supervisor
/// lowercases it before a session is bound to it. An empty name is the
/// "no channel selected" sentinel.
pub struct Settings {
    /// Whether a setting was edited and still needs to be saved.
    pub changes: bool,
    /// The channel login name to ingest from.
    pub twitch_channel: String,
    /// How many messages the chat history display retains.
    pub chat_buffer: usize,
}

impl View for Settings {
    type V = SettingsView;

    open spec fn view(&self) -> SettingsView {
        SettingsView {
            changes: self.changes,
            twitch_channel: self.twitch_channel@,
            chat_buffer: self.chat_buffer,
        }
    }
}

impl Settings {
    /// Default value for `chat_buffer`.
    pub fn default_chat_buffer() -> (n: usize)
        ensures
            n == DEFAULT_CHAT_BUFFER,
    {
        DEFAULT_CHAT_BUFFER
    }
}

impl Default for Settings {
    fn default() -> (s: Self)
        ensures
            s.changes == false,
            s.twitch_channel@ == Seq::<char>::empty(),
            s.chat_buffer == DEFAULT_CHAT_BUFFER,
    {
        Settings {
            changes: false,
            twitch_channel: String::new(),
            chat_buffer: Settings::default_chat_buffer(),
        }
    }
}

} // verus!
