//! Domain events of the chat stream and the event normalizer.
//!
//! Raw protocol events arrive as [`RawEvent`] values; [`normalize`] maps the
//! two recognized kinds to [`DomainEvent`] values and drops everything else.

use vstd::prelude::*;
use vstd::string::StringExecFns;

verus! {

/// The identity of a chat user: a stable id plus display names.
pub struct UserBasics {
    /// The user's unique, stable id.
    pub id: String,
    /// The user's login name.
    pub login: String,
    /// The user's display name.
    pub name: String,
}

/// One emote reference inside a message: an id and a character span.
pub struct Emote {
    /// Id of the emote.
    pub id: String,
    /// First character index of the emote's span (inclusive).
    pub start: usize,
    /// One past the last character index of the emote's span (exclusive).
    pub end: usize,
    /// The text the emote replaces.
    pub code: String,
}

/// One badge entry from the message's badge metadata.
pub struct Badge {
    /// The badge kind, e.g. `subscriber`.
    pub name: String,
    /// The badge's version string.
    pub version: String,
}

/// A normalized chat message. Immutable once constructed.
pub struct Message {
    /// Unique id of the message, platform-assigned.
    pub id: String,
    /// Timestamp when the message was sent, in seconds since the epoch.
    pub timestamp: i64,
    /// Sender of the message.
    pub author: UserBasics,
    /// Message text.
    pub message: String,
    /// Emotes used in the message, in order of appearance.
    pub emotes: Vec<Emote>,
    /// Number of bits cheered in this message, if any.
    pub bits: Option<u64>,
    /// Whether the message carried a subscriber badge.
    pub subscriber: bool,
}

/// A normalized clear-message event, invalidating one earlier message.
///
/// The referenced message need not have been seen by this session; consumers
/// treat an unknown id as a no-op.
pub struct ClearMessage {
    /// Id of the message to clear.
    pub id: String,
    /// Login name of the cleared message's author.
    pub author: String,
    /// Text of the cleared message.
    pub message: String,
}

/// The payload of a raw channel-message protocol event.
pub struct PrivmsgEvent {
    /// Unique id of the message.
    pub message_id: String,
    /// Server timestamp, in seconds since the epoch.
    pub server_timestamp: i64,
    /// The sending user.
    pub sender: UserBasics,
    /// The message text.
    pub message_text: String,
    /// Emotes used in the message.
    pub emotes: Vec<Emote>,
    /// Bits cheered with the message, if any.
    pub bits: Option<u64>,
    /// Badge metadata attached to the message.
    pub badge_info: Vec<Badge>,
}

/// The payload of a raw clear-message protocol event.
pub struct ClearMsgEvent {
    /// Id of the message being cleared.
    pub message_id: String,
    /// Login name of the original sender.
    pub sender_login: String,
    /// Text of the original message.
    pub message_text: String,
}

/// A raw protocol event, as handed over the boundary from the protocol client.
pub enum RawEvent {
    /// A channel chat message.
    Privmsg(PrivmsgEvent),
    /// A moderator cleared one message.
    ClearMsg(ClearMsgEvent),
    /// Any other protocol event kind; always dropped.
    Other,
}

/// A domain event, delivered to every registered consumer.
pub enum DomainEvent {
    /// A new chat message.
    Chat(Message),
    /// One message was cleared.
    Cleared(ClearMessage),
}

/// The abstract value of a user identity.
#[verifier::ext_equal]
pub ghost struct UserView {
    /// The stable id.
    pub id: Seq<char>,
    /// The login name.
    pub login: Seq<char>,
    /// The display name.
    pub name: Seq<char>,
}

/// The abstract value of an emote reference.
#[verifier::ext_equal]
pub ghost struct EmoteView {
    /// Id of the emote.
    pub id: Seq<char>,
    /// First character index of the span.
    pub start: usize,
    /// One past the last character index of the span.
    pub end: usize,
    /// The text the emote replaces.
    pub code: Seq<char>,
}

/// The abstract value of a chat message.
#[verifier::ext_equal]
pub ghost struct MessageView {
    /// Unique id of the message.
    pub id: Seq<char>,
    /// Timestamp in seconds since the epoch.
    pub timestamp: i64,
    /// Sender of the message.
    pub author: UserView,
    /// Message text.
    pub message: Seq<char>,
    /// Emotes used, in order of appearance.
    pub emotes: Seq<EmoteView>,
    /// Bits cheered, if any.
    pub bits: Option<u64>,
    /// Whether the message carried a subscriber badge.
    pub subscriber: bool,
}

/// The abstract value of a clear-message event.
#[verifier::ext_equal]
pub ghost struct ClearView {
    /// Id of the message to clear.
    pub id: Seq<char>,
    /// Login name of the cleared message's author.
    pub author: Seq<char>,
    /// Text of the cleared message.
    pub message: Seq<char>,
}

impl View for UserBasics {
    type V = UserView;

    open spec fn view(&self) -> UserView {
        UserView { id: self.id@, login: self.login@, name: self.name@ }
    }
}

impl View for Emote {
    type V = EmoteView;

    open spec fn view(&self) -> EmoteView {
        EmoteView { id: self.id@, start: self.start, end: self.end, code: self.code@ }
    }
}

impl View for Message {
    type V = MessageView;

    open spec fn view(&self) -> MessageView {
        MessageView {
            id: self.id@,
            timestamp: self.timestamp,
            author: self.author@,
            message: self.message@,
            emotes: emotes_view(self.emotes@),
            bits: self.bits,
            subscriber: self.subscriber,
        }
    }
}

impl View for ClearMessage {
    type V = ClearView;

    open spec fn view(&self) -> ClearView {
        ClearView { id: self.id@, author: self.author@, message: self.message@ }
    }
}

/// The abstract value of a sequence of emotes.
pub open spec fn emotes_view(s: Seq<Emote>) -> Seq<EmoteView> {
    s.map_values(|e: Emote| e@)
}

/// The abstract value of a sequence of messages.
pub open spec fn messages_view(s: Seq<Message>) -> Seq<MessageView> {
    s.map_values(|m: Message| m@)
}

/// A buffer of messages, newest first: prepend, then drop everything past
/// `cap`. With `cap == 0` the buffer stays empty.
pub open spec fn bounded_push_front(s: Seq<MessageView>, m: MessageView, cap: usize) -> Seq<
    MessageView,
> {
    let grown = seq![m] + s;
    if grown.len() <= cap {
        grown
    } else {
        grown.take(cap as int)
    }
}

impl UserBasics {
    /// An owned copy of this identity.
    pub fn duplicate(&self) -> (u: UserBasics)
        ensures
            u@ == self@,
    {
        UserBasics { id: self.id.clone(), login: self.login.clone(), name: self.name.clone() }
    }
}

impl Emote {
    /// An owned copy of this emote reference.
    pub fn duplicate(&self) -> (e: Emote)
        ensures
            e@ == self@,
    {
        Emote {
            id: self.id.clone(),
            start: self.start,
            end: self.end,
            code: self.code.clone(),
        }
    }
}

impl Message {
    /// An owned copy of this message. Consumers copy; they never share
    /// mutable references to a message.
    pub fn duplicate(&self) -> (m: Message)
        ensures
            m@ == self@,
    {
        let mut emotes: Vec<Emote> = Vec::new();
        let mut i: usize = 0;
        while i < self.emotes.len()
            invariant
                i <= self.emotes@.len(),
                emotes@.len() == i,
                forall|j: int| 0 <= j < i ==> (#[trigger] emotes@[j])@ == self.emotes@[j]@,
            decreases self.emotes@.len() - i,
        {
            emotes.push(self.emotes[i].duplicate());
            i = i + 1;
        }
        proof {
            assert forall|j: int|
                0 <= j < emotes@.len() implies emotes_view(emotes@)[j] == emotes_view(
                self.emotes@,
            )[j] by {
                assert(emotes@[j]@ == self.emotes@[j]@);
            }
            assert(emotes_view(emotes@) =~= emotes_view(self.emotes@));
        }
        Message {
            id: self.id.clone(),
            timestamp: self.timestamp,
            author: self.author.duplicate(),
            message: self.message.clone(),
            emotes,
            bits: self.bits,
            subscriber: self.subscriber,
        }
    }

    /// The one-line rendering of this message: display name, a separator,
    /// then the text.
    pub fn display_line(&self) -> (r: String)
        ensures
            r@ == self.author.name@ + ": "@ + self.message@,
    {
        let mut r = self.author.name.clone();
        r.append(": ");
        r.append(self.message.as_str());
        r
    }
}

/// Whether the badge metadata contains an entry named `subscriber`.
pub open spec fn has_subscriber_badge(badges: Seq<Badge>) -> bool {
    exists|i: int| 0 <= i < badges.len() && (#[trigger] badges[i].name)@ == "subscriber"@
}

/// The message a channel-message event normalizes to.
pub open spec fn message_of(p: PrivmsgEvent) -> Message {
    Message {
        id: p.message_id,
        timestamp: p.server_timestamp,
        author: p.sender,
        message: p.message_text,
        emotes: p.emotes,
        bits: p.bits,
        subscriber: has_subscriber_badge(p.badge_info@),
    }
}

/// The clear event a clear-message event normalizes to.
pub open spec fn cleared_of(c: ClearMsgEvent) -> ClearMessage {
    ClearMessage { id: c.message_id, author: c.sender_login, message: c.message_text }
}

/// What the normalizer returns for one raw event: a domain event for the two
/// recognized kinds, nothing for all others.
pub open spec fn normalize_spec(e: RawEvent) -> Option<DomainEvent> {
    match e {
        RawEvent::Privmsg(p) => Some(DomainEvent::Chat(message_of(p))),
        RawEvent::ClearMsg(c) => Some(DomainEvent::Cleared(cleared_of(c))),
        RawEvent::Other => None,
    }
}

/// Whether the normalizer recognizes this raw event kind.
pub open spec fn recognized(e: RawEvent) -> bool {
    normalize_spec(e) is Some
}

fn badges_contain_subscriber(badges: &Vec<Badge>) -> (found: bool)
    ensures
        found == has_subscriber_badge(badges@),
{
    let key: String = "subscriber".to_owned();
    let mut i: usize = 0;
    while i < badges.len()
        invariant
            i <= badges@.len(),
            key@ == "subscriber"@,
            forall|j: int| 0 <= j < i ==> (#[trigger] badges@[j].name)@ != "subscriber"@,
        decreases badges@.len() - i,
    {
        if badges[i].name == key {
            return true;
        }
        i = i + 1;
    }
    false
}

impl From<PrivmsgEvent> for Message {
    /// Normalize one channel-message event into a [`Message`]; the subscriber
    /// flag is true iff the badge metadata holds an entry named `subscriber`.
    fn from(p: PrivmsgEvent) -> (m: Self) {
        let subscriber = badges_contain_subscriber(&p.badge_info);
        Message {
            id: p.message_id,
            timestamp: p.server_timestamp,
            author: p.sender,
            message: p.message_text,
            emotes: p.emotes,
            bits: p.bits,
            subscriber,
        }
    }
}

impl vstd::std_specs::convert::FromSpecImpl<PrivmsgEvent> for Message {
    open spec fn obeys_from_spec() -> bool {
        true
    }

    open spec fn from_spec(p: PrivmsgEvent) -> Self {
        message_of(p)
    }
}

impl From<ClearMsgEvent> for ClearMessage {
    /// Normalize one clear-message event into a [`ClearMessage`].
    fn from(c: ClearMsgEvent) -> (m: Self) {
        ClearMessage { id: c.message_id, author: c.sender_login, message: c.message_text }
    }
}

impl vstd::std_specs::convert::FromSpecImpl<ClearMsgEvent> for ClearMessage {
    open spec fn obeys_from_spec() -> bool {
        true
    }

    open spec fn from_spec(c: ClearMsgEvent) -> Self {
        cleared_of(c)
    }
}

/// Normalize one raw protocol event: exactly one domain event for each
/// recognized kind, nothing for every other kind.
pub fn normalize(e: RawEvent) -> (out: Option<DomainEvent>)
    ensures
        out == normalize_spec(e),
{
    match e {
        RawEvent::Privmsg(p) => Some(DomainEvent::Chat(Message::from(p))),
        RawEvent::ClearMsg(c) => Some(DomainEvent::Cleared(ClearMessage::from(c))),
        RawEvent::Other => None,
    }
}

} // verus!
