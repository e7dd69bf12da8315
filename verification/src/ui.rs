//! The aggregate consumer state and the delivery boundary.
//!
//! Domain events cross the thread boundary tagged with the generation of the
//! session that produced them. [`UIState::deliver`] hands an event of the
//! current generation to every registered consumer, in one call; an event
//! from a replaced session is ignored, which keeps a channel change atomic
//! from the consumers' point of view.

use vstd::prelude::*;

use crate::chat::{bounded_push_front, messages_view, DomainEvent, Message, MessageView};
use crate::giveaway::{giveaway_cleared_out, giveaway_on_message, Giveaway, GiveawayView};
use crate::overview::{overview_empty, overview_on_cleared, overview_on_message, Overview,
    OverviewView};
use crate::settings::{Settings, SettingsView};

verus! {

/// The chat history display's buffer, newest first.
pub struct Chat {
    /// Buffered chat messages, newest first.
    pub messages: std::collections::VecDeque<Message>,
}

impl View for Chat {
    type V = Seq<MessageView>;

    open spec fn view(&self) -> Seq<MessageView> {
        messages_view(self.messages@)
    }
}

impl Chat {
    /// An empty history.
    pub fn new() -> (c: Chat)
        ensures
            c@ == Seq::<MessageView>::empty(),
    {
        let c = Chat { messages: std::collections::VecDeque::new() };
        proof {
            assert(c@ =~= Seq::<MessageView>::empty());
        }
        c
    }

    /// Prepend one message and truncate the history to `cap`.
    pub fn push_message(&mut self, m: &Message, cap: usize)
        ensures
            final(self)@ == bounded_push_front(old(self)@, m@, cap),
    {
        let ghost pre = self@;
        self.messages.push_front(m.duplicate());
        proof {
            assert(self@ =~= seq![m@] + pre);
        }
        if self.messages.len() > cap {
            let ghost grown = self@;
            self.messages.truncate(cap);
            proof {
                assert(self@ =~= grown.take(cap as int));
            }
        }
    }

    /// Drop the whole history.
    pub fn clear(&mut self)
        ensures
            final(self)@ == Seq::<MessageView>::empty(),
    {
        self.messages.clear();
        proof {
            assert(self@ =~= Seq::<MessageView>::empty());
        }
    }
}

/// The abstract value of the aggregate state.
#[verifier::ext_equal]
pub ghost struct UIView {
    /// Overview counters.
    pub overview: OverviewView,
    /// Chat history, newest first.
    pub chat: Seq<MessageView>,
    /// Giveaway tracker.
    pub giveaway: GiveawayView,
    /// Settings.
    pub settings: SettingsView,
    /// Generation of the session whose events are currently accepted.
    pub generation: u64,
}

/// The root state: every registered consumer plus the settings, tagged with
/// the accepted session generation.
pub struct UIState {
    /// Overview counters.
    pub overview: Overview,
    /// Chat history display buffer.
    pub chat: Chat,
    /// Giveaway tracker.
    pub giveaway: Giveaway,
    /// Settings.
    pub settings: Settings,
    /// Generation of the session whose events are currently accepted.
    pub generation: u64,
}

impl View for UIState {
    type V = UIView;

    open spec fn view(&self) -> UIView {
        UIView {
            overview: self.overview@,
            chat: self.chat@,
            giveaway: self.giveaway@,
            settings: self.settings@,
            generation: self.generation,
        }
    }
}

/// What delivering one accepted event does: every consumer folds the same
/// event into its own state, in the same call.
pub open spec fn ui_deliver(v: UIView, ev: DomainEvent) -> UIView {
    match ev {
        DomainEvent::Chat(m) => UIView {
            overview: overview_on_message(v.overview, m@),
            chat: bounded_push_front(v.chat, m@, v.settings.chat_buffer),
            giveaway: giveaway_on_message(v.giveaway, m@),
            ..v
        },
        DomainEvent::Cleared(_) => UIView { overview: overview_on_cleared(v.overview), ..v },
    }
}

/// What a reset does: every consumer's derived state is cleared and events
/// of generation `generation` are accepted from now on.
pub open spec fn ui_reset(v: UIView, generation: u64) -> UIView {
    UIView {
        overview: overview_empty(),
        chat: Seq::empty(),
        giveaway: giveaway_cleared_out(v.giveaway),
        settings: v.settings,
        generation,
    }
}

impl UIState {
    /// Well-formedness of all consumers.
    pub open spec fn wf(&self) -> bool {
        self.overview.wf() && self.giveaway.wf()
    }

    /// Reset every consumer, then accept events of `generation` only. The
    /// settings, and the giveaway's configured prefix, are kept.
    pub fn on_reset(&mut self, generation: u64)
        ensures
            final(self)@ == ui_reset(old(self)@, generation),
            final(self).wf(),
    {
        self.overview.on_reset();
        self.chat.clear();
        self.giveaway.on_reset();
        self.generation = generation;
    }

    /// Deliver one domain event to every registered consumer, in arrival
    /// order, exactly once — provided it still belongs to the accepted
    /// generation. A stale event changes nothing at all.
    pub fn deliver(&mut self, generation: u64, ev: &DomainEvent) -> (accepted: bool)
        requires
            old(self).wf(),
        ensures
            accepted == (generation == old(self)@.generation),
            !accepted ==> *final(self) == *old(self),
            accepted ==> final(self)@ == ui_deliver(old(self)@, *ev),
            final(self).wf(),
    {
        if generation != self.generation {
            return false;
        }
        match ev {
            DomainEvent::Chat(m) => {
                self.overview.on_message(m);
                self.chat.push_message(m, self.settings.chat_buffer);
                self.giveaway.on_message(m);
            },
            DomainEvent::Cleared(c) => {
                self.overview.on_cleared(c);
                self.giveaway.on_cleared(c);
            },
        }
        true
    }
}

impl Default for UIState {
    /// The initial state: everything empty, generation zero.
    fn default() -> (u: UIState)
        ensures
            u@.overview == overview_empty(),
            u@.chat == Seq::<MessageView>::empty(),
            u@.giveaway.people_entered == Seq::<(Seq<char>, Seq<char>)>::empty(),
            u@.giveaway.winner is None,
            u@.giveaway.winners_messages == Seq::<MessageView>::empty(),
            u@.giveaway.message_start == Seq::<char>::empty(),
            u@.settings.changes == false,
            u@.settings.twitch_channel == Seq::<char>::empty(),
            u@.settings.chat_buffer == crate::settings::DEFAULT_CHAT_BUFFER,
            u@.generation == 0,
            u.wf(),
    {
        UIState {
            overview: Overview::new(),
            chat: Chat::new(),
            giveaway: Giveaway::new(),
            settings: Settings::default(),
            generation: 0,
        }
    }
}

/// The overview's own view of one event.
pub open spec fn overview_apply(o: OverviewView, ev: DomainEvent) -> OverviewView {
    match ev {
        DomainEvent::Chat(m) => overview_on_message(o, m@),
        DomainEvent::Cleared(_) => overview_on_cleared(o),
    }
}

/// The overview state after observing a whole event sequence, in order.
pub open spec fn overview_fold(o: OverviewView, evs: Seq<DomainEvent>) -> OverviewView
    decreases evs.len(),
{
    if evs.len() == 0 {
        o
    } else {
        overview_fold(overview_apply(o, evs.first()), evs.drop_first())
    }
}

/// The giveaway's own view of one event; a cleared message is its no-op.
pub open spec fn giveaway_apply(g: GiveawayView, ev: DomainEvent) -> GiveawayView {
    match ev {
        DomainEvent::Chat(m) => giveaway_on_message(g, m@),
        DomainEvent::Cleared(_) => g,
    }
}

/// The giveaway state after observing a whole event sequence, in order.
pub open spec fn giveaway_fold(g: GiveawayView, evs: Seq<DomainEvent>) -> GiveawayView
    decreases evs.len(),
{
    if evs.len() == 0 {
        g
    } else {
        giveaway_fold(giveaway_apply(g, evs.first()), evs.drop_first())
    }
}

/// The chat history's own view of one event.
pub open spec fn chat_apply(c: Seq<MessageView>, ev: DomainEvent, cap: usize) -> Seq<
    MessageView,
> {
    match ev {
        DomainEvent::Chat(m) => bounded_push_front(c, m@, cap),
        DomainEvent::Cleared(_) => c,
    }
}

/// The chat history after observing a whole event sequence, in order.
pub open spec fn chat_fold(c: Seq<MessageView>, evs: Seq<DomainEvent>, cap: usize) -> Seq<
    MessageView,
>
    decreases evs.len(),
{
    if evs.len() == 0 {
        c
    } else {
        chat_fold(chat_apply(c, evs.first(), cap), evs.drop_first(), cap)
    }
}

/// The aggregate state after delivering a whole event sequence, in order.
pub open spec fn ui_fold(v: UIView, evs: Seq<DomainEvent>) -> UIView
    decreases evs.len(),
{
    if evs.len() == 0 {
        v
    } else {
        ui_fold(ui_deliver(v, evs.first()), evs.drop_first())
    }
}

/// Fan-out is consistent: delivering one event sequence to the aggregate
/// state leaves every consumer in exactly the state it reaches by folding
/// the identical sequence, in the identical order, on its own — no consumer
/// ever sees another order or another subsequence than its peers. Settings
/// and generation are untouched by delivery.
pub proof fn lemma_fanout_consistent(v: UIView, evs: Seq<DomainEvent>)
    ensures
        ui_fold(v, evs).overview == overview_fold(v.overview, evs),
        ui_fold(v, evs).giveaway == giveaway_fold(v.giveaway, evs),
        ui_fold(v, evs).chat == chat_fold(v.chat, evs, v.settings.chat_buffer),
        ui_fold(v, evs).settings == v.settings,
        ui_fold(v, evs).generation == v.generation,
    decreases evs.len(),
{
    if evs.len() > 0 {
        let v1 = ui_deliver(v, evs.first());
        assert(v1.settings == v.settings);
        lemma_fanout_consistent(v1, evs.drop_first());
    }
}

} // verus!
