//! Overview counters: one of the analytics consumers folding the event stream.

use vstd::prelude::*;

use crate::chat::{ClearMessage, Message, MessageView};
use crate::keymap::{entries_view, entry_at, find_key, key_index, keys_unique,
    lemma_push_absent_keeps_unique, lemma_update_name_keeps_unique, upsert};

verus! {

/// The abstract state of the overview counters.
#[verifier::ext_equal]
pub ghost struct OverviewView {
    /// Distinct author ids seen, each with the author's display name.
    pub chatters: Seq<(Seq<char>, Seq<char>)>,
    /// Total number of chat messages observed.
    pub total_messages: usize,
    /// Number of subscriber-flagged messages observed.
    pub subscriber_messages: usize,
    /// Sum of bits cheered, absent bits counting as zero.
    pub total_bits: u64,
    /// Number of clear events observed.
    pub messages_cleared: usize,
}

/// `x + 1`, stopping at the type's maximum instead of failing.
pub open spec fn sat_inc(x: usize) -> usize {
    if x < usize::MAX {
        (x + 1) as usize
    } else {
        x
    }
}

/// `x + y`, stopping at the type's maximum instead of failing.
pub open spec fn sat_add_u64(x: u64, y: u64) -> u64 {
    if x + y <= u64::MAX {
        (x + y) as u64
    } else {
        u64::MAX
    }
}

/// The bits cheered with a message, absent bits counting as zero.
pub open spec fn bits_of(m: MessageView) -> u64 {
    match m.bits {
        Some(b) => b,
        None => 0,
    }
}

/// The overview state after observing one chat message.
pub open spec fn overview_on_message(v: OverviewView, m: MessageView) -> OverviewView {
    OverviewView {
        chatters: upsert(v.chatters, m.author.id, m.author.name),
        total_messages: sat_inc(v.total_messages),
        subscriber_messages: if m.subscriber {
            sat_inc(v.subscriber_messages)
        } else {
            v.subscriber_messages
        },
        total_bits: sat_add_u64(v.total_bits, bits_of(m)),
        messages_cleared: v.messages_cleared,
    }
}

/// The overview state after observing one clear event.
pub open spec fn overview_on_cleared(v: OverviewView) -> OverviewView {
    OverviewView { messages_cleared: sat_inc(v.messages_cleared), ..v }
}

/// The empty overview state, as after a reset.
pub open spec fn overview_empty() -> OverviewView {
    OverviewView {
        chatters: Seq::empty(),
        total_messages: 0,
        subscriber_messages: 0,
        total_bits: 0,
        messages_cleared: 0,
    }
}

/// Overview counters: tracks distinct authors, message and clear counts, and
/// the bits total. Internal bounds saturate; no event is ever rejected.
pub struct Overview {
    /// Authors seen so far, as id and display name pairs with unique ids.
    pub unique_chatters: Vec<(String, String)>,
    /// Number of total messages.
    pub total_messages: usize,
    /// Number of messages by subscribers.
    pub subscriber_messages: usize,
    /// Number of total bits cheered.
    pub total_bits: u64,
    /// Number of messages cleared.
    pub messages_cleared: usize,
}

impl View for Overview {
    type V = OverviewView;

    open spec fn view(&self) -> OverviewView {
        OverviewView {
            chatters: entries_view(self.unique_chatters@),
            total_messages: self.total_messages,
            subscriber_messages: self.subscriber_messages,
            total_bits: self.total_bits,
            messages_cleared: self.messages_cleared,
        }
    }
}

impl Overview {
    /// Well-formedness: author ids are unique.
    pub open spec fn wf(&self) -> bool {
        keys_unique(self@.chatters)
    }

    /// A fresh overview with everything at zero.
    pub fn new() -> (o: Overview)
        ensures
            o@ == overview_empty(),
            o.wf(),
    {
        let o = Overview {
            unique_chatters: Vec::new(),
            total_messages: 0,
            subscriber_messages: 0,
            total_bits: 0,
            messages_cleared: 0,
        };
        proof {
            assert(o@ =~= overview_empty());
        }
        o
    }

    /// Fold one chat message into the counters. Never fails: the counters
    /// saturate at their type's maximum.
    pub fn on_message(&mut self, m: &Message)
        requires
            old(self).wf(),
        ensures
            final(self)@ == overview_on_message(old(self)@, m@),
            final(self).wf(),
    {
        let ghost pre = self@.chatters;
        let idx = find_key(&self.unique_chatters, &m.author.id);
        match idx {
            Some(i) => {
                let key = self.unique_chatters[i].0.clone();
                self.unique_chatters[i] = (key, m.author.name.clone());
                proof {
                    assert(entry_at(pre, i as int, m.author.id@));
                    let j = key_index(pre, m.author.id@);
                    assert(entry_at(pre, j, m.author.id@));
                    assert(j == i as int);
                    lemma_update_name_keeps_unique(pre, i as int, m.author.name@);
                    assert(self@.chatters =~= pre.update(i as int, (pre[i as int].0,
                        m.author.name@)));
                }
            },
            None => {
                self.unique_chatters.push((m.author.id.clone(), m.author.name.clone()));
                proof {
                    lemma_push_absent_keeps_unique(pre, m.author.id@, m.author.name@);
                    assert(self@.chatters =~= pre.push((m.author.id@, m.author.name@)));
                }
            },
        }
        self.total_messages = if self.total_messages < usize::MAX {
            self.total_messages + 1
        } else {
            self.total_messages
        };
        if m.subscriber {
            self.subscriber_messages = if self.subscriber_messages < usize::MAX {
                self.subscriber_messages + 1
            } else {
                self.subscriber_messages
            };
        }
        let cheered = match m.bits {
            Some(b) => b,
            None => 0,
        };
        self.total_bits = if cheered <= u64::MAX - self.total_bits {
            self.total_bits + cheered
        } else {
            u64::MAX
        };
    }

    /// Fold one clear event into the counters. Only the clear count moves;
    /// an id never seen before is no different from a known one.
    pub fn on_cleared(&mut self, _c: &ClearMessage)
        requires
            old(self).wf(),
        ensures
            final(self)@ == overview_on_cleared(old(self)@),
            final(self).wf(),
    {
        self.messages_cleared = if self.messages_cleared < usize::MAX {
            self.messages_cleared + 1
        } else {
            self.messages_cleared
        };
    }

    /// Clear all derived state back to zero.
    pub fn on_reset(&mut self)
        ensures
            final(self)@ == overview_empty(),
            final(self).wf(),
    {
        self.unique_chatters.clear();
        self.total_messages = 0;
        self.subscriber_messages = 0;
        self.total_bits = 0;
        self.messages_cleared = 0;
        proof {
            assert(self@ =~= overview_empty());
        }
    }
}

} // verus!
