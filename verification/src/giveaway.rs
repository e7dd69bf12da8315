//! Giveaway entry tracker: the second analytics consumer.
//!
//! A message whose text starts with the configured prefix enters its author
//! (first write wins). A winner is drawn explicitly, uniformly among the
//! entrants; while a winner is selected, the winner's messages are kept in a
//! bounded newest-first buffer.

use vstd::prelude::*;
use vstd::string::StrSliceExecFns;

use crate::chat::{bounded_push_front, messages_view, ClearMessage, Message, MessageView};
use crate::keymap::{entries_view, entry_at, find_key, has_key, insert_if_absent, key_index,
    keys_unique, lemma_push_absent_keeps_unique};

verus! {

/// How many of the winner's messages are retained, newest first.
pub const WINNER_BUFFER_CAP: usize = 100;

/// The abstract state of the giveaway tracker.
#[verifier::ext_equal]
pub ghost struct GiveawayView {
    /// Required text prefix for a message to enter its author.
    pub message_start: Seq<char>,
    /// Entrants, as id and display name pairs with unique ids, in entry order.
    pub people_entered: Seq<(Seq<char>, Seq<char>)>,
    /// The selected winner's id, if one was drawn.
    pub winner: Option<Seq<char>>,
    /// The winner's messages, newest first, at most the buffer cap.
    pub winners_messages: Seq<MessageView>,
}

/// Whether `w` is a selected winner whose id is `id`.
pub open spec fn winner_matches(w: Option<Seq<char>>, id: Seq<char>) -> bool {
    match w {
        Some(s) => s == id,
        None => false,
    }
}

/// The giveaway state after observing one chat message: the author enters if
/// the text starts with the prefix, and the message is buffered if its author
/// is the selected winner.
pub open spec fn giveaway_on_message(v: GiveawayView, m: MessageView) -> GiveawayView {
    GiveawayView {
        people_entered: if v.message_start.is_prefix_of(m.message) {
            insert_if_absent(v.people_entered, m.author.id, m.author.name)
        } else {
            v.people_entered
        },
        winners_messages: if winner_matches(v.winner, m.author.id) {
            bounded_push_front(v.winners_messages, m, WINNER_BUFFER_CAP)
        } else {
            v.winners_messages
        },
        ..v
    }
}

/// The giveaway state after a reset: entrants, winner and buffer cleared;
/// the configured prefix is kept.
pub open spec fn giveaway_cleared_out(v: GiveawayView) -> GiveawayView {
    GiveawayView {
        people_entered: Seq::empty(),
        winner: None,
        winners_messages: Seq::empty(),
        ..v
    }
}

/// Giveaway tracker state.
pub struct Giveaway {
    /// Text a message must start with to enter the giveaway.
    pub message_start: String,
    /// People who entered, as id and display name pairs, in entry order.
    pub people_entered: Vec<(String, String)>,
    /// The winner's id, if one was drawn.
    pub winner: Option<String>,
    /// The winner's messages, newest first.
    pub winners_messages: std::collections::VecDeque<Message>,
}

impl View for Giveaway {
    type V = GiveawayView;

    open spec fn view(&self) -> GiveawayView {
        GiveawayView {
            message_start: self.message_start@,
            people_entered: entries_view(self.people_entered@),
            winner: match self.winner {
                Some(w) => Some(w@),
                None => None,
            },
            winners_messages: messages_view(self.winners_messages@),
        }
    }
}

impl Giveaway {
    /// Well-formedness: entrant ids are unique and the buffer respects its cap.
    pub open spec fn wf(&self) -> bool {
        keys_unique(self@.people_entered) && self@.winners_messages.len() <= WINNER_BUFFER_CAP
    }

    /// A fresh tracker: empty prefix, no entrants, no winner, empty buffer.
    pub fn new() -> (g: Giveaway)
        ensures
            g@.message_start == Seq::<char>::empty(),
            g@.people_entered == Seq::<(Seq<char>, Seq<char>)>::empty(),
            g@.winner is None,
            g@.winners_messages == Seq::<MessageView>::empty(),
            g.wf(),
    {
        let g = Giveaway {
            message_start: String::new(),
            people_entered: Vec::new(),
            winner: None,
            winners_messages: std::collections::VecDeque::new(),
        };
        proof {
            assert(g@.people_entered =~= Seq::<(Seq<char>, Seq<char>)>::empty());
            assert(g@.winners_messages =~= Seq::<MessageView>::empty());
        }
        g
    }

    /// Configure the required entry prefix.
    pub fn set_message_start(&mut self, prefix: String)
        ensures
            final(self)@ == (GiveawayView { message_start: prefix@, ..old(self)@ }),
            old(self).wf() ==> final(self).wf(),
    {
        self.message_start = prefix;
    }

    /// Fold one chat message into the tracker. Never fails: the buffer bound
    /// is enforced by truncation.
    pub fn on_message(&mut self, m: &Message)
        requires
            old(self).wf(),
        ensures
            final(self)@ == giveaway_on_message(old(self)@, m@),
            final(self).wf(),
    {
        let ghost pre = self@;
        if text_starts_with(&m.message, &self.message_start) {
            match find_key(&self.people_entered, &m.author.id) {
                Some(_) => {},
                None => {
                    self.people_entered.push((m.author.id.clone(), m.author.name.clone()));
                    proof {
                        lemma_push_absent_keeps_unique(
                            pre.people_entered,
                            m.author.id@,
                            m.author.name@,
                        );
                        assert(self@.people_entered =~= pre.people_entered.push(
                            (m.author.id@, m.author.name@),
                        ));
                    }
                },
            }
        }
        let author_is_winner = match &self.winner {
            Some(w) => *w == m.author.id,
            None => false,
        };
        if author_is_winner {
            self.winners_messages.push_front(m.duplicate());
            proof {
                assert(self@.winners_messages =~= seq![m@] + pre.winners_messages);
            }
            if self.winners_messages.len() > WINNER_BUFFER_CAP {
                let ghost grown = self@.winners_messages;
                self.winners_messages.truncate(WINNER_BUFFER_CAP);
                proof {
                    assert(self@.winners_messages =~= grown.take(WINNER_BUFFER_CAP as int));
                }
            }
        }
    }

    /// A cleared message is deliberately ignored by this consumer, whether or
    /// not the id was ever seen.
    pub fn on_cleared(&mut self, _c: &ClearMessage)
        ensures
            *final(self) == *old(self),
    {
    }

    /// Clear entrants, winner and buffer; the configured prefix is kept.
    pub fn on_reset(&mut self)
        ensures
            final(self)@ == giveaway_cleared_out(old(self)@),
            final(self).wf(),
    {
        self.people_entered.clear();
        self.winner = None;
        self.winners_messages.clear();
        proof {
            assert(self@.people_entered =~= Seq::<(Seq<char>, Seq<char>)>::empty());
            assert(self@.winners_messages =~= Seq::<MessageView>::empty());
        }
    }

    /// Draw a winner uniformly among the entrants; with no entrants nothing
    /// changes.
    pub fn draw(&mut self)
        requires
            old(self).wf(),
        ensures
            final(self).wf(),
            old(self)@.people_entered.len() == 0 ==> *final(self) == *old(self),
            old(self)@.people_entered.len() > 0 ==> exists|i: int|
                0 <= i < old(self)@.people_entered.len() && final(self)@ == (GiveawayView {
                    winner: Some((#[trigger] old(self)@.people_entered[i]).0),
                    ..old(self)@
                }),
    {
        let n = self.people_entered.len();
        if n == 0 {
            return ;
        }
        let pick = random_below(n);
        self.winner = Some(self.people_entered[pick].0.clone());
        proof {
            assert(entries_view(self.people_entered@)[pick as int].0 == self.people_entered@[
                pick as int].0@);
        }
    }

    /// The winner's display name: the entry the winner's id maps to, if a
    /// winner is selected and still among the entrants.
    pub fn winner_name(&self) -> (r: Option<&String>)
        requires
            self.wf(),
        ensures
            match self.winner {
                None => r is None,
                Some(w) => if has_key(self@.people_entered, w@) {
                    r matches Some(name) && name@ == self@.people_entered[key_index(
                        self@.people_entered,
                        w@,
                    )].1
                } else {
                    r is None
                },
            },
    {
        match &self.winner {
            None => None,
            Some(w) => match find_key(&self.people_entered, w) {
                Some(i) => {
                    proof {
                        let entries = self@.people_entered;
                        assert(entry_at(entries, i as int, w@));
                        let j = key_index(entries, w@);
                        assert(entry_at(entries, j, w@));
                        assert(j == i as int);
                    }
                    Some(&self.people_entered[i].1)
                },
                None => None,
            },
        }
    }
}

/// The tracker state after folding a whole message sequence, in order.
pub open spec fn giveaway_fold_messages(v: GiveawayView, ms: Seq<MessageView>) -> GiveawayView
    decreases ms.len(),
{
    if ms.len() == 0 {
        v
    } else {
        giveaway_fold_messages(giveaway_on_message(v, ms.first()), ms.drop_first())
    }
}

/// Bound enforcement: feeding any number of messages authored by the selected
/// winner leaves the buffer holding exactly the most recent ones, newest
/// first, never more than the cap; past the cap its length is exactly the cap.
pub proof fn lemma_winner_buffer_bound(v: GiveawayView, ms: Seq<MessageView>)
    requires
        v.winners_messages.len() <= WINNER_BUFFER_CAP,
        forall|i: int|
            0 <= i < ms.len() ==> winner_matches(v.winner, (#[trigger] ms[i]).author.id),
    ensures
        ({
            let buf = giveaway_fold_messages(v, ms).winners_messages;
            let total = (ms.len() + v.winners_messages.len()) as int;
            &&& buf.len() == if total <= WINNER_BUFFER_CAP {
                total
            } else {
                WINNER_BUFFER_CAP as int
            }
            &&& forall|k: int|
                0 <= k < buf.len() ==> #[trigger] buf[k] == if k < ms.len() {
                    ms[ms.len() - 1 - k]
                } else {
                    v.winners_messages[k - ms.len()]
                }
        }),
    decreases ms.len(),
{
    if ms.len() > 0 {
        let m0 = ms.first();
        let v1 = giveaway_on_message(v, m0);
        assert(winner_matches(v.winner, m0.author.id));
        assert(v1.winner == v.winner);
        assert(v1.winners_messages == bounded_push_front(
            v.winners_messages,
            m0,
            WINNER_BUFFER_CAP,
        ));
        let ms1 = ms.drop_first();
        assert(forall|i: int|
            0 <= i < ms1.len() ==> winner_matches(v1.winner, (#[trigger] ms1[i]).author.id))
            by {
            assert(forall|i: int| 0 <= i < ms1.len() ==> #[trigger] ms1[i] == ms[i + 1]);
        }
        lemma_winner_buffer_bound(v1, ms1);
        let buf = giveaway_fold_messages(v, ms).winners_messages;
        assert(giveaway_fold_messages(v, ms) == giveaway_fold_messages(v1, ms1));
        assert forall|k: int| 0 <= k < buf.len() implies #[trigger] buf[k] == (if k < ms.len() {
            ms[ms.len() - 1 - k]
        } else {
            v.winners_messages[k - ms.len()]
        }) by {
            if k < ms1.len() {
                assert(buf[k] == ms1[ms1.len() - 1 - k]);
                assert(ms1[ms1.len() - 1 - k] == ms[ms.len() - 1 - k]);
            } else {
                let k1 = k - ms1.len();
                assert(buf[k] == v1.winners_messages[k1]);
                if k1 == 0 {
                    assert(v1.winners_messages[0] == m0);
                    assert(ms[ms.len() - 1 - k] == m0);
                } else {
                    assert(v1.winners_messages[k1] == v.winners_messages[k1 - 1]);
                }
            }
        }
    }
}

/// Whether `s` starts with `prefix`, by characters.
fn text_starts_with(s: &String, prefix: &String) -> (r: bool)
    ensures
        r == prefix@.is_prefix_of(s@),
{
    let slen = s.as_str().unicode_len();
    let plen = prefix.as_str().unicode_len();
    if plen > slen {
        return false;
    }
    let mut i: usize = 0;
    while i < plen
        invariant
            plen <= slen,
            plen == prefix@.len(),
            slen == s@.len(),
            i <= plen,
            forall|j: int| 0 <= j < i ==> s@[j] == prefix@[j],
        decreases plen - i,
    {
        if s.as_str().get_char(i) != prefix.as_str().get_char(i) {
            proof {
                assert(s@.subrange(0, plen as int)[i as int] != prefix@[i as int]);
            }
            return false;
        }
        i = i + 1;
    }
    proof {
        assert(prefix@ =~= s@.subrange(0, plen as int));
    }
    true
}

/// Relies on `rand::random_range` over `0..n`: returns a uniformly sampled
/// value of the non-empty range, so the result is below `n`.
#[verifier::external_body]
fn random_below(n: usize) -> (r: usize)
    requires
        n > 0,
    ensures
        r < n,
{
    rand::random_range(0..n)
}

} // verus!
