//! The ingestion session, modeled as a verified state machine.
//!
//! The session owns one protocol client bound to one channel. The loop that
//! awaits protocol events runs outside the library; every decision it takes
//! goes through [`Session::start`], [`Session::on_join_result`] and
//! [`Session::step`], so ordering and termination behaviour are proved here.

use vstd::prelude::*;

use crate::chat::{normalize, normalize_spec, recognized, DomainEvent, RawEvent};

verus! {

/// The lifecycle states of an ingestion session.
#[derive(Clone, Copy, Debug, PartialEq, Eq, Structural)]
pub enum SessionState {
    /// Constructed, not yet started.
    Idle,
    /// Join request issued to the protocol client.
    Connecting,
    /// Joined; events flow.
    Joined,
    /// Stop observed; no event may be delivered any more.
    Draining,
    /// Connection released; nothing will ever be delivered.
    Terminated,
}

/// One input to a running session.
pub enum SessionEvent {
    /// The cancellation signal was observed.
    Cancel,
    /// The protocol client yielded the next raw event.
    Message(RawEvent),
    /// The protocol client's stream ended or errored.
    StreamEnded,
}

/// One ingestion session, bound to one (already lowercased) channel.
pub struct Session {
    /// The channel this session is bound to.
    pub channel: String,
    /// Current lifecycle state.
    pub state: SessionState,
}

/// What one step does to the session, and what it delivers: only a `Joined`
/// session handles events; a cancellation or the end of the stream drains it,
/// and a drained session terminates without delivering anything.
pub open spec fn session_step(s: Session, ev: SessionEvent) -> (Session, Option<DomainEvent>) {
    match s.state {
        SessionState::Joined => match ev {
            SessionEvent::Cancel => (
                Session { state: SessionState::Draining, ..s },
                None::<DomainEvent>,
            ),
            SessionEvent::StreamEnded => (
                Session { state: SessionState::Draining, ..s },
                None::<DomainEvent>,
            ),
            SessionEvent::Message(r) => (s, normalize_spec(r)),
        },
        SessionState::Draining => (
            Session { state: SessionState::Terminated, ..s },
            None::<DomainEvent>,
        ),
        _ => (s, None::<DomainEvent>),
    }
}

/// The events delivered by one step, as a sequence.
pub open spec fn opt_seq(o: Option<DomainEvent>) -> Seq<DomainEvent> {
    match o {
        Some(d) => seq![d],
        None => Seq::empty(),
    }
}

/// Run a session over a whole input sequence: the final session and
/// everything delivered, in order.
pub open spec fn session_run(s: Session, evs: Seq<SessionEvent>) -> (Session, Seq<DomainEvent>)
    decreases evs.len(),
{
    if evs.len() == 0 {
        (s, Seq::empty())
    } else {
        let (s1, out) = session_step(s, evs.first());
        let (s2, rest) = session_run(s1, evs.drop_first());
        (s2, opt_seq(out) + rest)
    }
}

impl Session {
    /// A session bound to `channel`, not yet started.
    pub fn new(channel: String) -> (s: Session)
        ensures
            s.channel == channel,
            s.state == SessionState::Idle,
    {
        Session { channel, state: SessionState::Idle }
    }

    /// Start the session. With an empty channel name it terminates at once
    /// (the documented early exit, not a failure); otherwise it moves to
    /// `Connecting` and the caller must issue the join request.
    pub fn start(&mut self) -> (join: bool)
        requires
            old(self).state == SessionState::Idle,
        ensures
            final(self).channel == old(self).channel,
            old(self).channel@.len() == 0 ==> final(self).state == SessionState::Terminated
                && !join,
            old(self).channel@.len() > 0 ==> final(self).state == SessionState::Connecting
                && join,
    {
        if self.channel.as_str().is_empty() {
            self.state = SessionState::Terminated;
            false
        } else {
            self.state = SessionState::Connecting;
            true
        }
    }

    /// Record the outcome of the join request. Failure is fatal for this
    /// session; any retry is the supervisor's business.
    pub fn on_join_result(&mut self, joined: bool)
        requires
            old(self).state == SessionState::Connecting,
        ensures
            final(self).channel == old(self).channel,
            joined ==> final(self).state == SessionState::Joined,
            !joined ==> final(self).state == SessionState::Terminated,
    {
        if joined {
            self.state = SessionState::Joined;
        } else {
            self.state = SessionState::Terminated;
        }
    }

    /// Take one step: normalize and hand back the event to deliver, if any.
    /// Exactly [`session_step`] of the old state.
    pub fn step(&mut self, ev: SessionEvent) -> (out: Option<DomainEvent>)
        ensures
            (*final(self), out) == session_step(*old(self), ev),
    {
        match self.state {
            SessionState::Joined => match ev {
                SessionEvent::Cancel => {
                    self.state = SessionState::Draining;
                    None
                },
                SessionEvent::StreamEnded => {
                    self.state = SessionState::Draining;
                    None
                },
                SessionEvent::Message(r) => normalize(r),
            },
            SessionState::Draining => {
                self.state = SessionState::Terminated;
                None
            },
            _ => None,
        }
    }
}

/// Running a sequence and then one more event is one more step at the end.
pub proof fn lemma_session_run_snoc(s: Session, evs: Seq<SessionEvent>, ev: SessionEvent)
    ensures
        ({
            let (s1, out1) = session_run(s, evs);
            let (s2, out2) = session_step(s1, ev);
            session_run(s, evs.push(ev)) == (s2, out1 + opt_seq(out2))
        }),
    decreases evs.len(),
{
    let pushed = evs.push(ev);
    if evs.len() == 0 {
        assert(pushed.len() == 1);
        assert(pushed.first() == ev);
        assert(pushed.drop_first() =~= Seq::<SessionEvent>::empty());
        let (s1, out1) = session_step(s, ev);
        assert(session_run(s1, pushed.drop_first()).1 =~= Seq::<DomainEvent>::empty());
        assert(session_run(s, pushed).1 =~= opt_seq(out1));
        assert(session_run(s, evs).1 + opt_seq(out1) =~= opt_seq(out1));
    } else {
        assert(pushed.first() == evs.first());
        assert(pushed.drop_first() =~= evs.drop_first().push(ev));
        let (sa, outa) = session_step(s, evs.first());
        lemma_session_run_snoc(sa, evs.drop_first(), ev);
        let (s1, out1) = session_run(s, evs);
        let (s2, out2) = session_step(s1, ev);
        assert(session_run(s, pushed).1 =~= out1 + opt_seq(out2));
    }
}

/// A session that is draining or terminated never delivers anything again,
/// whatever else arrives. With [`Session::start`]'s early exit this gives the
/// empty-channel guarantee: zero events, ever.
pub proof fn lemma_no_delivery_after_stop(s: Session, evs: Seq<SessionEvent>)
    requires
        s.state == SessionState::Draining || s.state == SessionState::Terminated,
    ensures
        session_run(s, evs).1 =~= Seq::<DomainEvent>::empty(),
        session_run(s, evs).0.state == SessionState::Draining || session_run(
            s,
            evs,
        ).0.state == SessionState::Terminated,
    decreases evs.len(),
{
    if evs.len() > 0 {
        let (s1, out) = session_step(s, evs.first());
        lemma_no_delivery_after_stop(s1, evs.drop_first());
    }
}

/// An idle or connecting session delivers nothing either: only a joined
/// session hands events on.
pub proof fn lemma_no_delivery_before_join(s: Session, evs: Seq<SessionEvent>)
    requires
        s.state == SessionState::Idle || s.state == SessionState::Connecting,
    ensures
        session_run(s, evs).1 =~= Seq::<DomainEvent>::empty(),
    decreases evs.len(),
{
    if evs.len() > 0 {
        let (s1, out) = session_step(s, evs.first());
        lemma_no_delivery_before_join(s1, evs.drop_first());
    }
}

/// What the normalizer makes of a whole raw event sequence, in order.
pub open spec fn normalize_all(raws: Seq<RawEvent>) -> Seq<DomainEvent>
    decreases raws.len(),
{
    if raws.len() == 0 {
        Seq::empty()
    } else {
        normalize_all(raws.drop_last()) + opt_seq(normalize_spec(raws.last()))
    }
}

/// The normalizer is exact: its output is the recognized subsequence of the
/// input, in the same order, each input event mapped to exactly one domain
/// event and the unrecognized ones to none.
pub proof fn lemma_normalizer_exact(raws: Seq<RawEvent>)
    ensures
        normalize_all(raws) == raws.filter(|r: RawEvent| recognized(r)).map_values(
            |r: RawEvent| normalize_spec(r).unwrap(),
        ),
    decreases raws.len(),
{
    reveal(Seq::filter);
    let pred = |r: RawEvent| recognized(r);
    let f = |r: RawEvent| normalize_spec(r).unwrap();
    if raws.len() == 0 {
        assert(normalize_all(raws) =~= raws.filter(pred).map_values(f));
    } else {
        let head = raws.drop_last();
        let last = raws.last();
        lemma_normalizer_exact(head);
        assert(raws.filter(pred) == head.filter(pred) + (if pred(last) {
            seq![last]
        } else {
            Seq::<RawEvent>::empty()
        })) by {
            assert(raws.filter(pred) =~= head.filter(pred) + (if pred(last) {
                seq![last]
            } else {
                Seq::<RawEvent>::empty()
            }));
        }
        assert(normalize_all(raws) =~= raws.filter(pred).map_values(f));
    }
}

/// A joined session fed only raw protocol events stays joined and delivers
/// exactly the normalization of those events, in arrival order.
pub proof fn lemma_joined_delivers_normalized(s: Session, raws: Seq<RawEvent>)
    requires
        s.state == SessionState::Joined,
    ensures
        session_run(s, raws.map_values(|r: RawEvent| SessionEvent::Message(r))).0 == s,
        session_run(s, raws.map_values(|r: RawEvent| SessionEvent::Message(r))).1
            == normalize_all(raws),
    decreases raws.len(),
{
    let wrap = |r: RawEvent| SessionEvent::Message(r);
    if raws.len() == 0 {
        assert(normalize_all(raws) =~= session_run(s, raws.map_values(wrap)).1);
    } else {
        let head = raws.drop_last();
        lemma_joined_delivers_normalized(s, head);
        assert(raws.map_values(wrap) =~= head.map_values(wrap).push(wrap(raws.last())));
        lemma_session_run_snoc(s, head.map_values(wrap), wrap(raws.last()));
        assert(session_run(s, raws.map_values(wrap)).1 =~= normalize_all(raws));
    }
}

} // verus!
