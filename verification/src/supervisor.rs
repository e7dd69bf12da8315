//! The session supervisor: owns the at-most-one active ingestion session.
//!
//! On a channel change it cancels the old session (fire-and-forget), resets
//! every consumer, and only then hands out the start information for the new
//! session — so consumers can never see an old-channel event after the reset.

use vstd::prelude::*;

use crate::ui::{ui_reset, UIState};

verus! {

/// One-shot cancellation sender of an ingestion session.
#[verifier::external_type_specification]
#[verifier::external_body]
#[verifier::reject_recursive_types(T)]
pub struct ExOneshotSender<T>(tokio::sync::oneshot::Sender<T>);

/// One-shot cancellation receiver of an ingestion session.
#[verifier::external_type_specification]
#[verifier::external_body]
#[verifier::reject_recursive_types(T)]
pub struct ExOneshotReceiver<T>(tokio::sync::oneshot::Receiver<T>);

/// Error a oneshot receiver reports when its sender is gone; the library
/// never reads it, but declaring the receiver requires it to be known.
#[verifier::external_type_specification]
#[verifier::external_body]
pub struct ExOneshotRecvError(tokio::sync::oneshot::error::RecvError);

/// Relies on `tokio::sync::oneshot::channel`: makes a fresh, unrelated
/// sender and receiver pair.
pub assume_specification<T>[ tokio::sync::oneshot::channel::<T> ]() -> (r: (
    tokio::sync::oneshot::Sender<T>,
    tokio::sync::oneshot::Receiver<T>,
));

/// Relies on `tokio::sync::oneshot::Sender::send`: consumes the sender (so a
/// signal can be sent at most once), never blocks, and merely returns the
/// value back when the receiver is already gone.
pub assume_specification<T>[ tokio::sync::oneshot::Sender::<T>::send ](
    s: tokio::sync::oneshot::Sender<T>,
    t: T,
) -> (r: Result<(), T>);

/// What lowercasing produces; a function of the characters alone.
pub uninterp spec fn lower_of(s: Seq<char>) -> Seq<char>;

/// Relies on `str::to_lowercase`: the result depends on the characters
/// alone, and it is empty exactly when the input is empty.
#[verifier::external_body]
fn lowercase(s: &str) -> (r: String)
    ensures
        r@ == lower_of(s@),
        (s@.len() == 0) <==> (r@.len() == 0),
{
    s.to_lowercase()
}

/// Everything the session loop needs to run one new ingestion session.
pub struct SessionStart {
    /// The lowercased channel the session is bound to.
    pub channel: String,
    /// The generation tag its events must carry to be accepted.
    pub generation: u64,
    /// The receiving half of the session's cancellation signal.
    pub stop: tokio::sync::oneshot::Receiver<()>,
}

/// The supervisor: sole owner of the at-most-one live cancellation sender.
pub struct Supervisor {
    /// Cancellation sender of the active session, if one was started.
    pub stop_trigger: Option<tokio::sync::oneshot::Sender<()>>,
    /// The lowercased channel of the active session.
    pub channel: String,
    /// Generation of the active session; grows with every restart.
    pub generation: u64,
}

impl Supervisor {
    /// A supervisor with no session yet.
    pub fn new() -> (s: Supervisor)
        ensures
            s.stop_trigger is None,
            s.channel@ == Seq::<char>::empty(),
            s.generation == 0,
    {
        Supervisor { stop_trigger: None, channel: String::new(), generation: 0 }
    }

    /// Send the active session's cancellation signal, if one is held. The
    /// sender is consumed, so the signal goes out at most once per session;
    /// calling this again, or with no session, is a no-op, never a fault.
    pub fn cancel_current(&mut self)
        ensures
            final(self).stop_trigger is None,
            final(self).channel == old(self).channel,
            final(self).generation == old(self).generation,
    {
        match self.stop_trigger.take() {
            Some(trigger) => {
                // A dropped receiver only means the session is already gone.
                let _ = trigger.send(());
            },
            None => {},
        }
    }

    /// Switch ingestion to `new_channel`: cancel the old session, reset every
    /// consumer, then hand back what the new session's loop needs. Events of
    /// the old session can no longer be delivered once this returns, since
    /// only the new generation is accepted.
    pub fn restart(&mut self, ui: &mut UIState, new_channel: &str) -> (start: SessionStart)
        requires
            old(self).generation < u64::MAX,
        ensures
            final(self).stop_trigger is Some,
            final(self).channel@ == lower_of(new_channel@),
            final(self).generation == old(self).generation + 1,
            final(ui)@ == ui_reset(old(ui)@, (old(self).generation + 1) as u64),
            final(ui).wf(),
            start.channel@ == lower_of(new_channel@),
            (start.channel@.len() == 0) <==> (new_channel@.len() == 0),
            start.generation == final(self).generation,
    {
        self.cancel_current();
        let next_generation = self.generation + 1;
        ui.on_reset(next_generation);
        let (trigger, stop): (
            tokio::sync::oneshot::Sender<()>,
            tokio::sync::oneshot::Receiver<()>,
        ) = tokio::sync::oneshot::channel();
        self.stop_trigger = Some(trigger);
        self.channel = lowercase(new_channel);
        self.generation = next_generation;
        SessionStart { channel: self.channel.clone(), generation: next_generation, stop }
    }
}

} // verus!
