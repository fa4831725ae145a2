//! Wireless link supervisor: the association lifecycle as a state machine.
//!
//! The supervisor runs forever in the background. While associated it samples
//! signal strength and waits for a disassociation notification or a polling
//! interval; while disconnected it starts one association attempt at a time,
//! backing off for a fixed delay after each failure. Failures are never
//! escalated: the whole failure policy is "always eventually retry". The
//! caller owns the radio; it performs the action this module prescribes for
//! the current state and hands the outcome back as a [`LinkEvent`].

use vstd::prelude::*;

verus! {

/// Association state of the wireless link. `Associating` means exactly one
/// association attempt is in flight.
#[derive(Clone, Copy, PartialEq, Eq, Structural, Debug)]
pub enum LinkState {
    Disconnected,
    Associating,
    Associated,
}

/// Outcome of the outside work the supervisor waited on.
#[derive(Clone, Copy, PartialEq, Eq, Structural, Debug)]
pub enum LinkEvent {
    /// The caller began the prescribed association attempt.
    AttemptStarted,
    /// The in-flight association attempt completed successfully.
    AttemptSucceeded,
    /// The in-flight association attempt failed; the caller observes the
    /// fixed backoff before asking for the next action.
    AttemptFailed,
    /// A disassociation notification arrived while associated.
    Disassociated,
    /// The signal-strength polling interval elapsed while associated.
    PollElapsed,
}

/// What the caller must do next for a given state.
#[derive(Clone, Copy, PartialEq, Eq, Structural, Debug)]
pub enum LinkAction {
    /// Apply configuration if not yet applied, start the radio if not yet
    /// started, then begin one association attempt.
    StartAttempt,
    /// An attempt is in flight: wait for its outcome.
    AwaitOutcome,
    /// Associated: sample signal strength, then wait for a disassociation
    /// notification or the polling interval, whichever comes first.
    SampleAndWait,
}

/// Transition relation of the supervisor. Events that do not concern the
/// current state change nothing; in particular a second `AttemptStarted`
/// while an attempt is already in flight starts no second attempt.
pub open spec fn spec_link_step(s: LinkState, e: LinkEvent) -> LinkState {
    match e {
        LinkEvent::AttemptStarted => if s == LinkState::Disconnected {
            LinkState::Associating
        } else {
            s
        },
        LinkEvent::AttemptSucceeded => if s == LinkState::Associating {
            LinkState::Associated
        } else {
            s
        },
        LinkEvent::AttemptFailed => if s == LinkState::Associating {
            LinkState::Disconnected
        } else {
            s
        },
        LinkEvent::Disassociated => if s == LinkState::Associated {
            LinkState::Disconnected
        } else {
            s
        },
        LinkEvent::PollElapsed => s,
    }
}

/// Whether an association attempt is in flight.
pub open spec fn spec_in_flight(s: LinkState) -> bool {
    s == LinkState::Associating
}

/// The action prescribed for each state.
pub open spec fn spec_link_action(s: LinkState) -> LinkAction {
    match s {
        LinkState::Disconnected => LinkAction::StartAttempt,
        LinkState::Associating => LinkAction::AwaitOutcome,
        LinkState::Associated => LinkAction::SampleAndWait,
    }
}

/// The state after a whole sequence of events, first event first.
pub open spec fn spec_link_run(s: LinkState, events: Seq<LinkEvent>) -> LinkState
    decreases events.len(),
{
    if events.len() == 0 {
        s
    } else {
        spec_link_run(spec_link_step(s, events[0]), events.drop_first())
    }
}

/// Link supervisor state, together with the most recent signal-strength
/// sample. The sample is written only while associated and is read by the
/// telemetry layer; a stale value is acceptable.
pub struct LinkSupervisor {
    pub state: LinkState,
    pub signal: i32,
}

impl LinkSupervisor {
    /// A fresh supervisor: disconnected, with a neutral signal sample.
    pub fn new() -> (s: Self)
        ensures
            s.state == LinkState::Disconnected,
            s.signal == 0,
    {
        LinkSupervisor { state: LinkState::Disconnected, signal: 0 }
    }

    /// The action the caller must perform next. An association attempt is
    /// started only from `Disconnected`, so at most one is ever in flight.
    pub fn next_action(&self) -> (a: LinkAction)
        ensures
            a == spec_link_action(self.state),
            a == LinkAction::StartAttempt <==> self.state == LinkState::Disconnected,
    {
        match self.state {
            LinkState::Disconnected => LinkAction::StartAttempt,
            LinkState::Associating => LinkAction::AwaitOutcome,
            LinkState::Associated => LinkAction::SampleAndWait,
        }
    }

    /// Advance the state machine by one event. The signal sample is
    /// untouched.
    pub fn on_event(&mut self, e: LinkEvent)
        ensures
            final(self).state == spec_link_step(old(self).state, e),
            final(self).signal == old(self).signal,
    {
        let next = match e {
            LinkEvent::AttemptStarted => if self.state == LinkState::Disconnected {
                LinkState::Associating
            } else {
                self.state
            },
            LinkEvent::AttemptSucceeded => if self.state == LinkState::Associating {
                LinkState::Associated
            } else {
                self.state
            },
            LinkEvent::AttemptFailed => if self.state == LinkState::Associating {
                LinkState::Disconnected
            } else {
                self.state
            },
            LinkEvent::Disassociated => if self.state == LinkState::Associated {
                LinkState::Disconnected
            } else {
                self.state
            },
            LinkEvent::PollElapsed => self.state,
        };
        self.state = next;
    }

    /// Record a signal-strength sample. Only an associated link yields a
    /// meaningful reading, so the sample is kept only then; otherwise the
    /// previous value stands.
    pub fn record_signal(&mut self, rssi: i32)
        ensures
            final(self).state == old(self).state,
            old(self).state == LinkState::Associated ==> final(self).signal == rssi,
            old(self).state != LinkState::Associated ==> final(self).signal == old(self).signal,
    {
        if self.state == LinkState::Associated {
            self.signal = rssi;
        }
    }
}

/// Running a concatenation of event sequences is running them in turn.
pub proof fn lemma_link_run_append(s: LinkState, a: Seq<LinkEvent>, b: Seq<LinkEvent>)
    ensures
        spec_link_run(s, a + b) == spec_link_run(spec_link_run(s, a), b),
    decreases a.len(),
{
    if a.len() == 0 {
        assert(a + b =~= b);
    } else {
        assert((a + b).drop_first() =~= a.drop_first() + b);
        lemma_link_run_append(spec_link_step(s, a[0]), a.drop_first(), b);
    }
}

/// At most one association attempt is ever in flight: the only transition
/// into the in-flight state is `AttemptStarted` taken from `Disconnected`,
/// and a further `AttemptStarted` while in flight changes nothing (no second
/// attempt is created).
pub proof fn lemma_single_attempt_in_flight(s: LinkState, e: LinkEvent)
    ensures
        spec_in_flight(spec_link_step(s, e)) && !spec_in_flight(s) ==> s == LinkState::Disconnected
            && e == LinkEvent::AttemptStarted,
        spec_in_flight(s) && e == LinkEvent::AttemptStarted ==> spec_link_step(s, e) == s,
{
}

/// After a failed attempt the supervisor is disconnected again and its next
/// prescribed action is a fresh attempt: one fixed backoff, then retry, with
/// no state in which it idles forever.
pub proof fn lemma_retry_after_failure()
    ensures
        spec_link_step(LinkState::Associating, LinkEvent::AttemptFailed) == LinkState::Disconnected,
        spec_link_action(LinkState::Disconnected) == LinkAction::StartAttempt,
{
}

/// Whatever sequence of disassociation and reassociation events has been
/// delivered so far, one further started-and-succeeded attempt always leaves
/// the supervisor associated again: recovery is reachable from every state,
/// indefinitely.
pub proof fn lemma_link_reassociates(s: LinkState, events: Seq<LinkEvent>)
    ensures
        spec_link_run(
            s,
            events + seq![LinkEvent::AttemptStarted, LinkEvent::AttemptSucceeded],
        ) == LinkState::Associated,
{
    let tail = seq![LinkEvent::AttemptStarted, LinkEvent::AttemptSucceeded];
    lemma_link_run_append(s, events, tail);
    let mid = spec_link_run(s, events);
    assert(spec_link_run(mid, tail) == LinkState::Associated) by {
        reveal_with_fuel(spec_link_run, 3);
        assert(tail.drop_first() =~= seq![LinkEvent::AttemptSucceeded]);
        assert(seq![LinkEvent::AttemptSucceeded].drop_first() =~= Seq::<LinkEvent>::empty());
    }
}

} // verus!
