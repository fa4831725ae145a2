//! Session manager: establishing and re-establishing the one messaging
//! session.
//!
//! Given a live, address-configured link, a session is built in order:
//! resolve the broker's name, open the stream connection, perform the
//! protocol handshake, publish the availability message, subscribe to the
//! control topic, then hand control to the event multiplexer. Name
//! resolution and stream connection are retried indefinitely; a failed
//! handshake or subscription aborts the attempt and restarts it from the
//! beginning after a fixed delay, as does a fatal session error reported by
//! the multiplexer. The availability publish is best-effort: its failure is
//! logged and the attempt proceeds. There is no unrecoverable state at this
//! layer — everything loops.

use vstd::prelude::*;

verus! {

/// Phase of the session lifecycle. `Running` means the event multiplexer
/// owns control; every other phase has exactly one prescribed action.
#[derive(Clone, Copy, PartialEq, Eq, Structural, Debug)]
pub enum SessionPhase {
    /// Blocking name lookup of the broker host.
    Resolving,
    /// Stream connection to the resolved address.
    Connecting,
    /// Protocol-level connect handshake with the session configuration.
    Handshaking,
    /// Publishing the availability ("present") message to the will topic.
    Announcing,
    /// Subscribing to the control topic.
    Subscribing,
    /// The event multiplexer runs; this is the steady state.
    Running,
    /// Fixed delay before the whole attempt restarts from `Resolving`.
    RestartWait,
}

/// Outcome of the outside work prescribed for the current phase.
#[derive(Clone, Copy, PartialEq, Eq, Structural, Debug)]
pub enum SessionEvent {
    ResolveOk,
    ResolveFailed,
    ConnectOk,
    ConnectFailed,
    HandshakeOk,
    HandshakeFailed,
    AnnounceOk,
    AnnounceFailed,
    SubscribeOk,
    SubscribeFailed,
    /// The multiplexer observed a fatal session-level network error.
    FatalSessionError,
    /// The restart delay elapsed.
    DelayElapsed,
}

/// What the caller must do next for a given phase.
#[derive(Clone, Copy, PartialEq, Eq, Structural, Debug)]
pub enum SessionAction {
    Resolve,
    Connect,
    Handshake,
    Announce,
    Subscribe,
    RunMultiplexer,
    Wait,
}

/// Transition relation of the session lifecycle. Events that do not concern
/// the current phase change nothing. Resolution and connection failures
/// retry from `Resolving` at once (unbounded, transient by design);
/// handshake and subscription failures, and a fatal error out of the
/// multiplexer, restart the attempt after the fixed delay.
pub open spec fn spec_session_step(p: SessionPhase, e: SessionEvent) -> SessionPhase {
    match e {
        SessionEvent::ResolveOk => if p == SessionPhase::Resolving {
            SessionPhase::Connecting
        } else {
            p
        },
        SessionEvent::ResolveFailed => p,
        SessionEvent::ConnectOk => if p == SessionPhase::Connecting {
            SessionPhase::Handshaking
        } else {
            p
        },
        SessionEvent::ConnectFailed => if p == SessionPhase::Connecting {
            SessionPhase::Resolving
        } else {
            p
        },
        SessionEvent::HandshakeOk => if p == SessionPhase::Handshaking {
            SessionPhase::Announcing
        } else {
            p
        },
        SessionEvent::HandshakeFailed => if p == SessionPhase::Handshaking {
            SessionPhase::RestartWait
        } else {
            p
        },
        SessionEvent::AnnounceOk => if p == SessionPhase::Announcing {
            SessionPhase::Subscribing
        } else {
            p
        },
        SessionEvent::AnnounceFailed => if p == SessionPhase::Announcing {
            SessionPhase::Subscribing
        } else {
            p
        },
        SessionEvent::SubscribeOk => if p == SessionPhase::Subscribing {
            SessionPhase::Running
        } else {
            p
        },
        SessionEvent::SubscribeFailed => if p == SessionPhase::Subscribing {
            SessionPhase::RestartWait
        } else {
            p
        },
        SessionEvent::FatalSessionError => if p == SessionPhase::Running {
            SessionPhase::RestartWait
        } else {
            p
        },
        SessionEvent::DelayElapsed => if p == SessionPhase::RestartWait {
            SessionPhase::Resolving
        } else {
            p
        },
    }
}

/// The action prescribed for each phase.
pub open spec fn spec_session_action(p: SessionPhase) -> SessionAction {
    match p {
        SessionPhase::Resolving => SessionAction::Resolve,
        SessionPhase::Connecting => SessionAction::Connect,
        SessionPhase::Handshaking => SessionAction::Handshake,
        SessionPhase::Announcing => SessionAction::Announce,
        SessionPhase::Subscribing => SessionAction::Subscribe,
        SessionPhase::Running => SessionAction::RunMultiplexer,
        SessionPhase::RestartWait => SessionAction::Wait,
    }
}

/// The phase after a whole sequence of events, first event first.
pub open spec fn spec_session_run(p: SessionPhase, events: Seq<SessionEvent>) -> SessionPhase
    decreases events.len(),
{
    if events.len() == 0 {
        p
    } else {
        spec_session_run(spec_session_step(p, events[0]), events.drop_first())
    }
}

/// The actions prescribed after each event of a run: element `i` is what the
/// caller is told to do once event `i` has been applied.
pub open spec fn spec_session_trace(p: SessionPhase, events: Seq<SessionEvent>) -> Seq<
    SessionAction,
>
    decreases events.len(),
{
    if events.len() == 0 {
        Seq::empty()
    } else {
        seq![spec_session_action(spec_session_step(p, events[0]))] + spec_session_trace(
            spec_session_step(p, events[0]),
            events.drop_first(),
        )
    }
}

/// Session lifecycle state, stepped by the caller's event loop.
pub struct SessionManager {
    pub phase: SessionPhase,
}

impl SessionManager {
    /// A fresh manager: the first action is the name lookup.
    pub fn new() -> (m: Self)
        ensures
            m.phase == SessionPhase::Resolving,
    {
        SessionManager { phase: SessionPhase::Resolving }
    }

    /// The action the caller must perform next.
    pub fn next_action(&self) -> (a: SessionAction)
        ensures
            a == spec_session_action(self.phase),
    {
        match self.phase {
            SessionPhase::Resolving => SessionAction::Resolve,
            SessionPhase::Connecting => SessionAction::Connect,
            SessionPhase::Handshaking => SessionAction::Handshake,
            SessionPhase::Announcing => SessionAction::Announce,
            SessionPhase::Subscribing => SessionAction::Subscribe,
            SessionPhase::Running => SessionAction::RunMultiplexer,
            SessionPhase::RestartWait => SessionAction::Wait,
        }
    }

    /// Advance the lifecycle by one event.
    pub fn on_event(&mut self, e: SessionEvent)
        ensures
            final(self).phase == spec_session_step(old(self).phase, e),
    {
        let p = self.phase;
        let next = match e {
            SessionEvent::ResolveOk => if p == SessionPhase::Resolving {
                SessionPhase::Connecting
            } else {
                p
            },
            SessionEvent::ResolveFailed => p,
            SessionEvent::ConnectOk => if p == SessionPhase::Connecting {
                SessionPhase::Handshaking
            } else {
                p
            },
            SessionEvent::ConnectFailed => if p == SessionPhase::Connecting {
                SessionPhase::Resolving
            } else {
                p
            },
            SessionEvent::HandshakeOk => if p == SessionPhase::Handshaking {
                SessionPhase::Announcing
            } else {
                p
            },
            SessionEvent::HandshakeFailed => if p == SessionPhase::Handshaking {
                SessionPhase::RestartWait
            } else {
                p
            },
            SessionEvent::AnnounceOk => if p == SessionPhase::Announcing {
                SessionPhase::Subscribing
            } else {
                p
            },
            SessionEvent::AnnounceFailed => if p == SessionPhase::Announcing {
                SessionPhase::Subscribing
            } else {
                p
            },
            SessionEvent::SubscribeOk => if p == SessionPhase::Subscribing {
                SessionPhase::Running
            } else {
                p
            },
            SessionEvent::SubscribeFailed => if p == SessionPhase::Subscribing {
                SessionPhase::RestartWait
            } else {
                p
            },
            SessionEvent::FatalSessionError => if p == SessionPhase::Running {
                SessionPhase::RestartWait
            } else {
                p
            },
            SessionEvent::DelayElapsed => if p == SessionPhase::RestartWait {
                SessionPhase::Resolving
            } else {
                p
            },
        };
        self.phase = next;
    }
}

/// Peeling one event off a run: applying `e` first, then the rest.
pub proof fn lemma_session_run_cons(p: SessionPhase, e: SessionEvent, rest: Seq<SessionEvent>)
    ensures
        spec_session_run(p, seq![e] + rest) == spec_session_run(spec_session_step(p, e), rest),
        spec_session_trace(p, seq![e] + rest) =~= seq![
            spec_session_action(spec_session_step(p, e)),
        ] + spec_session_trace(spec_session_step(p, e), rest),
{
    let s = seq![e] + rest;
    assert(s[0] == e);
    assert(s.drop_first() =~= rest);
}

/// The event sequence of one successful session re-establishment, beginning
/// with the fatal error that forces it.
pub open spec fn spec_restart_events() -> Seq<SessionEvent> {
    seq![
        SessionEvent::FatalSessionError,
        SessionEvent::DelayElapsed,
        SessionEvent::ResolveOk,
        SessionEvent::ConnectOk,
        SessionEvent::HandshakeOk,
        SessionEvent::AnnounceOk,
        SessionEvent::SubscribeOk,
    ]
}

/// The actions a restart prescribes, in order: wait out the delay, then one
/// resolve, one connect, one handshake, one availability publish, one
/// subscribe, then resume the multiplexer.
pub open spec fn spec_restart_actions() -> Seq<SessionAction> {
    seq![
        SessionAction::Wait,
        SessionAction::Resolve,
        SessionAction::Connect,
        SessionAction::Handshake,
        SessionAction::Announce,
        SessionAction::Subscribe,
        SessionAction::RunMultiplexer,
    ]
}

/// Session restart idempotence: a fatal session error while the multiplexer
/// runs, followed by one successful pass of the re-establishment sequence,
/// prescribes exactly the restart actions — one connect, one handshake, one
/// availability publish and one subscribe, in order, nothing twice — and
/// ends with the multiplexer running again.
pub proof fn lemma_restart_reestablishes_once()
    ensures
        spec_session_run(SessionPhase::Running, spec_restart_events()) == SessionPhase::Running,
        spec_session_trace(SessionPhase::Running, spec_restart_events())
            =~= spec_restart_actions(),
{
    let e1 = SessionEvent::FatalSessionError;
    let e2 = SessionEvent::DelayElapsed;
    let e3 = SessionEvent::ResolveOk;
    let e4 = SessionEvent::ConnectOk;
    let e5 = SessionEvent::HandshakeOk;
    let e6 = SessionEvent::AnnounceOk;
    let e7 = SessionEvent::SubscribeOk;
    assert(spec_restart_events() =~= seq![e1] + seq![e2, e3, e4, e5, e6, e7]);
    lemma_session_run_cons(SessionPhase::Running, e1, seq![e2, e3, e4, e5, e6, e7]);
    assert(seq![e2, e3, e4, e5, e6, e7] =~= seq![e2] + seq![e3, e4, e5, e6, e7]);
    lemma_session_run_cons(SessionPhase::RestartWait, e2, seq![e3, e4, e5, e6, e7]);
    assert(seq![e3, e4, e5, e6, e7] =~= seq![e3] + seq![e4, e5, e6, e7]);
    lemma_session_run_cons(SessionPhase::Resolving, e3, seq![e4, e5, e6, e7]);
    assert(seq![e4, e5, e6, e7] =~= seq![e4] + seq![e5, e6, e7]);
    lemma_session_run_cons(SessionPhase::Connecting, e4, seq![e5, e6, e7]);
    assert(seq![e5, e6, e7] =~= seq![e5] + seq![e6, e7]);
    lemma_session_run_cons(SessionPhase::Handshaking, e5, seq![e6, e7]);
    assert(seq![e6, e7] =~= seq![e6] + seq![e7]);
    lemma_session_run_cons(SessionPhase::Announcing, e6, seq![e7]);
    assert(seq![e7] =~= seq![e7] + Seq::<SessionEvent>::empty());
    lemma_session_run_cons(SessionPhase::Subscribing, e7, Seq::empty());
}

/// Transient name-resolution failures have no session-level effect: however
/// many arrive in a row, the phase stays `Resolving` and the prescribed
/// action after each one is simply the next lookup.
pub proof fn lemma_resolve_failures_only_retry(events: Seq<SessionEvent>)
    requires
        forall|i: int| 0 <= i < events.len() ==> events[i] == SessionEvent::ResolveFailed,
    ensures
        spec_session_run(SessionPhase::Resolving, events) == SessionPhase::Resolving,
        spec_session_trace(SessionPhase::Resolving, events).len() == events.len(),
        forall|i: int|
            0 <= i < events.len() ==> spec_session_trace(SessionPhase::Resolving, events)[i]
                == SessionAction::Resolve,
    decreases events.len(),
{
    if events.len() > 0 {
        assert(events[0] == SessionEvent::ResolveFailed);
        assert(spec_session_step(SessionPhase::Resolving, events[0]) == SessionPhase::Resolving);
        assert(forall|i: int|
            0 <= i < events.drop_first().len() ==> events.drop_first()[i]
                == SessionEvent::ResolveFailed);
        lemma_resolve_failures_only_retry(events.drop_first());
    }
}

} // verus!
