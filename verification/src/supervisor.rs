//! The foreground supervisor: configuration, session lifecycle, actuator and
//! debouncer in one place, stepped by the caller's event loop.
//!
//! The caller owns the I/O. It asks for the next session action, performs
//! it, and reports the outcome; while the session runs it hands each
//! completed multiplexer event to [`Supervisor::handle_mux_event`], which
//! applies the dispatch decision and, on a fatal flow, unwinds the session
//! to its restart delay — the explicit boundary between the multiplexer loop
//! and the session manager's retry loop.

use vstd::prelude::*;

use crate::command::ActuatorState;
use crate::config::{spec_config_wf, SessionConfig};
use crate::debounce::{spec_accepts, spec_after_edge, Debouncer};
use crate::mux::{dispatch, spec_dispatch_actuator, spec_dispatch_flow, spec_dispatch_invalid,
    spec_dispatch_publishes, Dispatch, Flow, MuxEvent};
use crate::session::{spec_session_action, spec_session_step, SessionAction, SessionEvent,
    SessionManager, SessionPhase};

verus! {

/// Everything the foreground activity owns. Nothing here is touched
/// concurrently; the background link supervisor shares only the
/// signal-strength sample, which the caller reads and passes in by value.
pub struct Supervisor {
    pub config: SessionConfig,
    pub session: SessionManager,
    pub actuator: ActuatorState,
    pub debouncer: Debouncer,
}

impl Supervisor {
    /// A fresh supervisor for a well-formed configuration: session at the
    /// name lookup, actuator inactive, no debounce window open.
    pub fn new(config: SessionConfig) -> (s: Self)
        requires
            spec_config_wf(config),
        ensures
            s.config == config,
            s.session.phase == SessionPhase::Resolving,
            s.actuator == ActuatorState::Inactive,
            s.debouncer.window == config.debounce_window_ms,
            s.debouncer.busy_until == 0,
    {
        let window = config.debounce_window_ms;
        Supervisor {
            config,
            session: SessionManager::new(),
            actuator: ActuatorState::Inactive,
            debouncer: Debouncer::new(window),
        }
    }

    /// What the session layer must do next.
    pub fn next_session_action(&self) -> (a: SessionAction)
        ensures
            a == spec_session_action(self.session.phase),
    {
        self.session.next_action()
    }

    /// Report the outcome of the prescribed session work. Only the session
    /// phase moves.
    pub fn on_session_event(&mut self, e: SessionEvent)
        ensures
            final(self).session.phase == spec_session_step(old(self).session.phase, e),
            final(self).config == old(self).config,
            final(self).actuator == old(self).actuator,
            final(self).debouncer == old(self).debouncer,
    {
        self.session.on_event(e);
    }

    /// Feed a raw falling edge observed at time `t`. Returns whether it is a
    /// genuine activation; only the debouncer moves.
    pub fn on_raw_edge(&mut self, t: u64) -> (activated: bool)
        requires
            t + old(self).debouncer.window <= u64::MAX,
        ensures
            activated == spec_accepts(old(self).debouncer, t),
            final(self).debouncer == spec_after_edge(old(self).debouncer, t),
            final(self).config == old(self).config,
            final(self).actuator == old(self).actuator,
            final(self).session.phase == old(self).session.phase,
    {
        self.debouncer.on_edge(t)
    }

    /// One multiplexer iteration while the session runs: decide the dispatch
    /// for the completed event, apply the actuator change, and on a fatal
    /// flow unwind the session to its restart delay. The returned dispatch
    /// tells the caller what to publish and whether the loop exits.
    pub fn handle_mux_event(&mut self, rssi: i32, e: MuxEvent) -> (d: Dispatch)
        requires
            old(self).session.phase == SessionPhase::Running,
        ensures
            d.actuator == spec_dispatch_actuator(old(self).actuator, e),
            d.publishes@ == spec_dispatch_publishes(e, rssi),
            d.flow == spec_dispatch_flow(old(self).config.network_error_fatal, e),
            d.invalid_inbound == spec_dispatch_invalid(e),
            final(self).actuator == d.actuator,
            final(self).session.phase == (if d.flow == Flow::RestartSession {
                SessionPhase::RestartWait
            } else {
                SessionPhase::Running
            }),
            final(self).config == old(self).config,
            final(self).debouncer == old(self).debouncer,
    {
        let d = dispatch(self.config.network_error_fatal, self.actuator, rssi, e);
        self.actuator = d.actuator;
        if matches!(d.flow, Flow::RestartSession) {
            self.session.on_event(SessionEvent::FatalSessionError);
        }
        d
    }
}

} // verus!
