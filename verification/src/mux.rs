//! Event multiplexer dispatch: one iteration of the steady-state loop.
//!
//! The caller concurrently awaits three sources — an inbound message on the
//! control topic, the debounced input edge, and the periodic tick — and hands
//! whichever completed first to [`dispatch`], which decides the new actuator
//! state, the publishes to emit, and whether the session must restart. An
//! inbound network-class error is informational or fatal according to a
//! policy flag, since a "no broker reachable" condition may legitimately be
//! ignored or escalated; every other inbound error only discards that
//! message. No branch's publish failure terminates the loop: the only exit
//! is the fatal-session case.

use vstd::prelude::*;

use crate::command::{spec_apply_command, spec_command_of, apply_command, command_of,
    ActuatorState, Command};

verus! {

/// Class of an inbound receive error: the network class (broker unreachable,
/// connection torn) against everything else the protocol can report.
#[derive(Clone, Copy, PartialEq, Eq, Structural, Debug)]
pub enum RecvError {
    Network,
    Protocol,
}

/// The event source that completed first in one loop iteration.
pub enum MuxEvent {
    /// An inbound message's payload, or the error that receiving it raised.
    Inbound(Result<Vec<u8>, RecvError>),
    /// The physical input produced a debounced, genuine activation.
    EdgeActivation,
    /// The periodic tick elapsed.
    Tick,
}

/// A publish the caller must emit, named by kind; the caller maps each kind
/// to its configured topic and payload bytes.
#[derive(Clone, Copy, PartialEq, Eq, Structural, Debug)]
pub enum PublishKind {
    /// The fixed literal echo payload, to the echo topic.
    Echo,
    /// The given signal-strength sample as decimal text, to its topic.
    SignalStrength(i32),
    /// The derived sensor reading, to its topic; the caller supplies the
    /// reading, which this layer never inspects.
    SensorReading,
}

/// Whether the loop continues or unwinds to the session manager.
#[derive(Clone, Copy, PartialEq, Eq, Structural, Debug)]
pub enum Flow {
    Continue,
    RestartSession,
}

/// Everything one dispatch decides.
pub struct Dispatch {
    pub actuator: ActuatorState,
    pub publishes: Vec<PublishKind>,
    pub flow: Flow,
    /// True exactly when an inbound message carried an invalid command; the
    /// observable invalid-message event.
    pub invalid_inbound: bool,
}

/// The actuator state a dispatch leaves: only a valid inbound command moves
/// it, never an edge, a tick or an error.
pub open spec fn spec_dispatch_actuator(s: ActuatorState, e: MuxEvent) -> ActuatorState {
    match e {
        MuxEvent::Inbound(r) => match r {
            Ok(payload) => spec_apply_command(s, spec_command_of(payload@)),
            Err(_) => s,
        },
        MuxEvent::EdgeActivation => s,
        MuxEvent::Tick => s,
    }
}

/// The publishes a dispatch emits: receipt of an inbound message emits none;
/// an edge activation emits exactly the echo; a tick emits the
/// signal-strength sample and the sensor reading.
pub open spec fn spec_dispatch_publishes(e: MuxEvent, rssi: i32) -> Seq<PublishKind> {
    match e {
        MuxEvent::Inbound(_) => Seq::empty(),
        MuxEvent::EdgeActivation => seq![PublishKind::Echo],
        MuxEvent::Tick => seq![PublishKind::SignalStrength(rssi), PublishKind::SensorReading],
    }
}

/// Whether a dispatch exits the loop: only an inbound network-class error,
/// and only under the policy that treats it as fatal.
pub open spec fn spec_dispatch_flow(fatal_network: bool, e: MuxEvent) -> Flow {
    match e {
        MuxEvent::Inbound(r) => match r {
            Ok(_) => Flow::Continue,
            Err(err) => if err == RecvError::Network && fatal_network {
                Flow::RestartSession
            } else {
                Flow::Continue
            },
        },
        MuxEvent::EdgeActivation => Flow::Continue,
        MuxEvent::Tick => Flow::Continue,
    }
}

/// Whether a dispatch observes an invalid inbound message.
pub open spec fn spec_dispatch_invalid(e: MuxEvent) -> bool {
    match e {
        MuxEvent::Inbound(r) => match r {
            Ok(payload) => spec_command_of(payload@) == Command::Invalid,
            Err(_) => false,
        },
        MuxEvent::EdgeActivation => false,
        MuxEvent::Tick => false,
    }
}

/// Decide one multiplexer iteration: the completed event, the current
/// actuator state, the current signal-strength sample, and the policy for
/// network-class receive errors go in; the new actuator state, the publishes
/// owed, the flow decision and the invalid-message observation come out.
pub fn dispatch(fatal_network: bool, s: ActuatorState, rssi: i32, e: MuxEvent) -> (d: Dispatch)
    ensures
        d.actuator == spec_dispatch_actuator(s, e),
        d.publishes@ == spec_dispatch_publishes(e, rssi),
        d.flow == spec_dispatch_flow(fatal_network, e),
        d.invalid_inbound == spec_dispatch_invalid(e),
{
    match e {
        MuxEvent::Inbound(r) => match r {
            Ok(payload) => {
                let c = command_of(&payload);
                let next = apply_command(s, c);
                let publishes: Vec<PublishKind> = Vec::new();
                proof {
                    assert(publishes@ =~= Seq::<PublishKind>::empty());
                }
                Dispatch {
                    actuator: next,
                    publishes,
                    flow: Flow::Continue,
                    invalid_inbound: matches!(c, Command::Invalid),
                }
            },
            Err(err) => {
                let fatal = matches!(err, RecvError::Network) && fatal_network;
                let publishes: Vec<PublishKind> = Vec::new();
                proof {
                    assert(publishes@ =~= Seq::<PublishKind>::empty());
                }
                Dispatch {
                    actuator: s,
                    publishes,
                    flow: if fatal {
                        Flow::RestartSession
                    } else {
                        Flow::Continue
                    },
                    invalid_inbound: false,
                }
            },
        },
        MuxEvent::EdgeActivation => {
            let mut publishes: Vec<PublishKind> = Vec::new();
            publishes.push(PublishKind::Echo);
            proof {
                assert(publishes@ =~= seq![PublishKind::Echo]);
            }
            Dispatch { actuator: s, publishes, flow: Flow::Continue, invalid_inbound: false }
        },
        MuxEvent::Tick => {
            let mut publishes: Vec<PublishKind> = Vec::new();
            publishes.push(PublishKind::SignalStrength(rssi));
            publishes.push(PublishKind::SensorReading);
            proof {
                assert(publishes@ =~= seq![
                    PublishKind::SignalStrength(rssi),
                    PublishKind::SensorReading,
                ]);
            }
            Dispatch { actuator: s, publishes, flow: Flow::Continue, invalid_inbound: false }
        },
    }
}

/// Receipt of an inbound message is never answered with a publish, and
/// nothing but a valid inbound command moves the actuator.
pub proof fn lemma_dispatch_separation(s: ActuatorState, rssi: i32, e: MuxEvent)
    ensures
        e matches MuxEvent::Inbound(_) ==> spec_dispatch_publishes(e, rssi).len() == 0,
        !(e matches MuxEvent::Inbound(_)) ==> spec_dispatch_actuator(s, e) == s,
{
}

/// The only dispatch that restarts the session is an inbound network-class
/// error under the fatal policy; under the lenient policy nothing restarts.
pub proof fn lemma_restart_only_on_fatal_network(fatal_network: bool, e: MuxEvent)
    ensures
        spec_dispatch_flow(fatal_network, e) == Flow::RestartSession <==> (fatal_network
            && e matches MuxEvent::Inbound(Err(RecvError::Network))),
{
}

} // verus!
