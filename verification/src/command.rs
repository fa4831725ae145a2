//! Interpretation of inbound control payloads as actuator commands.
//!
//! The inbound payload contract is a single-byte command alphabet: a first
//! byte of `'1'` activates the actuator, `'0'` deactivates it, and anything
//! else (including an empty payload) is an invalid message that leaves the
//! actuator unchanged. Bytes past the first are never inspected.

use vstd::prelude::*;

verus! {

/// Logical state of the device's single binary actuator.
#[derive(Clone, Copy, PartialEq, Eq, Structural, Debug)]
pub enum ActuatorState {
    Active,
    Inactive,
}

/// Physical level of the indicator line driving the actuator. The indicator
/// is active-low, so `Active` maps to `Low`.
#[derive(Clone, Copy, PartialEq, Eq, Structural, Debug)]
pub enum PinLevel {
    Low,
    High,
}

/// Command carried by an inbound payload.
#[derive(Clone, Copy, PartialEq, Eq, Structural, Debug)]
pub enum Command {
    Activate,
    Deactivate,
    Invalid,
}

/// The command denoted by a payload: decided by its first byte alone.
pub open spec fn spec_command_of(payload: Seq<u8>) -> Command {
    if payload.len() > 0 && payload[0] == 49u8 {
        Command::Activate
    } else if payload.len() > 0 && payload[0] == 48u8 {
        Command::Deactivate
    } else {
        Command::Invalid
    }
}

/// Interpret an inbound payload's first byte as a command.
pub fn command_of(payload: &Vec<u8>) -> (c: Command)
    ensures
        c == spec_command_of(payload@),
{
    if payload.len() == 0 {
        Command::Invalid
    } else {
        let b = payload[0];
        if b == 49u8 {
            Command::Activate
        } else if b == 48u8 {
            Command::Deactivate
        } else {
            Command::Invalid
        }
    }
}

/// The actuator state after a command: `Invalid` changes nothing.
pub open spec fn spec_apply_command(s: ActuatorState, c: Command) -> ActuatorState {
    match c {
        Command::Activate => ActuatorState::Active,
        Command::Deactivate => ActuatorState::Inactive,
        Command::Invalid => s,
    }
}

/// Apply a command to the actuator state.
pub fn apply_command(s: ActuatorState, c: Command) -> (t: ActuatorState)
    ensures
        t == spec_apply_command(s, c),
{
    match c {
        Command::Activate => ActuatorState::Active,
        Command::Deactivate => ActuatorState::Inactive,
        Command::Invalid => s,
    }
}

/// The physical level that realises an actuator state on the active-low line.
pub open spec fn spec_level_for(s: ActuatorState) -> PinLevel {
    match s {
        ActuatorState::Active => PinLevel::Low,
        ActuatorState::Inactive => PinLevel::High,
    }
}

/// Map an actuator state onto the active-low indicator line.
pub fn level_for(s: ActuatorState) -> (l: PinLevel)
    ensures
        l == spec_level_for(s),
{
    match s {
        ActuatorState::Active => PinLevel::Low,
        ActuatorState::Inactive => PinLevel::High,
    }
}

/// For every payload, the actuator outcome is determined by the first byte:
/// `'1'` yields `Active`, `'0'` yields `Inactive`, and any other first byte
/// (or an empty payload) leaves the state unchanged while the invalid command
/// itself remains observable.
pub proof fn lemma_command_deterministic(s: ActuatorState, payload: Seq<u8>)
    ensures
        payload.len() > 0 && payload[0] == 49u8 ==> spec_apply_command(
            s,
            spec_command_of(payload),
        ) == ActuatorState::Active,
        payload.len() > 0 && payload[0] == 48u8 ==> spec_apply_command(
            s,
            spec_command_of(payload),
        ) == ActuatorState::Inactive,
        payload.len() == 0 || (payload[0] != 49u8 && payload[0] != 48u8) ==> {
            &&& spec_apply_command(s, spec_command_of(payload)) == s
            &&& spec_command_of(payload) == Command::Invalid
        },
{
}

} // verus!
