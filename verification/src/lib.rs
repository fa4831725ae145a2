//! Connectivity-and-session supervisor for a small network-attached control
//! device.
//!
//! The crate holds the decision logic only: which state the wireless link
//! supervisor moves to on each event, when a session is (re)established, how
//! the event multiplexer dispatches inbound messages, input edges and periodic
//! ticks, and how a raw edge is debounced into a single activation. All I/O
//! (radio driver, TCP, the messaging protocol, timers, pins) lives outside;
//! callers run the loops, perform the actions this crate prescribes, and hand
//! the outcomes back as plain events.

pub mod command;
pub mod config;
pub mod debounce;
pub mod link;
pub mod mux;
pub mod session;
pub mod supervisor;
pub mod telemetry;
