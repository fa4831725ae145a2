use session_supervisor::command::{apply_command, command_of, level_for, ActuatorState, Command,
    PinLevel};
use session_supervisor::config::{parse_port, QualityOfService, SessionConfig};
use session_supervisor::debounce::Debouncer;
use session_supervisor::link::{LinkAction, LinkEvent, LinkState, LinkSupervisor};
use session_supervisor::mux::{dispatch, Flow, MuxEvent, PublishKind, RecvError};
use session_supervisor::session::{SessionAction, SessionEvent, SessionManager, SessionPhase};
use session_supervisor::telemetry::{departed_payload, echo_payload, present_payload,
    render_signal};

fn test_config() -> SessionConfig {
    SessionConfig {
        client_id: String::from("controller-1"),
        username: String::from("user"),
        password: String::from("secret"),
        keep_alive_secs: 12,
        max_packet_size: 100,
        qos: QualityOfService::AtLeastOnce,
        will_retain: false,
        tick_interval_ms: 4_000,
        debounce_window_ms: 100,
        retry_backoff_ms: 5_000,
        network_error_fatal: false,
    }
}

#[test]
fn command_one_activates() {
    let c = command_of(&b"1".to_vec());
    assert_eq!(c, Command::Activate);
    assert_eq!(apply_command(ActuatorState::Inactive, c), ActuatorState::Active);
    assert_eq!(apply_command(ActuatorState::Active, c), ActuatorState::Active);
}

#[test]
fn command_zero_deactivates() {
    let c = command_of(&b"0".to_vec());
    assert_eq!(c, Command::Deactivate);
    assert_eq!(apply_command(ActuatorState::Active, c), ActuatorState::Inactive);
}

#[test]
fn command_other_first_byte_is_invalid() {
    for payload in [b"x".to_vec(), b"2".to_vec(), b"abc".to_vec(), b" 1".to_vec()] {
        let c = command_of(&payload);
        assert_eq!(c, Command::Invalid);
        assert_eq!(apply_command(ActuatorState::Active, c), ActuatorState::Active);
        assert_eq!(apply_command(ActuatorState::Inactive, c), ActuatorState::Inactive);
    }
}

#[test]
fn command_empty_payload_is_invalid() {
    let c = command_of(&Vec::new());
    assert_eq!(c, Command::Invalid);
    assert_eq!(apply_command(ActuatorState::Active, c), ActuatorState::Active);
}

#[test]
fn command_only_first_byte_counts() {
    assert_eq!(command_of(&b"1garbage".to_vec()), Command::Activate);
    assert_eq!(command_of(&b"0garbage".to_vec()), Command::Deactivate);
}

#[test]
fn actuator_level_is_active_low() {
    assert_eq!(level_for(ActuatorState::Active), PinLevel::Low);
    assert_eq!(level_for(ActuatorState::Inactive), PinLevel::High);
}

#[test]
fn link_association_lifecycle() {
    let mut link = LinkSupervisor::new();
    assert_eq!(link.state, LinkState::Disconnected);
    assert_eq!(link.next_action(), LinkAction::StartAttempt);
    link.on_event(LinkEvent::AttemptStarted);
    assert_eq!(link.state, LinkState::Associating);
    assert_eq!(link.next_action(), LinkAction::AwaitOutcome);
    link.on_event(LinkEvent::AttemptSucceeded);
    assert_eq!(link.state, LinkState::Associated);
    assert_eq!(link.next_action(), LinkAction::SampleAndWait);
    link.on_event(LinkEvent::Disassociated);
    assert_eq!(link.state, LinkState::Disconnected);
}

#[test]
fn link_failure_backs_off_and_retries() {
    let mut link = LinkSupervisor::new();
    link.on_event(LinkEvent::AttemptStarted);
    link.on_event(LinkEvent::AttemptFailed);
    assert_eq!(link.state, LinkState::Disconnected);
    assert_eq!(link.next_action(), LinkAction::StartAttempt);
}

#[test]
fn link_no_second_attempt_while_in_flight() {
    let mut link = LinkSupervisor::new();
    link.on_event(LinkEvent::AttemptStarted);
    link.on_event(LinkEvent::AttemptStarted);
    assert_eq!(link.state, LinkState::Associating);
    assert_ne!(link.next_action(), LinkAction::StartAttempt);
}

#[test]
fn link_signal_sampled_only_while_associated() {
    let mut link = LinkSupervisor::new();
    link.record_signal(-55);
    assert_eq!(link.signal, 0);
    link.on_event(LinkEvent::AttemptStarted);
    link.on_event(LinkEvent::AttemptSucceeded);
    link.record_signal(-55);
    assert_eq!(link.signal, -55);
    link.on_event(LinkEvent::PollElapsed);
    assert_eq!(link.state, LinkState::Associated);
    link.record_signal(-60);
    assert_eq!(link.signal, -60);
}

#[test]
fn debounce_single_edge_activates() {
    let mut d = Debouncer::new(100);
    assert!(d.on_edge(1_000));
    assert_eq!(d.busy_until, 1_100);
}

#[test]
fn debounce_burst_yields_one_activation() {
    let mut d = Debouncer::new(100);
    let edges = vec![1_000u64, 1_001, 1_050, 1_099];
    let n = d.count_activations(&edges);
    assert_eq!(n, 1);
}

#[test]
fn debounce_edge_at_window_end_activates_again() {
    let mut d = Debouncer::new(100);
    assert!(d.on_edge(1_000));
    assert!(!d.on_edge(1_099));
    assert!(d.on_edge(1_100));
}

#[test]
fn debounce_counts_separate_presses() {
    let mut d = Debouncer::new(100);
    let edges = vec![0u64, 10, 20, 500, 510, 1_000];
    assert_eq!(d.count_activations(&edges), 3);
}

#[test]
fn session_establishment_order() {
    let mut m = SessionManager::new();
    assert_eq!(m.phase, SessionPhase::Resolving);
    assert_eq!(m.next_action(), SessionAction::Resolve);
    m.on_event(SessionEvent::ResolveOk);
    assert_eq!(m.next_action(), SessionAction::Connect);
    m.on_event(SessionEvent::ConnectOk);
    assert_eq!(m.next_action(), SessionAction::Handshake);
    m.on_event(SessionEvent::HandshakeOk);
    assert_eq!(m.next_action(), SessionAction::Announce);
    m.on_event(SessionEvent::AnnounceOk);
    assert_eq!(m.next_action(), SessionAction::Subscribe);
    m.on_event(SessionEvent::SubscribeOk);
    assert_eq!(m.phase, SessionPhase::Running);
    assert_eq!(m.next_action(), SessionAction::RunMultiplexer);
}

#[test]
fn session_connect_failure_retries_from_lookup() {
    let mut m = SessionManager::new();
    m.on_event(SessionEvent::ResolveOk);
    m.on_event(SessionEvent::ConnectFailed);
    assert_eq!(m.phase, SessionPhase::Resolving);
}

#[test]
fn session_handshake_failure_aborts_attempt() {
    let mut m = SessionManager::new();
    m.on_event(SessionEvent::ResolveOk);
    m.on_event(SessionEvent::ConnectOk);
    m.on_event(SessionEvent::HandshakeFailed);
    assert_eq!(m.phase, SessionPhase::RestartWait);
    m.on_event(SessionEvent::DelayElapsed);
    assert_eq!(m.phase, SessionPhase::Resolving);
}

#[test]
fn session_announce_is_best_effort() {
    let mut m = SessionManager::new();
    m.on_event(SessionEvent::ResolveOk);
    m.on_event(SessionEvent::ConnectOk);
    m.on_event(SessionEvent::HandshakeOk);
    m.on_event(SessionEvent::AnnounceFailed);
    assert_eq!(m.phase, SessionPhase::Subscribing);
}

#[test]
fn session_subscribe_failure_restarts_after_delay() {
    let mut m = SessionManager::new();
    m.on_event(SessionEvent::ResolveOk);
    m.on_event(SessionEvent::ConnectOk);
    m.on_event(SessionEvent::HandshakeOk);
    m.on_event(SessionEvent::AnnounceOk);
    m.on_event(SessionEvent::SubscribeFailed);
    assert_eq!(m.phase, SessionPhase::RestartWait);
    m.on_event(SessionEvent::DelayElapsed);
    assert_eq!(m.phase, SessionPhase::Resolving);
}

#[test]
fn dispatch_valid_command_moves_actuator_only() {
    let d = dispatch(false, ActuatorState::Inactive, -50, MuxEvent::Inbound(Ok(b"1".to_vec())));
    assert_eq!(d.actuator, ActuatorState::Active);
    assert!(d.publishes.is_empty());
    assert_eq!(d.flow, Flow::Continue);
    assert!(!d.invalid_inbound);
}

#[test]
fn dispatch_invalid_command_is_observable() {
    let d = dispatch(false, ActuatorState::Active, -50, MuxEvent::Inbound(Ok(b"7".to_vec())));
    assert_eq!(d.actuator, ActuatorState::Active);
    assert!(d.publishes.is_empty());
    assert!(d.invalid_inbound);
}

#[test]
fn dispatch_network_error_lenient_policy_continues() {
    let d = dispatch(false, ActuatorState::Active, -50, MuxEvent::Inbound(Err(RecvError::Network)));
    assert_eq!(d.flow, Flow::Continue);
    assert_eq!(d.actuator, ActuatorState::Active);
    assert!(d.publishes.is_empty());
}

#[test]
fn dispatch_network_error_fatal_policy_restarts() {
    let d = dispatch(true, ActuatorState::Active, -50, MuxEvent::Inbound(Err(RecvError::Network)));
    assert_eq!(d.flow, Flow::RestartSession);
    assert_eq!(d.actuator, ActuatorState::Active);
}

#[test]
fn dispatch_protocol_error_discards_message() {
    let d = dispatch(true, ActuatorState::Active, -50, MuxEvent::Inbound(Err(RecvError::Protocol)));
    assert_eq!(d.flow, Flow::Continue);
    assert_eq!(d.actuator, ActuatorState::Active);
    assert!(d.publishes.is_empty());
    assert!(!d.invalid_inbound);
}

#[test]
fn dispatch_edge_publishes_echo() {
    let d = dispatch(false, ActuatorState::Inactive, -50, MuxEvent::EdgeActivation);
    assert_eq!(d.publishes, vec![PublishKind::Echo]);
    assert_eq!(d.actuator, ActuatorState::Inactive);
    assert_eq!(d.flow, Flow::Continue);
}

#[test]
fn dispatch_tick_publishes_telemetry() {
    let d = dispatch(false, ActuatorState::Inactive, -42, MuxEvent::Tick);
    assert_eq!(d.publishes, vec![PublishKind::SignalStrength(-42), PublishKind::SensorReading]);
    assert_eq!(d.actuator, ActuatorState::Inactive);
    assert_eq!(d.flow, Flow::Continue);
}

#[test]
fn config_well_formed() {
    let c = test_config();
    assert!(c.is_well_formed());
    assert_eq!(c.keep_alive_ms(), 12_000);
}

#[test]
fn config_tick_must_beat_keep_alive() {
    let mut c = test_config();
    c.tick_interval_ms = 12_000;
    assert!(!c.is_well_formed());
    c.tick_interval_ms = 11_999;
    assert!(c.is_well_formed());
}

#[test]
fn config_requires_at_least_once() {
    let mut c = test_config();
    c.qos = QualityOfService::AtMostOnce;
    assert!(!c.is_well_formed());
}

#[test]
fn port_parses_default() {
    assert_eq!(parse_port(&b"1883".to_vec()), Some(1883));
    assert_eq!(parse_port(&b"0".to_vec()), Some(0));
    assert_eq!(parse_port(&b"65535".to_vec()), Some(65535));
    assert_eq!(parse_port(&b"0001883".to_vec()), Some(1883));
}

#[test]
fn port_rejects_malformed_text() {
    assert_eq!(parse_port(&Vec::new()), None);
    assert_eq!(parse_port(&b"65536".to_vec()), None);
    assert_eq!(parse_port(&b"99999999999999999999".to_vec()), None);
    assert_eq!(parse_port(&b"18a3".to_vec()), None);
    assert_eq!(parse_port(&b"-1".to_vec()), None);
    assert_eq!(parse_port(&b" 1883".to_vec()), None);
}

#[test]
fn signal_renders_as_decimal_text() {
    assert_eq!(render_signal(0), b"0".to_vec());
    assert_eq!(render_signal(7), b"7".to_vec());
    assert_eq!(render_signal(-73), b"-73".to_vec());
    assert_eq!(render_signal(2147483647), b"2147483647".to_vec());
    assert_eq!(render_signal(-2147483648), b"-2147483648".to_vec());
}

#[test]
fn rendered_decimal_parses_back() {
    assert_eq!(parse_port(&render_signal(1883)), Some(1883));
    assert_eq!(parse_port(&render_signal(0)), Some(0));
    assert_eq!(parse_port(&render_signal(65535)), Some(65535));
}

#[test]
fn fixed_payloads() {
    assert_eq!(echo_payload(), b"42".to_vec());
    assert_eq!(present_payload(), b"birth".to_vec());
    assert_eq!(departed_payload(), b"death".to_vec());
}
