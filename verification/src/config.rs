//! Session configuration: the immutable-after-construction record of
//! identity, credentials, timing and policy, and the validation of the
//! build-time constants it is made from.
//!
//! A misconfigured device must not silently run with wrong parameters, so an
//! unparseable constant (the broker port) or an ill-formed timing relation is
//! the one fatal-at-startup condition. Well-formedness ties the periodic tick
//! to the protocol keep-alive: the tick interval is strictly below the
//! keep-alive timeout, so an idle session is always refreshed in time.

use vstd::prelude::*;

verus! {

/// Delivery guarantee for application messages; this layer fixes it at
/// at-least-once for every publish.
#[derive(Clone, Copy, PartialEq, Eq, Structural, Debug)]
pub enum QualityOfService {
    AtMostOnce,
    AtLeastOnce,
    ExactlyOnce,
}

/// Immutable session parameters. Topics are opaque strings owned by the
/// caller; this record carries the identity, credentials, timing and the
/// policy knobs the supervisor's decisions depend on.
pub struct SessionConfig {
    pub client_id: String,
    pub username: String,
    pub password: String,
    /// Protocol keep-alive interval, seconds.
    pub keep_alive_secs: u16,
    /// Largest in-flight packet, bytes.
    pub max_packet_size: u32,
    /// Quality of service for all application messages.
    pub qos: QualityOfService,
    /// Whether the broker retains the departed (last-will) message.
    pub will_retain: bool,
    /// Periodic tick interval of the multiplexer, milliseconds.
    pub tick_interval_ms: u64,
    /// Debounce window of the physical input, milliseconds.
    pub debounce_window_ms: u64,
    /// Fixed delay before a session restart and after a failed association
    /// attempt, milliseconds.
    pub retry_backoff_ms: u64,
    /// Whether a network-class receive error is fatal to the session.
    pub network_error_fatal: bool,
}

/// The keep-alive timeout in milliseconds.
pub open spec fn spec_keep_alive_ms(c: SessionConfig) -> int {
    c.keep_alive_secs * 1000
}

/// A configuration the supervisor may run with: positive timings, a tick
/// that beats the keep-alive timeout, at-least-once delivery.
pub open spec fn spec_config_wf(c: SessionConfig) -> bool {
    &&& c.keep_alive_secs > 0
    &&& c.max_packet_size > 0
    &&& c.tick_interval_ms > 0
    &&& c.tick_interval_ms < spec_keep_alive_ms(c)
    &&& c.debounce_window_ms > 0
    &&& c.retry_backoff_ms > 0
    &&& c.qos == QualityOfService::AtLeastOnce
}

impl SessionConfig {
    /// Whether this configuration is fit to run. A `false` here is the
    /// configuration-fatal startup condition.
    pub fn is_well_formed(&self) -> (b: bool)
        ensures
            b == spec_config_wf(*self),
    {
        self.keep_alive_secs > 0 && self.max_packet_size > 0 && self.tick_interval_ms > 0
            && self.tick_interval_ms < (self.keep_alive_secs as u64) * 1000
            && self.debounce_window_ms > 0 && self.retry_backoff_ms > 0 && matches!(
            self.qos,
            QualityOfService::AtLeastOnce,
        )
    }

    /// The keep-alive timeout in milliseconds.
    pub fn keep_alive_ms(&self) -> (ms: u64)
        ensures
            ms as int == spec_keep_alive_ms(*self),
    {
        (self.keep_alive_secs as u64) * 1000
    }
}

/// Whether every byte is an ASCII decimal digit.
pub open spec fn spec_all_digits(s: Seq<u8>) -> bool {
    forall|i: int| 0 <= i < s.len() ==> 48 <= #[trigger] s[i] <= 57
}

/// The number denoted by a string of decimal digits, most significant first.
pub open spec fn spec_decimal_value(s: Seq<u8>) -> int
    decreases s.len(),
{
    if s.len() == 0 {
        0
    } else {
        spec_decimal_value(s.drop_last()) * 10 + (s.last() - 48)
    }
}

/// A digit string denotes a non-negative number.
pub proof fn lemma_decimal_value_nonneg(s: Seq<u8>)
    requires
        spec_all_digits(s),
    ensures
        spec_decimal_value(s) >= 0,
    decreases s.len(),
{
    if s.len() > 0 {
        assert(spec_all_digits(s.drop_last()));
        lemma_decimal_value_nonneg(s.drop_last());
    }
}

/// Extending a digit string never shrinks its value: the value of the whole
/// is at least the value of any prefix.
pub proof fn lemma_decimal_prefix_le(s: Seq<u8>, k: int)
    requires
        spec_all_digits(s),
        0 <= k <= s.len(),
    ensures
        spec_decimal_value(s.take(k)) <= spec_decimal_value(s),
    decreases s.len() - k,
{
    if k == s.len() {
        assert(s.take(k) =~= s);
    } else {
        assert(s.take(k + 1).drop_last() =~= s.take(k));
        assert(spec_all_digits(s.take(k)));
        lemma_decimal_value_nonneg(s.take(k));
        assert(spec_decimal_value(s.take(k + 1)) == spec_decimal_value(s.take(k)) * 10 + (s[k]
            - 48));
        lemma_decimal_prefix_le(s, k + 1);
    }
}

/// Parse a broker port from decimal text. Returns the port exactly when the
/// text is non-empty, all digits, and denotes a value that fits a `u16`;
/// every other input is the configuration-fatal case and yields `None`.
pub fn parse_port(s: &Vec<u8>) -> (r: Option<u16>)
    ensures
        match r {
            Some(p) => spec_all_digits(s@) && s@.len() > 0 && p as int == spec_decimal_value(s@),
            None => !(spec_all_digits(s@) && s@.len() > 0 && spec_decimal_value(s@) <= u16::MAX),
        },
{
    if s.len() == 0 {
        return None;
    }
    let mut acc: u32 = 0;
    let mut i: usize = 0;
    proof {
        assert(s@.take(0) =~= Seq::<u8>::empty());
    }
    while i < s.len()
        invariant
            i <= s@.len(),
            forall|j: int| 0 <= j < i ==> 48 <= #[trigger] s@[j] <= 57,
            acc as int == spec_decimal_value(s@.take(i as int)),
            acc <= 65535,
        decreases s@.len() - i,
    {
        let b = s[i];
        if b < 48 || b > 57 {
            return None;
        }
        let next = acc * 10 + ((b - 48) as u32);
        proof {
            assert(s@.take(i as int + 1).drop_last() =~= s@.take(i as int));
            assert(s@.take(i as int + 1).last() == s@[i as int]);
        }
        if next > 65535 {
            proof {
                if spec_all_digits(s@) {
                    lemma_decimal_prefix_le(s@, i as int + 1);
                }
            }
            return None;
        }
        acc = next;
        i = i + 1;
    }
    proof {
        assert(s@.take(s@.len() as int) =~= s@);
    }
    Some(acc as u16)
}

/// The time of the `i`-th periodic tick in a run with no other events,
/// milliseconds from session start.
pub open spec fn spec_tick_time(c: SessionConfig, i: nat) -> int {
    i * c.tick_interval_ms
}

/// Periodic tick cadence: in a run with no other events consecutive
/// keep-alive/telemetry actions are exactly one tick interval apart, and
/// every such gap — including the wait for the first tick — is strictly
/// shorter than the keep-alive timeout, so the session never times out for a
/// missed keep-alive.
pub proof fn lemma_tick_cadence(c: SessionConfig, i: nat)
    requires
        spec_config_wf(c),
    ensures
        spec_tick_time(c, i + 1) - spec_tick_time(c, i) == c.tick_interval_ms,
        spec_tick_time(c, i + 1) - spec_tick_time(c, i) < spec_keep_alive_ms(c),
        spec_tick_time(c, 1) - spec_tick_time(c, 0) < spec_keep_alive_ms(c),
{
    assert((i + 1) * c.tick_interval_ms == i * c.tick_interval_ms + c.tick_interval_ms)
        by (nonlinear_arith);
    assert(1 * c.tick_interval_ms == c.tick_interval_ms) by (nonlinear_arith);
    assert(0 * c.tick_interval_ms == 0) by (nonlinear_arith);
}

} // verus!
