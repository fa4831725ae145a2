//! Outbound payload contents: fixed literal byte strings and decimal text
//! for numeric telemetry.
//!
//! The echo, available and departed messages are fixed literals; the
//! signal-strength sample is rendered as decimal text. Rendering is pinned
//! down to the digit: the digits of a number parse back to that number, so
//! what goes on the wire denotes exactly the sampled value.

use vstd::prelude::*;

use crate::config::{spec_all_digits, spec_decimal_value};

verus! {

/// The decimal digits of a number, most significant first, no sign, no
/// leading zero except for the number zero itself.
pub open spec fn spec_decimal_digits(n: nat) -> Seq<u8>
    decreases n,
{
    if n < 10 {
        seq![(48 + n) as u8]
    } else {
        spec_decimal_digits(n / 10).push((48 + n % 10) as u8)
    }
}

/// The bytes of a signed value: the digits of its magnitude, preceded by an
/// ASCII minus sign when negative.
pub open spec fn spec_i32_decimal(v: i32) -> Seq<u8> {
    if v < 0 {
        seq![45u8] + spec_decimal_digits((-(v as int)) as nat)
    } else {
        spec_decimal_digits(v as nat)
    }
}

/// Rendering then parsing is the identity: the digit string of `n` is all
/// digits and denotes `n`.
pub proof fn lemma_decimal_round_trip(n: nat)
    ensures
        spec_all_digits(spec_decimal_digits(n)),
        spec_decimal_digits(n).len() >= 1,
        spec_decimal_value(spec_decimal_digits(n)) == n,
    decreases n,
{
    reveal_with_fuel(spec_decimal_value, 3);
    if n < 10 {
        assert(spec_decimal_digits(n).drop_last() =~= Seq::<u8>::empty());
    } else {
        lemma_decimal_round_trip(n / 10);
        let prefix = spec_decimal_digits(n / 10);
        let whole = spec_decimal_digits(n);
        assert(whole =~= prefix.push((48 + n % 10) as u8));
        assert(whole.drop_last() =~= prefix);
        assert(spec_decimal_value(whole) == spec_decimal_value(prefix) * 10 + n % 10);
        assert((n / 10) * 10 + n % 10 == n) by (nonlinear_arith);
    }
}

/// Render an unsigned value as decimal digits.
fn render_u32_decimal(n: u32) -> (v: Vec<u8>)
    ensures
        v@ == spec_decimal_digits(n as nat),
    decreases n,
{
    if n < 10 {
        let mut v: Vec<u8> = Vec::new();
        v.push(48 + (n as u8));
        proof {
            assert(v@ =~= seq![(48 + n) as u8]);
        }
        v
    } else {
        let mut v = render_u32_decimal(n / 10);
        v.push(48 + ((n % 10) as u8));
        proof {
            assert(v@ =~= spec_decimal_digits((n / 10) as nat).push((48 + n % 10) as u8));
        }
        v
    }
}

/// Render the signal-strength sample as decimal text.
pub fn render_signal(v: i32) -> (out: Vec<u8>)
    ensures
        out@ == spec_i32_decimal(v),
{
    if v >= 0 {
        render_u32_decimal(v as u32)
    } else {
        let mag: u32 = (-(v as i64)) as u32;
        let mut out: Vec<u8> = Vec::new();
        out.push(45);
        let mut digits = render_u32_decimal(mag);
        out.append(&mut digits);
        proof {
            assert(out@ =~= seq![45u8] + spec_decimal_digits(mag as nat));
        }
        out
    }
}

/// The fixed echo payload published on a genuine input activation.
pub open spec fn spec_echo_payload() -> Seq<u8> {
    seq![52u8, 50u8]
}

/// The availability payload published right after connecting.
pub open spec fn spec_present_payload() -> Seq<u8> {
    seq![98u8, 105u8, 114u8, 116u8, 104u8]
}

/// The departed payload the broker emits for us on ungraceful disconnect.
pub open spec fn spec_departed_payload() -> Seq<u8> {
    seq![100u8, 101u8, 97u8, 116u8, 104u8]
}

/// The fixed echo payload, as bytes for the wire.
pub fn echo_payload() -> (v: Vec<u8>)
    ensures
        v@ == spec_echo_payload(),
{
    let mut v: Vec<u8> = Vec::new();
    v.push(52);
    v.push(50);
    proof {
        assert(v@ =~= spec_echo_payload());
    }
    v
}

/// The availability payload, as bytes for the wire.
pub fn present_payload() -> (v: Vec<u8>)
    ensures
        v@ == spec_present_payload(),
{
    let mut v: Vec<u8> = Vec::new();
    v.push(98);
    v.push(105);
    v.push(114);
    v.push(116);
    v.push(104);
    proof {
        assert(v@ =~= spec_present_payload());
    }
    v
}

/// The departed (last-will) payload, as bytes for the wire.
pub fn departed_payload() -> (v: Vec<u8>)
    ensures
        v@ == spec_departed_payload(),
{
    let mut v: Vec<u8> = Vec::new();
    v.push(100);
    v.push(101);
    v.push(97);
    v.push(116);
    v.push(104);
    proof {
        assert(v@ =~= spec_departed_payload());
    }
    v
}

} // verus!
