//! Conversions between ticks and natural time units.
//!
//! Every conversion follows the same formula: scale the input by the ratio of
//! the source rate to the target rate and round the quotient toward zero, so
//! a conversion never rounds up. When the tick rate is a power of ten the
//! ratio is reduced to avoid a needless multiplication, but the result is
//! bit-identical to the general formula. The arithmetic runs in a 128-bit
//! intermediate, so it cannot wrap mid-computation; a converted value that
//! does not fit in 64 bits is excluded by precondition, and treated as a
//! fatal condition — never a wrapped or truncated value — should an
//! unverified caller reach it anyway. This fail-fast policy is uniform
//! across all six conversions.

use vstd::arithmetic::div_mod::{
    lemma_div_by_multiple, lemma_div_is_ordered, lemma_div_multiples_vanish_quotient,
    lemma_div_pos_is_pos, lemma_fundamental_div_mod, lemma_mod_division_less_than_divisor,
};
use vstd::arithmetic::mul::{lemma_mul_is_commutative, lemma_mul_nonnegative, lemma_mul_upper_bound};
use vstd::prelude::*;

verus! {

/// Ticks corresponding to `micros` microseconds at `rate` ticks per second,
/// rounded toward zero.
pub open spec fn micros_to_ticks_spec(micros: int, rate: int) -> int {
    micros * rate / 1_000_000
}

/// Ticks corresponding to `millis` milliseconds at `rate` ticks per second,
/// rounded toward zero.
pub open spec fn millis_to_ticks_spec(millis: int, rate: int) -> int {
    millis * rate / 1_000
}

/// Ticks corresponding to `secs` seconds at `rate` ticks per second.
pub open spec fn secs_to_ticks_spec(secs: int, rate: int) -> int {
    secs * rate
}

/// Microseconds corresponding to `ticks` ticks at `rate` ticks per second,
/// rounded toward zero.
pub open spec fn ticks_to_micros_spec(ticks: int, rate: int) -> int {
    ticks * 1_000_000 / rate
}

/// Milliseconds corresponding to `ticks` ticks at `rate` ticks per second,
/// rounded toward zero.
pub open spec fn ticks_to_millis_spec(ticks: int, rate: int) -> int {
    ticks * 1_000 / rate
}

/// Seconds corresponding to `ticks` ticks at `rate` ticks per second,
/// rounded toward zero.
pub open spec fn ticks_to_secs_spec(ticks: int, rate: int) -> int {
    ticks / rate
}

/// Scaling by the ratio `nom / denom` equals scaling by `rate / unit`
/// whenever the two ratios are equal.
proof fn lemma_mul_div_scale(x: int, nom: int, denom: int, rate: int, unit: int)
    requires
        x >= 0,
        nom >= 0,
        denom > 0,
        rate >= 0,
        unit > 0,
        nom * unit == rate * denom,
    ensures
        x * nom / denom == x * rate / unit,
{
    lemma_mul_nonnegative(x, nom);
    lemma_mul_nonnegative(x, rate);
    lemma_div_multiples_vanish_quotient(unit, x * nom, denom);
    lemma_div_multiples_vanish_quotient(denom, x * rate, unit);
    assert(unit * (x * nom) == denom * (x * rate) && unit * denom == denom * unit)
        by (nonlinear_arith)
        requires
            nom * unit == rate * denom,
    ;
}

/// Convert microseconds to ticks.
pub fn micros_to_ticks(micros: u64, ticks_per_second: u64) -> (r: u64)
    requires
        ticks_per_second > 0,
        micros_to_ticks_spec(micros as int, ticks_per_second as int) <= u64::MAX,
    ensures
        r == micros_to_ticks_spec(micros as int, ticks_per_second as int),
{
    let (nom, denom): (u64, u64) = match ticks_per_second {
        1 => (1, 1000000),
        10 => (1, 100000),
        100 => (1, 10000),
        1000 => (1, 1000),
        10000 => (1, 100),
        100000 => (1, 10),
        1000000 => (1, 1),
        10000000 => (10, 1),
        100000000 => (100, 1),
        _ => (ticks_per_second, 1000000),
    };
    proof {
        assert(nom as int * 1_000_000 == ticks_per_second as int * denom as int);
        lemma_mul_div_scale(
            micros as int,
            nom as int,
            denom as int,
            ticks_per_second as int,
            1_000_000,
        );
        lemma_mul_upper_bound(micros as int, u64::MAX as int, nom as int, u64::MAX as int);
    }
    let wide: u128 = (micros as u128) * (nom as u128) / (denom as u128);
    if wide > u64::MAX as u128 {
        return vstd::pervasive::unreached();
    }
    wide as u64
}

/// Convert milliseconds to ticks.
pub fn millis_to_ticks(millis: u64, ticks_per_second: u64) -> (r: u64)
    requires
        ticks_per_second > 0,
        millis_to_ticks_spec(millis as int, ticks_per_second as int) <= u64::MAX,
    ensures
        r == millis_to_ticks_spec(millis as int, ticks_per_second as int),
{
    let (nom, denom): (u64, u64) = match ticks_per_second {
        1 => (1, 1000),
        10 => (1, 100),
        100 => (1, 10),
        1000 => (1, 1),
        10000 => (10, 1),
        100000 => (100, 1),
        1000000 => (1000, 1),
        10000000 => (10000, 1),
        100000000 => (100000, 1),
        _ => (ticks_per_second, 1000),
    };
    proof {
        assert(nom as int * 1_000 == ticks_per_second as int * denom as int);
        lemma_mul_div_scale(
            millis as int,
            nom as int,
            denom as int,
            ticks_per_second as int,
            1_000,
        );
        lemma_mul_upper_bound(millis as int, u64::MAX as int, nom as int, u64::MAX as int);
    }
    let wide: u128 = (millis as u128) * (nom as u128) / (denom as u128);
    if wide > u64::MAX as u128 {
        return vstd::pervasive::unreached();
    }
    wide as u64
}

/// Convert seconds to ticks.
pub fn secs_to_ticks(secs: u64, ticks_per_second: u64) -> (r: u64)
    requires
        ticks_per_second > 0,
        secs_to_ticks_spec(secs as int, ticks_per_second as int) <= u64::MAX,
    ensures
        r == secs_to_ticks_spec(secs as int, ticks_per_second as int),
{
    match secs.checked_mul(ticks_per_second) {
        Some(t) => t,
        None => vstd::pervasive::unreached(),
    }
}

/// Convert ticks to microseconds.
pub fn ticks_to_micros(ticks: u64, ticks_per_second: u64) -> (r: u64)
    requires
        ticks_per_second > 0,
        ticks_to_micros_spec(ticks as int, ticks_per_second as int) <= u64::MAX,
    ensures
        r == ticks_to_micros_spec(ticks as int, ticks_per_second as int),
{
    let (nom, denom): (u64, u64) = match ticks_per_second {
        1 => (1000000, 1),
        10 => (100000, 1),
        100 => (10000, 1),
        1000 => (1000, 1),
        10000 => (100, 1),
        100000 => (10, 1),
        1000000 => (1, 1),
        10000000 => (1, 10),
        100000000 => (1, 100),
        _ => (1000000, ticks_per_second),
    };
    proof {
        assert(nom as int * ticks_per_second as int == 1_000_000 * denom as int);
        lemma_mul_div_scale(
            ticks as int,
            nom as int,
            denom as int,
            1_000_000,
            ticks_per_second as int,
        );
        lemma_mul_upper_bound(ticks as int, u64::MAX as int, nom as int, u64::MAX as int);
    }
    let wide: u128 = (ticks as u128) * (nom as u128) / (denom as u128);
    if wide > u64::MAX as u128 {
        return vstd::pervasive::unreached();
    }
    wide as u64
}

/// Convert ticks to milliseconds.
pub fn ticks_to_millis(ticks: u64, ticks_per_second: u64) -> (r: u64)
    requires
        ticks_per_second > 0,
        ticks_to_millis_spec(ticks as int, ticks_per_second as int) <= u64::MAX,
    ensures
        r == ticks_to_millis_spec(ticks as int, ticks_per_second as int),
{
    let (nom, denom): (u64, u64) = match ticks_per_second {
        1 => (1000, 1),
        10 => (100, 1),
        100 => (10, 1),
        1000 => (1, 1),
        10000 => (1, 10),
        100000 => (1, 100),
        1000000 => (1, 1000),
        10000000 => (1, 10000),
        100000000 => (1, 100000),
        _ => (1000, ticks_per_second),
    };
    proof {
        assert(nom as int * ticks_per_second as int == 1_000 * denom as int);
        lemma_mul_div_scale(
            ticks as int,
            nom as int,
            denom as int,
            1_000,
            ticks_per_second as int,
        );
        lemma_mul_upper_bound(ticks as int, u64::MAX as int, nom as int, u64::MAX as int);
    }
    let wide: u128 = (ticks as u128) * (nom as u128) / (denom as u128);
    if wide > u64::MAX as u128 {
        return vstd::pervasive::unreached();
    }
    wide as u64
}

/// Convert ticks to seconds.
pub fn ticks_to_secs(ticks: u64, ticks_per_second: u64) -> (r: u64)
    requires
        ticks_per_second > 0,
    ensures
        r == ticks_to_secs_spec(ticks as int, ticks_per_second as int),
{
    ticks / ticks_per_second
}

/// Converting `t` ticks to a unit counted `unit` times per tick-second and
/// back multiplies `t` by `unit / rate` and then by `rate / unit`, each time
/// rounding down: the result never exceeds `t`, and equals `t` exactly when
/// no rounding occurred on the way out.
proof fn lemma_scale_round_trip(t: int, rate: int, unit: int)
    requires
        t >= 0,
        rate > 0,
        unit > 0,
    ensures
        (t * unit / rate) * rate / unit <= t,
        (t * unit) % rate == 0 ==> (t * unit / rate) * rate / unit == t,
{
    let m = t * unit / rate;
    lemma_mul_nonnegative(t, unit);
    lemma_div_pos_is_pos(t * unit, rate);
    lemma_fundamental_div_mod(t * unit, rate);
    lemma_mod_division_less_than_divisor(t * unit, rate);
    lemma_mul_is_commutative(rate, m);
    assert(m * rate <= t * unit);
    lemma_div_is_ordered(m * rate, t * unit, unit);
    lemma_div_by_multiple(t, unit);
    if (t * unit) % rate == 0 {
        assert(m * rate == t * unit);
    }
}

/// Round trip through microseconds loses precision only downward: converting
/// ticks to microseconds and back never gains ticks, and is exact when
/// `t * 1_000_000` is a multiple of the tick rate.
pub proof fn lemma_micros_round_trip(t: u64, rate: u64)
    requires
        rate > 0,
    ensures
        micros_to_ticks_spec(ticks_to_micros_spec(t as int, rate as int), rate as int) <= t,
        (t as int * 1_000_000) % (rate as int) == 0 ==> micros_to_ticks_spec(
            ticks_to_micros_spec(t as int, rate as int),
            rate as int,
        ) == t,
{
    lemma_scale_round_trip(t as int, rate as int, 1_000_000);
}

/// Round trip through milliseconds loses precision only downward: converting
/// ticks to milliseconds and back never gains ticks, and is exact when
/// `t * 1_000` is a multiple of the tick rate.
pub proof fn lemma_millis_round_trip(t: u64, rate: u64)
    requires
        rate > 0,
    ensures
        millis_to_ticks_spec(ticks_to_millis_spec(t as int, rate as int), rate as int) <= t,
        (t as int * 1_000) % (rate as int) == 0 ==> millis_to_ticks_spec(
            ticks_to_millis_spec(t as int, rate as int),
            rate as int,
        ) == t,
{
    lemma_scale_round_trip(t as int, rate as int, 1_000);
}

/// Round trip through seconds loses precision only downward: converting
/// ticks to seconds and back never gains ticks, and is exact when `t` is a
/// multiple of the tick rate.
pub proof fn lemma_secs_round_trip(t: u64, rate: u64)
    requires
        rate > 0,
    ensures
        secs_to_ticks_spec(ticks_to_secs_spec(t as int, rate as int), rate as int) <= t,
        (t as int) % (rate as int) == 0 ==> secs_to_ticks_spec(
            ticks_to_secs_spec(t as int, rate as int),
            rate as int,
        ) == t,
{
    lemma_scale_round_trip(t as int, rate as int, 1);
}

/// When the tick rate matches the unit rate, converting microseconds to
/// ticks is the identity.
pub proof fn lemma_micros_exact_at_matching_rate(micros: u64)
    ensures
        micros_to_ticks_spec(micros as int, 1_000_000) == micros,
{
    lemma_div_by_multiple(micros as int, 1_000_000);
}

} // verus!
