//! The model of time that the contracts of this crate are stated over.
//!
//! `Duration` and `Instant` are opaque to the verifier. A duration is
//! modelled by its length in nanoseconds, an instant by its position on the
//! monotonic clock's line, and the few methods of the standard library that
//! the crate calls are given contracts over these two models. Those
//! contracts are believed, not proved.

use std::time::Duration;
use std::time::Instant;
use vstd::prelude::*;

verus! {

/// Nanoseconds in one second.
pub const NANOS_PER_SEC: u64 = 1_000_000_000;

/// Nanoseconds in one millisecond.
pub const NANOS_PER_MILLI: u64 = 1_000_000;

/// The longest duration that the standard library represents: `u64::MAX`
/// whole seconds and one nanosecond less than a further second.
pub const MAX_DURATION_NANOS: u128 = 18_446_744_073_709_551_615_999_999_999;

/// The monotonic instant type of the standard library, carried through as an
/// opaque value.
#[verifier::external_type_specification]
#[verifier::external_body]
pub struct ExInstant(Instant);

/// The length of `d` in whole nanoseconds: its whole seconds and its
/// fractional part taken together.
pub uninterp spec fn nanos_of(d: Duration) -> nat;

/// The position of `t` on the line of the monotonic clock, in nanoseconds
/// from an origin that the platform chooses. Only differences of offsets
/// are ever observed.
pub uninterp spec fn instant_offset(t: Instant) -> int;

/// `Duration::as_secs` returns the whole seconds that the duration contains,
/// without its fractional part.
pub assume_specification[ Duration::as_secs ](d: &Duration) -> (s: u64)
    ensures
        s == nanos_of(*d) / (NANOS_PER_SEC as nat),
;

/// `Duration::subsec_nanos` returns the fractional part of the duration in
/// nanoseconds, which is always less than one second.
pub assume_specification[ Duration::subsec_nanos ](d: &Duration) -> (n: u32)
    ensures
        n == nanos_of(*d) % (NANOS_PER_SEC as nat),
;

/// `Duration::new` builds the duration of `secs` whole seconds and `nanos`
/// further nanoseconds. With `nanos` below one second nothing is carried
/// into the seconds, so the constructor cannot overflow.
pub assume_specification[ Duration::new ](secs: u64, nanos: u32) -> (d: Duration)
    requires
        nanos < NANOS_PER_SEC,
    ensures
        nanos_of(d) == secs * NANOS_PER_SEC + nanos,
;

/// `Instant::now` reads the monotonic clock. Nothing is claimed of the
/// reading.
pub assume_specification[ Instant::now ]() -> (t: Instant)
;

/// `Instant::saturating_duration_since` returns the time that passed from
/// `earlier` to `t`, or the zero duration where `earlier` is the later of the
/// two.
pub assume_specification[ Instant::saturating_duration_since ](
    t: &Instant,
    earlier: Instant,
) -> (d: Duration)
    ensures
        nanos_of(d) == if instant_offset(*t) >= instant_offset(earlier) {
            instant_offset(*t) - instant_offset(earlier)
        } else {
            0
        },
;

/// What `Instant::checked_sub` returns for the instant `t` and the duration
/// `d`: the instant that lies `d` before `t`, or `None` where the platform
/// cannot represent it.
pub uninterp spec fn instant_before(t: Instant, d: Duration) -> Option<Instant>;

/// `Instant::checked_sub` returns the instant that lies `duration` before
/// `t`, or `None` where the platform cannot represent it. Which of the two
/// it is depends on `t` and `duration` alone.
pub assume_specification[ Instant::checked_sub ](t: &Instant, duration: Duration) -> (r: Option<
    Instant,
>)
    ensures
        r == instant_before(*t, duration),
        r matches Some(s) ==> instant_offset(s) == instant_offset(*t) - nanos_of(duration),
;

/// The length of `d` in nanoseconds.
pub fn to_nanos(d: &Duration) -> (n: u128)
    ensures
        n == nanos_of(*d),
        n <= MAX_DURATION_NANOS,
{
    let secs: u64 = d.as_secs();
    let sub: u32 = d.subsec_nanos();
    proof {
        vstd::arithmetic::div_mod::lemma_fundamental_div_mod(
            nanos_of(*d) as int,
            NANOS_PER_SEC as int,
        );
        assert(secs * NANOS_PER_SEC <= u64::MAX * NANOS_PER_SEC) by (nonlinear_arith)
            requires
                secs <= u64::MAX,
        ;
    }
    secs as u128 * (NANOS_PER_SEC as u128) + sub as u128
}

/// The duration that is `n` nanoseconds long.
pub fn from_nanos(n: u128) -> (d: Duration)
    requires
        n <= MAX_DURATION_NANOS,
    ensures
        nanos_of(d) == n,
{
    let secs: u128 = n / (NANOS_PER_SEC as u128);
    let sub: u128 = n % (NANOS_PER_SEC as u128);
    proof {
        vstd::arithmetic::div_mod::lemma_fundamental_div_mod(n as int, NANOS_PER_SEC as int);
    }
    Duration::new(secs as u64, sub as u32)
}

/// The duration that is `millis` milliseconds long.
pub fn from_millis(millis: u64) -> (d: Duration)
    ensures
        nanos_of(d) == millis * NANOS_PER_MILLI,
{
    proof {
        assert(millis * NANOS_PER_MILLI <= u64::MAX * NANOS_PER_MILLI) by (nonlinear_arith)
            requires
                millis <= u64::MAX,
        ;
    }
    from_nanos(millis as u128 * (NANOS_PER_MILLI as u128))
}

} // verus!
