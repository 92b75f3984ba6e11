//! Statistics over a series of solve times: the mean and the population
//! standard deviation.

use crate::clock::from_millis;
use crate::clock::from_nanos;
use crate::clock::to_nanos;
use crate::clock::nanos_of;
use crate::clock::MAX_DURATION_NANOS;
use crate::clock::NANOS_PER_MILLI;
use std::time::Duration;
use vstd::prelude::*;

verus! {

/// The lengths of `times` added up, in nanoseconds.
pub open spec fn total_nanos(times: Seq<Duration>) -> nat
    decreases times.len(),
{
    if times.len() == 0 {
        0
    } else {
        total_nanos(times.drop_last()) + nanos_of(times.last())
    }
}

/// The arithmetic mean of `times` in nanoseconds, rounded down.
pub open spec fn mean_nanos(times: Seq<Duration>) -> nat
    recommends
        times.len() > 0,
{
    total_nanos(times) / times.len()
}

/// The whole milliseconds that lie between two lengths given in nanoseconds.
pub open spec fn millis_apart(a: nat, b: nat) -> nat {
    if a >= b {
        ((a - b) / (NANOS_PER_MILLI as int)) as nat
    } else {
        ((b - a) / (NANOS_PER_MILLI as int)) as nat
    }
}

/// The squares of the distances of `times` from `center`, each distance
/// taken in whole milliseconds, added up.
pub open spec fn squared_spread(times: Seq<Duration>, center: nat) -> nat
    decreases times.len(),
{
    if times.len() == 0 {
        0
    } else {
        squared_spread(times.drop_last(), center) + millis_apart(nanos_of(times.last()), center)
            * millis_apart(nanos_of(times.last()), center)
    }
}

/// The population variance of `times` in square milliseconds, rounded down.
pub open spec fn variance_millis(times: Seq<Duration>) -> nat
    recommends
        times.len() > 0,
{
    squared_spread(times, mean_nanos(times)) / times.len()
}

/// Whether the squared distances of `times` from their mean add up to a
/// number that fits the widest machine integer.
pub open spec fn deviations_fit(times: Seq<Duration>) -> bool {
    squared_spread(times, mean_nanos(times)) <= u128::MAX
}

/// Whether `root` is the square root of `value`, rounded down.
pub open spec fn is_floor_sqrt(root: nat, value: nat) -> bool {
    root * root <= value < (root + 1) * (root + 1)
}

/// A number has one square root rounded down, and no other.
pub proof fn lemma_floor_sqrt_is_unique(a: nat, b: nat, value: nat)
    requires
        is_floor_sqrt(a, value),
        is_floor_sqrt(b, value),
    ensures
        a == b,
{
    assert(a <= b) by (nonlinear_arith)
        requires
            a * a < (b + 1) * (b + 1),
    ;
    assert(b <= a) by (nonlinear_arith)
        requires
            b * b < (a + 1) * (a + 1),
    ;
}

/// Whether every time of `times` is `bound` nanoseconds long at most.
pub open spec fn all_within(times: Seq<Duration>, bound: nat) -> bool {
    forall|i: int| 0 <= i < times.len() ==> nanos_of(#[trigger] times[i]) <= bound
}

/// A million seconds in nanoseconds: more than eleven days.
pub const LONG_TIME_NANOS: u128 = 1_000_000_000_000_000;

/// 2^26 milliseconds in nanoseconds: more than eighteen hours.
pub const PLAIN_TIME_NANOS: u128 = 67_108_864_000_000;

/// 2^52 square milliseconds.
pub const PLAIN_VARIANCE: u128 = 4_503_599_627_370_496;

/// Times that are `bound` long at most add up to their number times `bound`
/// at most, so their mean is `bound` at most.
proof fn lemma_mean_within(times: Seq<Duration>, bound: nat)
    requires
        all_within(times, bound),
    ensures
        total_nanos(times) <= times.len() * bound,
        times.len() > 0 ==> mean_nanos(times) <= bound,
    decreases times.len(),
{
    if times.len() > 0 {
        lemma_mean_within(times.drop_last(), bound);
        assert(times.len() * bound == (times.len() - 1) * bound + bound) by (nonlinear_arith);
        assert(total_nanos(times) / times.len() <= bound) by (nonlinear_arith)
            requires
                total_nanos(times) <= times.len() * bound,
                times.len() > 0,
        ;
    }
}

/// Times of `reach` milliseconds at most spread around a center of `reach`
/// milliseconds at most by the square of `reach` each at most.
proof fn lemma_spread_within(times: Seq<Duration>, center: nat, reach: nat)
    requires
        all_within(times, reach * (NANOS_PER_MILLI as nat)),
        center <= reach * NANOS_PER_MILLI,
    ensures
        squared_spread(times, center) <= times.len() * (reach * reach),
    decreases times.len(),
{
    if times.len() > 0 {
        lemma_spread_within(times.drop_last(), center, reach);
        let apart = millis_apart(nanos_of(times.last()), center);
        assert(apart <= reach) by (nonlinear_arith)
            requires
                apart == millis_apart(nanos_of(times.last()), center),
                nanos_of(times.last()) <= reach * NANOS_PER_MILLI,
                center <= reach * NANOS_PER_MILLI,
                millis_apart(nanos_of(times.last()), center) * NANOS_PER_MILLI <= reach
                    * NANOS_PER_MILLI,
        ;
        assert(apart * apart <= reach * reach) by (nonlinear_arith)
            requires
                0 <= apart <= reach,
        ;
        assert(times.len() * (reach * reach) == (times.len() - 1) * (reach * reach) + reach
            * reach) by (nonlinear_arith);
    }
}

/// The standard deviation of times that are a million seconds long at most
/// can be computed, however many they are.
pub proof fn lemma_long_times_fit(times: Seq<Duration>)
    requires
        all_within(times, LONG_TIME_NANOS as nat),
        times.len() <= usize::MAX,
    ensures
        deviations_fit(times),
{
    if times.len() > 0 {
        lemma_mean_within(times, LONG_TIME_NANOS as nat);
        lemma_spread_within(times, mean_nanos(times), 1_000_000_000);
        assert(times.len() * (1_000_000_000nat * 1_000_000_000nat) <= u128::MAX)
            by (nonlinear_arith)
            requires
                times.len() <= 0xffff_ffff_ffff_ffff,
        ;
    }
}

/// The variance of times that are 2^26 milliseconds long at most is 2^52
/// square milliseconds at most, and their squared distances from the mean add
/// up within the widest machine integer: the standard deviation of such
/// times can be computed.
pub proof fn lemma_plain_times_have_plain_variance(times: Seq<Duration>)
    requires
        all_within(times, PLAIN_TIME_NANOS as nat),
        0 < times.len() <= usize::MAX,
    ensures
        variance_millis(times) <= PLAIN_VARIANCE,
        root_is_plain(times),
        deviations_fit(times),
{
    assert(times.len() * (67_108_864nat * 67_108_864nat) <= u128::MAX) by (nonlinear_arith)
        requires
            times.len() <= 0xffff_ffff_ffff_ffff,
    ;
    lemma_mean_within(times, PLAIN_TIME_NANOS as nat);
    lemma_spread_within(times, mean_nanos(times), 67_108_864);
    assert(squared_spread(times, mean_nanos(times)) / times.len() <= PLAIN_VARIANCE)
        by (nonlinear_arith)
        requires
            squared_spread(times, mean_nanos(times)) <= times.len() * (67_108_864nat
                * 67_108_864nat),
            times.len() > 0,
    ;
}

/// The mean of `times`, or `None` where there are none.
///
/// The mean is the sum of the durations divided by their number, rounded
/// down to a whole nanosecond. It is computed without forming the sum, so
/// every series has one.
pub fn avg(times: &[Duration]) -> (r: Option<Duration>)
    ensures
        r is None <==> times@.len() == 0,
        r matches Some(m) ==> nanos_of(m) == mean_nanos(times@),
{
    let n: usize = times.len();
    if n == 0 {
        return None;
    }
    let count: u128 = n as u128;
    let mut quot: u128 = 0;
    let mut rem: u128 = 0;
    let mut i: usize = 0;
    while i < n
        invariant
            0 < n == times@.len(),
            count == n,
            i <= n,
            rem < count,
            quot * count + rem == total_nanos(times@.take(i as int)),
            total_nanos(times@.take(i as int)) <= i * MAX_DURATION_NANOS,
        decreases n - i,
    {
        let t: u128 = to_nanos(&times[i]);
        let q: u128 = t / count;
        let r: u128 = t % count;
        proof {
            assert(times@.take(i + 1).drop_last() =~= times@.take(i as int));
            assert((i + 1) * MAX_DURATION_NANOS == i * MAX_DURATION_NANOS + MAX_DURATION_NANOS)
                by (nonlinear_arith);
            assert(quot <= MAX_DURATION_NANOS) by (nonlinear_arith)
                requires
                    quot * count + rem <= i * MAX_DURATION_NANOS,
                    i <= count,
                    0 < count,
            ;
            vstd::arithmetic::div_mod::lemma_fundamental_div_mod(t as int, count as int);
            assert((quot + q) * count + (rem + r) == quot * count + rem + t) by (nonlinear_arith)
                requires
                    t == count * q + r,
            ;
            assert((quot + q + 1) * count + (rem + r - count) == quot * count + rem + t)
                by (nonlinear_arith)
                requires
                    t == count * q + r,
            ;
        }
        if rem + r >= count {
            quot = quot + q + 1;
            rem = rem + r - count;
        } else {
            quot = quot + q;
            rem = rem + r;
        }
        i = i + 1;
    }
    proof {
        assert(times@.take(n as int) =~= times@);
        assert(quot <= MAX_DURATION_NANOS) by (nonlinear_arith)
            requires
                quot * count + rem <= n * MAX_DURATION_NANOS,
                n == count,
                0 < count,
        ;
        vstd::arithmetic::div_mod::lemma_fundamental_div_mod_converse(
            total_nanos(times@) as int,
            count as int,
            quot as int,
            rem as int,
        );
    }
    Some(from_nanos(quot))
}

/// A series never spreads less than one of its prefixes.
proof fn lemma_spread_grows(times: Seq<Duration>, center: nat, k: int)
    requires
        0 <= k <= times.len(),
    ensures
        squared_spread(times.take(k), center) <= squared_spread(times, center),
    decreases times.len(),
{
    if k < times.len() {
        assert(times.drop_last().take(k) =~= times.take(k));
        lemma_spread_grows(times.drop_last(), center, k);
        assert(0 <= millis_apart(nanos_of(times.last()), center) * millis_apart(
            nanos_of(times.last()),
            center,
        )) by (nonlinear_arith);
    } else {
        assert(times.take(k) =~= times);
    }
}

/// The squared spread of `times` around `center`, or `None` where it does
/// not fit the widest machine integer.
fn spread(times: &[Duration], center: u128) -> (r: Option<u128>)
    ensures
        r matches Some(s) ==> s == squared_spread(times@, center as nat),
        r is None <==> squared_spread(times@, center as nat) > u128::MAX,
{
    let n: usize = times.len();
    let mut sum: u128 = 0;
    let mut i: usize = 0;
    while i < n
        invariant
            n == times@.len(),
            i <= n,
            sum == squared_spread(times@.take(i as int), center as nat),
        decreases n - i,
    {
        let t: u128 = to_nanos(&times[i]);
        let apart: u128 = if t >= center {
            (t - center) / (NANOS_PER_MILLI as u128)
        } else {
            (center - t) / (NANOS_PER_MILLI as u128)
        };
        proof {
            assert(times@.take(i + 1).drop_last() =~= times@.take(i as int));
            lemma_spread_grows(times@, center as nat, i + 1);
        }
        let square: u128 = match apart.checked_mul(apart) {
            Some(v) => v,
            None => {
                return None;
            },
        };
        sum = match sum.checked_add(square) {
            Some(v) => v,
            None => {
                return None;
            },
        };
        i = i + 1;
    }
    proof {
        assert(times@.take(n as int) =~= times@);
    }
    Some(sum)
}

/// Whether the standard deviation of `times` can be computed: whether the
/// squared distances from the mean add up within the widest machine integer.
pub fn deviations_in_range(times: &[Duration]) -> (b: bool)
    ensures
        b == deviations_fit(times@),
{
    match avg(times) {
        None => true,
        Some(mean) => {
            let center: u128 = to_nanos(&mean);
            spread(times, center).is_some()
        },
    }
}

/// The square root of `value`, rounded down.
fn floor_sqrt(value: u128) -> (root: u64)
    ensures
        is_floor_sqrt(root as nat, value as nat),
{
    let mut low: u128 = 0;
    let mut high: u128 = 0x1_0000_0000_0000_0000;
    while high - low > 1
        invariant
            low < high <= 0x1_0000_0000_0000_0000,
            low * low <= value < high * high,
        decreases high - low,
    {
        let mid: u128 = low + (high - low) / 2;
        proof {
            assert(mid * mid <= 0xffff_ffff_ffff_ffff * 0xffff_ffff_ffff_ffff) by (nonlinear_arith)
                requires
                    0 <= mid <= 0xffff_ffff_ffff_ffff,
            ;
        }
        if mid * mid <= value {
            low = mid;
        } else {
            high = mid;
        }
    }
    low as u64
}

/// The population variance of `times` in square milliseconds, or `None`
/// where there are none.
///
/// Each duration's distance from the mean is cut to whole milliseconds and
/// squared; the squares are added up and divided by their number, rounding
/// down.
pub fn variance(times: &[Duration]) -> (r: Option<u128>)
    requires
        deviations_fit(times@),
    ensures
        r is None <==> times@.len() == 0,
        r matches Some(v) ==> v == variance_millis(times@),
{
    let mean: Duration = avg(times)?;
    let center: u128 = to_nanos(&mean);
    let squares: u128 = spread(times, center).unwrap();
    Some(squares / (times.len() as u128))
}

/// Whether the root of the variance of `times` is plain: whether the
/// variance is 2^52 square milliseconds at most.
///
/// Such a variance has no more digits than double precision holds, so its
/// root rounded down is also what a square root taken in double precision
/// and cut to a whole number gives. For a larger variance the two can
/// differ, and the rounded-down root is not offered.
pub open spec fn root_is_plain(times: Seq<Duration>) -> bool {
    times.len() > 0 ==> variance_millis(times) <= PLAIN_VARIANCE
}

/// The population standard deviation of `times` in whole milliseconds, or
/// `None` where there are none: the square root of the variance, rounded
/// down to a whole millisecond.
pub fn std_dev(times: &[Duration]) -> (r: Option<Duration>)
    requires
        deviations_fit(times@),
        root_is_plain(times@),
    ensures
        r is None <==> times@.len() == 0,
        r matches Some(s) ==> {
            &&& nanos_of(s) % (NANOS_PER_MILLI as nat) == 0
            &&& is_floor_sqrt(nanos_of(s) / (NANOS_PER_MILLI as nat), variance_millis(times@))
        },
{
    let root: u64 = floor_sqrt(variance(times)?);
    let s: Duration = from_millis(root);
    proof {
        vstd::arithmetic::div_mod::lemma_fundamental_div_mod_converse(
            nanos_of(s) as int,
            NANOS_PER_MILLI as int,
            root as int,
            0,
        );
    }
    Some(s)
}

} // verus!
