//! How the time between two ticks shrinks as the snake grows.

use std::time::Duration;
use vstd::prelude::*;

verus! {

/// The time between two ticks of a snake without segments, in milliseconds.
pub const BASE_INTERVAL_MS: u64 = 300;

/// By how many milliseconds each segment shortens the time between two ticks.
pub const DECREMENT_PER_SEGMENT_MS: u64 = 12;

/// The time between two ticks never falls below this many milliseconds.
pub const MIN_INTERVAL_MS: u64 = 50;

/// `base - length * decrement`, but never less than `floor`.
pub open spec fn scaled_interval(base: int, decrement: int, floor: int, length: nat) -> int {
    if base - length * decrement >= floor {
        base - length * decrement
    } else {
        floor
    }
}

/// The time between two ticks for a snake of `length` segments, in
/// milliseconds.
pub open spec fn tick_interval_millis(length: nat) -> nat {
    scaled_interval(
        BASE_INTERVAL_MS as int,
        DECREMENT_PER_SEGMENT_MS as int,
        MIN_INTERVAL_MS as int,
        length,
    ) as nat
}

/// For fixed parameters with a decrement that is not negative, a longer
/// snake never ticks more slowly than a shorter one, and the interval is
/// never below the floor. With a positive decrement the interval of the
/// longer snake is strictly shorter unless it has reached the floor.
pub proof fn lemma_scaled_interval_monotone(
    base: int,
    decrement: int,
    floor: int,
    shorter: nat,
    longer: nat,
)
    requires
        decrement >= 0,
        shorter <= longer,
    ensures
        floor <= scaled_interval(base, decrement, floor, longer) <= scaled_interval(
            base,
            decrement,
            floor,
            shorter,
        ),
        decrement > 0 && shorter < longer ==> scaled_interval(base, decrement, floor, longer)
            < scaled_interval(base, decrement, floor, shorter) || scaled_interval(
            base,
            decrement,
            floor,
            longer,
        ) == floor,
{
    assert(shorter * decrement <= longer * decrement) by (nonlinear_arith)
        requires
            decrement >= 0,
            shorter <= longer,
    ;
    if decrement > 0 && shorter < longer {
        assert(shorter * decrement < longer * decrement) by (nonlinear_arith)
            requires
                decrement > 0,
                shorter < longer,
        ;
    }
}

/// The time between two ticks strictly decreases as the snake grows, until
/// it stays at the floor.
pub proof fn lemma_tick_interval_monotone(shorter: nat, longer: nat)
    requires
        shorter < longer,
    ensures
        MIN_INTERVAL_MS <= tick_interval_millis(longer) <= tick_interval_millis(shorter),
        tick_interval_millis(longer) < tick_interval_millis(shorter) || tick_interval_millis(longer)
            == MIN_INTERVAL_MS,
{
    lemma_scaled_interval_monotone(
        BASE_INTERVAL_MS as int,
        DECREMENT_PER_SEGMENT_MS as int,
        MIN_INTERVAL_MS as int,
        shorter,
        longer,
    );
}

/// The time between two ticks for a snake of `length` segments, in
/// milliseconds.
pub fn tick_interval_ms(length: usize) -> (ms: u64)
    ensures
        ms == tick_interval_millis(length as nat),
{
    let most_segments: u64 = (BASE_INTERVAL_MS - MIN_INTERVAL_MS) / DECREMENT_PER_SEGMENT_MS;
    if length as u64 > most_segments {
        MIN_INTERVAL_MS
    } else {
        BASE_INTERVAL_MS - length as u64 * DECREMENT_PER_SEGMENT_MS
    }
}

/// The span of time that is `millis` milliseconds long.
pub uninterp spec fn duration_of_millis(millis: u64) -> Duration;

/// Calls `Duration::from_millis` of std. Its result is taken to be a function
/// of the number of milliseconds alone, named [`duration_of_millis`]; nothing
/// else is claimed of it.
#[verifier::external_body]
pub(crate) fn millis_to_duration(millis: u64) -> (d: Duration)
    ensures
        d == duration_of_millis(millis),
{
    Duration::from_millis(millis)
}

} // verus!
