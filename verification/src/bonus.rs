//! The time bonus: one point for every full second left of a ten second
//! window when the last round ends.

use vstd::prelude::*;

verus! {

/// Length of the window in which a bonus can be earned, in milliseconds.
pub const BONUS_WINDOW_MS: u128 = 10000;

/// Milliseconds of the window that must be left over for each bonus point.
pub const MS_PER_BONUS_POINT: u128 = 1000;

/// The largest bonus there is, earned only when no time at all has passed.
pub const MAX_BONUS: i32 = 10;

/// The elapsed time that stands in for a clock that could not be read.
pub const CLOCK_FAILURE_MS: u128 = 10000;

/// The bonus earned when `elapsed_ms` milliseconds have passed: what is left
/// of the window, in whole seconds, rounded down; nothing once the window
/// has closed.
pub open spec fn bonus_points(elapsed_ms: nat) -> int {
    if elapsed_ms >= BONUS_WINDOW_MS {
        0
    } else {
        (BONUS_WINDOW_MS - elapsed_ms) / (MS_PER_BONUS_POINT as int)
    }
}

/// The elapsed time that a clock reading counts as: the reading itself, or
/// the full window when the clock could not be read.
pub open spec fn reading_or_timeout(reading: Option<u128>) -> nat {
    match reading {
        Some(ms) => ms as nat,
        None => CLOCK_FAILURE_MS as nat,
    }
}

/// Computes the bonus for a known elapsed time.
pub fn bonus_after(elapsed_ms: u128) -> (bonus: i32)
    ensures
        bonus == bonus_points(elapsed_ms as nat),
        0 <= bonus <= MAX_BONUS,
{
    if elapsed_ms >= BONUS_WINDOW_MS {
        0
    } else {
        let seconds_left: u128 = (BONUS_WINDOW_MS - elapsed_ms) / MS_PER_BONUS_POINT;
        seconds_left as i32
    }
}

/// Computes the bonus for a clock reading that may have failed. A failed
/// reading counts as a closed window and earns nothing.
pub fn bonus_for_reading(reading: Option<u128>) -> (bonus: i32)
    ensures
        bonus == bonus_points(reading_or_timeout(reading)),
        reading is None ==> bonus == 0,
        0 <= bonus <= MAX_BONUS,
{
    match reading {
        Some(ms) => bonus_after(ms),
        None => bonus_after(CLOCK_FAILURE_MS),
    }
}

/// Taking longer never earns more: the bonus does not grow with the elapsed
/// time.
pub proof fn lemma_bonus_never_grows(earlier_ms: nat, later_ms: nat)
    requires
        earlier_ms <= later_ms,
    ensures
        bonus_points(later_ms) <= bonus_points(earlier_ms),
{
}

/// The bonus is never negative and never above ten, and as soon as a single
/// millisecond has passed it is at most nine.
pub proof fn lemma_bonus_bounds(elapsed_ms: nat)
    ensures
        0 <= bonus_points(elapsed_ms) <= MAX_BONUS,
        elapsed_ms >= 1 ==> bonus_points(elapsed_ms) <= 9,
        elapsed_ms == 0 ==> bonus_points(elapsed_ms) == MAX_BONUS,
{
}

/// Once the window has closed there is no bonus; in fact the last point is
/// lost as soon as less than a full second of the window is left.
pub proof fn lemma_bonus_expires(elapsed_ms: nat)
    ensures
        elapsed_ms >= BONUS_WINDOW_MS ==> bonus_points(elapsed_ms) == 0,
        bonus_points(elapsed_ms) == 0 <==> elapsed_ms > BONUS_WINDOW_MS - MS_PER_BONUS_POINT,
{
}

} // verus!
