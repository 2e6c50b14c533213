use crate::decimal::{decimal, push_decimal};
use vstd::prelude::*;

verus! {

/// How long a listing must wait between two bumps: two hours, in
/// milliseconds.
pub const BUMP_COOLDOWN_MS: i64 = 7_200_000;

/// Milliseconds in a minute.
pub const MS_PER_MINUTE: i64 = 60_000;

/// The whole minutes left before a listing bumped `elapsed_ms` ago may be
/// bumped again: the remaining wait divided by a minute, rounded up.
pub open spec fn minutes_left_spec(elapsed_ms: int) -> int {
    (BUMP_COOLDOWN_MS - elapsed_ms + (MS_PER_MINUTE - 1)) / MS_PER_MINUTE as int
}

/// The answer given to a bump that comes too early.
pub open spec fn slow_down_text(minutes: nat) -> Seq<char> {
    "Slow down! You can bump again in "@ + decimal(minutes) + " minutes."@
}

/// The whole minutes left in the cooldown, for a listing last bumped
/// `elapsed_ms` milliseconds ago (within the cooldown).
pub fn minutes_left(elapsed_ms: i64) -> (m: u64)
    requires
        elapsed_ms < BUMP_COOLDOWN_MS,
    ensures
        m as int == minutes_left_spec(elapsed_ms as int),
        m >= 1,
{
    let wait: u64 = (BUMP_COOLDOWN_MS as i128 - elapsed_ms as i128) as u64;
    (wait + 59_999) / 60_000
}

/// The minutes left are the least whole number of minutes that covers the
/// rest of the cooldown.
pub proof fn minutes_left_is_ceiling(elapsed_ms: int)
    requires
        elapsed_ms < BUMP_COOLDOWN_MS,
    ensures
        MS_PER_MINUTE * minutes_left_spec(elapsed_ms) >= BUMP_COOLDOWN_MS - elapsed_ms,
        MS_PER_MINUTE * (minutes_left_spec(elapsed_ms) - 1) < BUMP_COOLDOWN_MS - elapsed_ms,
        minutes_left_spec(elapsed_ms) >= 1,
{
    let wait = BUMP_COOLDOWN_MS - elapsed_ms;
    let m = minutes_left_spec(elapsed_ms);
    assert(m == (wait + 59_999) / 60_000);
    assert(60_000 * m >= wait && 60_000 * (m - 1) < wait && m >= 1) by (nonlinear_arith)
        requires
            m == (wait + 59_999) / 60_000,
            wait > 0,
    ;
}

/// The text of the answer to a bump that comes `minutes` minutes too early.
pub fn slow_down_message(minutes: u64) -> (s: String)
    ensures
        s@ == slow_down_text(minutes as nat),
{
    let mut s = String::from_str("Slow down! You can bump again in ");
    push_decimal(&mut s, minutes);
    s.append(" minutes.");
    s
}

} // verus!
