//! When the stock check runs: once a day at ten o'clock local time.

use vstd::prelude::*;
use crate::keys::Timestamp;

verus! {

/// One day in nanoseconds.
pub open spec fn day_nanos() -> int {
    86_400_000_000_000
}

/// The instant of the next check: ten o'clock today, or tomorrow when that has passed.
pub open spec fn next_check_instant(now: Timestamp, ten_today: Timestamp) -> int {
    if ten_today.instant() < now.instant() {
        ten_today.instant() + day_nanos()
    } else {
        ten_today.instant()
    }
}

/// Both times are well formed, ten o'clock of today (or of tomorrow, once passed) is not
/// before now, and the wait in whole seconds fits a `u64`.
pub open spec fn wait_in_range(now: Timestamp, ten_today: Timestamp) -> bool {
    &&& now.wf()
    &&& ten_today.wf()
    &&& now.instant() <= next_check_instant(now, ten_today)
    &&& next_check_instant(now, ten_today) - now.instant() < (u64::MAX + 1) * 1_000_000_000
}

/// Whether the wait until the next check can be had for these times.
pub fn wait_is_in_range(now: Timestamp, ten_today: Timestamp) -> (ok: bool)
    ensures
        ok == wait_in_range(now, ten_today),
{
    if now.nanos >= 1_000_000_000 || ten_today.nanos >= 1_000_000_000 {
        return false;
    }
    let whole = whole_seconds_to_next_check(now, ten_today);
    0 <= whole && whole <= u64::MAX as i128
}

fn whole_seconds_to_next_check(now: Timestamp, ten_today: Timestamp) -> (whole: i128)
    requires
        now.wf(),
        ten_today.wf(),
    ensures
        whole * 1_000_000_000 <= next_check_instant(now, ten_today) - now.instant() < (whole + 1)
            * 1_000_000_000,
{
    let passed = ten_today.secs < now.secs || (ten_today.secs == now.secs && ten_today.nanos
        < now.nanos);
    let target_secs: i128 = if passed {
        (ten_today.secs as i128) + 86_400
    } else {
        ten_today.secs as i128
    };
    if ten_today.nanos >= now.nanos {
        target_secs - (now.secs as i128)
    } else {
        target_secs - (now.secs as i128) - 1
    }
}

/// The whole seconds to sleep until the next check, given the current time and ten o'clock
/// of the current local date. The wait is cut down to whole seconds.
pub fn seconds_until_next_check(now: Timestamp, ten_today: Timestamp) -> (secs: u64)
    requires
        wait_in_range(now, ten_today),
    ensures
        secs * 1_000_000_000 <= next_check_instant(now, ten_today) - now.instant() < (secs + 1)
            * 1_000_000_000,
{
    let whole = whole_seconds_to_next_check(now, ten_today);
    whole as u64
}

/// When ten o'clock of the current date lies within a day of now, the check loop sleeps
/// less than a day, and wakes at ten o'clock (to within the second cut off).
pub proof fn lemma_wait_under_a_day(now: Timestamp, ten_today: Timestamp, secs: int)
    requires
        wait_in_range(now, ten_today),
        now.instant() - day_nanos() < ten_today.instant() < now.instant() + day_nanos(),
        secs * 1_000_000_000 <= next_check_instant(now, ten_today) - now.instant() < (secs + 1)
            * 1_000_000_000,
    ensures
        0 <= secs < 86_400,
        next_check_instant(now, ten_today) == ten_today.instant() || next_check_instant(now, ten_today)
            == ten_today.instant() + day_nanos(),
{
}

/// Whether the stock check loop is started when the cache is ready, and the running flag
/// afterwards: the loop is started when it is not running yet, so that one loop runs over
/// repeated ready events, and the flag is up afterwards.
pub fn start_check_loop(loop_running: bool) -> (r: (bool, bool))
    ensures
        r.0 == !loop_running,
        r.1 == true,
{
    (!loop_running, true)
}

} // verus!
