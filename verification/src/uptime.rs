//! How long the bot has been up, in words.

use vstd::prelude::*;
use crate::keys::{Timestamp, Uptime};

verus! {

/// What `timeago::Formatter::convert` returns for a duration of `secs` seconds and
/// `nanos` nanoseconds, by a formatter set to emit `items` units and to end with `ago`.
pub uninterp spec fn timeago_text(secs: u64, nanos: u32, items: usize, ago: Seq<char>) -> Seq<char>;

/// Calls `timeago::Formatter::convert` on `Duration::new(secs, nanos)`, the formatter
/// made by `Formatter::new()` and set by `num_items(items)` and `ago(ago)`. The text is
/// named, not stated: it is the crate's rendering of the duration into units.
#[verifier::external_body]
fn timeago_convert(secs: u64, nanos: u32, items: usize, ago: &'static str) -> (text: String)
    requires
        nanos < 1_000_000_000,
        items > 0,
    ensures
        text@ == timeago_text(secs, nanos, items, ago@),
{
    let mut f = timeago::Formatter::new();
    f.num_items(items);
    f.ago(ago);
    f.convert(std::time::Duration::new(secs, nanos))
}

/// Whole seconds from `from` to `to`, borrowing a second when the nanoseconds fall short.
pub open spec fn elapsed_secs(from: Timestamp, to: Timestamp) -> int {
    if to.nanos >= from.nanos {
        to.secs - from.secs
    } else {
        to.secs - from.secs - 1
    }
}

/// Nanoseconds past the whole seconds from `from` to `to`.
pub open spec fn elapsed_nanos(from: Timestamp, to: Timestamp) -> int {
    if to.nanos >= from.nanos {
        to.nanos - from.nanos
    } else {
        to.nanos + 1_000_000_000 - from.nanos
    }
}

/// The span from `from` to `to` in words, as `convert_chrono` of a formatter
/// emitting four units and no "ago" gives it: "???" when `to` comes first.
pub open spec fn elapsed_text(from: Timestamp, to: Timestamp) -> Seq<char> {
    if to.instant() < from.instant() {
        "???"@
    } else {
        timeago_text(elapsed_secs(from, to) as u64, elapsed_nanos(from, to) as u32, 4, ""@)
    }
}

/// The two parts make up the span between the instants, the nanoseconds staying below a second.
pub proof fn lemma_elapsed_parts(from: Timestamp, to: Timestamp)
    requires
        from.wf(),
        to.wf(),
    ensures
        elapsed_secs(from, to) * 1_000_000_000 + elapsed_nanos(from, to) == to.instant() - from.instant(),
        0 <= elapsed_nanos(from, to) < 1_000_000_000,
        (to.instant() < from.instant()) <==> elapsed_secs(from, to) < 0,
{
}

/// The span from `from` to `to` in words ("???" when `to` comes first).
pub fn elapsed_words(from: Timestamp, to: Timestamp) -> (text: String)
    requires
        from.wf(),
        to.wf(),
    ensures
        text@ == elapsed_text(from, to),
{
    proof { lemma_elapsed_parts(from, to); }
    let (secs, nanos): (i128, u32) = if to.nanos >= from.nanos {
        ((to.secs as i128) - (from.secs as i128), to.nanos - from.nanos)
    } else {
        ((to.secs as i128) - (from.secs as i128) - 1, to.nanos + 1_000_000_000 - from.nanos)
    };
    if secs < 0 {
        String::from_str("???")
    } else {
        timeago_convert(secs as u64, nanos, 4, "")
    }
}

/// The text of the uptime report: "Uptime not available." when the shared state holds no
/// uptime record, "Uptime not available" when no boot time is recorded, else the time
/// since boot in words.
pub open spec fn uptime_text(record: Option<Map<Seq<char>, Timestamp>>, now: Timestamp) -> Seq<char> {
    match record {
        None => "Uptime not available."@,
        Some(m) => if m.contains_key("boot"@) {
            elapsed_text(m["boot"@], now)
        } else {
            "Uptime not available"@
        },
    }
}

/// The uptime report, given the uptime record of the shared state (if it holds one) and
/// the current time.
pub fn get_uptime(record: Option<&Uptime>, now: Timestamp) -> (text: String)
    requires
        now.wf(),
    ensures
        text@ == uptime_text(
            match record {
                Some(u) => Some(u@),
                None => None,
            },
            now,
        ),
{
    match record {
        None => String::from_str("Uptime not available."),
        Some(u) => match u.get("boot") {
            Some(boot) => elapsed_words(boot, now),
            None => String::from_str("Uptime not available"),
        },
    }
}

} // verus!
