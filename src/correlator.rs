use vstd::prelude::*;
use crate::mailbox::Mailbox;

verus! {

/// Largest age, in milliseconds, that a fix may have at a PPS edge; a fix of
/// exactly this age is already stale.
pub const FRESHNESS_WINDOW_MS: u64 = 800;

/// Seconds added to a fix's time at the PPS edge that follows it: the edge
/// marks the start of the next second.
pub const PPS_SECOND_OFFSET: i64 = 1;

/// A parsed fix paired with the local instant at which it was parsed.
#[derive(Clone, Copy, Debug, PartialEq, Eq, Structural)]
pub struct CorrelatedFix {
    /// Local monotonic time of the parse, in milliseconds.
    pub captured_at: u64,
    /// Unix time, in seconds, that the fix reports.
    pub unix_time: i64,
}

/// Whether `fix` may still be paired with an edge seen at local time `now`.
pub open spec fn is_fresh(fix: CorrelatedFix, now: u64) -> bool {
    fix.captured_at <= now && now - fix.captured_at < FRESHNESS_WINDOW_MS
}

/// What a PPS edge at `now` does to the mailbox slot: the slot is always
/// drained, and a fresh fix yields its time plus one second.
pub open spec fn edge_outcome(slot: Option<CorrelatedFix>, now: u64) -> (
    Option<CorrelatedFix>,
    Option<int>,
) {
    match slot {
        Some(f) => if is_fresh(f, now) {
            (None, Some(f.unix_time + PPS_SECOND_OFFSET))
        } else {
            (None, None)
        },
        None => (None, None),
    }
}

/// Handles a rising PPS edge seen at local time `now` (milliseconds): takes
/// the pending fix, if any, and returns the validated Unix time of the edge
/// when that fix is fresh.
pub fn on_pps_edge(mailbox: &mut Mailbox<CorrelatedFix>, now: u64) -> (r: Option<i64>)
    requires
        match old(mailbox)@ {
            Some(f) => f.unix_time < i64::MAX,
            None => true,
        },
    ensures
        final(mailbox)@ == edge_outcome(old(mailbox)@, now).0,
        match r {
            Some(t) => edge_outcome(old(mailbox)@, now).1 == Some(t as int),
            None => edge_outcome(old(mailbox)@, now).1 is None,
        },
{
    match mailbox.try_take() {
        Some(fix) => {
            if fix.captured_at <= now && now - fix.captured_at < FRESHNESS_WINDOW_MS {
                Some(fix.unix_time + PPS_SECOND_OFFSET)
            } else {
                None
            }
        },
        None => None,
    }
}

/// A fix is accepted by an edge exactly when its age is under the window;
/// at an age of exactly the window it is refused.
pub proof fn freshness_window_is_exclusive(fix: CorrelatedFix, now: u64)
    requires
        fix.captured_at <= now,
    ensures
        (edge_outcome(Some(fix), now).1 is Some) <==> now - fix.captured_at < FRESHNESS_WINDOW_MS,
        now - fix.captured_at == FRESHNESS_WINDOW_MS ==> edge_outcome(Some(fix), now).1 is None,
        edge_outcome(Some(fix), now).1 is Some ==> edge_outcome(Some(fix), now).1 == Some(
            fix.unix_time + 1,
        ),
{
}

/// Of two PPS edges with no fix put in between, the second always finds the
/// mailbox empty and yields nothing, whatever the first did.
pub proof fn second_edge_finds_nothing(slot: Option<CorrelatedFix>, first: u64, second: u64)
    ensures
        edge_outcome(edge_outcome(slot, first).0, second).0 is None,
        edge_outcome(edge_outcome(slot, first).0, second).1 is None,
{
}

} // verus!
