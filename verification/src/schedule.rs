//! The tick schedule of a room run: when the injected anomaly is active and
//! when conservation is checked.

use vstd::prelude::*;

verus! {

/// How many consecutive ticks an injected anomaly lasts.
pub const ANOMALY_TICKS: usize = 100;

/// Conservation is checked on ticks that are multiples of this.
pub const CHECK_INTERVAL: usize = 100;

/// The anomaly scheduled at `anomaly_at`, if any, covers `tick`: it starts
/// at that tick and lasts `ANOMALY_TICKS` ticks.
pub open spec fn anomaly_covers(tick: nat, anomaly_at: Option<usize>) -> bool {
    match anomaly_at {
        Some(at) => at <= tick < at + ANOMALY_TICKS,
        None => false,
    }
}

/// Whether the anomaly scheduled at `anomaly_at` is active on `tick`.
pub fn in_anomaly_window(tick: usize, anomaly_at: Option<usize>) -> (active: bool)
    ensures
        active == anomaly_covers(tick as nat, anomaly_at),
        active <==> (anomaly_at matches Some(at) && at <= tick && tick < at + 100),
{
    match anomaly_at {
        Some(at) => tick >= at && tick - at < ANOMALY_TICKS,
        None => false,
    }
}

/// A conservation check is due on `tick` when the tick is a multiple of
/// `CHECK_INTERVAL` and both databases hold at least one entry.
pub open spec fn check_due(tick: nat, count_in: nat, count_out: nat) -> bool {
    tick % (CHECK_INTERVAL as nat) == 0 && count_in > 0 && count_out > 0
}

/// Whether the periodic conservation check runs on `tick`, given the sizes
/// of the two databases.
pub fn conservation_check_due(tick: usize, count_in: usize, count_out: usize) -> (due: bool)
    ensures
        due == check_due(tick as nat, count_in as nat, count_out as nat),
        due <==> (tick % 100 == 0 && count_in > 0 && count_out > 0),
{
    tick % CHECK_INTERVAL == 0 && count_in > 0 && count_out > 0
}

/// An anomaly scheduled at `at` is active on exactly the hundred ticks
/// `at, at + 1, ..., at + 99`, and no tick is covered when none is scheduled.
pub proof fn lemma_anomaly_lasts_a_hundred_ticks(at: usize, tick: nat)
    ensures
        anomaly_covers(tick, Some(at)) <==> (at <= tick && tick < at + 100),
        anomaly_covers(tick, Some(at)) <==> (tick >= at && tick - at < 100),
        !anomaly_covers(tick, None),
        anomaly_covers(at as nat, Some(at)),
        anomaly_covers((at + 99) as nat, Some(at)),
        !anomaly_covers((at + 100) as nat, Some(at)),
{
}

/// A conservation check is due on every tick that is a multiple of a
/// hundred while both databases are non-empty, on no other tick, and the
/// sizes of the databases matter only through whether they are empty.
pub proof fn lemma_check_every_hundred_ticks(tick: nat, count_in: nat, count_out: nat)
    ensures
        tick % 100 == 0 && count_in > 0 && count_out > 0 ==> check_due(tick, count_in, count_out),
        tick % 100 != 0 ==> !check_due(tick, count_in, count_out),
        tick % 100 == 0 ==> (check_due(tick, count_in, count_out) <==> (count_in >= 1
            && count_out >= 1)),
        check_due(tick, count_in, count_out) ==> check_due(tick, count_in + 1, count_out)
            && check_due(tick, count_in, count_out + 1) && check_due(tick + 100, count_in, count_out),
{
}

} // verus!
