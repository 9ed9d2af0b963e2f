//! The collector's loop logic: each cycle samples fresh metrics, formats
//! them, and attempts one best-effort delivery over a fresh connection. The
//! decision after a cycle is stated here and proved independent of how the
//! delivery went; the socket work itself stays outside.

use crate::config::INTERVAL_SECS;
use vstd::prelude::*;

verus! {

/// How one delivery attempt ended.
pub enum DeliveryOutcome {
    /// The connection was opened and the whole payload was written.
    Delivered,
    /// The connection attempt failed; nothing was written.
    ConnectFailed,
    /// The connection was opened but the write failed.
    WriteFailed,
}

/// What the collector does after a cycle: log the failure, if any, to
/// standard error, sleep this many seconds, then start the next cycle.
pub struct NextCycle {
    /// Seconds to sleep before sampling again.
    pub sleep_secs: u64,
}

/// The step the collector's loop prescribes after an outcome.
pub open spec fn spec_cycle_step(outcome: DeliveryOutcome) -> NextCycle {
    NextCycle { sleep_secs: INTERVAL_SECS }
}

/// Decides what the collector does after one delivery attempt: whatever the
/// outcome, it sleeps the fixed interval and runs the next cycle. No failure
/// aborts the loop; no retry happens within a cycle.
pub fn cycle_step(outcome: &DeliveryOutcome) -> (n: NextCycle)
    ensures
        n == spec_cycle_step(*outcome),
        n.sleep_secs == INTERVAL_SECS,
{
    NextCycle { sleep_secs: INTERVAL_SECS }
}

/// Cycles are independent: the step after a failed delivery is exactly the
/// step after a successful one — the same fixed sleep, then a fresh cycle.
pub proof fn lemma_cycles_independent(a: DeliveryOutcome, b: DeliveryOutcome)
    ensures
        spec_cycle_step(a) == spec_cycle_step(b),
        spec_cycle_step(a).sleep_secs == INTERVAL_SECS,
{
}

} // verus!
