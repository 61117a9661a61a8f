//! The polling cycle's decisions: which endpoint is fetched next, which
//! writes a result causes, and how long the loop waits before going on.
//!
//! The loop itself — the clock, the transport, the metric sink — lives
//! outside the library. It hands each fetch result to one of the two
//! handlers here and then performs the returned step: write the
//! operations, wait the returned number of seconds, fetch the returned
//! phase's endpoint. Every failure is non-fatal: the cycle restarts from
//! the health fetch after a short backoff, without a retry bound.

use vstd::prelude::*;

use crate::data::{FetchError, HealthData, StatsData};
use crate::mapping::{health_ops, spec_health_ops, spec_stats_ops, stats_ops, MetricOp};

verus! {

/// Seconds the loop waits after a failed fetch before restarting the
/// cycle; shorter than or equal to the steady-state interval.
pub const ERROR_BACKOFF_SECS: u64 = 30;

/// Seconds the loop waits after a fully successful cycle.
pub const POLL_INTERVAL_SECS: u64 = 30;

/// Which endpoint the loop fetches next.
#[derive(Clone, Copy, Debug, PartialEq, Eq, Structural)]
pub enum PollPhase {
    /// Fetch the health endpoint; every cycle starts here.
    Health,
    /// Fetch the statistics endpoint, reached only from a healthy fetch.
    Stats,
}

/// What the loop must do with one fetch result: write these operations,
/// wait this many seconds, then fetch the next phase's endpoint.
pub struct CycleStep {
    /// Sink writes caused by the result, in emission order.
    pub ops: Vec<MetricOp>,
    /// Seconds to wait before the next fetch; zero to go on at once.
    pub sleep_secs: u64,
    /// The endpoint to fetch next.
    pub next: PollPhase,
}

/// Decides the step after a health fetch. A payload is projected onto
/// the three health gauges and the statistics fetch follows at once; any
/// error yields no write, a short backoff, and a fresh cycle — the
/// statistics endpoint is not consulted that cycle.
pub fn handle_health_result(r: Result<HealthData, FetchError>) -> (step: CycleStep)
    ensures
        match r {
            Ok(h) => step.ops.deep_view() == spec_health_ops(h) && step.sleep_secs == 0
                && step.next == PollPhase::Stats,
            Err(_) => step.ops.len() == 0 && step.sleep_secs == ERROR_BACKOFF_SECS && step.next
                == PollPhase::Health,
        },
{
    match r {
        Ok(h) => CycleStep { ops: health_ops(&h), sleep_secs: 0, next: PollPhase::Stats },
        Err(_) => CycleStep {
            ops: Vec::new(),
            sleep_secs: ERROR_BACKOFF_SECS,
            next: PollPhase::Health,
        },
    }
}

/// Decides the step after a statistics fetch. A payload is projected
/// onto every statistics metric and the loop then idles for the steady
/// interval; any error yields no write and the short backoff. Either
/// way the next cycle starts over at the health endpoint.
pub fn handle_stats_result(r: Result<StatsData, FetchError>) -> (step: CycleStep)
    ensures
        match r {
            Ok(s) => step.ops.deep_view() == spec_stats_ops(s@) && step.sleep_secs
                == POLL_INTERVAL_SECS && step.next == PollPhase::Health,
            Err(_) => step.ops.len() == 0 && step.sleep_secs == ERROR_BACKOFF_SECS && step.next
                == PollPhase::Health,
        },
{
    match r {
        Ok(s) => CycleStep {
            ops: stats_ops(&s),
            sleep_secs: POLL_INTERVAL_SECS,
            next: PollPhase::Health,
        },
        Err(_) => CycleStep {
            ops: Vec::new(),
            sleep_secs: ERROR_BACKOFF_SECS,
            next: PollPhase::Health,
        },
    }
}

} // verus!
