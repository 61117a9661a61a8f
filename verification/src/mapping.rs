//! The fixed set of metrics and the rules that project a payload onto
//! them: every successful fetch becomes a sequence of sink operations.

use vstd::prelude::*;

use crate::data::{FloatBits, HealthData, StatsData, StatsView, UserStatsData, UserStatsView};

verus! {

/// The metrics this bridge exports. Each instance is registered once at
/// startup and overwritten on every cycle.
#[derive(Clone, Copy, Debug, PartialEq, Eq, Structural)]
pub enum MetricId {
    /// Gauge: overall health of the bot.
    OverallUp,
    /// Gauge: connection to the chat workspace.
    SlackUp,
    /// Gauge: connection to the database.
    DatabaseUp,
    /// Absolute counter: tickets ever observed.
    TicketsTotal,
    /// Gauge: currently open tickets.
    OpenTickets,
    /// Gauge: tickets in progress.
    InProgressTickets,
    /// Gauge: closed tickets.
    ClosedTickets,
    /// Gauge: average resolution time, in minutes.
    AverageHangTimeMinutes,
    /// Gauge: tickets of the previous day.
    TicketsPrev24h,
    /// Gauge: open tickets of the previous day.
    OpenTicketsPrev24h,
    /// Gauge: in-progress tickets of the previous day.
    InProgressTicketsPrev24h,
    /// Gauge: closed tickets of the previous day.
    ClosedTicketsPrev24h,
    /// Gauge: average resolution time of the previous day, in minutes.
    AverageHangTimePrev24hMinutes,
    /// Labeled absolute counter: closed tickets per top user.
    UserClosedTicketsTotal,
    /// Labeled gauge: closed tickets per top user, previous day.
    UserClosedTicketsPrev24h,
}

/// One write against the metric sink.
#[derive(Clone, Debug)]
pub enum MetricOp {
    /// Overwrite a gauge with an integer value.
    SetGauge { metric: MetricId, value: u64 },
    /// Overwrite a gauge with a floating-point value, carried as bits.
    SetGaugeBits { metric: MetricId, bits: FloatBits },
    /// Overwrite a counter's running total with an observed cumulative value.
    SetCounterAbsolute { metric: MetricId, value: u64 },
    /// Overwrite a per-user labeled counter's running total.
    SetLabeledCounterAbsolute { metric: MetricId, internal_id: u64, slack_id: String, value: u64 },
    /// Overwrite a per-user labeled gauge.
    SetLabeledGauge { metric: MetricId, internal_id: u64, slack_id: String, value: u64 },
}

/// Mathematical image of a [`MetricOp`].
pub enum MetricOpView {
    SetGauge { metric: MetricId, value: u64 },
    SetGaugeBits { metric: MetricId, bits: FloatBits },
    SetCounterAbsolute { metric: MetricId, value: u64 },
    SetLabeledCounterAbsolute { metric: MetricId, internal_id: u64, slack_id: Seq<char>, value: u64 },
    SetLabeledGauge { metric: MetricId, internal_id: u64, slack_id: Seq<char>, value: u64 },
}

impl View for MetricOp {
    type V = MetricOpView;

    open spec fn view(&self) -> MetricOpView {
        match self {
            MetricOp::SetGauge { metric, value } => MetricOpView::SetGauge {
                metric: *metric,
                value: *value,
            },
            MetricOp::SetGaugeBits { metric, bits } => MetricOpView::SetGaugeBits {
                metric: *metric,
                bits: *bits,
            },
            MetricOp::SetCounterAbsolute { metric, value } => MetricOpView::SetCounterAbsolute {
                metric: *metric,
                value: *value,
            },
            MetricOp::SetLabeledCounterAbsolute { metric, internal_id, slack_id, value } => (
                MetricOpView::SetLabeledCounterAbsolute {
                    metric: *metric,
                    internal_id: *internal_id,
                    slack_id: slack_id@,
                    value: *value,
                }
            ),
            MetricOp::SetLabeledGauge { metric, internal_id, slack_id, value } => (
                MetricOpView::SetLabeledGauge {
                    metric: *metric,
                    internal_id: *internal_id,
                    slack_id: slack_id@,
                    value: *value,
                }
            ),
        }
    }
}

impl DeepView for MetricOp {
    type V = MetricOpView;

    open spec fn deep_view(&self) -> MetricOpView {
        self.view()
    }
}

/// How a boolean health flag reads on a gauge: 1 for true, 0 for false.
pub open spec fn gauge_of_bool(b: bool) -> u64 {
    if b {
        1
    } else {
        0
    }
}

/// The three health gauges, each exactly the 0/1 image of its flag.
pub open spec fn spec_health_ops(h: HealthData) -> Seq<MetricOpView> {
    seq![
        MetricOpView::SetGauge { metric: MetricId::OverallUp, value: gauge_of_bool(h.healthy) },
        MetricOpView::SetGauge { metric: MetricId::SlackUp, value: gauge_of_bool(h.slack) },
        MetricOpView::SetGauge { metric: MetricId::DatabaseUp, value: gauge_of_bool(h.database) },
    ]
}

/// Per-user absolute counters for the current window's top-users list.
pub open spec fn spec_user_counter_ops(users: Seq<UserStatsView>) -> Seq<MetricOpView> {
    users.map_values(
        |u: UserStatsView|
            MetricOpView::SetLabeledCounterAbsolute {
                metric: MetricId::UserClosedTicketsTotal,
                internal_id: u.user_id,
                slack_id: u.slack_id,
                value: u.closed_ticket_count,
            },
    )
}

/// Per-user gauges for the previous day's top-users list.
pub open spec fn spec_prev_user_gauge_ops(users: Seq<UserStatsView>) -> Seq<MetricOpView> {
    users.map_values(
        |u: UserStatsView|
            MetricOpView::SetLabeledGauge {
                metric: MetricId::UserClosedTicketsPrev24h,
                internal_id: u.user_id,
                slack_id: u.slack_id,
                value: u.closed_ticket_count,
            },
    )
}

/// The aggregate writes for the current window, in emission order.
pub open spec fn spec_stats_aggregate_ops(s: StatsView) -> Seq<MetricOpView> {
    seq![
        MetricOpView::SetCounterAbsolute { metric: MetricId::TicketsTotal, value: s.total_tickets },
        MetricOpView::SetGauge { metric: MetricId::OpenTickets, value: s.total_open },
        MetricOpView::SetGauge { metric: MetricId::InProgressTickets, value: s.total_in_progress },
        MetricOpView::SetGauge { metric: MetricId::ClosedTickets, value: s.total_closed },
        MetricOpView::SetGaugeBits {
            metric: MetricId::AverageHangTimeMinutes,
            bits: s.average_hang_time_minutes,
        },
    ]
}

/// The aggregate writes mirrored for the previous day, in emission order.
pub open spec fn spec_prev_day_aggregate_ops(s: StatsView) -> Seq<MetricOpView> {
    seq![
        MetricOpView::SetGauge { metric: MetricId::TicketsPrev24h, value: s.prev_day_total },
        MetricOpView::SetGauge { metric: MetricId::OpenTicketsPrev24h, value: s.prev_day_open },
        MetricOpView::SetGauge {
            metric: MetricId::InProgressTicketsPrev24h,
            value: s.prev_day_in_progress,
        },
        MetricOpView::SetGauge { metric: MetricId::ClosedTicketsPrev24h, value: s.prev_day_closed },
        MetricOpView::SetGaugeBits {
            metric: MetricId::AverageHangTimePrev24hMinutes,
            bits: s.prev_day_average_hang_time_minutes,
        },
    ]
}

/// Every write a statistics payload causes, in emission order: current
/// aggregates, current top users, previous-day aggregates, previous-day
/// top users.
pub open spec fn spec_stats_ops(s: StatsView) -> Seq<MetricOpView> {
    spec_stats_aggregate_ops(s) + spec_user_counter_ops(s.total_top_3_users_with_closed_tickets)
        + spec_prev_day_aggregate_ops(s) + spec_prev_user_gauge_ops(
        s.prev_day_top_3_users_with_closed_tickets,
    )
}

/// The gauge reading of a boolean flag.
pub fn gauge_value(b: bool) -> (v: u64)
    ensures
        v == gauge_of_bool(b),
{
    if b {
        1
    } else {
        0
    }
}

/// Projects a health payload onto the three health gauges.
pub fn health_ops(h: &HealthData) -> (ops: Vec<MetricOp>)
    ensures
        ops.deep_view() == spec_health_ops(*h),
{
    let mut ops: Vec<MetricOp> = Vec::new();
    ops.push(MetricOp::SetGauge { metric: MetricId::OverallUp, value: gauge_value(h.healthy) });
    ops.push(MetricOp::SetGauge { metric: MetricId::SlackUp, value: gauge_value(h.slack) });
    ops.push(MetricOp::SetGauge { metric: MetricId::DatabaseUp, value: gauge_value(h.database) });
    proof {
        assert(ops.deep_view() =~= spec_health_ops(*h));
    }
    ops
}

/// Emits the per-user absolute counters for a current-window list.
fn user_counter_ops(users: &Vec<UserStatsData>) -> (ops: Vec<MetricOp>)
    ensures
        ops.deep_view() == spec_user_counter_ops(users.deep_view()),
{
    let mut ops: Vec<MetricOp> = Vec::new();
    let mut i: usize = 0;
    while i < users.len()
        invariant
            i <= users.len(),
            ops.deep_view() =~= spec_user_counter_ops(users.deep_view()).take(i as int),
        decreases users.len() - i,
    {
        let ghost j = i as int;
        let ghost d = users.deep_view();
        let ghost pre = ops.deep_view();
        let u = &users[i];
        ops.push(
            MetricOp::SetLabeledCounterAbsolute {
                metric: MetricId::UserClosedTicketsTotal,
                internal_id: u.user_id,
                slack_id: u.slack_id.clone(),
                value: u.closed_ticket_count,
            },
        );
        i += 1;
        proof {
            assert(pre.len() == j);
            assert forall|k: int|
                0 <= k < j + 1 implies ops.deep_view()[k] == spec_user_counter_ops(d).take(
                j + 1,
            )[k] by {
                if k < j {
                    assert(ops.deep_view()[k] == pre[k]);
                    assert(pre[k] == spec_user_counter_ops(d).take(j)[k]);
                }
            }
            assert(ops.deep_view() =~= spec_user_counter_ops(d).take(j + 1));
        }
    }
    proof {
        assert(spec_user_counter_ops(users.deep_view()).take(users.len() as int)
            =~= spec_user_counter_ops(users.deep_view()));
    }
    ops
}

/// Emits the per-user gauges for a previous-day list.
fn prev_user_gauge_ops(users: &Vec<UserStatsData>) -> (ops: Vec<MetricOp>)
    ensures
        ops.deep_view() == spec_prev_user_gauge_ops(users.deep_view()),
{
    let mut ops: Vec<MetricOp> = Vec::new();
    let mut i: usize = 0;
    while i < users.len()
        invariant
            i <= users.len(),
            ops.deep_view() =~= spec_prev_user_gauge_ops(users.deep_view()).take(i as int),
        decreases users.len() - i,
    {
        let ghost j = i as int;
        let ghost d = users.deep_view();
        let ghost pre = ops.deep_view();
        let u = &users[i];
        ops.push(
            MetricOp::SetLabeledGauge {
                metric: MetricId::UserClosedTicketsPrev24h,
                internal_id: u.user_id,
                slack_id: u.slack_id.clone(),
                value: u.closed_ticket_count,
            },
        );
        i += 1;
        proof {
            assert(pre.len() == j);
            assert forall|k: int|
                0 <= k < j + 1 implies ops.deep_view()[k] == spec_prev_user_gauge_ops(d).take(
                j + 1,
            )[k] by {
                if k < j {
                    assert(ops.deep_view()[k] == pre[k]);
                    assert(pre[k] == spec_prev_user_gauge_ops(d).take(j)[k]);
                }
            }
            assert(ops.deep_view() =~= spec_prev_user_gauge_ops(d).take(j + 1));
        }
    }
    proof {
        assert(spec_prev_user_gauge_ops(users.deep_view()).take(users.len() as int)
            =~= spec_prev_user_gauge_ops(users.deep_view()));
    }
    ops
}

/// Projects a statistics payload onto every statistics metric: the
/// total-tickets counter is set absolutely to the payload's total, the
/// aggregate gauges are overwritten, and each top-user entry becomes one
/// labeled write.
pub fn stats_ops(s: &StatsData) -> (ops: Vec<MetricOp>)
    ensures
        ops.deep_view() == spec_stats_ops(s@),
{
    let mut ops: Vec<MetricOp> = Vec::new();
    ops.push(MetricOp::SetCounterAbsolute { metric: MetricId::TicketsTotal, value: s.total_tickets });
    ops.push(MetricOp::SetGauge { metric: MetricId::OpenTickets, value: s.total_open });
    ops.push(MetricOp::SetGauge { metric: MetricId::InProgressTickets, value: s.total_in_progress });
    ops.push(MetricOp::SetGauge { metric: MetricId::ClosedTickets, value: s.total_closed });
    ops.push(
        MetricOp::SetGaugeBits {
            metric: MetricId::AverageHangTimeMinutes,
            bits: s.average_hang_time_minutes,
        },
    );
    let mut current_users = user_counter_ops(&s.total_top_3_users_with_closed_tickets);
    ops.append(&mut current_users);
    ops.push(MetricOp::SetGauge { metric: MetricId::TicketsPrev24h, value: s.prev_day_total });
    ops.push(MetricOp::SetGauge { metric: MetricId::OpenTicketsPrev24h, value: s.prev_day_open });
    ops.push(
        MetricOp::SetGauge {
            metric: MetricId::InProgressTicketsPrev24h,
            value: s.prev_day_in_progress,
        },
    );
    ops.push(MetricOp::SetGauge { metric: MetricId::ClosedTicketsPrev24h, value: s.prev_day_closed });
    ops.push(
        MetricOp::SetGaugeBits {
            metric: MetricId::AverageHangTimePrev24hMinutes,
            bits: s.prev_day_average_hang_time_minutes,
        },
    );
    let mut prev_users = prev_user_gauge_ops(&s.prev_day_top_3_users_with_closed_tickets);
    ops.append(&mut prev_users);
    proof {
        assert(ops.deep_view() =~= spec_stats_ops(s@));
    }
    ops
}

} // verus!
