use support_watcher::data::{FloatBits, HealthData, StatsData, UserStatsData};
use support_watcher::mapping::{health_ops, stats_ops, MetricId, MetricOp};
use support_watcher::store::{LabelPair, MetricKey, MetricStore};

fn unlabeled(metric: MetricId) -> MetricKey {
    MetricKey { metric, labels: None }
}

fn labeled(metric: MetricId, internal_id: u64, slack_id: &str) -> MetricKey {
    MetricKey {
        metric,
        labels: Some(LabelPair { internal_id, slack_id: slack_id.to_owned() }),
    }
}

fn stats_with_totals(total_tickets: u64) -> StatsData {
    StatsData {
        total_tickets,
        total_open: 2,
        total_in_progress: 1,
        total_closed: 7,
        total_top_3_users_with_closed_tickets: Vec::new(),
        average_hang_time_minutes: FloatBits(f64::to_bits(1.0)),
        prev_day_total: 0,
        prev_day_open: 0,
        prev_day_in_progress: 0,
        prev_day_closed: 0,
        prev_day_top_3_users_with_closed_tickets: Vec::new(),
        prev_day_average_hang_time_minutes: FloatBits(f64::to_bits(0.0)),
    }
}

#[test]
fn absolute_counter_overwrites_not_adds() {
    let mut store = MetricStore::new();
    store.apply(&MetricOp::SetCounterAbsolute { metric: MetricId::TicketsTotal, value: 10 });
    store.apply(&MetricOp::SetCounterAbsolute { metric: MetricId::TicketsTotal, value: 7 });
    assert_eq!(store.get(&unlabeled(MetricId::TicketsTotal)), Some(7));
}

#[test]
fn total_tickets_counter_equals_payload_total() {
    let mut store = MetricStore::new();
    store.apply_all(&stats_ops(&stats_with_totals(120)));
    assert_eq!(store.get(&unlabeled(MetricId::TicketsTotal)), Some(120));
    store.apply_all(&stats_ops(&stats_with_totals(95)));
    assert_eq!(store.get(&unlabeled(MetricId::TicketsTotal)), Some(95));
}

#[test]
fn health_gauges_reflect_payload() {
    let mut store = MetricStore::new();
    store.apply_all(&health_ops(&HealthData { healthy: true, slack: false, database: true }));
    assert_eq!(store.get(&unlabeled(MetricId::OverallUp)), Some(1));
    assert_eq!(store.get(&unlabeled(MetricId::SlackUp)), Some(0));
    assert_eq!(store.get(&unlabeled(MetricId::DatabaseUp)), Some(1));
    // an unconditional overwrite on the next cycle
    store.apply_all(&health_ops(&HealthData { healthy: false, slack: true, database: true }));
    assert_eq!(store.get(&unlabeled(MetricId::OverallUp)), Some(0));
    assert_eq!(store.get(&unlabeled(MetricId::SlackUp)), Some(1));
}

#[test]
fn three_top_users_set_three_distinct_counters() {
    let mut stats = stats_with_totals(50);
    stats.total_top_3_users_with_closed_tickets = vec![
        UserStatsData { user_id: 1, slack_id: "U1".to_owned(), closed_ticket_count: 5 },
        UserStatsData { user_id: 2, slack_id: "U2".to_owned(), closed_ticket_count: 3 },
        UserStatsData { user_id: 3, slack_id: "U3".to_owned(), closed_ticket_count: 1 },
    ];
    let mut store = MetricStore::new();
    store.apply_all(&stats_ops(&stats));
    assert_eq!(store.get(&labeled(MetricId::UserClosedTicketsTotal, 1, "U1")), Some(5));
    assert_eq!(store.get(&labeled(MetricId::UserClosedTicketsTotal, 2, "U2")), Some(3));
    assert_eq!(store.get(&labeled(MetricId::UserClosedTicketsTotal, 3, "U3")), Some(1));
    // no stray series for a label set never written
    assert_eq!(store.get(&labeled(MetricId::UserClosedTicketsTotal, 4, "U4")), None);
}

#[test]
fn dropping_out_of_top_n_freezes_the_series() {
    let mut first = stats_with_totals(10);
    first.total_top_3_users_with_closed_tickets = vec![UserStatsData {
        user_id: 1,
        slack_id: "U1".to_owned(),
        closed_ticket_count: 5,
    }];
    let mut second = stats_with_totals(11);
    second.total_top_3_users_with_closed_tickets = vec![UserStatsData {
        user_id: 2,
        slack_id: "U2".to_owned(),
        closed_ticket_count: 6,
    }];
    let mut store = MetricStore::new();
    store.apply_all(&stats_ops(&first));
    store.apply_all(&stats_ops(&second));
    // the series of the user who dropped out keeps its last value
    assert_eq!(store.get(&labeled(MetricId::UserClosedTicketsTotal, 1, "U1")), Some(5));
    assert_eq!(store.get(&labeled(MetricId::UserClosedTicketsTotal, 2, "U2")), Some(6));
}

#[test]
fn labeled_and_unlabeled_series_are_distinct() {
    let mut store = MetricStore::new();
    store.apply(&MetricOp::SetGauge { metric: MetricId::OpenTickets, value: 9 });
    store.apply(&MetricOp::SetLabeledGauge {
        metric: MetricId::OpenTickets,
        internal_id: 1,
        slack_id: "U1".to_owned(),
        value: 4,
    });
    assert_eq!(store.get(&unlabeled(MetricId::OpenTickets)), Some(9));
    assert_eq!(store.get(&labeled(MetricId::OpenTickets, 1, "U1")), Some(4));
}

#[test]
fn float_gauge_bits_pass_through_unchanged() {
    let mut store = MetricStore::new();
    store.apply(&MetricOp::SetGaugeBits {
        metric: MetricId::AverageHangTimeMinutes,
        bits: FloatBits(f64::to_bits(3.75)),
    });
    let raw = store.get(&unlabeled(MetricId::AverageHangTimeMinutes)).unwrap();
    assert_eq!(f64::from_bits(raw), 3.75);
}
