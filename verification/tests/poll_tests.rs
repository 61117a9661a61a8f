use support_watcher::data::{FetchError, FloatBits, HealthData, StatsData};
use support_watcher::mapping::{MetricId, MetricOp};
use support_watcher::poll::{
    handle_health_result, handle_stats_result, PollPhase, ERROR_BACKOFF_SECS, POLL_INTERVAL_SECS,
};

fn healthy() -> HealthData {
    HealthData { healthy: true, slack: true, database: true }
}

fn empty_stats() -> StatsData {
    StatsData {
        total_tickets: 42,
        total_open: 0,
        total_in_progress: 0,
        total_closed: 0,
        total_top_3_users_with_closed_tickets: Vec::new(),
        average_hang_time_minutes: FloatBits(f64::to_bits(0.0)),
        prev_day_total: 0,
        prev_day_open: 0,
        prev_day_in_progress: 0,
        prev_day_closed: 0,
        prev_day_top_3_users_with_closed_tickets: Vec::new(),
        prev_day_average_hang_time_minutes: FloatBits(f64::to_bits(0.0)),
    }
}

#[test]
fn health_failure_backs_off_and_restarts_the_cycle() {
    let step = handle_health_result(Err(FetchError::Transport("connection refused".to_owned())));
    assert!(step.ops.is_empty());
    assert_eq!(step.sleep_secs, ERROR_BACKOFF_SECS);
    assert_eq!(step.next, PollPhase::Health);
}

#[test]
fn health_success_goes_straight_to_stats() {
    let step = handle_health_result(Ok(healthy()));
    assert_eq!(step.ops.len(), 3);
    assert_eq!(step.sleep_secs, 0);
    assert_eq!(step.next, PollPhase::Stats);
}

#[test]
fn stats_failure_backs_off_and_restarts_the_cycle() {
    let step = handle_stats_result(Err(FetchError::Decode("missing field".to_owned())));
    assert!(step.ops.is_empty());
    assert_eq!(step.sleep_secs, ERROR_BACKOFF_SECS);
    assert_eq!(step.next, PollPhase::Health);
}

#[test]
fn stats_success_idles_then_restarts_the_cycle() {
    let step = handle_stats_result(Ok(empty_stats()));
    assert!(!step.ops.is_empty());
    assert_eq!(step.sleep_secs, POLL_INTERVAL_SECS);
    assert_eq!(step.next, PollPhase::Health);
}

/// What a mock-clock-driven run of the loop observes: the failing
/// health fetch causes a backoff and a fresh health fetch, never a
/// statistics fetch in between.
#[test]
fn transport_failure_skips_stats_for_the_cycle() {
    #[derive(Debug, PartialEq)]
    enum Event {
        HealthFetch,
        StatsFetch,
        Sleep(u64),
    }

    let mut events: Vec<Event> = Vec::new();
    let mut health_results = vec![
        Err(FetchError::Transport("timeout".to_owned())),
        Ok(healthy()),
    ];

    let mut phase = PollPhase::Health;
    for _ in 0..3 {
        match phase {
            PollPhase::Health => {
                events.push(Event::HealthFetch);
                let step = handle_health_result(health_results.remove(0));
                if step.sleep_secs > 0 {
                    events.push(Event::Sleep(step.sleep_secs));
                }
                phase = step.next;
            }
            PollPhase::Stats => {
                events.push(Event::StatsFetch);
                let step = handle_stats_result(Ok(empty_stats()));
                if step.sleep_secs > 0 {
                    events.push(Event::Sleep(step.sleep_secs));
                }
                phase = step.next;
            }
        }
    }

    assert_eq!(
        events,
        vec![
            Event::HealthFetch,
            Event::Sleep(30),
            Event::HealthFetch,
            Event::StatsFetch,
            Event::Sleep(30),
        ]
    );
}

#[test]
fn successful_health_step_writes_the_three_gauges() {
    let step = handle_health_result(Ok(HealthData { healthy: false, slack: true, database: false }));
    let expected = [
        (MetricId::OverallUp, 0u64),
        (MetricId::SlackUp, 1),
        (MetricId::DatabaseUp, 0),
    ];
    for (op, (metric, value)) in step.ops.iter().zip(expected.iter()) {
        match op {
            MetricOp::SetGauge { metric: m, value: v } => {
                assert_eq!(m, metric);
                assert_eq!(v, value);
            }
            other => panic!("expected a gauge write, got {:?}", other),
        }
    }
}
