//! Payload types returned by the remote service's health and statistics
//! endpoints, and the error taxonomy of a fetch.

use vstd::prelude::*;

verus! {

/// Health flags of the remote bot, as its health endpoint reports them.
#[derive(Clone, Copy, Debug, PartialEq, Eq, Structural)]
pub struct HealthData {
    /// Overall health of the bot.
    pub healthy: bool,
    /// Whether the bot is connected to its chat workspace.
    pub slack: bool,
    /// Whether the bot is connected to its database.
    pub database: bool,
}

/// A floating-point reading carried as its IEEE 754 bit pattern.
///
/// The mapping never interprets the number: it forwards the bits to the
/// gauge untouched, and the program around the library converts at
/// either end.
#[derive(Clone, Copy, Debug, PartialEq, Eq, Structural)]
pub struct FloatBits(pub u64);

/// One entry of a top-users list: a user and how many tickets they closed.
#[derive(Clone, Debug)]
pub struct UserStatsData {
    /// Internal numeric id; the stable join key across windows.
    pub user_id: u64,
    /// Opaque external (chat workspace) identifier.
    pub slack_id: String,
    /// Closed tickets attributed to the user in the window.
    pub closed_ticket_count: u64,
}

/// Mathematical image of a [`UserStatsData`].
pub struct UserStatsView {
    pub user_id: u64,
    pub slack_id: Seq<char>,
    pub closed_ticket_count: u64,
}

impl View for UserStatsData {
    type V = UserStatsView;

    open spec fn view(&self) -> UserStatsView {
        UserStatsView {
            user_id: self.user_id,
            slack_id: self.slack_id@,
            closed_ticket_count: self.closed_ticket_count,
        }
    }
}

impl DeepView for UserStatsData {
    type V = UserStatsView;

    open spec fn deep_view(&self) -> UserStatsView {
        self.view()
    }
}

/// The statistics payload: aggregate counters for the whole history and
/// for the previous day, each with its top-users list.
#[derive(Clone, Debug)]
pub struct StatsData {
    pub total_tickets: u64,
    pub total_open: u64,
    pub total_in_progress: u64,
    pub total_closed: u64,
    pub total_top_3_users_with_closed_tickets: Vec<UserStatsData>,
    pub average_hang_time_minutes: FloatBits,
    pub prev_day_total: u64,
    pub prev_day_open: u64,
    pub prev_day_in_progress: u64,
    pub prev_day_closed: u64,
    pub prev_day_top_3_users_with_closed_tickets: Vec<UserStatsData>,
    pub prev_day_average_hang_time_minutes: FloatBits,
}

/// Mathematical image of a [`StatsData`].
pub struct StatsView {
    pub total_tickets: u64,
    pub total_open: u64,
    pub total_in_progress: u64,
    pub total_closed: u64,
    pub total_top_3_users_with_closed_tickets: Seq<UserStatsView>,
    pub average_hang_time_minutes: FloatBits,
    pub prev_day_total: u64,
    pub prev_day_open: u64,
    pub prev_day_in_progress: u64,
    pub prev_day_closed: u64,
    pub prev_day_top_3_users_with_closed_tickets: Seq<UserStatsView>,
    pub prev_day_average_hang_time_minutes: FloatBits,
}

impl View for StatsData {
    type V = StatsView;

    open spec fn view(&self) -> StatsView {
        StatsView {
            total_tickets: self.total_tickets,
            total_open: self.total_open,
            total_in_progress: self.total_in_progress,
            total_closed: self.total_closed,
            total_top_3_users_with_closed_tickets:
                self.total_top_3_users_with_closed_tickets.deep_view(),
            average_hang_time_minutes: self.average_hang_time_minutes,
            prev_day_total: self.prev_day_total,
            prev_day_open: self.prev_day_open,
            prev_day_in_progress: self.prev_day_in_progress,
            prev_day_closed: self.prev_day_closed,
            prev_day_top_3_users_with_closed_tickets:
                self.prev_day_top_3_users_with_closed_tickets.deep_view(),
            prev_day_average_hang_time_minutes: self.prev_day_average_hang_time_minutes,
        }
    }
}

impl DeepView for StatsData {
    type V = StatsView;

    open spec fn deep_view(&self) -> StatsView {
        self.view()
    }
}

/// Why a fetch produced no payload. Every variant is recovered locally:
/// the poll loop logs it and retries after a backoff.
#[derive(Clone, Debug)]
pub enum FetchError {
    /// Connection, timeout or DNS failure before a body arrived.
    Transport(String),
    /// The body arrived but did not parse into the expected shape.
    Decode(String),
}

} // verus!
