use profile_materials::clock::ClockError;
use profile_materials::gateway::GatewayError;
use profile_materials::github::{
    calendar_days, RateLimitSnapshot, RawContributionCalendar, RawContributionDay,
    RawContributionWeek, RawRateLimit,
};
use profile_materials::state::{PublishError, WatchdogError};

fn day(date: &str, contribution_count: u64) -> RawContributionDay {
    RawContributionDay { contribution_count, date: date.to_owned() }
}

#[test]
fn gateway_errors_report_their_cause() {
    assert_eq!(
        GatewayError::FatallyClosed.message(),
        "Discord Gateway closed fatally; verify token and privileged intents"
    );
    assert_eq!(GatewayError::StreamEnded.message(), "Discord Gateway event stream ended unexpectedly");
    assert_eq!(
        GatewayError::Clock(ClockError::BeforeUnixEpoch).message(),
        "Discord Gateway clock error: system clock is before the Unix epoch"
    );
    assert_eq!(
        GatewayError::Publish(PublishError::WriterPoisoned).message(),
        "failed to update presence runtime state: presence writer lock is poisoned"
    );
}

#[test]
fn watchdog_errors_report_their_cause() {
    assert_eq!(
        WatchdogError::Clock(ClockError::TimestampOverflow).message(),
        "stale watchdog clock error: current Unix timestamp does not fit in u64 milliseconds"
    );
    assert_eq!(
        WatchdogError::Publish(PublishError::StreamRevisionExhausted).message(),
        "stale watchdog state error: presence stream revision counter exhausted"
    );
    assert_eq!(PublishError::RevisionExhausted.message(), "presence revision counter exhausted");
}

#[test]
fn calendar_days_follow_weeks_in_order() {
    let calendar = RawContributionCalendar {
        total_contributions: 6,
        weeks: vec![
            RawContributionWeek { contribution_days: vec![day("2026-09-13", 1), day("2026-09-14", 2)] },
            RawContributionWeek { contribution_days: vec![] },
            RawContributionWeek { contribution_days: vec![day("2026-09-20", 3)] },
        ],
    };
    let days = calendar_days(&calendar);
    let listed: Vec<(&str, u64)> = days.iter().map(|d| (d.date.as_str(), d.contribution_count)).collect();
    assert_eq!(listed, vec![("2026-09-13", 1), ("2026-09-14", 2), ("2026-09-20", 3)]);
}

#[test]
fn rate_limit_snapshot_keeps_the_reported_budget() {
    let snapshot = RateLimitSnapshot::from_raw(RawRateLimit {
        cost: 1,
        remaining: 4_999,
        reset_at: "2026-09-12T11:00:00Z".to_owned(),
    });
    assert_eq!(snapshot.cost, 1);
    assert_eq!(snapshot.remaining, 4_999);
    assert_eq!(snapshot.reset_at, "2026-09-12T11:00:00Z");
}
