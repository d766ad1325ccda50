use profile_materials::github::{ContributionSummary, RateLimitSnapshot};
use profile_materials::github_api::{next_poll_delay, next_snapshot_revision, PollOutcome};
use profile_materials::github_store::{
    GitHubSnapshot, GitHubStore, LanguageShare, OverallStats, RankSnapshot,
};

#[test]
fn unchanged_semantics_keep_revision_but_refresh_metadata() {
    let mut store = GitHubStore::new(None);
    let first = store.publish(snapshot(10, 0));
    let second = store.publish(snapshot(20, 999));
    assert_eq!(first, 1);
    assert_eq!(second, 1);
    let kept = store.load().unwrap();
    assert_eq!(kept.revision, 1);
    assert_eq!(kept.collected_at_unix_ms, 20);
    assert_eq!(kept.rate_limit.remaining, 999);
}

#[test]
fn semantic_change_advances_revision() {
    let mut store = GitHubStore::new(None);
    store.publish(snapshot(10, 100));
    let mut changed = snapshot(20, 99);
    changed.contributions.total = 11;
    assert_eq!(store.publish(changed), 2);
    assert_eq!(store.load().unwrap().revision, 2);
}

#[test]
fn revision_rule_saturates_at_its_largest_value() {
    let first = next_snapshot_revision(None, false);
    assert_eq!(first, 1);
    assert_eq!(next_snapshot_revision(Some(first), true), 1);
    assert_eq!(next_snapshot_revision(Some(first), false), 2);
    assert_eq!(next_snapshot_revision(Some(u64::MAX), false), u64::MAX);
}

#[test]
fn semantic_equality_ignores_metadata_but_sees_languages() {
    let a = snapshot(10, 0);
    let mut b = snapshot(99, 5);
    assert!(a.semantic_eq(&b));
    b.languages.push(LanguageShare {
        name: "Rust".to_owned(),
        color: None,
        bytes: 10,
        repository_count: 1,
        score_bits: 1.0f64.to_bits(),
        percent_bits: 100.0f64.to_bits(),
    });
    assert!(!a.semantic_eq(&b));
}

fn snapshot(collected_at_unix_ms: u64, remaining: u64) -> GitHubSnapshot {
    GitHubSnapshot {
        revision: 0,
        collected_at_unix_ms,
        login: "Herzchens".to_owned(),
        url: "https://github.com/Herzchens".to_owned(),
        contributions: ContributionSummary {
            total: 10,
            commits: 8,
            issues: 1,
            pull_requests: 1,
            reviews: 0,
            active_days: 5,
            current_streak_days: 2,
            longest_streak_days: 3,
            restricted_contributions: 0,
            includes_restricted_contributions: false,
        },
        overall: OverallStats {
            total_commits: 20,
            total_pull_requests: 4,
            total_reviews: 2,
            total_issues: 3,
            total_stars: 5,
            contributed_to: 6,
            followers: 7,
            rank: RankSnapshot { level: "B".to_owned(), percentile_bits: 55.0f64.to_bits() },
        },
        languages: Vec::new(),
        projects: Vec::new(),
        repository_count: 2,
        source_truncated: false,
        rate_limit: RateLimitSnapshot { cost: 1, remaining, reset_at: "2026-09-12T11:00:00Z".to_owned() },
    }
}

#[test]
fn low_rate_limit_and_rate_limits_lengthen_the_wait() {
    assert_eq!(next_poll_delay(15, PollOutcome::Published(5_000)), (15, false));
    assert_eq!(next_poll_delay(15, PollOutcome::Published(100)), (3_600, true));
    assert_eq!(next_poll_delay(7_200, PollOutcome::Published(0)), (7_200, true));
    assert_eq!(next_poll_delay(15, PollOutcome::RateLimited(75)), (75, true));
    assert_eq!(next_poll_delay(15, PollOutcome::Failed), (15, false));
}
