use profile_materials::github::{ContributionSummary, RateLimitSnapshot};
use profile_materials::github_store::{GitHubSnapshot, OverallStats, RankSnapshot};
use profile_materials::stats_card::{render_stats_card, stats_card_document};

fn snapshot() -> GitHubSnapshot {
    GitHubSnapshot {
        revision: 7,
        collected_at_unix_ms: 100,
        login: "Herzchens".to_owned(),
        url: "https://github.com/Herzchens".to_owned(),
        contributions: ContributionSummary {
            total: 4_396,
            commits: 200,
            issues: 10,
            pull_requests: 20,
            reviews: 5,
            active_days: 80,
            current_streak_days: 140,
            longest_streak_days: 140,
            restricted_contributions: 0,
            includes_restricted_contributions: false,
        },
        overall: OverallStats {
            total_commits: 2_345,
            total_pull_requests: 42,
            total_reviews: 18,
            total_issues: 31,
            total_stars: 19,
            contributed_to: 11,
            followers: 17,
            rank: RankSnapshot { level: "A".to_owned(), percentile_bits: 22.5f64.to_bits() },
        },
        languages: Vec::new(),
        projects: Vec::new(),
        repository_count: 8,
        source_truncated: false,
        rate_limit: RateLimitSnapshot { cost: 1, remaining: 4_999, reset_at: "2026-09-15T12:00:00Z".to_owned() },
    }
}

fn percentile_tenths(snapshot: &GitHubSnapshot) -> u32 {
    (f64::from_bits(snapshot.overall.rank.percentile_bits).clamp(0.0, 100.0) * 10.0).round() as u32
}

#[test]
fn stats_card_matches_polished_layout_and_real_snapshot_metrics() {
    let s = snapshot();
    let card = stats_card_document(Some(&s), 100, 60_000, percentile_tenths(&s));
    let body = card.body();
    assert!(body.contains("GitHub Statistics"));
    assert!(body.contains("data-stat-icon=\"commit\""));
    assert!(body.contains("data-stat-icon=\"pull-request\""));
    assert!(body.contains("data-stat-icon=\"review\""));
    assert!(body.contains("data-stat-icon=\"issue\""));
    assert!(body.contains("data-stat-icon=\"star\""));
    assert!(body.contains("data-stat-icon=\"repository\""));
    assert!(body.contains("data-stat-icon=\"followers\""));
    assert!(body.contains("data-icon-color=\"#58A6FF\""));
    assert!(body.contains("data-icon-color=\"#3FB950\""));
    assert!(body.contains("data-icon-color=\"#F85149\""));
    assert!(body.contains("data-icon-color=\"#E3B341\""));
    assert!(body.contains(">2345</text>"));
    assert!(!body.contains(">2,345</text>"));
    assert!(body.contains(">42</text>"));
    assert!(body.contains(">18</text>"));
    assert!(body.contains(">31</text>"));
    assert!(body.contains(">19</text>"));
    assert!(body.contains(">11</text>"));
    assert!(body.contains(">17</text>"));
    assert!(body.contains(">A</text>"));
    assert!(body.contains("TOP 22.5%"));
    assert!(body.contains("data-rank-progress=\"77.5\""));
    assert!(body.contains("pathLength=\"100\""));
    assert!(body.contains("stroke-dasharray=\"77.5 22.5\""));
    assert!(body.contains("class=\"primary-wave-fill\""));
    assert!(body.contains("class=\"primary-wave-secondary\""));
    assert!(body.contains("class=\"primary-wave\""));
    assert!(!body.contains("fill-opacity=\".07\""));
    assert!(!body.contains("stroke-opacity=\".74\" stroke-width=\"1.1\"/><svg"));
    assert!(!body.contains("Account output · live GitHub collector"));
    assert!(!body.contains("Across accessible repositories"));
    assert!(!body.contains("public repositories indexed"));
    assert!(!body.contains("vs. last year"));
}

#[test]
fn stale_snapshot_is_marked_without_changing_metrics() {
    let s = snapshot();
    let card = stats_card_document(Some(&s), 100_000, 1_000, percentile_tenths(&s));
    assert!(card.body().contains("LAST KNOWN"));
    assert!(card.etag().contains("stale"));
    assert!(card.body().contains(">2345</text>"));
}

#[test]
fn stats_card_tags_revision_and_freshness() {
    let s = snapshot();
    let card = stats_card_document(Some(&s), 100, 60_000, 225);
    assert_eq!(card.etag(), "\"profile-github-stats-v6-7-fresh\"");
    assert_eq!(card.revision(), 7);
    assert!(!card.body().contains("LAST KNOWN"));
    let missing = stats_card_document(None, 100, 60_000, 225);
    assert!(missing.body().contains("temporarily unavailable"));
    assert!(missing.etag().contains("unavailable"));
    assert_eq!(missing.revision(), 0);
}

#[test]
fn rank_figures_are_written_in_tenths_and_capped() {
    let s = snapshot();
    let body = render_stats_card(&s, false, 0);
    assert!(body.contains("TOP 0.0%"));
    assert!(body.contains("stroke-dasharray=\"100.0 0.0\""));
    let body = render_stats_card(&s, false, 5_000);
    assert!(body.contains("TOP 100.0%"));
    assert!(body.contains("data-rank-progress=\"0.0\""));
    let body = render_stats_card(&s, false, 7);
    assert!(body.contains("TOP 0.7%"));
    assert!(body.contains("x=\"306.0\" y=\"101.0\" width=\"20.0\""));
}
