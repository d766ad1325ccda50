use profile_materials::github::{is_stale, ContributionSummary, RateLimitSnapshot};
use profile_materials::github_store::{GitHubSnapshot, OverallStats, RankSnapshot};
use profile_materials::streak_card::{StreakFacts, StreakRenderer};

fn facts() -> StreakFacts {
    StreakFacts {
        total: 4_376,
        current_streak_days: 7,
        longest_streak_days: 21,
        calendar_start: Some("2025-09-15".to_owned()),
        calendar_end: Some("2026-09-14".to_owned()),
        current_streak_start: Some("2026-09-08".to_owned()),
        current_streak_end: Some("2026-09-14".to_owned()),
        longest_streak_start: Some("2026-08-01".to_owned()),
        longest_streak_end: Some("2026-08-21".to_owned()),
        today_contributions: Some(2),
    }
}

fn renderer() -> StreakRenderer {
    StreakRenderer::new(b"lit-mascot", b"out-mascot")
}

#[test]
fn active_day_renders_animated_lit_campfire_and_embedded_mascot() {
    let body = renderer().render(&facts(), is_stale(100, 100, 60_000));
    assert!(body.contains("id=\"campfire-lit\""));
    assert!(body.contains("@keyframes ignite"));
    assert!(body.contains("@keyframes flame-body"));
    assert!(!body.contains("<animateMotion"));
    assert!(!body.contains("side-orbit"));
    assert!(!body.contains("side-drift-"));
    assert!(!body.contains("@keyframes drift-x-left"));
    assert!(!body.contains("@keyframes drift-y-left"));
    assert!(!body.contains("@keyframes drift-x-right"));
    assert!(!body.contains("@keyframes drift-y-right"));
    assert!(!body.contains("class=\"spark\""));
    assert!(!body.contains("M230 84h10M235 79v10"));
    assert!(body.contains("class=\"flame-motion\""));
    assert!(body.contains("scale(1.22 1)"));
    assert!(body.contains("data:image/webp;base64,"));
    assert!(body.contains("data-mascot-state=\"lit\""));
    assert!(body.contains("x=\"222\" y=\"55\" width=\"292\" height=\"292\""));
    assert!(!body.contains("mascot-mask"));
    assert!(body.contains(">Sep 8 – 14</text>"));
    assert!(body.contains(">4376</text>"));
    assert!(!body.contains(">4.4k</text>"));
}

#[test]
fn empty_current_day_extinguishes_campfire_without_erasing_streak() {
    let mut facts = facts();
    facts.today_contributions = Some(0);
    let body = renderer().render(&facts, is_stale(100, 100, 60_000));
    assert!(body.contains("id=\"campfire-out\""));
    assert!(!body.contains("id=\"campfire-lit\""));
    assert!(body.contains("id=\"smoke-plume-main\""));
    assert!(body.contains("id=\"smoke-plume-side\""));
    assert!(body.contains("data-mascot-state=\"out\""));
    assert!(body.contains("class=\"current-number current-number-muted\""));
    assert!(!body.contains("animation:smoke"));
    assert!(body.contains(">7</text>"));
}

#[test]
fn stale_snapshot_uses_neutral_campfire_state() {
    let body = renderer().render(&facts(), is_stale(100, 61_000, 60_000));
    assert!(body.contains("id=\"campfire-unknown\""));
    assert!(body.contains("id=\"smoke-plume-main-unknown\""));
    assert!(body.contains("data-mascot-state=\"out\""));
    assert!(body.contains("class=\"current-number current-number-muted\""));
    assert!(body.contains("last known"));
}

#[test]
fn streak_card_embeds_the_mascot_of_its_state_and_the_ranges() {
    let body = renderer().render(&facts(), false);
    assert!(body.starts_with("<svg xmlns=\"http://www.w3.org/2000/svg\" width=\"835\" height=\"370\" viewBox=\"0 0 835 370\" role=\"img\" aria-label=\"GitHub contribution streak\"><defs>"));
    assert!(body.contains("href=\"data:image/webp;base64,bGl0LW1hc2NvdA==\""));
    assert!(body.contains(">Sep 15, 2025 – Sep 14, 2026</text>"));
    assert!(body.contains(">Aug 1 – 21</text>"));
    assert!(body.ends_with("</text></svg>"));
    let mut unknown = facts();
    unknown.today_contributions = None;
    unknown.calendar_start = None;
    let body = renderer().render(&unknown, false);
    assert!(body.contains("href=\"data:image/webp;base64,b3V0LW1hc2NvdA==\""));
    assert!(body.contains(">range unavailable</text>"));
}

fn github_snapshot(collected_at_unix_ms: u64, remaining: u64) -> GitHubSnapshot {
    GitHubSnapshot {
        revision: 0,
        collected_at_unix_ms,
        login: "Herzchens".to_owned(),
        url: "https://github.com/Herzchens".to_owned(),
        contributions: ContributionSummary {
            total: 10,
            commits: 8,
            issues: 1,
            pull_requests: 1,
            reviews: 0,
            active_days: 5,
            current_streak_days: 2,
            longest_streak_days: 3,
            restricted_contributions: 0,
            includes_restricted_contributions: false,
        },
        overall: OverallStats {
            total_commits: 20,
            total_pull_requests: 4,
            total_reviews: 2,
            total_issues: 3,
            total_stars: 5,
            contributed_to: 6,
            followers: 7,
            rank: RankSnapshot { level: "B".to_owned(), percentile_bits: 55.0f64.to_bits() },
        },
        languages: Vec::new(),
        projects: Vec::new(),
        repository_count: 2,
        source_truncated: false,
        rate_limit: RateLimitSnapshot { cost: 1, remaining, reset_at: "2026-09-12T11:00:00Z".to_owned() },
    }
}

#[test]
fn streak_document_marks_stale_snapshots_and_tags_the_revision() {
    let renderer = renderer();
    let mut kept = github_snapshot(1_000, 50);
    kept.revision = 4;
    let fresh = renderer.document(Some(&kept), &facts(), 1_500, 1_000);
    assert_eq!(fresh.etag(), "\"profile-github-card-v12-streak-4-fresh\"");
    assert_eq!(fresh.revision(), 4);
    assert!(!fresh.body().contains("last known"));
    let stale = renderer.document(Some(&kept), &facts(), 2_000, 1_000);
    assert_eq!(stale.etag(), "\"profile-github-card-v12-streak-4-stale\"");
    assert!(stale.body().contains(">last known</text>"));
    let missing = renderer.document(None, &facts(), 2_000, 1_000);
    assert_eq!(missing.etag(), "\"profile-github-card-v12-streak-unavailable\"");
    assert_eq!(missing.revision(), 0);
}
