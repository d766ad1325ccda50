use profile_materials::card_documents::render_card;
use profile_materials::cards::GitHubCardKind;
use profile_materials::github::{ContributionSummary, RateLimitSnapshot};
use profile_materials::github_store::{GitHubSnapshot, LanguageShare, OverallStats, RankSnapshot};
use profile_materials::languages_card::{languages_card_document, render_languages_card, LanguageFigures};
use profile_materials::streak_card::{StreakFacts, StreakRenderer};

fn language(name: &str, color: Option<&str>, percent: f64) -> LanguageShare {
    LanguageShare {
        name: name.to_owned(),
        color: color.map(ToOwned::to_owned),
        bytes: 1_000,
        repository_count: 4,
        score_bits: percent.to_bits(),
        percent_bits: percent.to_bits(),
    }
}

fn snapshot() -> GitHubSnapshot {
    GitHubSnapshot {
        revision: 3,
        collected_at_unix_ms: 100,
        login: "Herzchens".to_owned(),
        url: "https://github.com/Herzchens".to_owned(),
        contributions: ContributionSummary {
            total: 4_376,
            commits: 200,
            issues: 10,
            pull_requests: 20,
            reviews: 5,
            active_days: 80,
            current_streak_days: 7,
            longest_streak_days: 21,
            restricted_contributions: 10,
            includes_restricted_contributions: true,
        },
        overall: OverallStats {
            total_commits: 2_345,
            total_pull_requests: 42,
            total_reviews: 18,
            total_issues: 31,
            total_stars: 19,
            contributed_to: 11,
            followers: 17,
            rank: RankSnapshot { level: "A".to_owned(), percentile_bits: 22.5f64.to_bits() },
        },
        languages: vec![language("Go", Some("#00ADD8"), 63.0)],
        projects: Vec::new(),
        repository_count: 8,
        source_truncated: false,
        rate_limit: RateLimitSnapshot { cost: 1, remaining: 4_999, reset_at: "2026-09-12T20:00:00Z".to_owned() },
    }
}

fn facts() -> StreakFacts {
    StreakFacts {
        total: 4_376,
        current_streak_days: 7,
        longest_streak_days: 21,
        calendar_start: Some("2025-09-15".to_owned()),
        calendar_end: Some("2026-09-14".to_owned()),
        current_streak_start: Some("2026-09-08".to_owned()),
        current_streak_end: Some("2026-09-14".to_owned()),
        longest_streak_start: Some("2026-08-01".to_owned()),
        longest_streak_end: Some("2026-08-21".to_owned()),
        today_contributions: Some(2),
    }
}

// The figures of each language in hundredths, as the service measures them.
fn figures(snapshot: &GitHubSnapshot) -> Vec<LanguageFigures> {
    snapshot
        .languages
        .iter()
        .map(|language| {
            let percent = f64::from_bits(language.percent_bits);
            LanguageFigures {
                percent_hundredths: (percent * 100.0).round() as u64,
                segment_hundredths: (percent.clamp(0.0, 100.0) * 2.5 * 100.0).round() as u64,
            }
        })
        .collect()
}

#[test]
fn cards_do_not_expose_private_repository_details() {
    let snapshot = snapshot();
    let streak = StreakRenderer::new(b"lit", b"out");
    for kind in [GitHubCardKind::Stats, GitHubCardKind::Languages, GitHubCardKind::Streak] {
        let card = render_card(kind, Some(&snapshot), 100, 60_000, 225, &figures(&snapshot), &streak, &facts());
        assert!(!card.body().contains("private-repo"));
    }
}

#[test]
fn languages_card_draws_the_bar_and_the_list() {
    let snapshot = snapshot();
    let body = render_languages_card(&snapshot, false, &figures(&snapshot));
    assert!(body.contains("height=\"115\""));
    assert!(body.contains("<rect clip-path=\"url(#lang-bar)\" x=\"25.00\" y=\"54\" width=\"157.50\" height=\"8\" fill=\"#00ADD8\"/>"));
    assert!(body.contains("<circle cx=\"25\" cy=\"88\" r=\"5\" fill=\"#00ADD8\"/><text x=\"40\" y=\"92\" class=\"lang\">Go 63.00%</text>"));
    assert!(!body.contains("last known"));
    assert!(body.ends_with("</svg>"));
}

#[test]
fn languages_card_splits_columns_and_skips_empty_segments() {
    let mut snapshot = snapshot();
    snapshot.languages = vec![
        language("Go", None, 50.0),
        language("Rust", Some("#dea584"), 0.0),
        language("C", Some("#555555"), 50.0),
    ];
    let body = render_languages_card(&snapshot, true, &figures(&snapshot));
    assert!(body.contains("x=\"25.00\" y=\"54\" width=\"125.00\" height=\"8\" fill=\"#858585\""));
    assert!(body.contains("x=\"150.00\" y=\"54\" width=\"125.00\" height=\"8\" fill=\"#555555\""));
    assert!(!body.contains("height=\"8\" fill=\"#dea584\""));
    assert!(body.contains("<text x=\"180\" y=\"92\" class=\"lang\">C 50.00%</text>"));
    assert!(body.contains(">Rust 0.00%</text>"));
    assert!(body.contains("<text x=\"288\" y=\"132\" text-anchor=\"end\" class=\"stale\">last known</text>"));
}

#[test]
fn languages_card_without_languages_says_so() {
    let mut snapshot = snapshot();
    snapshot.languages = Vec::new();
    let card = languages_card_document(Some(&snapshot), 100, 60_000, &Vec::new());
    assert!(card.body().contains(">Language data is unavailable.</text>"));
    assert!(card.body().contains("height=\"90\""));
    assert_eq!(card.etag(), "\"profile-github-card-v12-languages-3-fresh\"");
    let missing = languages_card_document(None, 100, 60_000, &Vec::new());
    assert_eq!(missing.etag(), "\"profile-github-card-v12-languages-unavailable\"");
}

#[test]
fn card_kinds_choose_their_renderer() {
    let snapshot = snapshot();
    let streak = StreakRenderer::new(b"lit", b"out");
    let stats = render_card(GitHubCardKind::Stats, Some(&snapshot), 100, 60_000, 225, &Vec::new(), &streak, &facts());
    assert!(stats.body().contains("TOP 22.5%"));
    assert_eq!(stats.etag(), "\"profile-github-stats-v6-3-fresh\"");
    let streak_card = render_card(GitHubCardKind::Streak, Some(&snapshot), 100, 60_000, 225, &Vec::new(), &streak, &facts());
    assert!(streak_card.body().contains("id=\"campfire-lit\""));
    let none = render_card(GitHubCardKind::Languages, None, 100, 60_000, 225, &Vec::new(), &streak, &facts());
    assert_eq!(none.revision(), 0);
}
