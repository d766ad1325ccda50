use profile_materials::github::{ContributionSummary, ProjectMetadata};
use profile_materials::github::RateLimitSnapshot;
use profile_materials::github_card::{
    github_svg_document, language_line, ready_svg_document, render_ready_svg, OverallCounts, ReadyCard,
};
use profile_materials::github_store::{GitHubSnapshot, OverallStats, RankSnapshot};

fn project(name: &str, stars: u64, language: Option<&str>) -> ProjectMetadata {
    ProjectMetadata {
        name: name.to_owned(),
        name_with_owner: format!("Herzchens/{name}"),
        url: format!("https://github.com/Herzchens/{name}"),
        description: None,
        stars,
        forks: 1,
        pushed_at: None,
        primary_language: language.map(ToOwned::to_owned),
    }
}

fn card(projects: Vec<ProjectMetadata>) -> ReadyCard {
    ReadyCard {
        login: "Herzchens".to_owned(),
        contributions: ContributionSummary {
            total: 4_376,
            commits: 200,
            issues: 3,
            pull_requests: 4,
            reviews: 5,
            active_days: 40,
            current_streak_days: 7,
            longest_streak_days: 12,
            restricted_contributions: 0,
            includes_restricted_contributions: false,
        },
        overall: OverallCounts {
            total_commits: 2_345,
            total_pull_requests: 10,
            total_reviews: 5,
            total_issues: 3,
            total_stars: 42,
            contributed_to: 6,
            followers: 9,
        },
        rank_level: "A+".to_owned(),
        projects,
    }
}

#[test]
fn language_line_joins_the_first_four_labels() {
    assert_eq!(language_line(&Vec::new()), "languages unavailable");
    let labels: Vec<String> = ["Rust 50.0%", "Go 20.0%", "C 10.0%", "Zig 10.0%", "Nix 10.0%"]
        .iter()
        .map(|s| s.to_string())
        .collect();
    assert_eq!(language_line(&labels), "Rust 50.0% · Go 20.0% · C 10.0% · Zig 10.0%");
}

#[test]
fn ready_card_lists_counts_languages_and_three_projects() {
    let projects = vec![
        project("alpha", 10, Some("Rust")),
        project("beta", 5, None),
        project("gamma", 3, Some("Go")),
        project("delta", 1, None),
    ];
    let body = render_ready_svg(&card(projects), false, &vec!["Rust 75.0%".to_owned()]);
    assert!(body.starts_with("<svg xmlns=\"http://www.w3.org/2000/svg\" width=\"760\" height=\"352\" viewBox=\"0 0 760 352\" role=\"img\" aria-label=\"GitHub stats\">"));
    assert!(body.contains(">@Herzchens · 4376 contributions</text>"));
    assert!(body.contains(">commits 2345 · stars 42 · PRs 10 · issues 3</text>"));
    assert!(body.contains(">reviews 5 · contributed to 6 · followers 9 · rank A+</text>"));
    assert!(body.contains(">streak 7d · longest 12d · active 40d</text>"));
    assert!(body.contains(">Rust 75.0%</text>"));
    assert!(body.contains("<text x=\"28\" y=\"304\""));
    assert!(body.contains(">★ 3 · forks 1 · Go</text>"));
    assert!(!body.contains("delta"));
    assert!(body.ends_with("</svg>"));
}

#[test]
fn stale_ready_card_is_marked_last_known() {
    let document = ready_svg_document(&card(Vec::new()), 3, true, &Vec::new());
    assert!(document.body().contains("4376 contributions · last known"));
    assert!(document.body().contains(">languages unavailable</text>"));
    assert_eq!(document.etag(), "\"profile-github-v2-3-stale\"");
    assert_eq!(document.revision(), 3);
}

#[test]
fn combined_card_document_marks_old_snapshots_stale() {
    let base = card(vec![project("alpha", 10, Some("Rust"))]);
    let snapshot = GitHubSnapshot {
        revision: 4,
        collected_at_unix_ms: 1_000,
        login: base.login.clone(),
        url: "https://github.com/Herzchens".to_owned(),
        contributions: base.contributions,
        overall: OverallStats {
            total_commits: 2_345,
            total_pull_requests: 10,
            total_reviews: 5,
            total_issues: 3,
            total_stars: 42,
            contributed_to: 6,
            followers: 9,
            rank: RankSnapshot { level: "A+".to_owned(), percentile_bits: 12.5f64.to_bits() },
        },
        languages: Vec::new(),
        projects: base.projects,
        repository_count: 1,
        source_truncated: false,
        rate_limit: RateLimitSnapshot { cost: 1, remaining: 4_999, reset_at: "2026-09-12T11:00:00Z".to_owned() },
    };
    let labels = vec!["Rust 100.0%".to_owned()];
    let fresh = github_svg_document(Some(&snapshot), 5_000, 60_000, &labels);
    assert_eq!(fresh.etag(), "\"profile-github-v2-4-fresh\"");
    assert!(fresh.body().contains(">@Herzchens · 4376 contributions</text>"));
    let stale = github_svg_document(Some(&snapshot), 61_000, 60_000, &labels);
    assert_eq!(stale.etag(), "\"profile-github-v2-4-stale\"");
    assert!(stale.body().contains("contributions · last known"));
    let missing = github_svg_document(None, 61_000, 60_000, &labels);
    assert_eq!(missing.etag(), "\"profile-github-v2-unavailable\"");
    assert_eq!(missing.revision(), 0);
}
