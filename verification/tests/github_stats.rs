use profile_materials::calendar::day_number;
use profile_materials::cards::{
    card_etag, format_stat_number, svg_etag, GitHubCardDocument, GitHubCardKind,
};
use profile_materials::github::{
    language_totals, total_issues, total_stars, RawCount, RawPageInfo, RawRepositoryConnection,
    RawUser,
    build_contribution_summary, current_streak, is_stale, public_repository_count,
    select_projects, RawContributionCalendar, RawContributionDay, RawContributionWeek,
    RawContributions, RawLanguage, RawLanguageConnection, RawLanguageEdge, RawRepository,
};
use profile_materials::text::escape_xml;
use profile_materials::cards::{campfire_state, format_date_range, month_name, parse_iso_date, CampfireState};

fn repository(
    name: &str,
    is_private: bool,
    is_fork: bool,
    is_archived: bool,
    languages: Vec<(&str, u64, Option<&str>)>,
) -> RawRepository {
    RawRepository {
        name: name.to_owned(),
        name_with_owner: format!("Herzchens/{name}"),
        url: format!("https://github.com/Herzchens/{name}"),
        description: None,
        is_private,
        is_fork,
        is_archived,
        stargazer_count: 0,
        fork_count: 0,
        pushed_at: Some("2026-09-12T00:00:00Z".to_owned()),
        primary_language: None,
        languages: RawLanguageConnection {
            edges: languages
                .into_iter()
                .map(|(name, size, color)| RawLanguageEdge {
                    size,
                    node: RawLanguage { name: name.to_owned(), color: color.map(str::to_owned) },
                })
                .collect(),
        },
    }
}

fn day(date: &str, count: u64) -> RawContributionDay {
    RawContributionDay { contribution_count: count, date: date.to_owned() }
}

#[test]
fn streak_allows_today_to_be_empty() {
    let days = vec![
        (day_number("2026-09-09").unwrap(), 1),
        (day_number("2026-09-10").unwrap(), 2),
        (day_number("2026-09-11").unwrap(), 1),
        (day_number("2026-09-12").unwrap(), 0),
    ];
    assert_eq!(current_streak(&days), 3);
}

#[test]
fn contribution_summary_tracks_longest_and_current_streaks() {
    let days = vec![
        day("2026-09-01", 1),
        day("2026-09-02", 1),
        day("2026-09-03", 0),
        day("2026-09-04", 1),
        day("2026-09-05", 1),
        day("2026-09-06", 1),
    ];
    let raw = RawContributions {
        calendar: RawContributionCalendar {
            total_contributions: 5,
            weeks: vec![RawContributionWeek { contribution_days: days.clone() }],
        },
        total_commit_contributions: 3,
        total_issue_contributions: 1,
        total_pull_request_contributions: 1,
        total_pull_request_review_contributions: 0,
        restricted_contributions_count: 0,
        has_any_restricted_contributions: false,
    };
    let summary = build_contribution_summary(&days, &raw);
    assert_eq!(summary.active_days, 5);
    assert_eq!(summary.current_streak_days, 3);
    assert_eq!(summary.longest_streak_days, 3);
}

#[test]
fn private_repositories_never_become_featured_projects() {
    let private = repository("secret", true, false, false, Vec::new());
    let public = repository("public", false, false, false, Vec::new());
    let selected = select_projects(&vec![private, public], &vec!["secret".to_owned(), "public".to_owned()]);
    assert_eq!(selected.len(), 1);
    assert_eq!(selected[0].name, "public");
}

#[test]
fn svg_text_is_xml_escaped() {
    assert_eq!(escape_xml("<tag>&\"'"), "&lt;tag&gt;&amp;&quot;&apos;");
}

#[test]
fn stat_numbers_do_not_use_thousands_separators() {
    assert_eq!(format_stat_number(999), "999");
    assert_eq!(format_stat_number(1000), "1000");
    assert_eq!(format_stat_number(1_234_567), "1234567");
    assert!(!format_stat_number(1_234_567).contains(','));
}

#[test]
fn day_numbers_follow_the_civil_calendar() {
    let a = day_number("2024-02-28").unwrap();
    let b = day_number("2024-03-01").unwrap();
    assert_eq!(b - a, 2);
    assert_eq!(day_number("1970-01-01"), Some(719_468));
    assert_eq!(day_number("2023-02-29"), None);
    assert_eq!(day_number("bad-date"), None);
}

#[test]
fn streak_is_zero_without_recent_activity() {
    let days = vec![(day_number("2026-09-09").unwrap(), 1), (day_number("2026-09-11").unwrap(), 0)];
    assert_eq!(current_streak(&days), 0);
    assert_eq!(current_streak(&Vec::new()), 0);
}

#[test]
fn summary_counts_duplicate_dates_once() {
    let days = vec![day("2026-09-02", 1), day("2026-09-01", 1), day("2026-09-02", 4), day("bad", 9)];
    let raw = RawContributions {
        calendar: RawContributionCalendar { total_contributions: 2, weeks: Vec::new() },
        total_commit_contributions: 2,
        total_issue_contributions: 0,
        total_pull_request_contributions: 0,
        total_pull_request_review_contributions: 0,
        restricted_contributions_count: 7,
        has_any_restricted_contributions: true,
    };
    let summary = build_contribution_summary(&days, &raw);
    assert_eq!(summary.active_days, 2);
    assert_eq!(summary.longest_streak_days, 2);
    assert_eq!(summary.restricted_contributions, 7);
    assert!(summary.includes_restricted_contributions);
}

#[test]
fn featured_projects_follow_the_configured_order() {
    let repos = vec![
        repository("alpha", false, false, false, Vec::new()),
        repository("beta", false, false, false, Vec::new()),
        repository("fork", false, true, false, Vec::new()),
    ];
    let selected = select_projects(&repos, &vec!["Beta".to_owned(), "alpha".to_owned()]);
    let names: Vec<&str> = selected.iter().map(|p| p.name.as_str()).collect();
    assert_eq!(names, vec!["beta", "alpha"]);
    assert_eq!(public_repository_count(&repos), 3);
}

#[test]
fn staleness_uses_the_configured_window() {
    assert!(!is_stale(1_000, 1_500, 1_000));
    assert!(is_stale(1_000, 2_000, 1_000));
    assert!(!is_stale(5_000, 1_000, 1));
}

#[test]
fn card_entity_tags_name_card_revision_and_freshness() {
    assert_eq!(card_etag(GitHubCardKind::Stats, Some(10), true), "\"profile-github-stats-v6-10-stale\"");
    assert_eq!(card_etag(GitHubCardKind::Stats, None, false), "\"profile-github-stats-v6-0-unavailable\"");
    assert_eq!(card_etag(GitHubCardKind::Streak, Some(3), false), "\"profile-github-card-v12-streak-3-fresh\"");
    assert_eq!(card_etag(GitHubCardKind::Languages, None, false), "\"profile-github-card-v12-languages-unavailable\"");
    assert_eq!(svg_etag(Some(4), false), "\"profile-github-v2-4-fresh\"");
    assert_eq!(svg_etag(None, true), "\"profile-github-v2-unavailable\"");
    let document = GitHubCardDocument::new(GitHubCardKind::Streak, "<svg/>".to_owned(), Some(3), false);
    assert_eq!(document.body(), "<svg/>");
    assert_eq!(document.revision(), 3);
    assert_eq!(GitHubCardKind::Streak.dimensions(), (835, 370));
}

#[test]
fn streak_ranges_are_compact_within_a_month_and_year() {
    assert_eq!(format_date_range(Some("2026-09-08"), Some("2026-09-14"), false), "Sep 8 – 14");
    assert_eq!(format_date_range(Some("2026-08-30"), Some("2026-09-02"), false), "Aug 30 – Sep 2");
    assert_eq!(format_date_range(Some("2025-12-30"), Some("2026-01-02"), false), "Dec 30, 2025 – Jan 2, 2026");
    assert_eq!(format_date_range(Some("2024-04-12"), Some("2026-09-15"), true), "Apr 12, 2024 – Sep 15, 2026");
    assert_eq!(format_date_range(Some("2026-09-15"), Some("2026-09-15"), false), "Sep 15, 2026");
    assert_eq!(format_date_range(None, Some("2026-09-15"), false), "range unavailable");
    assert_eq!(parse_iso_date("2026-13-01"), None);
    assert_eq!(parse_iso_date("-5-01-01"), None);
    assert_eq!(month_name(0), "Jan");
    assert_eq!(month_name(40), "Dec");
    assert_eq!(campfire_state(Some(3), false), CampfireState::Lit);
    assert_eq!(campfire_state(Some(0), false), CampfireState::Out);
    assert_eq!(campfire_state(Some(3), true), CampfireState::Unknown);
}

#[test]
fn language_totals_sum_bytes_and_repositories_without_forks() {
    let rust = repository("rust", false, false, false, vec![("Rust", 400, Some("#dea584"))]);
    let go_a = repository("go-a", true, false, false, vec![("Go", 100, None)]);
    let go_b = repository("go-b", true, false, false, vec![("Go", 100, Some("#00ADD8"))]);
    let fork = repository("forked-rust", false, true, false, vec![("Rust", 10_000, Some("#dea584"))]);
    let totals = language_totals(&vec![rust, go_a, go_b, fork]);
    assert_eq!(totals.len(), 2);
    assert_eq!((totals[0].name.as_str(), totals[0].bytes, totals[0].repository_count), ("Rust", 400, 1));
    assert_eq!((totals[1].name.as_str(), totals[1].bytes, totals[1].repository_count), ("Go", 200, 2));
    assert_eq!(totals[1].color.as_deref(), Some("#00ADD8"));
}

#[test]
fn stars_and_issues_are_summed() {
    let mut a = repository("a", false, false, false, Vec::new());
    a.stargazer_count = 5;
    let mut b = repository("b", true, true, false, Vec::new());
    b.stargazer_count = 7;
    assert_eq!(total_stars(&vec![a, b]), 12);
}

#[test]
fn issues_count_open_and_closed_together() {
    let count = |total_count: u64| RawCount { total_count };
    let user = RawUser {
        login: "Herzchens".to_owned(),
        url: "https://github.com/Herzchens".to_owned(),
        contributions: RawContributions {
            calendar: RawContributionCalendar { total_contributions: 0, weeks: Vec::new() },
            total_commit_contributions: 0,
            total_issue_contributions: 0,
            total_pull_request_contributions: 0,
            total_pull_request_review_contributions: 0,
            restricted_contributions_count: 0,
            has_any_restricted_contributions: false,
        },
        contribution_years: Vec::new(),
        followers: count(0),
        repositories_contributed_to: count(0),
        pull_requests: count(0),
        open_issues: count(7),
        closed_issues: count(35),
        repositories: RawRepositoryConnection {
            nodes: Vec::new(),
            page_info: RawPageInfo { has_next_page: false },
        },
    };
    assert_eq!(total_issues(&user), 42);
    let mut saturated = user;
    saturated.open_issues = count(u64::MAX);
    assert_eq!(total_issues(&saturated), u64::MAX);
}

#[test]
fn language_policy_ignores_forks_but_keeps_private_repositories() {
    let private = repository(
        "private-go",
        true,
        false,
        false,
        vec![("Go", 200, Some("#00ADD8"))],
    );
    let fork = repository(
        "forked-rust",
        false,
        true,
        false,
        vec![("Rust", 10_000, Some("#dea584"))],
    );
    let languages = language_totals(&vec![private, fork]);
    assert_eq!(languages.len(), 1);
    assert_eq!(languages[0].name, "Go");
}
