use profile_materials::github::{
    RawContributionCalendar, RawContributionDay, RawContributionWeek, RawContributions, RawCount,
    RawPageInfo, RawRateLimit, RawRepositoryConnection, RawUser,
};
use profile_materials::github_reply::{
    historical_years_before, profile_from_reply, status_error, year_days_from_reply, ProfileData,
    ProfileEnvelope, ReplyError, YearEnvelope,
};

fn day(date: &str, contribution_count: u64) -> RawContributionDay {
    RawContributionDay { contribution_count, date: date.to_owned() }
}

fn user(years: Vec<i32>, days: Vec<RawContributionDay>) -> RawUser {
    let count = |total_count: u64| RawCount { total_count };
    RawUser {
        login: "Herzchens".to_owned(),
        url: "https://github.com/Herzchens".to_owned(),
        contributions: RawContributions {
            calendar: RawContributionCalendar {
                total_contributions: 0,
                weeks: vec![RawContributionWeek { contribution_days: days }],
            },
            total_commit_contributions: 0,
            total_issue_contributions: 0,
            total_pull_request_contributions: 0,
            total_pull_request_review_contributions: 0,
            restricted_contributions_count: 0,
            has_any_restricted_contributions: false,
        },
        contribution_years: years,
        followers: count(0),
        repositories_contributed_to: count(0),
        pull_requests: count(0),
        open_issues: count(0),
        closed_issues: count(0),
        repositories: RawRepositoryConnection { nodes: Vec::new(), page_info: RawPageInfo { has_next_page: false } },
    }
}

fn rate_limit() -> RawRateLimit {
    RawRateLimit { cost: 1, remaining: 4_999, reset_at: "2026-09-12T11:00:00Z".to_owned() }
}

fn envelope(errors: Option<Vec<String>>, user: Option<RawUser>) -> Option<ProfileEnvelope> {
    Some(ProfileEnvelope { errors, data: Some(ProfileData { user, rate_limit: rate_limit() }) })
}

#[test]
fn failed_statuses_are_rate_limits_or_http_errors() {
    assert!(status_error(200, None, "{}").is_none());
    assert!(matches!(status_error(403, Some(30), "slow down"), Some(ReplyError::RateLimited(30))));
    match status_error(502, None, "bad gateway") {
        Some(ReplyError::Http { status, body }) => {
            assert_eq!(status, 502);
            assert_eq!(body, "bad gateway");
        }
        other => panic!("unexpected {other:?}"),
    }
}

#[test]
fn profile_replies_are_refused_in_order() {
    assert!(matches!(profile_from_reply(200, None, "x", None, "Herzchens"), Err(ReplyError::Decode)));
    let errors = envelope(Some(vec!["Something broke".to_owned()]), None);
    match profile_from_reply(200, None, "{}", errors, "Herzchens") {
        Err(ReplyError::GraphQl(message)) => assert_eq!(message, "Something broke"),
        other => panic!("unexpected {:?}", other.err()),
    }
    let no_data = Some(ProfileEnvelope { errors: Some(Vec::new()), data: None });
    assert!(matches!(profile_from_reply(200, None, "{}", no_data, "Herzchens"), Err(ReplyError::MissingData)));
    match profile_from_reply(200, None, "{}", envelope(None, None), "ghost") {
        Err(ReplyError::UserNotFound(login)) => assert_eq!(login, "ghost"),
        other => panic!("unexpected {:?}", other.err()),
    }
    let empty = envelope(None, Some(user(vec![2025], Vec::new())));
    assert!(matches!(
        profile_from_reply(200, None, "{}", empty, "Herzchens"),
        Err(ReplyError::InvalidContributionCalendar)
    ));
}

#[test]
fn an_accepted_profile_plans_earlier_years_and_keeps_current_days() {
    let days = vec![day("2025-12-31", 2), day("2026-01-01", 1), day("2026-01-02", 0)];
    let reply = envelope(None, Some(user(vec![2024, 2022, 2026, 2024], days)));
    let plan = profile_from_reply(200, None, "{}", reply, "Herzchens").ok().unwrap();
    assert_eq!(plan.historical_years, vec![2022, 2024]);
    let kept: Vec<&str> = plan.current_days.iter().map(|d| d.date.as_str()).collect();
    assert_eq!(kept, vec!["2026-01-01", "2026-01-02"]);
    assert_eq!(plan.rate_limit.remaining, 4_999);
    assert_eq!(plan.user.login, "Herzchens");
}

#[test]
fn earlier_years_are_sorted_and_distinct() {
    assert_eq!(historical_years_before(&vec![2023, 2019, 2023, 2026, 2027], 2026), vec![2019, 2023]);
    assert!(historical_years_before(&vec![2026], 2026).is_empty());
}

#[test]
fn a_year_reply_gives_its_days() {
    let calendar = RawContributionCalendar {
        total_contributions: 3,
        weeks: vec![
            RawContributionWeek { contribution_days: vec![day("2022-01-01", 1)] },
            RawContributionWeek { contribution_days: vec![day("2022-01-02", 2)] },
        ],
    };
    let reply = Some(YearEnvelope { errors: None, data: Some(Some(calendar)) });
    let days = year_days_from_reply(200, None, "{}", reply, "Herzchens").ok().unwrap();
    assert_eq!(days.len(), 2);
    assert_eq!(days[1].date, "2022-01-02");
    let missing = Some(YearEnvelope { errors: None, data: Some(None) });
    assert!(matches!(
        year_days_from_reply(200, None, "{}", missing, "Herzchens"),
        Err(ReplyError::UserNotFound(_))
    ));
}

#[test]
fn commit_totals_come_from_a_successful_search() {
    assert_eq!(profile_materials::github_reply::commit_total_from_reply(200, None, "{}", Some(2_345)).ok(), Some(2_345));
    assert!(matches!(
        profile_materials::github_reply::commit_total_from_reply(200, None, "oops", None),
        Err(ReplyError::Decode)
    ));
    assert!(matches!(
        profile_materials::github_reply::commit_total_from_reply(429, Some(60), "", Some(1)),
        Err(ReplyError::RateLimited(60))
    ));
}
