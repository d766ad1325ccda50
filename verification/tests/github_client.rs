use profile_materials::contributions::{build_all_time_calendar, build_public_calendar};
use profile_materials::github::{RawContributionCalendar, RawContributionDay, RawContributionWeek};
use profile_materials::github_api::{
    contribution_year, graphql_failure, latest_contribution_date, rate_limit_delay_secs,
    truncate_for_error, GraphQlFailure,
};
use profile_materials::public_calendar::{
    parse_contribution_days, parse_contribution_years, CalendarParseError,
};

fn day(date: &str, count: u64) -> RawContributionDay {
    RawContributionDay { contribution_count: count, date: date.to_owned() }
}

#[test]
fn error_body_is_bounded() {
    let input = "x".repeat(300);
    let output = truncate_for_error(&input);
    assert!(output.chars().count() <= 257);
    assert!(output.ends_with('…'));
}

#[test]
fn retry_after_header_controls_rate_limit_delay() {
    assert_eq!(rate_limit_delay_secs(Some("75"), None, None, None), Some(75));
}

#[test]
fn all_time_calendar_sums_exact_daily_counts_and_trims_leading_zeros() {
    let historical = vec![day("2025-01-01", 0), day("2025-01-02", 286)];
    let current = vec![day("2026-09-15", 4_074)];
    let calendar = build_all_time_calendar(historical, current);
    assert_eq!(calendar.total_contributions, 4_360);
    let days = &calendar.weeks[0].contribution_days;
    assert_eq!(days.first().unwrap().date, "2025-01-02");
    assert_eq!(days.last().unwrap().date, "2026-09-15");
}

#[test]
fn contribution_year_reads_iso_calendar_year() {
    assert_eq!(contribution_year("2026-09-15"), Some(2026));
    assert_eq!(contribution_year("bad-date"), None);
}

#[test]
fn parses_public_profile_year_links() {
    let html = r#"
        <a class="js-year-link" href="/Herzchens?tab=overview&from=2026-12-01&to=2026-12-31">2026</a>
        <a class="js-year-link" href="/Herzchens?tab=overview&from=2024-12-01&to=2024-12-31"><span>2024</span></a>
    "#;
    assert_eq!(parse_contribution_years(html), vec![2024, 2026]);
}

#[test]
fn parses_public_calendar_tooltip_counts() {
    let html = r#"
        <td id="day-a" class="ContributionCalendar-day" data-date="2026-09-14" data-level="0"></td>
        <td id="day-b" class="ContributionCalendar-day" data-date="2026-09-15" data-level="3"></td>
        <tool-tip for="day-a">No contributions on September 14th.</tool-tip>
        <tool-tip for="day-b">14 contributions on September 15th.</tool-tip>
    "#;
    let days = parse_contribution_days(html).unwrap();
    assert_eq!(days.len(), 2);
    assert_eq!(days[0].contribution_count, 0);
    assert_eq!(days[1].contribution_count, 14);
}

#[test]
fn public_calendar_uses_exact_visible_counts_and_current_date() {
    let historical = vec![day("2024-04-12", 286)];
    let current = vec![day("2026-09-15", 4_079), day("2026-09-16", 99)];
    let calendar = build_public_calendar(historical, current, "2026-09-15");
    assert_eq!(calendar.total_contributions, 4_365);
    let days = &calendar.weeks[0].contribution_days;
    assert_eq!(days.first().unwrap().date, "2024-04-12");
    assert_eq!(days.last().unwrap().date, "2026-09-15");
}

#[test]
fn active_day_without_count_fails_closed() {
    let html = r#"
        <td id="day-a" class="ContributionCalendar-day" data-date="2026-09-15" data-level="3"></td>
    "#;
    assert!(parse_contribution_days(html).is_err());
}

#[test]
fn calendar_without_days_is_an_error() {
    match parse_contribution_days("<p>nothing here</p>") {
        Err(CalendarParseError::NoDays) => {}
        other => panic!("unexpected {other:?}"),
    }
    match parse_contribution_days(
        r#"<td id="d" class="ContributionCalendar-day" data-date="2026-09-15" data-level="2"></td>"#,
    ) {
        Err(CalendarParseError::ActiveDayWithoutCount(date)) => assert_eq!(date, "2026-09-15"),
        other => panic!("unexpected {other:?}"),
    }
}

#[test]
fn rate_limit_waits_for_reset_at_least_a_minute() {
    assert_eq!(rate_limit_delay_secs(Some("0"), None, None, None), Some(1));
    assert_eq!(rate_limit_delay_secs(None, Some("5"), Some("100"), Some(10)), None);
    assert_eq!(rate_limit_delay_secs(None, Some("0"), Some("100"), Some(10)), Some(90));
    assert_eq!(rate_limit_delay_secs(None, Some("0"), Some("100"), Some(90)), Some(60));
    assert_eq!(rate_limit_delay_secs(None, Some("0"), Some("100"), None), None);
}

#[test]
fn graphql_errors_prefer_known_delays_then_secondary_limits() {
    let messages = vec!["You have exceeded a Secondary Rate Limit".to_owned()];
    assert_eq!(graphql_failure(&messages, Some(30)), GraphQlFailure::RateLimited(30));
    assert_eq!(graphql_failure(&messages, None), GraphQlFailure::RateLimited(60));
    match graphql_failure(&vec!["a".to_owned(), "b".to_owned()], None) {
        GraphQlFailure::Message(m) => assert!(m.contains('a') && m.contains('b')),
        other => panic!("unexpected {other:?}"),
    }
}

#[test]
fn latest_date_is_found_across_weeks() {
    let calendar = RawContributionCalendar {
        total_contributions: 0,
        weeks: vec![
            RawContributionWeek { contribution_days: vec![day("2026-09-14", 0)] },
            RawContributionWeek { contribution_days: vec![day("2026-09-16", 0), day("2026-09-15", 0)] },
        ],
    };
    assert_eq!(latest_contribution_date(&calendar).as_deref(), Some("2026-09-16"));
}

#[test]
fn historical_years_cover_the_years_before_the_current_one() {
    use_years();
}

fn use_years() {
    assert_eq!(
        profile_materials::public_calendar::historical_years(Some(2022), 2026),
        vec![2022, 2023, 2024, 2025]
    );
    assert_eq!(
        profile_materials::public_calendar::historical_years(Some(2001), 2008),
        vec![2001, 2005, 2006, 2007]
    );
    assert_eq!(profile_materials::public_calendar::historical_years(None, 2026), Vec::<i32>::new());
    assert_eq!(profile_materials::public_calendar::historical_years(Some(2030), 2026), Vec::<i32>::new());
}
