//! The GitHub profile data as the GraphQL API reports it, and the contribution
//! summary and featured projects derived from it.
use vstd::prelude::*;

use crate::calendar::{date_fits, day_number, day_number_spec, lemma_day_number_range};
use crate::state::clone_opt_string;
use crate::contributions::{less_than, str_less};
use crate::github_api::all_days;
use crate::text::{eq_ignore_case, eq_ignore_case_spec, equals, owned, to_lowercase, unicode_lower};

verus! {

#[derive(Debug)]
pub struct RawCount {
    pub total_count: u64,
}

#[derive(Debug)]
pub struct RawContributionDay {
    pub contribution_count: u64,
    pub date: String,
}

/// The value of a `RawContributionDay`: its date and its count.
pub struct DayModel {
    pub count: u64,
    pub date: Seq<char>,
}

impl DeepView for RawContributionDay {
    type V = DayModel;

    open spec fn deep_view(&self) -> DayModel {
        DayModel { count: self.contribution_count, date: self.date@ }
    }
}

impl Clone for RawContributionDay {
    fn clone(&self) -> (r: Self)
        ensures
            r.deep_view() == self.deep_view(),
    {
        RawContributionDay {
            contribution_count: self.contribution_count,
            date: owned(self.date.as_str()),
        }
    }
}

#[derive(Debug)]
pub struct RawContributionWeek {
    pub contribution_days: Vec<RawContributionDay>,
}

#[derive(Debug)]
pub struct RawContributionCalendar {
    pub total_contributions: u64,
    pub weeks: Vec<RawContributionWeek>,
}

#[derive(Debug)]
pub struct RawContributions {
    pub calendar: RawContributionCalendar,
    pub total_commit_contributions: u64,
    pub total_issue_contributions: u64,
    pub total_pull_request_contributions: u64,
    pub total_pull_request_review_contributions: u64,
    pub restricted_contributions_count: u64,
    pub has_any_restricted_contributions: bool,
}

#[derive(Debug)]
pub struct RawPageInfo {
    pub has_next_page: bool,
}

#[derive(Debug)]
pub struct RawLanguage {
    pub name: String,
    pub color: Option<String>,
}

#[derive(Debug)]
pub struct RawLanguageEdge {
    pub size: u64,
    pub node: RawLanguage,
}

#[derive(Debug)]
pub struct RawLanguageConnection {
    pub edges: Vec<RawLanguageEdge>,
}

#[derive(Debug)]
pub struct RawRepository {
    pub name: String,
    pub name_with_owner: String,
    pub url: String,
    pub description: Option<String>,
    pub is_private: bool,
    pub is_fork: bool,
    pub is_archived: bool,
    pub stargazer_count: u64,
    pub fork_count: u64,
    pub pushed_at: Option<String>,
    pub primary_language: Option<RawLanguage>,
    pub languages: RawLanguageConnection,
}

#[derive(Debug)]
pub struct RawRepositoryConnection {
    pub page_info: RawPageInfo,
    pub nodes: Vec<Option<RawRepository>>,
}

#[derive(Debug)]
pub struct RawUser {
    pub login: String,
    pub url: String,
    pub contributions: RawContributions,
    pub contribution_years: Vec<i32>,
    pub followers: RawCount,
    pub repositories_contributed_to: RawCount,
    pub pull_requests: RawCount,
    pub open_issues: RawCount,
    pub closed_issues: RawCount,
    pub repositories: RawRepositoryConnection,
}

#[derive(Debug)]
pub struct RawRateLimit {
    pub cost: u64,
    pub remaining: u64,
    pub reset_at: String,
}

#[derive(Debug)]
pub struct RawProfile {
    pub user: RawUser,
    pub rate_limit: RawRateLimit,
    pub total_commits_all: u64,
}

/// The rate-limit state that a snapshot keeps from the query that built it.
#[derive(Debug)]
pub struct RateLimitSnapshot {
    pub cost: u64,
    pub remaining: u64,
    pub reset_at: String,
}

impl RateLimitSnapshot {
    /// Keeps the cost, the remaining budget and the reset time the API reported.
    pub fn from_raw(raw: RawRateLimit) -> (r: Self)
        ensures
            r.cost == raw.cost,
            r.remaining == raw.remaining,
            r.reset_at@ == raw.reset_at@,
    {
        RateLimitSnapshot { cost: raw.cost, remaining: raw.remaining, reset_at: raw.reset_at }
    }
}

/// All days of a calendar, in the order its weeks and their days list them.
pub fn calendar_days(calendar: &RawContributionCalendar) -> (r: Vec<RawContributionDay>)
    ensures
        r.deep_view() == all_days(calendar.deep_view().weeks),
{
    let ghost weeks = calendar.deep_view().weeks;
    let mut r: Vec<RawContributionDay> = Vec::new();
    let mut w: usize = 0;
    while w < calendar.weeks.len()
        invariant
            w <= calendar.weeks@.len(),
            weeks == calendar.deep_view().weeks,
            r.deep_view() == all_days(weeks.take(w as int)),
        decreases calendar.weeks.len() - w,
    {
        let days = &calendar.weeks[w].contribution_days;
        let ghost before = all_days(weeks.take(w as int));
        let ghost week = weeks[w as int];
        proof {
            assert(weeks.take(w + 1).drop_last() == weeks.take(w as int));
            assert(weeks.take(w + 1).last() == week);
            assert(week == days.deep_view());
        }
        let mut d: usize = 0;
        while d < days.len()
            invariant
                d <= days@.len(),
                week == days.deep_view(),
                r.deep_view() == before + week.take(d as int),
            decreases days.len() - d,
        {
            let ghost prev = r.deep_view();
            r.push(days[d].clone());
            proof {
                assert(r.deep_view() =~= prev.push(week[d as int]));
                assert(week.take(d + 1) == week.take(d as int).push(week[d as int]));
                assert(r.deep_view() =~= before + week.take(d + 1));
            }
            d = d + 1;
        }
        proof {
            assert(week.take(days@.len() as int) == week);
        }
        w = w + 1;
    }
    proof {
        assert(weeks.take(calendar.weeks@.len() as int) == weeks);
    }
    r
}

/// The contribution counts of a calendar and the streaks in it.
#[derive(Clone, Copy, Debug, PartialEq, Eq, Structural)]
pub struct ContributionSummary {
    pub total: u64,
    pub commits: u64,
    pub issues: u64,
    pub pull_requests: u64,
    pub reviews: u64,
    pub active_days: u64,
    pub current_streak_days: u64,
    pub longest_streak_days: u64,
    pub restricted_contributions: u64,
    pub includes_restricted_contributions: bool,
}

/// The day numbers and counts of the days whose dates are valid, in their order.
pub open spec fn parsed_days(days: Seq<DayModel>) -> Seq<(i64, u64)>
    decreases days.len(),
{
    if days.len() == 0 {
        Seq::empty()
    } else {
        let rest = parsed_days(days.drop_last());
        match day_number_spec(days.last().date) {
            Some(o) => rest.push((o, days.last().count)),
            None => rest,
        }
    }
}

/// The first position at or after `k` whose day number is at least `o`.
pub open spec fn first_not_before(sorted: Seq<(i64, u64)>, o: i64, k: int) -> int
    decreases sorted.len() - k,
{
    if k < 0 || k >= sorted.len() {
        sorted.len() as int
    } else if sorted[k].0 >= o {
        k
    } else {
        first_not_before(sorted, o, k + 1)
    }
}

/// `sorted` with `x` inserted in day order, unless its day is already there.
pub open spec fn insert_day(sorted: Seq<(i64, u64)>, x: (i64, u64)) -> Seq<(i64, u64)> {
    let pos = first_not_before(sorted, x.0, 0);
    if pos < sorted.len() && sorted[pos].0 == x.0 {
        sorted
    } else {
        sorted.insert(pos, x)
    }
}

/// The days in day order with one entry per day, the first of several reports winning.
pub open spec fn normalize_days(days: Seq<(i64, u64)>) -> Seq<(i64, u64)>
    decreases days.len(),
{
    if days.len() == 0 {
        Seq::empty()
    } else {
        insert_day(normalize_days(days.drop_last()), days.last())
    }
}

/// The number of days with contributions.
pub open spec fn active_count(days: Seq<(i64, u64)>) -> nat
    decreases days.len(),
{
    if days.len() == 0 {
        0
    } else {
        active_count(days.drop_last()) + if days.last().1 > 0 {
            1nat
        } else {
            0nat
        }
    }
}

/// The longest run of active days so far, the run that ends at the last day, and the
/// last active day of that run.
pub open spec fn streak_scan(days: Seq<(i64, u64)>) -> (nat, nat, Option<i64>)
    decreases days.len(),
{
    if days.len() == 0 {
        (0, 0, None)
    } else {
        let (longest, running, previous) = streak_scan(days.drop_last());
        let (o, c) = days.last();
        if c == 0 {
            (longest, 0, None)
        } else {
            let run = match previous {
                Some(p) => if o == p + 1 {
                    running + 1
                } else {
                    1
                },
                None => 1,
            };
            (if run > longest {
                run
            } else {
                longest
            }, run, Some(o))
        }
    }
}

/// The run of active, consecutive days that ends at `expected`, counted back from the
/// entry before `k`, passing over entries after `expected`.
pub open spec fn streak_back(days: Seq<(i64, u64)>, k: int, expected: int) -> nat
    decreases k,
{
    if k <= 0 || k > days.len() {
        0
    } else {
        let (o, c) = days[k - 1];
        if o > expected {
            streak_back(days, k - 1, expected)
        } else if o != expected || c == 0 {
            0
        } else {
            1 + streak_back(days, k - 1, expected - 1)
        }
    }
}

/// The current streak: the active days that run up to the latest day, or up to the day
/// before it where the latest day has no contributions yet.
pub open spec fn current_streak_spec(days: Seq<(i64, u64)>) -> nat {
    if days.len() == 0 {
        0
    } else {
        let (o, c) = days.last();
        streak_back(days, days.len() as int, if c == 0 {
            o - 1
        } else {
            o as int
        })
    }
}

/// No day number is the least `i64`, so that the day before each can be counted.
pub open spec fn ordinals_above_min(days: Seq<(i64, u64)>) -> bool {
    forall|i: int| 0 <= i < days.len() ==> (#[trigger] days[i]).0 > i64::MIN
}

proof fn lemma_streak_back_bound(days: Seq<(i64, u64)>, k: int, expected: int)
    requires
        0 <= k <= days.len(),
    ensures
        streak_back(days, k, expected) <= k,
    decreases k,
{
    if k > 0 {
        lemma_streak_back_bound(days, k - 1, expected);
        lemma_streak_back_bound(days, k - 1, expected - 1);
    }
}

/// The current streak of days in day order.
pub fn current_streak(days: &Vec<(i64, u64)>) -> (r: u64)
    requires
        ordinals_above_min(days@),
    ensures
        r == current_streak_spec(days@),
{
    if days.len() == 0 {
        return 0;
    }
    let (latest_ordinal, latest_count) = days[days.len() - 1];
    let mut expected: i64 = if latest_count == 0 {
        latest_ordinal - 1
    } else {
        latest_ordinal
    };
    let ghost start = expected as int;
    let mut streak: u64 = 0;
    let n = days.len();
    let mut k: usize = n;
    while k > 0
        invariant_except_break
            streak + streak_back(days@, k as int, expected as int) == streak_back(
                days@,
                days@.len() as int,
                start,
            ),
        invariant
            k <= days@.len(),
            n == days@.len(),
            ordinals_above_min(days@),
            streak <= days@.len() - k,
        ensures
            streak == streak_back(days@, days@.len() as int, start),
        decreases k,
    {
        let (ordinal, count) = days[k - 1];
        if ordinal > expected {
            k = k - 1;
        } else if ordinal != expected || count == 0 {
            break;
        } else {
            proof {
                assert(days@[k - 1].0 > i64::MIN);
                assert(streak < n);
            }
            streak = streak + 1;
            expected = expected - 1;
            k = k - 1;
        }
    }
    proof {
        lemma_streak_back_bound(days@, days@.len() as int, start);
    }
    streak
}

/// Every day number lies strictly between the least and the greatest `i64`.
pub open spec fn ordinals_in_range(days: Seq<(i64, u64)>) -> bool {
    forall|i: int| 0 <= i < days.len() ==> i64::MIN < (#[trigger] days[i]).0 < i64::MAX
}

/// Every date can be numbered in `i64`.
pub open spec fn dates_fit(days: Seq<DayModel>) -> bool {
    forall|i: int| 0 <= i < days.len() ==> date_fits(#[trigger] days[i].date)
}

proof fn lemma_parsed_in_range(days: Seq<DayModel>)
    requires
        dates_fit(days),
    ensures
        ordinals_in_range(parsed_days(days)),
    decreases days.len(),
{
    if days.len() > 0 {
        assert(dates_fit(days.drop_last())) by {
            assert forall|i: int| 0 <= i < days.drop_last().len() implies date_fits(
                #[trigger] days.drop_last()[i].date,
            ) by {
                assert(days.drop_last()[i] == days[i]);
            }
        }
        lemma_parsed_in_range(days.drop_last());
        lemma_day_number_range(days.last().date);
    }
}

proof fn lemma_normalize_in_range(days: Seq<(i64, u64)>)
    requires
        ordinals_in_range(days),
    ensures
        ordinals_in_range(normalize_days(days)),
    decreases days.len(),
{
    if days.len() > 0 {
        lemma_normalize_in_range(days.drop_last());
        let prev = normalize_days(days.drop_last());
        lemma_first_not_before_bounds(prev, days.last().0, 0);
        assert(days.last() == days[days.len() - 1]);
    }
}

proof fn lemma_first_not_before_bounds(sorted: Seq<(i64, u64)>, o: i64, k: int)
    requires
        0 <= k <= sorted.len(),
    ensures
        k <= first_not_before(sorted, o, k) <= sorted.len(),
        forall|m: int| k <= m < first_not_before(sorted, o, k) ==> (#[trigger] sorted[m]).0 < o,
        first_not_before(sorted, o, k) < sorted.len() ==> sorted[first_not_before(sorted, o, k)].0
            >= o,
    decreases sorted.len() - k,
{
    if k < sorted.len() && sorted[k].0 < o {
        lemma_first_not_before_bounds(sorted, o, k + 1);
    }
}

/// The valid days in day order, one entry per day (the first report of a day wins).
pub fn normalized_days(days: &Vec<RawContributionDay>) -> (r: Vec<(i64, u64)>)
    requires
        dates_fit(days.deep_view()),
    ensures
        r@ == normalize_days(parsed_days(days.deep_view())),
        ordinals_in_range(r@),
{
    let ghost all = days.deep_view();
    let mut sorted: Vec<(i64, u64)> = Vec::new();
    let mut i: usize = 0;
    while i < days.len()
        invariant
            i <= days@.len(),
            all == days.deep_view(),
            dates_fit(all),
            sorted@ == normalize_days(parsed_days(all.take(i as int))),
        decreases days.len() - i,
    {
        proof {
            assert(all.take(i + 1).drop_last() == all.take(i as int));
            assert(all.take(i + 1).last() == all[i as int]);
            assert(date_fits(all[i as int].date));
        }
        match day_number(days[i].date.as_str()) {
            Some(o) => {
                let x = (o, days[i].contribution_count);
                let ghost prev = sorted@;
                proof {
                    assert(parsed_days(all.take(i + 1)) == parsed_days(all.take(i as int)).push(x));
                    assert(parsed_days(all.take(i as int)).push(x).drop_last() == parsed_days(
                        all.take(i as int),
                    ));
                }
                let mut j: usize = 0;
                while j < sorted.len() && sorted[j].0 < o
                    invariant
                        j <= sorted@.len(),
                        sorted@ == prev,
                        first_not_before(prev, o, 0) == first_not_before(prev, o, j as int),
                    decreases sorted.len() - j,
                {
                    j = j + 1;
                }
                if !(j < sorted.len() && sorted[j].0 == o) {
                    sorted.insert(j, x);
                }
            },
            None => {},
        }
        i = i + 1;
    }
    proof {
        assert(all.take(days@.len() as int) == all);
        lemma_parsed_in_range(all);
        lemma_normalize_in_range(parsed_days(all));
    }
    sorted
}

/// The contribution summary of a calendar: the reported totals, and the active days
/// and streaks counted over the valid days.
pub open spec fn summary_spec(days: Seq<DayModel>, raw: RawContributions) -> ContributionSummary {
    let normalized = normalize_days(parsed_days(days));
    ContributionSummary {
        total: raw.calendar.total_contributions,
        commits: raw.total_commit_contributions,
        issues: raw.total_issue_contributions,
        pull_requests: raw.total_pull_request_contributions,
        reviews: raw.total_pull_request_review_contributions,
        active_days: active_count(normalized) as u64,
        current_streak_days: current_streak_spec(normalized) as u64,
        longest_streak_days: streak_scan(normalized).0 as u64,
        restricted_contributions: raw.restricted_contributions_count,
        includes_restricted_contributions: raw.has_any_restricted_contributions,
    }
}

proof fn lemma_scan_bounds(days: Seq<(i64, u64)>)
    ensures
        streak_scan(days).0 <= days.len(),
        streak_scan(days).1 <= streak_scan(days).0,
        active_count(days) <= days.len(),
        streak_scan(days).2 matches Some(p) ==> days.len() > 0 && p == days.last().0,
    decreases days.len(),
{
    if days.len() > 0 {
        lemma_scan_bounds(days.drop_last());
    }
}

/// The contribution summary of a calendar: the reported totals, and the active days
/// and streaks counted over the valid days.
pub fn build_contribution_summary(days: &Vec<RawContributionDay>, raw: &RawContributions) -> (r:
    ContributionSummary)
    requires
        dates_fit(days.deep_view()),
    ensures
        r == summary_spec(days.deep_view(), *raw),
{
    let parsed = normalized_days(days);
    let mut active: u64 = 0;
    let mut longest: u64 = 0;
    let mut running: u64 = 0;
    let mut previous: Option<i64> = None;
    let mut i: usize = 0;
    while i < parsed.len()
        invariant
            i <= parsed@.len(),
            ordinals_in_range(parsed@),
            active == active_count(parsed@.take(i as int)),
            (longest as nat, running as nat, previous) == streak_scan(parsed@.take(i as int)),
        decreases parsed.len() - i,
    {
        let (o, c) = parsed[i];
        proof {
            assert(parsed@.take(i + 1).drop_last() == parsed@.take(i as int));
            assert(parsed@.take(i + 1).last() == parsed@[i as int]);
            lemma_scan_bounds(parsed@.take(i as int));
            assert(parsed@.take(i as int).len() == i);
        }
        if c > 0 {
            active = active + 1;
            let run = match previous {
                Some(p) => if o == p + 1 {
                    running + 1
                } else {
                    1
                },
                None => 1,
            };
            if run > longest {
                longest = run;
            }
            running = run;
            previous = Some(o);
        } else {
            running = 0;
            previous = None;
        }
        i = i + 1;
    }
    proof {
        assert(parsed@.take(parsed@.len() as int) == parsed@);
        assert forall|k: int| 0 <= k < parsed@.len() implies (#[trigger] parsed@[k]).0 > i64::MIN by {
        }
    }
    ContributionSummary {
        total: raw.calendar.total_contributions,
        commits: raw.total_commit_contributions,
        issues: raw.total_issue_contributions,
        pull_requests: raw.total_pull_request_contributions,
        reviews: raw.total_pull_request_review_contributions,
        active_days: active,
        current_streak_days: current_streak(&parsed),
        longest_streak_days: longest,
        restricted_contributions: raw.restricted_contributions_count,
        includes_restricted_contributions: raw.has_any_restricted_contributions,
    }
}

/// Day numbers strictly increase along the sequence.
pub open spec fn strictly_increasing(days: Seq<(i64, u64)>) -> bool {
    forall|i: int, j: int| 0 <= i < j < days.len() ==> (#[trigger] days[i]).0 < (#[trigger] days[j]).0
}

/// The normalized days are in strictly increasing day order: sorted, one entry per day.
pub proof fn law_normalized_days_are_sorted_and_unique(days: Seq<(i64, u64)>)
    ensures
        strictly_increasing(normalize_days(days)),
    decreases days.len(),
{
    if days.len() > 0 {
        law_normalized_days_are_sorted_and_unique(days.drop_last());
        let prev = normalize_days(days.drop_last());
        let x = days.last();
        lemma_first_not_before_bounds(prev, x.0, 0);
        let pos = first_not_before(prev, x.0, 0);
        if !(pos < prev.len() && prev[pos].0 == x.0) {
            let next = prev.insert(pos, x);
            assert forall|i: int, j: int| 0 <= i < j < next.len() implies (#[trigger] next[i]).0 < (
            #[trigger] next[j]).0 by {
                if j < pos {
                } else if j == pos {
                    assert(prev[i].0 < x.0);
                } else if i < pos {
                    assert(next[j] == prev[j - 1]);
                    if j - 1 > pos {
                        assert(prev[pos].0 < prev[j - 1].0);
                    }
                    assert(prev[i].0 < x.0);
                } else if i == pos {
                    assert(next[j] == prev[j - 1]);
                    if j - 1 > pos {
                        assert(prev[pos].0 < prev[j - 1].0);
                    }
                } else {
                    assert(next[i] == prev[i - 1]);
                    assert(next[j] == prev[j - 1]);
                }
            }
        }
    }
}

proof fn lemma_streak_back_prefix(days: Seq<(i64, u64)>, k: int, m: int, expected: int)
    requires
        0 <= k <= m <= days.len(),
    ensures
        streak_back(days, k, expected) == streak_back(days.take(m), k, expected),
    decreases k,
{
    if k > 0 {
        assert(days.take(m)[k - 1] == days[k - 1]);
        lemma_streak_back_prefix(days, k - 1, m, expected);
        lemma_streak_back_prefix(days, k - 1, m, expected - 1);
    }
}

proof fn lemma_back_is_running(days: Seq<(i64, u64)>)
    requires
        days.len() > 0,
        days.last().1 > 0,
        strictly_increasing(days),
    ensures
        streak_back(days, days.len() as int, days.last().0 as int) == streak_scan(days).1,
    decreases days.len(),
{
    let n = days.len() as int;
    let e = days.last().0 as int;
    let prev = days.drop_last();
    assert(days[n - 1] == days.last());
    lemma_streak_back_prefix(days, n - 1, n - 1, e - 1);
    assert(days.take(n - 1) == prev);
    lemma_scan_bounds(prev);
    if n > 1 {
        let p = prev.last();
        assert(p == days[n - 2]);
        assert(p.0 < e);
        assert(prev[n - 2] == p);
        if p.0 as int == e - 1 && p.1 > 0 {
            assert(strictly_increasing(prev)) by {
                assert forall|i: int, j: int| 0 <= i < j < prev.len() implies (#[trigger] prev[i]).0
                    < (#[trigger] prev[j]).0 by {
                    assert(prev[i] == days[i] && prev[j] == days[j]);
                }
            }
            lemma_back_is_running(prev);
        }
    }
}

/// The current streak never exceeds the longest streak of the same days in day order.
pub proof fn law_current_streak_within_longest(days: Seq<(i64, u64)>)
    requires
        strictly_increasing(days),
    ensures
        current_streak_spec(days) <= streak_scan(days).0,
{
    lemma_scan_bounds(days);
    if days.len() > 0 {
        let n = days.len() as int;
        let last = days.last();
        if last.1 > 0 {
            lemma_back_is_running(days);
        } else {
            let prev = days.drop_last();
            let e = last.0 as int;
            assert(days[n - 1] == last);
            lemma_streak_back_prefix(days, n - 1, n - 1, e - 1);
            assert(days.take(n - 1) == prev);
            lemma_scan_bounds(prev);
            if n > 1 {
                let p = prev.last();
                assert(p == days[n - 2]);
                assert(prev[n - 2] == p);
                if p.0 as int == e - 1 && p.1 > 0 {
                    assert(strictly_increasing(prev)) by {
                        assert forall|i: int, j: int| 0 <= i < j < prev.len() implies (
                        #[trigger] prev[i]).0 < (#[trigger] prev[j]).0 by {
                            assert(prev[i] == days[i] && prev[j] == days[j]);
                        }
                    }
                    lemma_back_is_running(prev);
                }
            }
        }
    }
}

/// In a contribution summary the current streak never exceeds the longest streak, and
/// the longest streak never exceeds the number of active days.
pub proof fn law_summary_streaks_are_consistent(days: Seq<DayModel>, raw: RawContributions)
    requires
        days.len() <= u64::MAX,
    ensures
        summary_spec(days, raw).current_streak_days <= summary_spec(days, raw).longest_streak_days,
        summary_spec(days, raw).longest_streak_days <= summary_spec(days, raw).active_days,
{
    let normalized = normalize_days(parsed_days(days));
    law_normalized_days_are_sorted_and_unique(parsed_days(days));
    law_current_streak_within_longest(normalized);
    lemma_longest_within_active(normalized);
    lemma_scan_bounds(normalized);
    lemma_parsed_len(days);
    lemma_normalize_len(parsed_days(days));
}

proof fn lemma_parsed_len(days: Seq<DayModel>)
    ensures
        parsed_days(days).len() <= days.len(),
    decreases days.len(),
{
    if days.len() > 0 {
        lemma_parsed_len(days.drop_last());
    }
}

proof fn lemma_normalize_len(days: Seq<(i64, u64)>)
    ensures
        normalize_days(days).len() <= days.len(),
    decreases days.len(),
{
    if days.len() > 0 {
        lemma_normalize_len(days.drop_last());
        lemma_first_not_before_bounds(normalize_days(days.drop_last()), days.last().0, 0);
    }
}

proof fn lemma_longest_within_active(days: Seq<(i64, u64)>)
    ensures
        streak_scan(days).0 <= active_count(days),
        streak_scan(days).1 <= active_count(days),
    decreases days.len(),
{
    if days.len() > 0 {
        lemma_longest_within_active(days.drop_last());
    }
}

/// How many projects are featured at most.
pub const MAX_FEATURED_PROJECTS: usize = 3;

/// The metadata of a featured project.
#[derive(Debug, PartialEq, Eq)]
pub struct ProjectMetadata {
    pub name: String,
    pub name_with_owner: String,
    pub url: String,
    pub description: Option<String>,
    pub stars: u64,
    pub forks: u64,
    pub pushed_at: Option<String>,
    pub primary_language: Option<String>,
}

/// The value of a `ProjectMetadata`.
pub struct ProjectModel {
    pub name: Seq<char>,
    pub name_with_owner: Seq<char>,
    pub url: Seq<char>,
    pub description: Option<Seq<char>>,
    pub stars: u64,
    pub forks: u64,
    pub pushed_at: Option<Seq<char>>,
    pub primary_language: Option<Seq<char>>,
}

impl DeepView for ProjectMetadata {
    type V = ProjectModel;

    open spec fn deep_view(&self) -> ProjectModel {
        ProjectModel {
            name: self.name@,
            name_with_owner: self.name_with_owner@,
            url: self.url@,
            description: self.description.deep_view(),
            stars: self.stars,
            forks: self.forks,
            pushed_at: self.pushed_at.deep_view(),
            primary_language: self.primary_language.deep_view(),
        }
    }
}

/// The value of a `RawRepository`, as far as projects are concerned.
pub struct RepoModel {
    pub name: Seq<char>,
    pub name_with_owner: Seq<char>,
    pub url: Seq<char>,
    pub description: Option<Seq<char>>,
    pub is_private: bool,
    pub is_fork: bool,
    pub is_archived: bool,
    pub stars: u64,
    pub forks: u64,
    pub pushed_at: Option<Seq<char>>,
    pub primary_language: Option<Seq<char>>,
}

impl DeepView for RawRepository {
    type V = RepoModel;

    open spec fn deep_view(&self) -> RepoModel {
        RepoModel {
            name: self.name@,
            name_with_owner: self.name_with_owner@,
            url: self.url@,
            description: self.description.deep_view(),
            is_private: self.is_private,
            is_fork: self.is_fork,
            is_archived: self.is_archived,
            stars: self.stargazer_count,
            forks: self.fork_count,
            pushed_at: self.pushed_at.deep_view(),
            primary_language: match self.primary_language {
                Some(l) => Some(l.name@),
                None => None,
            },
        }
    }
}

/// The metadata of a repository as a project.
pub open spec fn project_spec(r: RepoModel) -> ProjectModel {
    ProjectModel {
        name: r.name,
        name_with_owner: r.name_with_owner,
        url: r.url,
        description: r.description,
        stars: r.stars,
        forks: r.forks,
        pushed_at: r.pushed_at,
        primary_language: r.primary_language,
    }
}

/// A repository that may be featured: public, not a fork and not archived.
pub open spec fn showcase(r: RepoModel) -> bool {
    !r.is_private && !r.is_fork && !r.is_archived
}

/// The repositories that may be featured, in their order.
pub open spec fn showcase_repos(repos: Seq<RepoModel>) -> Seq<RepoModel>
    decreases repos.len(),
{
    if repos.len() == 0 {
        Seq::empty()
    } else {
        let rest = showcase_repos(repos.drop_last());
        if showcase(repos.last()) {
            rest.push(repos.last())
        } else {
            rest
        }
    }
}

/// Whether `a` is listed before `b`: more stars first, then the later push (a pushed
/// repository before one never pushed), then the lower-cased name.
pub open spec fn listed_before(a: RepoModel, b: RepoModel) -> bool {
    a.stars > b.stars || (a.stars == b.stars && (match (a.pushed_at, b.pushed_at) {
        (Some(x), Some(y)) => str_less(y, x) || (x == y && str_less(
            unicode_lower(a.name),
            unicode_lower(b.name),
        )),
        (Some(_), None) => true,
        (None, Some(_)) => false,
        (None, None) => str_less(unicode_lower(a.name), unicode_lower(b.name)),
    }))
}

/// The first position at or after `k` that `x` is listed before.
pub open spec fn first_listed_after(sorted: Seq<RepoModel>, x: RepoModel, k: int) -> int
    decreases sorted.len() - k,
{
    if k < 0 || k >= sorted.len() {
        sorted.len() as int
    } else if listed_before(x, sorted[k]) {
        k
    } else {
        first_listed_after(sorted, x, k + 1)
    }
}

/// The repositories in listing order, equal ones in their original order.
pub open spec fn listing_order(repos: Seq<RepoModel>) -> Seq<RepoModel>
    decreases repos.len(),
{
    if repos.len() == 0 {
        Seq::empty()
    } else {
        let sorted = listing_order(repos.drop_last());
        sorted.insert(first_listed_after(sorted, repos.last(), 0), repos.last())
    }
}

/// Whether a repository answers to a requested name, by name or by owner and name,
/// ignoring ASCII case.
pub open spec fn answers_to(r: RepoModel, requested: Seq<char>) -> bool {
    eq_ignore_case_spec(r.name, requested) || eq_ignore_case_spec(r.name_with_owner, requested)
}

/// The first repository at or after `k` that answers to `requested`.
pub open spec fn first_answering(repos: Seq<RepoModel>, requested: Seq<char>, k: int) -> Option<int>
    decreases repos.len() - k,
{
    if k < 0 || k >= repos.len() {
        None
    } else if answers_to(repos[k], requested) {
        Some(k)
    } else {
        first_answering(repos, requested, k + 1)
    }
}

/// For each requested name in order, the first repository that answers to it.
pub open spec fn requested_repos(repos: Seq<RepoModel>, requested: Seq<Seq<char>>) -> Seq<RepoModel>
    decreases requested.len(),
{
    if requested.len() == 0 {
        Seq::empty()
    } else {
        let rest = requested_repos(repos, requested.drop_last());
        match first_answering(repos, requested.last(), 0) {
            Some(k) => rest.push(repos[k]),
            None => rest,
        }
    }
}

/// At most the first `MAX_FEATURED_PROJECTS` entries.
pub open spec fn first_few<A>(s: Seq<A>) -> Seq<A> {
    if s.len() <= MAX_FEATURED_PROJECTS {
        s
    } else {
        s.take(MAX_FEATURED_PROJECTS as int)
    }
}

/// The featured projects: the requested repositories in the requested order where any
/// are requested, else the most starred ones; only public repositories that are
/// neither forks nor archived, at most three.
pub open spec fn select_projects_spec(repos: Seq<RepoModel>, requested: Seq<Seq<char>>) -> Seq<ProjectModel> {
    let candidates = showcase_repos(repos);
    let chosen = if requested.len() == 0 {
        listing_order(candidates)
    } else {
        requested_repos(candidates, requested)
    };
    first_few(chosen).map_values(|r: RepoModel| project_spec(r))
}

/// The metadata of a repository as a project.
pub fn project_metadata(repository: &RawRepository) -> (r: ProjectMetadata)
    ensures
        r.deep_view() == project_spec(repository.deep_view()),
{
    ProjectMetadata {
        name: owned(repository.name.as_str()),
        name_with_owner: owned(repository.name_with_owner.as_str()),
        url: owned(repository.url.as_str()),
        description: clone_opt_string(&repository.description),
        stars: repository.stargazer_count,
        forks: repository.fork_count,
        pushed_at: clone_opt_string(&repository.pushed_at),
        primary_language: match &repository.primary_language {
            Some(l) => Some(owned(l.name.as_str())),
            None => None,
        },
    }
}

fn lists_before(a: &RawRepository, b: &RawRepository) -> (r: bool)
    ensures
        r == listed_before(a.deep_view(), b.deep_view()),
{
    if a.stargazer_count != b.stargazer_count {
        return a.stargazer_count > b.stargazer_count;
    }
    match (&a.pushed_at, &b.pushed_at) {
        (Some(x), Some(y)) => {
            if less_than(y.as_str(), x.as_str()) {
                return true;
            }
            if !equals(x.as_str(), y.as_str()) {
                return false;
            }
        },
        (Some(_), None) => return true,
        (None, Some(_)) => return false,
        (None, None) => {},
    }
    let la = to_lowercase(a.name.as_str());
    let lb = to_lowercase(b.name.as_str());
    less_than(la.as_str(), lb.as_str())
}

/// The featured projects: the requested repositories in the requested order where any
/// are requested, else the most starred ones; only public repositories that are
/// neither forks nor archived, at most three.
pub fn select_projects(repositories: &Vec<RawRepository>, featured_repositories: &Vec<String>) -> (r:
    Vec<ProjectMetadata>)
    ensures
        r.deep_view() == select_projects_spec(
            repositories.deep_view(),
            featured_repositories.deep_view(),
        ),
{
    let ghost all = repositories.deep_view();
    let mut candidates: Vec<usize> = Vec::new();
    let mut i: usize = 0;
    while i < repositories.len()
        invariant
            i <= repositories@.len(),
            all == repositories.deep_view(),
            candidates@.len() == showcase_repos(all.take(i as int)).len(),
            forall|k: int|
                0 <= k < candidates@.len() ==> #[trigger] candidates@[k] < repositories@.len()
                    && all[candidates@[k] as int] == showcase_repos(all.take(i as int))[k],
        decreases repositories.len() - i,
    {
        proof {
            assert(all.take(i + 1).drop_last() == all.take(i as int));
            assert(all.take(i + 1).last() == all[i as int]);
        }
        let r = &repositories[i];
        if !r.is_private && !r.is_fork && !r.is_archived {
            candidates.push(i);
        }
        i = i + 1;
    }
    proof {
        assert(all.take(repositories@.len() as int) == all);
    }
    let ghost cands = showcase_repos(all);
    let ghost requested = featured_repositories.deep_view();
    let mut chosen: Vec<usize> = Vec::new();
    let ghost chosen_spec = if requested.len() == 0 {
        listing_order(cands)
    } else {
        requested_repos(cands, requested)
    };
    if featured_repositories.len() == 0 {
        let mut c: usize = 0;
        while c < candidates.len()
            invariant
                c <= candidates@.len(),
                all == repositories.deep_view(),
                candidates@.len() == cands.len(),
                forall|k: int|
                    0 <= k < candidates@.len() ==> #[trigger] candidates@[k] < repositories@.len()
                        && all[candidates@[k] as int] == cands[k],
                chosen@.len() == listing_order(cands.take(c as int)).len(),
                forall|k: int|
                    0 <= k < chosen@.len() ==> #[trigger] chosen@[k] < repositories@.len()
                        && all[chosen@[k] as int] == listing_order(cands.take(c as int))[k],
            decreases candidates.len() - c,
        {
            let ghost sorted = listing_order(cands.take(c as int));
            let ghost x = cands[c as int];
            proof {
                assert(cands.take(c + 1).drop_last() == cands.take(c as int));
                assert(cands.take(c + 1).last() == x);
            }
            let idx = candidates[c];
            let mut p: usize = 0;
            while p < chosen.len() && !lists_before(&repositories[idx], &repositories[chosen[p]])
                invariant
                    p <= chosen@.len(),
                    idx < repositories@.len(),
                    all == repositories.deep_view(),
                    all[idx as int] == x,
                    chosen@.len() == sorted.len(),
                    forall|k: int|
                        0 <= k < chosen@.len() ==> #[trigger] chosen@[k] < repositories@.len()
                            && all[chosen@[k] as int] == sorted[k],
                    first_listed_after(sorted, x, 0) == first_listed_after(sorted, x, p as int),
                decreases chosen.len() - p,
            {
                p = p + 1;
            }
            let ghost before = chosen@;
            chosen.insert(p, idx);
            proof {
                assert(chosen@ == before.insert(p as int, idx));
                let next = sorted.insert(p as int, x);
                assert forall|k: int| 0 <= k < chosen@.len() implies #[trigger] chosen@[k]
                    < repositories@.len() && all[chosen@[k] as int] == next[k] by {
                    if k < p {
                        assert(chosen@[k] == before[k]);
                    } else if k > p {
                        assert(chosen@[k] == before[k - 1]);
                    }
                }
            }
            c = c + 1;
        }
        proof {
            assert(cands.take(candidates@.len() as int) == cands);
        }
    } else {
        let mut q: usize = 0;
        while q < featured_repositories.len()
            invariant
                q <= featured_repositories@.len(),
                requested == featured_repositories.deep_view(),
                all == repositories.deep_view(),
                candidates@.len() == cands.len(),
                forall|k: int|
                    0 <= k < candidates@.len() ==> #[trigger] candidates@[k] < repositories@.len()
                        && all[candidates@[k] as int] == cands[k],
                chosen@.len() == requested_repos(cands, requested.take(q as int)).len(),
                forall|k: int|
                    0 <= k < chosen@.len() ==> #[trigger] chosen@[k] < repositories@.len()
                        && all[chosen@[k] as int] == requested_repos(
                        cands,
                        requested.take(q as int),
                    )[k],
            decreases featured_repositories.len() - q,
        {
            let ghost name = requested[q as int];
            proof {
                assert(requested.take(q + 1).drop_last() == requested.take(q as int));
                assert(requested.take(q + 1).last() == name);
            }
            let wanted = featured_repositories[q].as_str();
            let mut c: usize = 0;
            let mut found = false;
            while c < candidates.len()
                invariant_except_break
                    !found,
                invariant
                    c <= candidates@.len(),
                    all == repositories.deep_view(),
                    name == wanted@,
                    candidates@.len() == cands.len(),
                    forall|k: int|
                        0 <= k < candidates@.len() ==> #[trigger] candidates@[k] < repositories@.len()
                            && all[candidates@[k] as int] == cands[k],
                    first_answering(cands, name, 0) == first_answering(cands, name, c as int),
                ensures
                    found ==> c < candidates@.len() && first_answering(cands, name, 0) == Some(
                        c as int,
                    ),
                    !found ==> first_answering(cands, name, 0) is None,
                decreases candidates.len() - c,
            {
                let r = &repositories[candidates[c]];
                if eq_ignore_case(r.name.as_str(), wanted) || eq_ignore_case(
                    r.name_with_owner.as_str(),
                    wanted,
                ) {
                    found = true;
                    break;
                }
                c = c + 1;
            }
            if found {
                let ghost before = chosen@;
                chosen.push(candidates[c]);
                proof {
                    assert(chosen@ == before.push(candidates@[c as int]));
                }
            }
            q = q + 1;
        }
        proof {
            assert(requested.take(featured_repositories@.len() as int) == requested);
        }
    }
    let mut r: Vec<ProjectMetadata> = Vec::new();
    let mut k: usize = 0;
    let limit = if chosen.len() < MAX_FEATURED_PROJECTS {
        chosen.len()
    } else {
        MAX_FEATURED_PROJECTS
    };
    while k < limit
        invariant
            k <= limit <= chosen@.len(),
            limit == first_few(chosen_spec).len(),
            all == repositories.deep_view(),
            chosen@.len() == chosen_spec.len(),
            forall|m: int|
                0 <= m < chosen@.len() ==> #[trigger] chosen@[m] < repositories@.len()
                    && all[chosen@[m] as int] == chosen_spec[m],
            r@.len() == k,
            forall|m: int|
                0 <= m < k ==> (#[trigger] r@[m]).deep_view() == project_spec(chosen_spec[m]),
        decreases limit - k,
    {
        r.push(project_metadata(&repositories[chosen[k]]));
        k = k + 1;
    }
    proof {
        assert(r.deep_view() =~= first_few(chosen_spec).map_values(|x: RepoModel| project_spec(x)));
    }
    r
}

/// The number of public repositories.
pub fn public_repository_count(repositories: &Vec<RawRepository>) -> (r: u64)
    ensures
        r == repositories@.filter(|x: RawRepository| !x.is_private).len(),
{
    let mut count: u64 = 0;
    let mut i: usize = 0;
    while i < repositories.len()
        invariant
            i <= repositories@.len(),
            count == repositories@.take(i as int).filter(|x: RawRepository| !x.is_private).len(),
            count <= i,
        decreases repositories.len() - i,
    {
        proof {
            reveal(Seq::filter);
            assert(repositories@.take(i + 1).drop_last() == repositories@.take(i as int));
        }
        if !repositories[i].is_private {
            count = count + 1;
        }
        i = i + 1;
    }
    proof {
        assert(repositories@.take(repositories@.len() as int) == repositories@);
    }
    count
}

/// Whether a snapshot collected at `collected_at_unix_ms` is stale at `now_unix_ms`.
pub fn is_stale(collected_at_unix_ms: u64, now_unix_ms: u64, stale_after_ms: u64) -> (r: bool)
    ensures
        r == (if now_unix_ms >= collected_at_unix_ms {
            now_unix_ms - collected_at_unix_ms
        } else {
            0
        } >= stale_after_ms),
{
    now_unix_ms.saturating_sub(collected_at_unix_ms) >= stale_after_ms
}

proof fn lemma_showcase_repos(repos: Seq<RepoModel>)
    ensures
        forall|i: int|
            0 <= i < showcase_repos(repos).len() ==> showcase(#[trigger] showcase_repos(repos)[i])
                && repos.contains(showcase_repos(repos)[i]),
    decreases repos.len(),
{
    if repos.len() > 0 {
        lemma_showcase_repos(repos.drop_last());
        let rest = showcase_repos(repos.drop_last());
        assert forall|i: int| 0 <= i < showcase_repos(repos).len() implies showcase(
            #[trigger] showcase_repos(repos)[i],
        ) && repos.contains(showcase_repos(repos)[i]) by {
            if i < rest.len() {
                let w = choose|w: int| 0 <= w < repos.drop_last().len() && repos.drop_last()[w] == rest[i];
                assert(repos[w] == rest[i]);
            } else {
                assert(repos[repos.len() - 1] == repos.last());
            }
        }
    }
}

proof fn lemma_listing_order_from(repos: Seq<RepoModel>)
    ensures
        forall|i: int|
            0 <= i < listing_order(repos).len() ==> repos.contains(#[trigger] listing_order(repos)[i]),
        listing_order(repos).len() == repos.len(),
    decreases repos.len(),
{
    if repos.len() > 0 {
        lemma_listing_order_from(repos.drop_last());
        let sorted = listing_order(repos.drop_last());
        let pos = first_listed_after(sorted, repos.last(), 0);
        lemma_first_listed_after_bounds(sorted, repos.last(), 0);
        assert forall|i: int| 0 <= i < listing_order(repos).len() implies repos.contains(
            #[trigger] listing_order(repos)[i],
        ) by {
            let next = listing_order(repos);
            if i < pos {
                assert(next[i] == sorted[i]);
                let w = choose|w: int| 0 <= w < repos.drop_last().len() && repos.drop_last()[w] == sorted[i];
                assert(repos[w] == sorted[i]);
            } else if i == pos {
                assert(repos[repos.len() - 1] == repos.last());
            } else {
                assert(next[i] == sorted[i - 1]);
                let w = choose|w: int| 0 <= w < repos.drop_last().len() && repos.drop_last()[w] == sorted[i - 1];
                assert(repos[w] == sorted[i - 1]);
            }
        }
    }
}

proof fn lemma_first_listed_after_bounds(sorted: Seq<RepoModel>, x: RepoModel, k: int)
    requires
        0 <= k <= sorted.len(),
    ensures
        k <= first_listed_after(sorted, x, k) <= sorted.len(),
    decreases sorted.len() - k,
{
    if k < sorted.len() && !listed_before(x, sorted[k]) {
        lemma_first_listed_after_bounds(sorted, x, k + 1);
    }
}

proof fn lemma_first_answering_bounds(repos: Seq<RepoModel>, name: Seq<char>, k: int)
    requires
        0 <= k,
    ensures
        first_answering(repos, name, k) matches Some(j) ==> k <= j < repos.len(),
    decreases repos.len() - k,
{
    if k < repos.len() && !answers_to(repos[k], name) {
        lemma_first_answering_bounds(repos, name, k + 1);
    }
}

proof fn lemma_requested_from(repos: Seq<RepoModel>, requested: Seq<Seq<char>>)
    ensures
        forall|i: int|
            0 <= i < requested_repos(repos, requested).len() ==> repos.contains(
                #[trigger] requested_repos(repos, requested)[i],
            ),
    decreases requested.len(),
{
    if requested.len() > 0 {
        lemma_requested_from(repos, requested.drop_last());
        lemma_first_answering_bounds(repos, requested.last(), 0);
        let rest = requested_repos(repos, requested.drop_last());
        assert forall|i: int| 0 <= i < requested_repos(repos, requested).len() implies repos.contains(
            #[trigger] requested_repos(repos, requested)[i],
        ) by {
            if i < rest.len() {
            } else {
                let k = first_answering(repos, requested.last(), 0)->0;
                assert(repos[k] == requested_repos(repos, requested)[i]);
            }
        }
    }
}

/// Every featured project is the metadata of one of the repositories that is public,
/// not a fork and not archived; at most three are featured.
pub proof fn law_featured_projects_are_public(repos: Seq<RepoModel>, requested: Seq<Seq<char>>)
    ensures
        select_projects_spec(repos, requested).len() <= MAX_FEATURED_PROJECTS,
        forall|i: int|
            #![trigger select_projects_spec(repos, requested)[i]]
            0 <= i < select_projects_spec(repos, requested).len() ==> exists|r: RepoModel|
                #[trigger] repos.contains(r) && showcase(r) && project_spec(r)
                    == select_projects_spec(repos, requested)[i],
{
    let candidates = showcase_repos(repos);
    lemma_showcase_repos(repos);
    lemma_listing_order_from(candidates);
    lemma_requested_from(candidates, requested);
    let chosen = if requested.len() == 0 {
        listing_order(candidates)
    } else {
        requested_repos(candidates, requested)
    };
    assert forall|i: int|
        #![trigger select_projects_spec(repos, requested)[i]]
        0 <= i < select_projects_spec(repos, requested).len() implies exists|
        r: RepoModel,
    | #[trigger] repos.contains(r) && showcase(r) && project_spec(r) == select_projects_spec(
        repos,
        requested,
    )[i] by {
        let c = first_few(chosen)[i];
        assert(c == chosen[i]);
        assert(candidates.contains(c));
        let w = choose|w: int| 0 <= w < candidates.len() && candidates[w] == c;
        assert(showcase(candidates[w]) && repos.contains(candidates[w]));
    }
}

/// A language edge of a repository as values: the language's name, its size in bytes and
/// its color.
pub open spec fn edge_view(e: RawLanguageEdge) -> (Seq<char>, u64, Option<Seq<char>>) {
    (e.node.name@, e.size, e.node.color.deep_view())
}

/// The language edges of the repositories that are not forks, in order.
pub open spec fn owned_language_edges(repos: Seq<RawRepository>) -> Seq<(Seq<char>, u64, Option<Seq<char>>)>
    decreases repos.len(),
{
    if repos.len() == 0 {
        Seq::empty()
    } else {
        owned_language_edges(repos.drop_last()) + (if repos.last().is_fork {
            Seq::empty()
        } else {
            repos.last().languages.edges@.map_values(|e: RawLanguageEdge| edge_view(e))
        })
    }
}

/// The aggregate of one language over the repositories.
pub struct LanguageTotal {
    pub name: String,
    pub bytes: u64,
    pub repository_count: u64,
    pub color: Option<String>,
}

pub struct LanguageTotalModel {
    pub name: Seq<char>,
    pub bytes: u64,
    pub repository_count: u64,
    pub color: Option<Seq<char>>,
}

impl DeepView for LanguageTotal {
    type V = LanguageTotalModel;

    open spec fn deep_view(&self) -> LanguageTotalModel {
        LanguageTotalModel {
            name: self.name@,
            bytes: self.bytes,
            repository_count: self.repository_count,
            color: self.color.deep_view(),
        }
    }
}

/// The position of the total of a language, from `k` on.
pub open spec fn total_named(totals: Seq<LanguageTotalModel>, name: Seq<char>, k: int) -> Option<int>
    decreases totals.len() - k,
{
    if k < 0 || k >= totals.len() {
        None
    } else if totals[k].name == name {
        Some(k)
    } else {
        total_named(totals, name, k + 1)
    }
}

pub open spec fn sat_add64(a: u64, b: u64) -> u64 {
    if a + b > u64::MAX {
        u64::MAX
    } else {
        (a + b) as u64
    }
}

/// The totals with one more language edge: its size and one repository added to its
/// language (saturating), which keeps its first known color; a new language is added
/// at the end.
pub open spec fn add_language_edge(
    totals: Seq<LanguageTotalModel>,
    e: (Seq<char>, u64, Option<Seq<char>>),
) -> Seq<LanguageTotalModel> {
    match total_named(totals, e.0, 0) {
        Some(k) => totals.update(
            k,
            LanguageTotalModel {
                name: totals[k].name,
                bytes: sat_add64(totals[k].bytes, e.1),
                repository_count: sat_add64(totals[k].repository_count, 1),
                color: if totals[k].color is None {
                    e.2
                } else {
                    totals[k].color
                },
            },
        ),
        None => totals.push(LanguageTotalModel { name: e.0, bytes: e.1, repository_count: 1, color: e.2 }),
    }
}

/// The language totals of some edges, each language once, in order of first appearance.
pub open spec fn language_totals_spec(edges: Seq<(Seq<char>, u64, Option<Seq<char>>)>) -> Seq<LanguageTotalModel>
    decreases edges.len(),
{
    if edges.len() == 0 {
        Seq::empty()
    } else {
        add_language_edge(language_totals_spec(edges.drop_last()), edges.last())
    }
}

fn add_edge(totals: &mut Vec<LanguageTotal>, edge: &RawLanguageEdge)
    ensures
        final(totals).deep_view() == add_language_edge(old(totals).deep_view(), edge_view(*edge)),
{
    let ghost before = totals.deep_view();
    let mut k: usize = 0;
    while k < totals.len()
        invariant
            k <= totals@.len(),
            before == totals.deep_view(),
            total_named(before, edge.node.name@, 0) == total_named(before, edge.node.name@, k as int),
        ensures
            k <= totals@.len(),
            before == totals.deep_view(),
            total_named(before, edge.node.name@, 0) == total_named(before, edge.node.name@, k as int),
            k < totals@.len() ==> before[k as int].name == edge.node.name@,
        decreases totals.len() - k,
    {
        assert(before[k as int] == totals@[k as int].deep_view());
        if equals(totals[k].name.as_str(), edge.node.name.as_str()) {
            break;
        }
        k = k + 1;
    }
    if k < totals.len() {
        let bytes = totals[k].bytes.saturating_add(edge.size);
        let count = totals[k].repository_count.saturating_add(1);
        let color = match &totals[k].color {
            Some(c) => Some(owned(c.as_str())),
            None => clone_opt_string(&edge.node.color),
        };
        let name = owned(totals[k].name.as_str());
        let updated = LanguageTotal { name, bytes, repository_count: count, color };
        let ghost uv = updated.deep_view();
        totals.set(k, updated);
        proof {
            assert(totals.deep_view() =~= before.update(k as int, uv));
        }
    } else {
        let added = LanguageTotal {
            name: owned(edge.node.name.as_str()),
            bytes: edge.size,
            repository_count: 1,
            color: clone_opt_string(&edge.node.color),
        };
        let ghost av = added.deep_view();
        totals.push(added);
        proof {
            assert(totals.deep_view() =~= before.push(av));
        }
    }
}

/// The totals of the languages of the repositories that are not forks: for each
/// language, the bytes and the number of repositories using it, and its first known
/// color, in order of first appearance.
pub fn language_totals(repositories: &Vec<RawRepository>) -> (r: Vec<LanguageTotal>)
    ensures
        r.deep_view() == language_totals_spec(owned_language_edges(repositories@)),
{
    let mut totals: Vec<LanguageTotal> = Vec::new();
    let mut i: usize = 0;
    while i < repositories.len()
        invariant
            i <= repositories@.len(),
            totals.deep_view() == language_totals_spec(owned_language_edges(repositories@.take(i as int))),
        decreases repositories.len() - i,
    {
        let ghost prefix = owned_language_edges(repositories@.take(i as int));
        proof {
            assert(repositories@.take(i + 1).drop_last() =~= repositories@.take(i as int));
        }
        if !repositories[i].is_fork {
            let edges = &repositories[i].languages.edges;
            let ghost ev = edges@.map_values(|e: RawLanguageEdge| edge_view(e));
            let mut j: usize = 0;
            while j < edges.len()
                invariant
                    j <= edges@.len(),
                    ev == edges@.map_values(|e: RawLanguageEdge| edge_view(e)),
                    totals.deep_view() == language_totals_spec(prefix + ev.take(j as int)),
                decreases edges.len() - j,
            {
                add_edge(&mut totals, &edges[j]);
                proof {
                    assert((prefix + ev.take(j + 1)).drop_last() =~= prefix + ev.take(j as int));
                    assert((prefix + ev.take(j + 1)).last() == edge_view(edges@[j as int]));
                }
                j = j + 1;
            }
            proof {
                assert(ev.take(edges@.len() as int) =~= ev);
                assert(owned_language_edges(repositories@.take(i + 1)) =~= prefix + ev);
            }
        } else {
            proof {
                assert(owned_language_edges(repositories@.take(i + 1)) =~= prefix);
            }
        }
        i = i + 1;
    }
    proof {
        assert(repositories@.take(repositories@.len() as int) =~= repositories@);
    }
    totals
}

/// The stars of all listed repositories.
pub open spec fn stars_total(repos: Seq<RawRepository>) -> int
    decreases repos.len(),
{
    if repos.len() == 0 {
        0
    } else {
        stars_total(repos.drop_last()) + repos.last().stargazer_count
    }
}

/// The stars of all listed repositories, where the sum fits in a `u64`.
pub fn total_stars(repositories: &Vec<RawRepository>) -> (r: u64)
    requires
        stars_total(repositories@) <= u64::MAX,
    ensures
        r == stars_total(repositories@),
{
    let mut total: u64 = 0;
    let mut i: usize = 0;
    while i < repositories.len()
        invariant
            i <= repositories@.len(),
            total == stars_total(repositories@.take(i as int)),
            stars_total(repositories@) <= u64::MAX,
        decreases repositories.len() - i,
    {
        proof {
            assert(repositories@.take(i + 1).drop_last() =~= repositories@.take(i as int));
            lemma_stars_prefix(repositories@, i + 1);
        }
        total = total + repositories[i].stargazer_count;
        i = i + 1;
    }
    proof {
        assert(repositories@.take(repositories@.len() as int) =~= repositories@);
    }
    total
}

proof fn lemma_stars_prefix(repos: Seq<RawRepository>, k: int)
    requires
        0 <= k <= repos.len(),
    ensures
        stars_total(repos.take(k)) <= stars_total(repos),
    decreases repos.len(),
{
    if k < repos.len() {
        assert(repos.drop_last().take(k) =~= repos.take(k));
        lemma_stars_prefix(repos.drop_last(), k);
    } else {
        assert(repos.take(k) =~= repos);
    }
}

/// Open and closed issues together (saturating).
pub fn total_issues(user: &RawUser) -> (r: u64)
    ensures
        r == sat_add64(user.open_issues.total_count, user.closed_issues.total_count),
{
    user.open_issues.total_count.saturating_add(user.closed_issues.total_count)
}

} // verus!
