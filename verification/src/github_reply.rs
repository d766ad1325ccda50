//! How a reply of the GitHub GraphQL API is read: a failed status, GraphQL errors, a
//! missing user, and, for the profile query, which earlier years are fetched next and
//! which days of the current year the calendar keeps.
use vstd::prelude::*;

use crate::github::{
    calendar_days, DayModel, RawContributionCalendar, RawContributionDay, RawRateLimit, RawUser,
};
use crate::github_api::{
    all_days, contribution_year, contribution_year_spec, graphql_failure, graphql_failure_spec,
    latest_contribution_date, latest_date, truncate_for_error, GraphQlFailure, ERROR_BODY_LIMIT,
};
use crate::public_calendar::{ascending_years, insert_year_exec, lemma_insert_year};
use crate::text::{owned, truncate_spec};

verus! {

/// Why a GitHub reply was refused.
#[derive(Debug)]
pub enum ReplyError {
    /// The API asked to wait this many seconds.
    RateLimited(u64),
    /// Another failed status, with the start of the body.
    Http { status: u16, body: String },
    /// The body is not the JSON the query answers with.
    Decode,
    /// The joined GraphQL error messages.
    GraphQl(String),
    /// The reply holds no data.
    MissingData,
    /// No user has the login.
    UserNotFound(String),
    /// The calendar has no date, no year or no day in its latest year.
    InvalidContributionCalendar,
}

/// The value of a `ReplyError`.
pub enum ReplyErrorModel {
    RateLimited(u64),
    Http(u16, Seq<char>),
    Decode,
    GraphQl(Seq<char>),
    MissingData,
    UserNotFound(Seq<char>),
    InvalidContributionCalendar,
}

impl ReplyError {
    pub open spec fn model(&self) -> ReplyErrorModel {
        match self {
            ReplyError::RateLimited(d) => ReplyErrorModel::RateLimited(*d),
            ReplyError::Http { status, body } => ReplyErrorModel::Http(*status, body@),
            ReplyError::Decode => ReplyErrorModel::Decode,
            ReplyError::GraphQl(m) => ReplyErrorModel::GraphQl(m@),
            ReplyError::MissingData => ReplyErrorModel::MissingData,
            ReplyError::UserNotFound(l) => ReplyErrorModel::UserNotFound(l@),
            ReplyError::InvalidContributionCalendar => ReplyErrorModel::InvalidContributionCalendar,
        }
    }
}

/// Whether a status is a success (2xx).
pub open spec fn status_ok(status: u16) -> bool {
    200 <= status <= 299
}

/// The error of a failed status: the rate-limit wait where the headers named one, else
/// the status with the start of the body. Nothing for a success.
pub open spec fn status_error_spec(status: u16, delay: Option<u64>, body: Seq<char>) -> Option<ReplyErrorModel> {
    if status_ok(status) {
        None
    } else {
        match delay {
            Some(d) => Some(ReplyErrorModel::RateLimited(d)),
            None => Some(ReplyErrorModel::Http(status, truncate_spec(body, ERROR_BODY_LIMIT as nat))),
        }
    }
}

/// Reads the status of a reply.
pub fn status_error(status: u16, delay: Option<u64>, body: &str) -> (r: Option<ReplyError>)
    ensures
        match r {
            Some(e) => status_error_spec(status, delay, body@) == Some(e.model()),
            None => status_error_spec(status, delay, body@) is None,
        },
{
    if 200 <= status && status <= 299 {
        None
    } else {
        match delay {
            Some(d) => Some(ReplyError::RateLimited(d)),
            None => Some(ReplyError::Http { status, body: truncate_for_error(body) }),
        }
    }
}

/// The error of GraphQL error messages: a rate-limit wait, or the joined messages.
pub open spec fn graphql_error_spec(messages: Seq<Seq<char>>, delay: Option<u64>) -> ReplyErrorModel {
    let (limited, wait, joined) = graphql_failure_spec(messages, delay);
    if limited {
        ReplyErrorModel::RateLimited(wait)
    } else {
        ReplyErrorModel::GraphQl(joined)
    }
}

fn graphql_error(messages: &Vec<String>, delay: Option<u64>) -> (r: ReplyError)
    ensures
        r.model() == graphql_error_spec(messages.deep_view(), delay),
{
    match graphql_failure(messages, delay) {
        GraphQlFailure::RateLimited(d) => ReplyError::RateLimited(d),
        GraphQlFailure::Message(m) => ReplyError::GraphQl(m),
    }
}

/// The years before the current one, ascending, each once.
pub fn historical_years_before(years: &Vec<i32>, current_year: i32) -> (r: Vec<i32>)
    ensures
        ascending_years(r@),
        forall|y: i32| #[trigger] r@.contains(y) <==> (years@.contains(y) && y < current_year),
{
    let mut r: Vec<i32> = Vec::new();
    let mut i: usize = 0;
    while i < years.len()
        invariant
            i <= years@.len(),
            ascending_years(r@),
            forall|y: i32| #[trigger] r@.contains(y) <==> (years@.take(i as int).contains(y) && y < current_year),
        decreases years.len() - i,
    {
        let y = years[i];
        let ghost before = r@;
        if y < current_year {
            proof {
                lemma_insert_year(r@, y);
            }
            insert_year_exec(&mut r, y);
        }
        proof {
            let next = years@.take(i + 1);
            assert(next == years@.take(i as int).push(y));
            assert forall|z: i32| #[trigger] r@.contains(z) <==> (next.contains(z) && z < current_year) by {
                if next.contains(z) && z != y {
                    let k = choose|k: int| 0 <= k < next.len() && next[k] == z;
                    assert(years@.take(i as int)[k] == z);
                }
                if years@.take(i as int).contains(z) {
                    let k = choose|k: int| 0 <= k < i && years@.take(i as int)[k] == z;
                    assert(next[k] == z);
                }
                if z == y {
                    assert(next[i as int] == y);
                }
            }
        }
        i = i + 1;
    }
    proof {
        assert(years@.take(years@.len() as int) == years@);
    }
    r
}

/// The days of a year, in order.
pub open spec fn days_in_year(days: Seq<DayModel>, year: i32) -> Seq<DayModel>
    decreases days.len(),
{
    if days.len() == 0 {
        Seq::empty()
    } else {
        let rest = days_in_year(days.drop_last(), year);
        if contribution_year_spec(days.last().date) == Some(year) {
            rest.push(days.last())
        } else {
            rest
        }
    }
}

/// The days of a calendar that fall in a year, in the calendar's order.
pub fn calendar_days_in_year(calendar: &RawContributionCalendar, year: i32) -> (r: Vec<RawContributionDay>)
    ensures
        r.deep_view() == days_in_year(all_days(calendar.deep_view().weeks), year),
{
    let ghost weeks = calendar.deep_view().weeks;
    let mut r: Vec<RawContributionDay> = Vec::new();
    let mut w: usize = 0;
    while w < calendar.weeks.len()
        invariant
            w <= calendar.weeks@.len(),
            weeks == calendar.deep_view().weeks,
            r.deep_view() == days_in_year(all_days(weeks.take(w as int)), year),
        decreases calendar.weeks.len() - w,
    {
        let days = &calendar.weeks[w].contribution_days;
        let ghost before = all_days(weeks.take(w as int));
        let ghost week = weeks[w as int];
        proof {
            assert(weeks.take(w + 1).drop_last() == weeks.take(w as int));
            assert(weeks.take(w + 1).last() == week);
            assert(week == days.deep_view());
        }
        let mut d: usize = 0;
        while d < days.len()
            invariant
                d <= days@.len(),
                week == days.deep_view(),
                r.deep_view() == days_in_year(before + week.take(d as int), year),
            decreases days.len() - d,
        {
            proof {
                assert((before + week.take(d + 1)).drop_last() == before + week.take(d as int));
                assert((before + week.take(d + 1)).last() == week[d as int]);
            }
            if contribution_year(days[d].date.as_str()) == Some(year) {
                let ghost prev = r.deep_view();
                r.push(days[d].clone());
                proof {
                    assert(r.deep_view() =~= prev.push(week[d as int]));
                }
            }
            d = d + 1;
        }
        proof {
            assert(week.take(days@.len() as int) == week);
        }
        w = w + 1;
    }
    proof {
        assert(weeks.take(calendar.weeks@.len() as int) == weeks);
    }
    r
}

/// What a profile query returned.
pub struct ProfileData {
    pub user: Option<RawUser>,
    pub rate_limit: RawRateLimit,
}

/// A decoded profile reply: its GraphQL errors and its data.
pub struct ProfileEnvelope {
    pub errors: Option<Vec<String>>,
    pub data: Option<ProfileData>,
}

/// What the profile fetch does next: fetch the days of `historical_years`, join them
/// with `current_days` into the all-time calendar of `user`, and count the commits.
pub struct ProfilePlan {
    pub user: RawUser,
    pub rate_limit: RawRateLimit,
    pub historical_years: Vec<i32>,
    pub current_days: Vec<RawContributionDay>,
}

/// The year of a user's calendar: that of its latest date.
pub open spec fn calendar_year(u: RawUser) -> Option<i32> {
    match latest_date(all_days(u.contributions.calendar.deep_view().weeks)) {
        Some(d) => contribution_year_spec(d),
        None => None,
    }
}

/// The days of a user's calendar in its year.
pub open spec fn current_year_days(u: RawUser, year: i32) -> Seq<DayModel> {
    days_in_year(all_days(u.contributions.calendar.deep_view().weeks), year)
}

/// Why a profile reply is refused, in the order the checks are made: the status, a body
/// that is not the query's JSON, GraphQL errors, no data, no user, a calendar without a
/// year or without a day in its year. Nothing where the reply is accepted.
pub open spec fn profile_error_spec(
    status: u16,
    delay: Option<u64>,
    body: Seq<char>,
    envelope: Option<ProfileEnvelope>,
    login: Seq<char>,
) -> Option<ReplyErrorModel> {
    match status_error_spec(status, delay, body) {
        Some(e) => Some(e),
        None => match envelope {
            None => Some(ReplyErrorModel::Decode),
            Some(env) => if env.errors is Some && env.errors->0@.len() > 0 {
                Some(graphql_error_spec(env.errors->0.deep_view(), delay))
            } else {
                match env.data {
                    None => Some(ReplyErrorModel::MissingData),
                    Some(data) => match data.user {
                        None => Some(ReplyErrorModel::UserNotFound(login)),
                        Some(u) => match calendar_year(u) {
                            None => Some(ReplyErrorModel::InvalidContributionCalendar),
                            Some(year) => if current_year_days(u, year).len() == 0 {
                                Some(ReplyErrorModel::InvalidContributionCalendar)
                            } else {
                                None
                            },
                        },
                    },
                }
            },
        },
    }
}

/// The user of an accepted profile reply.
pub open spec fn reply_user(envelope: Option<ProfileEnvelope>) -> RawUser {
    envelope->0.data->0.user->0
}

/// Reads a profile reply. `status` is the HTTP status, `delay` the rate-limit wait the
/// headers name, `body` the text and `envelope` its decoding (nothing where it is not
/// the query's JSON). An accepted reply keeps the user and the rate limit, and names the
/// years before the calendar's year to fetch and the calendar's days in its year.
pub fn profile_from_reply(
    status: u16,
    delay: Option<u64>,
    body: &str,
    envelope: Option<ProfileEnvelope>,
    login: &str,
) -> (r: Result<ProfilePlan, ReplyError>)
    ensures
        match r {
            Err(e) => profile_error_spec(status, delay, body@, envelope, login@) == Some(e.model()),
            Ok(p) => {
                let u = reply_user(envelope);
                let year = calendar_year(u)->0;
                &&& profile_error_spec(status, delay, body@, envelope, login@) is None
                &&& p.user == u
                &&& p.rate_limit == envelope->0.data->0.rate_limit
                &&& ascending_years(p.historical_years@)
                &&& forall|y: i32| #[trigger] p.historical_years@.contains(y) <==> (u.contribution_years@.contains(y)
                    && y < year)
                &&& p.current_days.deep_view() == current_year_days(u, year)
            },
        },
{
    if let Some(e) = status_error(status, delay, body) {
        return Err(e);
    }
    let envelope = match envelope {
        Some(e) => e,
        None => return Err(ReplyError::Decode),
    };
    if let Some(errors) = &envelope.errors {
        if errors.len() > 0 {
            return Err(graphql_error(errors, delay));
        }
    }
    let data = match envelope.data {
        Some(d) => d,
        None => return Err(ReplyError::MissingData),
    };
    let user = match data.user {
        Some(u) => u,
        None => return Err(ReplyError::UserNotFound(owned(login))),
    };
    let end = match latest_contribution_date(&user.contributions.calendar) {
        Some(e) => e,
        None => return Err(ReplyError::InvalidContributionCalendar),
    };
    let year = match contribution_year(end.as_str()) {
        Some(y) => y,
        None => return Err(ReplyError::InvalidContributionCalendar),
    };
    let historical_years = historical_years_before(&user.contribution_years, year);
    let current_days = calendar_days_in_year(&user.contributions.calendar, year);
    if current_days.len() == 0 {
        return Err(ReplyError::InvalidContributionCalendar);
    }
    Ok(ProfilePlan { user, rate_limit: data.rate_limit, historical_years, current_days })
}

/// A decoded contribution-year reply: its GraphQL errors, and the user's calendar for
/// the year where the reply holds data (`Some(None)`: no user has the login).
pub struct YearEnvelope {
    pub errors: Option<Vec<String>>,
    pub data: Option<Option<RawContributionCalendar>>,
}

/// Why a contribution-year reply is refused: the status, the body, GraphQL errors, no
/// data or no user. Nothing where the reply is accepted.
pub open spec fn year_error_spec(
    status: u16,
    delay: Option<u64>,
    body: Seq<char>,
    envelope: Option<YearEnvelope>,
    login: Seq<char>,
) -> Option<ReplyErrorModel> {
    match status_error_spec(status, delay, body) {
        Some(e) => Some(e),
        None => match envelope {
            None => Some(ReplyErrorModel::Decode),
            Some(env) => if env.errors is Some && env.errors->0@.len() > 0 {
                Some(graphql_error_spec(env.errors->0.deep_view(), delay))
            } else {
                match env.data {
                    None => Some(ReplyErrorModel::MissingData),
                    Some(None) => Some(ReplyErrorModel::UserNotFound(login)),
                    Some(Some(_)) => None,
                }
            },
        },
    }
}

/// Reads a contribution-year reply: an accepted reply gives all days of the year's
/// calendar, week after week.
pub fn year_days_from_reply(
    status: u16,
    delay: Option<u64>,
    body: &str,
    envelope: Option<YearEnvelope>,
    login: &str,
) -> (r: Result<Vec<RawContributionDay>, ReplyError>)
    ensures
        match r {
            Err(e) => year_error_spec(status, delay, body@, envelope, login@) == Some(e.model()),
            Ok(days) => {
                &&& year_error_spec(status, delay, body@, envelope, login@) is None
                &&& days.deep_view() == all_days(envelope->0.data->0->0.deep_view().weeks)
            },
        },
{
    if let Some(e) = status_error(status, delay, body) {
        return Err(e);
    }
    let envelope = match envelope {
        Some(e) => e,
        None => return Err(ReplyError::Decode),
    };
    if let Some(errors) = &envelope.errors {
        if errors.len() > 0 {
            return Err(graphql_error(errors, delay));
        }
    }
    match envelope.data {
        None => Err(ReplyError::MissingData),
        Some(None) => Err(ReplyError::UserNotFound(owned(login))),
        Some(Some(calendar)) => Ok(calendar_days(&calendar)),
    }
}

/// Reads a commit-search reply: the failed status, a body that is not the search's JSON
/// (`total_count` is then nothing), or the total count of commits.
pub fn commit_total_from_reply(status: u16, delay: Option<u64>, body: &str, total_count: Option<u64>) -> (r: Result<
    u64,
    ReplyError,
>)
    ensures
        match r {
            Err(e) => Some(e.model()) == match status_error_spec(status, delay, body@) {
                Some(s) => Some(s),
                None => if total_count is None {
                    Some(ReplyErrorModel::Decode)
                } else {
                    None
                },
            },
            Ok(n) => status_error_spec(status, delay, body@) is None && total_count == Some(n),
        },
{
    if let Some(e) = status_error(status, delay, body) {
        return Err(e);
    }
    match total_count {
        Some(n) => Ok(n),
        None => Err(ReplyError::Decode),
    }
}

} // verus!
