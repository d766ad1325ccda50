//! The decisions around the GitHub API calls: which year a calendar date falls in, the
//! latest date of a calendar, how long to wait after a rate limit, how an error body is
//! bounded and how GraphQL errors are classified.
use vstd::prelude::*;

use crate::contributions::{str_less, less_than};
use crate::github::{DayModel, RawContributionCalendar};
use crate::numbers::{parse_i32_in, parse_i32_spec, parse_u64, parse_u64_spec};
use crate::text::{
    chars_of, has_prefix, lower, lower_spec, matches_at, owned, push_str, truncate_chars,
    truncate_spec,
};

verus! {

/// How long an error body may be, in characters, before it is cut.
pub const ERROR_BODY_LIMIT: usize = 256;

/// The calendar year of a `YYYY-MM-DD` date: its first four characters as a positive
/// number.
pub open spec fn contribution_year_spec(date: Seq<char>) -> Option<i32> {
    if date.len() >= 4 && forall|i: int| 0 <= i < 4 ==> (#[trigger] date[i] as u32) < 128 {
        match parse_i32_spec(date.take(4)) {
            Some(y) => if y > 0 {
                Some(y)
            } else {
                None
            },
            None => None,
        }
    } else {
        None
    }
}

/// The calendar year of a `YYYY-MM-DD` date.
pub fn contribution_year(date: &str) -> (r: Option<i32>)
    ensures
        r == contribution_year_spec(date@),
{
    let chars = chars_of(date);
    if chars.len() < 4 {
        return None;
    }
    let mut i: usize = 0;
    while i < 4
        invariant
            i <= 4 <= chars@.len(),
            chars@ == date@,
            forall|k: int| 0 <= k < i ==> (#[trigger] date@[k] as u32) < 128,
        decreases 4 - i,
    {
        if chars[i] as u32 >= 128 {
            return None;
        }
        i = i + 1;
    }
    proof {
        assert(chars@.subrange(0, 4) == date@.take(4));
    }
    match parse_i32_in(&chars, 0, 4) {
        Some(y) => if y > 0 {
            Some(y)
        } else {
            None
        },
        None => None,
    }
}

/// The days of all weeks, in order.
pub open spec fn all_days(weeks: Seq<Seq<DayModel>>) -> Seq<DayModel>
    decreases weeks.len(),
{
    if weeks.len() == 0 {
        Seq::empty()
    } else {
        all_days(weeks.drop_last()) + weeks.last()
    }
}

/// The greatest date, as strings order.
pub open spec fn latest_date(days: Seq<DayModel>) -> Option<Seq<char>>
    decreases days.len(),
{
    if days.len() == 0 {
        None
    } else {
        match latest_date(days.drop_last()) {
            Some(d) => if str_less(days.last().date, d) {
                Some(d)
            } else {
                Some(days.last().date)
            },
            None => Some(days.last().date),
        }
    }
}

/// The latest date of a calendar.
pub fn latest_contribution_date(calendar: &RawContributionCalendar) -> (r: Option<String>)
    ensures
        r.deep_view() == latest_date(all_days(calendar.deep_view().weeks)),
{
    let ghost weeks = calendar.deep_view().weeks;
    let mut best: Option<String> = None;
    let mut w: usize = 0;
    while w < calendar.weeks.len()
        invariant
            w <= calendar.weeks@.len(),
            weeks == calendar.deep_view().weeks,
            best.deep_view() == latest_date(all_days(weeks.take(w as int))),
        decreases calendar.weeks.len() - w,
    {
        let days = &calendar.weeks[w].contribution_days;
        let ghost before = all_days(weeks.take(w as int));
        let ghost week = weeks[w as int];
        proof {
            assert(weeks.take(w + 1).drop_last() == weeks.take(w as int));
            assert(weeks.take(w + 1).last() == week);
            assert(week == days.deep_view());
        }
        let mut d: usize = 0;
        while d < days.len()
            invariant
                d <= days@.len(),
                week == days.deep_view(),
                best.deep_view() == latest_date(before + week.take(d as int)),
            decreases days.len() - d,
        {
            proof {
                assert((before + week.take(d + 1)).drop_last() == before + week.take(d as int));
                assert((before + week.take(d + 1)).last() == week[d as int]);
            }
            let date = days[d].date.as_str();
            let replace = match &best {
                Some(current) => !less_than(date, current.as_str()),
                None => true,
            };
            if replace {
                best = Some(owned(date));
            }
            d = d + 1;
        }
        proof {
            assert(week.take(days@.len() as int) == week);
        }
        w = w + 1;
    }
    proof {
        assert(weeks.take(calendar.weeks@.len() as int) == weeks);
    }
    best
}

/// An error body cut to its first characters, with an ellipsis where it was cut.
pub fn truncate_for_error(value: &str) -> (r: String)
    ensures
        r@ == truncate_spec(value@, ERROR_BODY_LIMIT as nat),
{
    truncate_chars(value, ERROR_BODY_LIMIT)
}

pub open spec fn max_u64(a: u64, b: u64) -> u64 {
    if a >= b {
        a
    } else {
        b
    }
}

/// The wait after a rate-limited response, in seconds: the `Retry-After` value (at
/// least one second) where it is a number; otherwise, where no request is left, the
/// time until the reset (at least a minute); otherwise no wait.
pub open spec fn rate_limit_delay_spec(
    retry_after: Option<Seq<char>>,
    remaining: Option<Seq<char>>,
    reset_at: Option<Seq<char>>,
    now_secs: Option<u64>,
) -> Option<u64> {
    let retry = match retry_after {
        Some(v) => parse_u64_spec(v),
        None => None,
    };
    match retry {
        Some(secs) => Some(max_u64(secs, 1)),
        None => {
            let left = match remaining {
                Some(v) => parse_u64_spec(v),
                None => None,
            };
            let reset = match reset_at {
                Some(v) => parse_u64_spec(v),
                None => None,
            };
            match (left, reset, now_secs) {
                (Some(l), Some(t), Some(now)) => if l != 0 {
                    None
                } else {
                    Some(max_u64(if t >= now { (t - now) as u64 } else { 0 }, 60))
                },
                _ => None,
            }
        },
    }
}

fn parse_header(value: Option<&str>) -> (r: Option<u64>)
    ensures
        r == match value {
            Some(v) => parse_u64_spec(v@),
            None => None,
        },
{
    match value {
        Some(v) => parse_u64(v),
        None => None,
    }
}

/// The wait after a rate-limited response, from the `Retry-After`,
/// `x-ratelimit-remaining` and `x-ratelimit-reset` header values and the current time.
pub fn rate_limit_delay_secs(
    retry_after: Option<&str>,
    remaining: Option<&str>,
    reset_at: Option<&str>,
    now_secs: Option<u64>,
) -> (r: Option<u64>)
    ensures
        r == rate_limit_delay_spec(
            match retry_after {
                Some(v) => Some(v@),
                None => None,
            },
            match remaining {
                Some(v) => Some(v@),
                None => None,
            },
            match reset_at {
                Some(v) => Some(v@),
                None => None,
            },
            now_secs,
        ),
{
    if let Some(secs) = parse_header(retry_after) {
        return Some(if secs >= 1 {
            secs
        } else {
            1
        });
    }
    let left = match parse_header(remaining) {
        Some(v) => v,
        None => return None,
    };
    if left != 0 {
        return None;
    }
    let reset = match parse_header(reset_at) {
        Some(v) => v,
        None => return None,
    };
    let now = match now_secs {
        Some(v) => v,
        None => return None,
    };
    let wait = reset.saturating_sub(now);
    Some(if wait >= 60 {
        wait
    } else {
        60
    })
}

/// Whether `pattern` occurs in `s`.
pub open spec fn contains_spec(s: Seq<char>, pattern: Seq<char>) -> bool {
    exists|i: int| 0 <= i <= s.len() && has_prefix(#[trigger] s.skip(i), pattern)
}

/// Whether `pattern` occurs in `s`.
pub fn contains(s: &str, pattern: &str) -> (r: bool)
    ensures
        r == contains_spec(s@, pattern@),
{
    let cs = chars_of(s);
    let cp = chars_of(pattern);
    let n = cs.len();
    let mut i: usize = 0;
    while i < n
        invariant
            i <= n,
            n == cs@.len(),
            cs@ == s@,
            cp@ == pattern@,
            forall|k: int| 0 <= k < i ==> !has_prefix(#[trigger] s@.skip(k), pattern@),
        decreases n - i,
    {
        proof {
            assert(cs@.subrange(i as int, cs@.len() as int) == s@.skip(i as int));
        }
        if matches_at(&cs, i, &cp) {
            return true;
        }
        i = i + 1;
    }
    proof {
        assert(cs@.subrange(n as int, cs@.len() as int) == s@.skip(n as int));
    }
    matches_at(&cs, n, &cp)
}

/// The messages joined with `"; "`.
pub open spec fn joined_spec(messages: Seq<Seq<char>>) -> Seq<char>
    decreases messages.len(),
{
    if messages.len() == 0 {
        Seq::empty()
    } else if messages.len() == 1 {
        messages[0]
    } else {
        joined_spec(messages.drop_last()) + "; "@ + messages.last()
    }
}

/// How a failed GraphQL response is reported.
#[derive(Debug, PartialEq, Eq)]
pub enum GraphQlFailure {
    /// Retry after this many seconds.
    RateLimited(u64),
    /// The joined error messages.
    Message(String),
}

/// The classification of GraphQL errors: a known rate-limit wait wins, a secondary rate
/// limit named in the messages waits a minute, and anything else reports the messages.
pub open spec fn graphql_failure_spec(messages: Seq<Seq<char>>, delay: Option<u64>) -> (bool, u64, Seq<char>) {
    let joined = joined_spec(messages);
    match delay {
        Some(d) => (true, d, Seq::empty()),
        None => if contains_spec(lower_spec(joined), "secondary rate limit"@) {
            (true, 60, Seq::empty())
        } else {
            (false, 0, joined)
        },
    }
}

/// Classifies the errors of a GraphQL response.
pub fn graphql_failure(messages: &Vec<String>, delay: Option<u64>) -> (r: GraphQlFailure)
    ensures
        graphql_failure_spec(messages.deep_view(), delay) == match r {
            GraphQlFailure::RateLimited(d) => (true, d, Seq::<char>::empty()),
            GraphQlFailure::Message(m) => (false, 0u64, m@),
        },
{
    let ghost ms = messages.deep_view();
    let mut joined = String::new();
    let mut i: usize = 0;
    while i < messages.len()
        invariant
            i <= messages@.len(),
            ms == messages.deep_view(),
            joined@ == joined_spec(ms.take(i as int)),
        decreases messages.len() - i,
    {
        proof {
            assert(ms.take(i + 1).drop_last() == ms.take(i as int));
            assert(ms.take(i + 1).last() == ms[i as int]);
            if i == 0 {
                assert(ms.take(1)[0] == ms[0]);
            }
        }
        if i > 0 {
            push_str(&mut joined, "; ");
        }
        push_str(&mut joined, messages[i].as_str());
        proof {
            if i == 0 {
                assert(joined@ == ms[0]);
            }
        }
        i = i + 1;
    }
    proof {
        assert(ms.take(messages@.len() as int) == ms);
    }
    if let Some(d) = delay {
        return GraphQlFailure::RateLimited(d);
    }
    let lowered = lower(joined.as_str());
    if contains(lowered.as_str(), "secondary rate limit") {
        GraphQlFailure::RateLimited(60)
    } else {
        GraphQlFailure::Message(joined)
    }
}

/// The revision of a newly collected snapshot: the previous revision where nothing that
/// the cards show changed, else the next one (saturating); 1 for the first snapshot.
pub fn next_snapshot_revision(previous: Option<u64>, unchanged: bool) -> (r: u64)
    ensures
        r == match previous {
            Some(p) => if unchanged {
                p
            } else if p == u64::MAX {
                u64::MAX
            } else {
                (p + 1) as u64
            },
            None => 1,
        },
{
    match previous {
        Some(p) => if unchanged {
            p
        } else {
            p.saturating_add(1)
        },
        None => 1,
    }
}

/// At or below this many remaining requests, the collector slows down.
pub const LOW_RATE_LIMIT_THRESHOLD: u64 = 100;

/// The wait while the rate limit is low.
pub const LOW_RATE_LIMIT_DELAY_SECS: u64 = 3600;

/// How a collection attempt ended.
#[derive(Clone, Copy, Debug, PartialEq, Eq, Structural)]
pub enum PollOutcome {
    /// A snapshot was published; the rate limit has this many requests left.
    Published(u64),
    /// The API asked to wait this many seconds.
    RateLimited(u64),
    /// The attempt failed otherwise.
    Failed,
}

/// The wait before the next attempt, in seconds, and whether it counts from the end of
/// the attempt (rather than from its start): the poll interval, lengthened to an hour
/// while the rate limit is low and to the requested wait after a rate limit.
pub fn next_poll_delay(poll_interval_secs: u64, outcome: PollOutcome) -> (r: (u64, bool))
    ensures
        r == match outcome {
            PollOutcome::Published(remaining) => if remaining <= LOW_RATE_LIMIT_THRESHOLD {
                (max_u64(poll_interval_secs, LOW_RATE_LIMIT_DELAY_SECS), true)
            } else {
                (poll_interval_secs, false)
            },
            PollOutcome::RateLimited(wait) => (max_u64(poll_interval_secs, wait), true),
            PollOutcome::Failed => (poll_interval_secs, false),
        },
{
    match outcome {
        PollOutcome::Published(remaining) => if remaining <= LOW_RATE_LIMIT_THRESHOLD {
            (
                if poll_interval_secs >= LOW_RATE_LIMIT_DELAY_SECS {
                    poll_interval_secs
                } else {
                    LOW_RATE_LIMIT_DELAY_SECS
                },
                true,
            )
        } else {
            (poll_interval_secs, false)
        },
        PollOutcome::RateLimited(wait) => (
            if poll_interval_secs >= wait {
                poll_interval_secs
            } else {
                wait
            },
            true,
        ),
        PollOutcome::Failed => (poll_interval_secs, false),
    }
}

/// An error body is cut to at most the limit, plus one ellipsis.
pub proof fn law_error_body_is_bounded(body: Seq<char>)
    ensures
        truncate_spec(body, ERROR_BODY_LIMIT as nat).len() <= ERROR_BODY_LIMIT + 1,
{
}

} // verus!
