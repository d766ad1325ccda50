//! The decisions of the Spotify playback collector: when the access token is refreshed,
//! when playback is polled, how a reply is read, and how long the collector waits after
//! a failure or a rate limit. The collector's loop performs each action and reports back
//! what happened.
use vstd::prelude::*;

use vstd::string::StringSliceAdditionalSpecFns;

use crate::numbers::{parse_u64, parse_u64_spec};
use crate::spotify::{form_component, form_spec};
use crate::text::{equals, is_blank, owned, push_str, trim, trim_spec};

verus! {

/// How long before its expiry an access token is refreshed, in milliseconds.
pub const ACCESS_TOKEN_REFRESH_SKEW_MS: u64 = 60_000;

/// How long the collector waits after a failed token refresh, in seconds.
pub const TOKEN_RETRY_SECS: u64 = 60;

/// The wait after a rate limit that names no usable `Retry-After`, in seconds.
pub const DEFAULT_RETRY_AFTER_SECS: u64 = 5;

/// The wait after a rate limit: the `Retry-After` seconds where the header is a number,
/// else five, and never less than one.
pub open spec fn retry_after_spec(header: Option<Seq<char>>) -> u64 {
    let secs = match header {
        Some(h) => match parse_u64_spec(h) {
            Some(n) => n,
            None => DEFAULT_RETRY_AFTER_SECS,
        },
        None => DEFAULT_RETRY_AFTER_SECS,
    };
    if secs < 1 {
        1
    } else {
        secs
    }
}

/// The seconds to wait after a rate-limited poll, from its `Retry-After` header.
pub fn retry_after_secs(header: Option<&str>) -> (r: u64)
    ensures
        r == retry_after_spec(
            match header {
                Some(h) => Some(h@),
                None => None,
            },
        ),
        r >= 1,
{
    let secs = match header {
        Some(h) => match parse_u64(h) {
            Some(n) => n,
            None => DEFAULT_RETRY_AFTER_SECS,
        },
        None => DEFAULT_RETRY_AFTER_SECS,
    };
    if secs < 1 {
        1
    } else {
        secs
    }
}

/// What the reply to a playback poll says.
#[derive(Clone, Copy, Debug, PartialEq, Eq, Structural)]
pub enum PlaybackReply {
    /// `204 No Content`: nothing is playing.
    Idle,
    /// Another success: the body describes the playback.
    Body,
    /// `401`: the access token was refused.
    Unauthorized,
    /// `429`: wait this many seconds.
    RateLimited(u64),
    /// Any other status.
    Failed(u16),
}

/// The reading of a playback reply by its status and `Retry-After` header.
pub open spec fn playback_reply_spec(status: u16, retry_after: Option<Seq<char>>) -> PlaybackReply {
    if status == 204 {
        PlaybackReply::Idle
    } else if status == 401 {
        PlaybackReply::Unauthorized
    } else if status == 429 {
        PlaybackReply::RateLimited(retry_after_spec(retry_after))
    } else if 200 <= status <= 299 {
        PlaybackReply::Body
    } else {
        PlaybackReply::Failed(status)
    }
}

/// Reads the status of a playback reply.
pub fn classify_playback_reply(status: u16, retry_after: Option<&str>) -> (r: PlaybackReply)
    ensures
        r == playback_reply_spec(
            status,
            match retry_after {
                Some(h) => Some(h@),
                None => None,
            },
        ),
{
    if status == 204 {
        PlaybackReply::Idle
    } else if status == 401 {
        PlaybackReply::Unauthorized
    } else if status == 429 {
        PlaybackReply::RateLimited(retry_after_secs(retry_after))
    } else if 200 <= status && status <= 299 {
        PlaybackReply::Body
    } else {
        PlaybackReply::Failed(status)
    }
}

/// Where the collector is in a round.
#[derive(Clone, Copy, Debug, PartialEq, Eq, Structural)]
pub enum CollectorPhase {
    /// Between rounds, waiting for the next tick.
    Waiting,
    /// A token refresh is under way; `forced` where a poll was refused with `401`.
    Refreshing { forced: bool },
    /// A poll is under way; `retry` where it follows a forced refresh.
    Polling { retry: bool },
}

/// The collector's state: when its access token expires, on the loop's clock in
/// milliseconds, and where it is in a round.
#[derive(Clone, Copy, Debug, PartialEq, Eq, Structural)]
pub struct SpotifyCollector {
    pub token_expires_at_ms: Option<u64>,
    pub phase: CollectorPhase,
}

/// What the loop reports to the collector.
#[derive(Clone, Copy, Debug, PartialEq, Eq, Structural)]
pub enum SpotifyEvent {
    /// The poll interval elapsed.
    Tick { now_ms: u64 },
    /// A token was obtained at `now_ms`, valid for `expires_in_secs`.
    TokenRefreshed { now_ms: u64, expires_in_secs: u64 },
    /// The token refresh failed.
    TokenFailed,
    /// The poll was answered with a playback (playing or idle).
    PlaybackReceived,
    /// The poll was refused with `401`.
    Unauthorized,
    /// The poll was rate limited for this many seconds.
    RateLimited { retry_after_secs: u64 },
    /// The poll failed otherwise (transport, status or body).
    PollFailed,
}

/// What the loop does next.
#[derive(Clone, Copy, Debug, PartialEq, Eq, Structural)]
pub enum SpotifyAction {
    /// Refresh the access token.
    Refresh,
    /// Poll the current playback with the access token.
    Poll,
    /// Sleep this many seconds, then wait for the next tick.
    Sleep { secs: u64 },
    /// Publish the playback received (`publish_observation` decides what is saved).
    Publish,
    /// Nothing until the next tick.
    Wait,
}

/// The refresh token to start with: the stored one, trimmed, where the file holds one,
/// else the configured one.
pub open spec fn starting_refresh_token_spec(stored: Option<Seq<char>>, configured: Seq<char>) -> Seq<char> {
    match stored {
        Some(text) => if trim_spec(text).len() > 0 {
            trim_spec(text)
        } else {
            configured
        },
        None => configured,
    }
}

/// The refresh token to start with, from the stored file's text (nothing where there is
/// no file) and the configured token.
pub fn starting_refresh_token(stored: Option<&str>, configured: &str) -> (r: String)
    ensures
        r@ == starting_refresh_token_spec(
            match stored {
                Some(t) => Some(t@),
                None => None,
            },
            configured@,
        ),
{
    match stored {
        Some(text) => if is_blank(text) {
            owned(configured)
        } else {
            trim(text)
        },
        None => owned(configured),
    }
}

/// The form body of a token refresh.
pub fn refresh_request_body(refresh_token: &str) -> (r: String)
    ensures
        r@ == "grant_type=refresh_token&refresh_token="@ + form_spec(refresh_token.spec_bytes()),
{
    let mut body = owned("grant_type=refresh_token&refresh_token=");
    let encoded = form_component(refresh_token);
    push_str(&mut body, encoded.as_str());
    body
}

/// Whether a token reply is usable: a successful status, an access token that is not
/// blank, and a positive lifetime.
pub open spec fn token_usable_spec(status: u16, access_token: Seq<char>, expires_in_secs: u64) -> bool {
    200 <= status <= 299 && trim_spec(access_token).len() > 0 && expires_in_secs > 0
}

/// Whether a decoded token reply is usable.
pub fn token_usable(status: u16, access_token: &str, expires_in_secs: u64) -> (r: bool)
    ensures
        r == token_usable_spec(status, access_token@, expires_in_secs),
{
    if !(200 <= status && status <= 299) || expires_in_secs == 0 {
        return false;
    }
    !is_blank(access_token)
}

/// The refresh token that replaces the current one: the offered one, trimmed, where it
/// is not blank and differs from the current one.
pub open spec fn rotated_refresh_token_spec(current: Seq<char>, offered: Option<Seq<char>>) -> Option<Seq<char>> {
    match offered {
        Some(o) => if trim_spec(o).len() > 0 && trim_spec(o) != current {
            Some(trim_spec(o))
        } else {
            None
        },
        None => None,
    }
}

/// The refresh token to store and use from now on, if the token reply rotated it.
pub fn rotated_refresh_token(current: &str, offered: Option<&str>) -> (r: Option<String>)
    ensures
        r.deep_view() == rotated_refresh_token_spec(
            current@,
            match offered {
                Some(o) => Some(o@),
                None => None,
            },
        ),
{
    match offered {
        Some(o) => {
            if is_blank(o) {
                return None;
            }
            let t = trim(o);
            if equals(t.as_str(), current) {
                None
            } else {
                Some(t)
            }
        },
        None => None,
    }
}

/// Whether the token is missing or expires within the refresh skew.
pub open spec fn needs_refresh(token_expires_at_ms: Option<u64>, now_ms: u64) -> bool {
    match token_expires_at_ms {
        None => true,
        Some(expires) => (if expires > now_ms {
            expires - now_ms
        } else {
            0
        }) <= ACCESS_TOKEN_REFRESH_SKEW_MS,
    }
}

/// Whether an event's numbers fit the collector's clock: a new token's expiry fits in a
/// `u64` of milliseconds.
pub open spec fn event_fits(event: SpotifyEvent) -> bool {
    match event {
        SpotifyEvent::TokenRefreshed { now_ms, expires_in_secs } => now_ms + expires_in_secs * 1000
            <= u64::MAX,
        _ => true,
    }
}

/// One step of the collector. A tick between rounds refreshes a missing or expiring
/// token, else polls. A new token is kept and the poll follows. A failed refresh sleeps
/// a minute. A playback is published. A first `401` forces a refresh and one more
/// poll; a `401`, a rate limit or a failure on that retry is given up until the next
/// tick. A rate limit otherwise sleeps its `Retry-After`. Any other failure waits for
/// the next tick. An event that does not fit the phase changes nothing.
pub open spec fn spotify_step_spec(s: SpotifyCollector, e: SpotifyEvent) -> (SpotifyCollector, SpotifyAction) {
    let waiting = SpotifyCollector { phase: CollectorPhase::Waiting, ..s };
    match e {
        SpotifyEvent::Tick { now_ms } => match s.phase {
            CollectorPhase::Waiting => if needs_refresh(s.token_expires_at_ms, now_ms) {
                (SpotifyCollector { phase: CollectorPhase::Refreshing { forced: false }, ..s }, SpotifyAction::Refresh)
            } else {
                (SpotifyCollector { phase: CollectorPhase::Polling { retry: false }, ..s }, SpotifyAction::Poll)
            },
            _ => (s, SpotifyAction::Wait),
        },
        SpotifyEvent::TokenRefreshed { now_ms, expires_in_secs } => match s.phase {
            CollectorPhase::Refreshing { forced } => (
                SpotifyCollector {
                    token_expires_at_ms: Some((now_ms + expires_in_secs * 1000) as u64),
                    phase: CollectorPhase::Polling { retry: forced },
                },
                SpotifyAction::Poll,
            ),
            _ => (s, SpotifyAction::Wait),
        },
        SpotifyEvent::TokenFailed => match s.phase {
            CollectorPhase::Refreshing { .. } => (waiting, SpotifyAction::Sleep { secs: TOKEN_RETRY_SECS }),
            _ => (s, SpotifyAction::Wait),
        },
        SpotifyEvent::PlaybackReceived => match s.phase {
            CollectorPhase::Polling { .. } => (waiting, SpotifyAction::Publish),
            _ => (s, SpotifyAction::Wait),
        },
        SpotifyEvent::Unauthorized => match s.phase {
            CollectorPhase::Polling { retry } => if retry {
                (waiting, SpotifyAction::Wait)
            } else {
                (SpotifyCollector { phase: CollectorPhase::Refreshing { forced: true }, ..s }, SpotifyAction::Refresh)
            },
            _ => (s, SpotifyAction::Wait),
        },
        SpotifyEvent::RateLimited { retry_after_secs } => match s.phase {
            CollectorPhase::Polling { retry } => if retry {
                (waiting, SpotifyAction::Wait)
            } else {
                (waiting, SpotifyAction::Sleep { secs: retry_after_secs })
            },
            _ => (s, SpotifyAction::Wait),
        },
        SpotifyEvent::PollFailed => match s.phase {
            CollectorPhase::Polling { .. } => (waiting, SpotifyAction::Wait),
            _ => (s, SpotifyAction::Wait),
        },
    }
}

impl SpotifyCollector {
    /// A collector without a token, between rounds.
    pub fn new() -> (r: Self)
        ensures
            r == (SpotifyCollector { token_expires_at_ms: None, phase: CollectorPhase::Waiting }),
    {
        SpotifyCollector { token_expires_at_ms: None, phase: CollectorPhase::Waiting }
    }
}

fn wants_refresh(token_expires_at_ms: Option<u64>, now_ms: u64) -> (r: bool)
    ensures
        r == needs_refresh(token_expires_at_ms, now_ms),
{
    match token_expires_at_ms {
        None => true,
        Some(expires) => {
            let left = if expires > now_ms {
                expires - now_ms
            } else {
                0
            };
            left <= ACCESS_TOKEN_REFRESH_SKEW_MS
        },
    }
}

/// One step of the collector: its next state and the action the loop performs.
pub fn spotify_step(state: &SpotifyCollector, event: SpotifyEvent) -> (r: (SpotifyCollector, SpotifyAction))
    requires
        event_fits(event),
    ensures
        r == spotify_step_spec(*state, event),
{
    let s = *state;
    let waiting = SpotifyCollector { token_expires_at_ms: s.token_expires_at_ms, phase: CollectorPhase::Waiting };
    match event {
        SpotifyEvent::Tick { now_ms } => match s.phase {
            CollectorPhase::Waiting => if wants_refresh(s.token_expires_at_ms, now_ms) {
                (
                    SpotifyCollector {
                        token_expires_at_ms: s.token_expires_at_ms,
                        phase: CollectorPhase::Refreshing { forced: false },
                    },
                    SpotifyAction::Refresh,
                )
            } else {
                (
                    SpotifyCollector {
                        token_expires_at_ms: s.token_expires_at_ms,
                        phase: CollectorPhase::Polling { retry: false },
                    },
                    SpotifyAction::Poll,
                )
            },
            _ => (s, SpotifyAction::Wait),
        },
        SpotifyEvent::TokenRefreshed { now_ms, expires_in_secs } => match s.phase {
            CollectorPhase::Refreshing { forced } => (
                SpotifyCollector {
                    token_expires_at_ms: Some(now_ms + expires_in_secs * 1000),
                    phase: CollectorPhase::Polling { retry: forced },
                },
                SpotifyAction::Poll,
            ),
            _ => (s, SpotifyAction::Wait),
        },
        SpotifyEvent::TokenFailed => match s.phase {
            CollectorPhase::Refreshing { .. } => (waiting, SpotifyAction::Sleep { secs: TOKEN_RETRY_SECS }),
            _ => (s, SpotifyAction::Wait),
        },
        SpotifyEvent::PlaybackReceived => match s.phase {
            CollectorPhase::Polling { .. } => (waiting, SpotifyAction::Publish),
            _ => (s, SpotifyAction::Wait),
        },
        SpotifyEvent::Unauthorized => match s.phase {
            CollectorPhase::Polling { retry } => if retry {
                (waiting, SpotifyAction::Wait)
            } else {
                (
                    SpotifyCollector {
                        token_expires_at_ms: s.token_expires_at_ms,
                        phase: CollectorPhase::Refreshing { forced: true },
                    },
                    SpotifyAction::Refresh,
                )
            },
            _ => (s, SpotifyAction::Wait),
        },
        SpotifyEvent::RateLimited { retry_after_secs } => match s.phase {
            CollectorPhase::Polling { retry } => if retry {
                (waiting, SpotifyAction::Wait)
            } else {
                (waiting, SpotifyAction::Sleep { secs: retry_after_secs })
            },
            _ => (s, SpotifyAction::Wait),
        },
        SpotifyEvent::PollFailed => match s.phase {
            CollectorPhase::Polling { .. } => (waiting, SpotifyAction::Wait),
            _ => (s, SpotifyAction::Wait),
        },
    }
}

/// The state between rounds, with the same token.
pub open spec fn between_rounds(s: SpotifyCollector) -> SpotifyCollector {
    SpotifyCollector { phase: CollectorPhase::Waiting, ..s }
}

/// The event of a token obtained at `now_ms`, valid for `expires_in_secs`.
pub open spec fn refreshed(now_ms: u64, expires_in_secs: u64) -> SpotifyEvent {
    SpotifyEvent::TokenRefreshed { now_ms, expires_in_secs }
}

/// The phase of a first poll in a round.
pub open spec fn first_poll() -> CollectorPhase {
    CollectorPhase::Polling { retry: false }
}

/// A refused token is refreshed once per round: after the forced refresh's poll is
/// refused again, the collector does not refresh until the next tick.
pub proof fn law_unauthorized_is_retried_once(s: SpotifyCollector, now_ms: u64, expires_in_secs: u64)
    requires
        s.phase == first_poll(),
        now_ms + expires_in_secs * 1000 <= u64::MAX,
    ensures
        spotify_step_spec(s, SpotifyEvent::Unauthorized).1 == SpotifyAction::Refresh,
        spotify_step_spec(spotify_step_spec(s, SpotifyEvent::Unauthorized).0, refreshed(now_ms, expires_in_secs)).1
            == SpotifyAction::Poll,
        spotify_step_spec(
            spotify_step_spec(spotify_step_spec(s, SpotifyEvent::Unauthorized).0, refreshed(now_ms, expires_in_secs)).0,
            SpotifyEvent::Unauthorized,
        ).1 == SpotifyAction::Wait,
        spotify_step_spec(
            spotify_step_spec(spotify_step_spec(s, SpotifyEvent::Unauthorized).0, refreshed(now_ms, expires_in_secs)).0,
            SpotifyEvent::Unauthorized,
        ).0.phase == CollectorPhase::Waiting,
{
}

/// Every round ends between rounds: whatever the poll answers, the collector is back to
/// waiting for a tick, and its token is kept.
pub proof fn law_poll_outcome_ends_round(s: SpotifyCollector, e: SpotifyEvent)
    requires
        (s.phase is Polling),
        (e is PlaybackReceived || e is RateLimited || e is PollFailed),
    ensures
        spotify_step_spec(s, e).0 == between_rounds(s),
{
}

/// A fresh token is not refreshed again: right after a refresh valid for longer than the
/// skew, the next tick at the same time polls.
pub proof fn law_fresh_token_polls(s: SpotifyCollector, now_ms: u64, expires_in_secs: u64)
    requires
        (s.phase is Refreshing),
        now_ms + expires_in_secs * 1000 <= u64::MAX,
        expires_in_secs * 1000 > ACCESS_TOKEN_REFRESH_SKEW_MS,
    ensures
        spotify_step_spec(
            between_rounds(spotify_step_spec(s, refreshed(now_ms, expires_in_secs)).0),
            SpotifyEvent::Tick { now_ms },
        ).1 == SpotifyAction::Poll,
{
}

} // verus!
