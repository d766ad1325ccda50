use profile_materials::spotify_collector::{
    classify_playback_reply, refresh_request_body, retry_after_secs, rotated_refresh_token,
    spotify_step, starting_refresh_token, token_usable, CollectorPhase, PlaybackReply,
    SpotifyAction, SpotifyCollector, SpotifyEvent,
};

#[test]
fn retry_after_defaults_to_five_and_is_at_least_one() {
    assert_eq!(retry_after_secs(None), 5);
    assert_eq!(retry_after_secs(Some("12")), 12);
    assert_eq!(retry_after_secs(Some("0")), 1);
    assert_eq!(retry_after_secs(Some("soon")), 5);
}

#[test]
fn playback_replies_are_read_by_status() {
    assert_eq!(classify_playback_reply(204, None), PlaybackReply::Idle);
    assert_eq!(classify_playback_reply(200, None), PlaybackReply::Body);
    assert_eq!(classify_playback_reply(401, None), PlaybackReply::Unauthorized);
    assert_eq!(classify_playback_reply(429, Some("30")), PlaybackReply::RateLimited(30));
    assert_eq!(classify_playback_reply(503, None), PlaybackReply::Failed(503));
}

#[test]
fn a_round_refreshes_a_missing_token_then_polls_and_publishes() {
    let start = SpotifyCollector::new();
    let (s, a) = spotify_step(&start, SpotifyEvent::Tick { now_ms: 1_000 });
    assert_eq!(a, SpotifyAction::Refresh);
    let (s, a) = spotify_step(&s, SpotifyEvent::TokenRefreshed { now_ms: 1_000, expires_in_secs: 3_600 });
    assert_eq!(a, SpotifyAction::Poll);
    assert_eq!(s.token_expires_at_ms, Some(3_601_000));
    let (s, a) = spotify_step(&s, SpotifyEvent::PlaybackReceived);
    assert_eq!(a, SpotifyAction::Publish);
    assert_eq!(s.phase, CollectorPhase::Waiting);
    let (s, a) = spotify_step(&s, SpotifyEvent::Tick { now_ms: 6_000 });
    assert_eq!(a, SpotifyAction::Poll);
    let (_, a) = spotify_step(&s, SpotifyEvent::RateLimited { retry_after_secs: 7 });
    assert_eq!(a, SpotifyAction::Sleep { secs: 7 });
    // Within a minute of its expiry the token is refreshed before polling.
    let waiting = SpotifyCollector { token_expires_at_ms: Some(3_601_000), phase: CollectorPhase::Waiting };
    let (_, a) = spotify_step(&waiting, SpotifyEvent::Tick { now_ms: 3_541_000 });
    assert_eq!(a, SpotifyAction::Refresh);
}

#[test]
fn a_refused_token_is_refreshed_once_then_given_up() {
    let polling = SpotifyCollector { token_expires_at_ms: Some(10_000_000), phase: CollectorPhase::Polling { retry: false } };
    let (s, a) = spotify_step(&polling, SpotifyEvent::Unauthorized);
    assert_eq!(a, SpotifyAction::Refresh);
    let (s, a) = spotify_step(&s, SpotifyEvent::TokenRefreshed { now_ms: 5_000, expires_in_secs: 3_600 });
    assert_eq!(a, SpotifyAction::Poll);
    let (s, a) = spotify_step(&s, SpotifyEvent::Unauthorized);
    assert_eq!(a, SpotifyAction::Wait);
    assert_eq!(s.phase, CollectorPhase::Waiting);
    let refreshing = SpotifyCollector { token_expires_at_ms: None, phase: CollectorPhase::Refreshing { forced: false } };
    let (s, a) = spotify_step(&refreshing, SpotifyEvent::TokenFailed);
    assert_eq!(a, SpotifyAction::Sleep { secs: 60 });
    assert_eq!(s.phase, CollectorPhase::Waiting);
}

#[test]
fn token_replies_and_refresh_tokens() {
    assert_eq!(starting_refresh_token(Some("  stored\n"), "configured"), "stored");
    assert_eq!(starting_refresh_token(Some("   "), "configured"), "configured");
    assert_eq!(starting_refresh_token(None, "configured"), "configured");
    assert_eq!(refresh_request_body("a b/c"), "grant_type=refresh_token&refresh_token=a%20b%2Fc");
    assert!(token_usable(200, "token", 3600));
    assert!(!token_usable(200, "  ", 3600));
    assert!(!token_usable(200, "token", 0));
    assert!(!token_usable(400, "token", 3600));
    assert_eq!(rotated_refresh_token("old", Some(" new ")), Some("new".to_owned()));
    assert_eq!(rotated_refresh_token("old", Some("old")), None);
    assert_eq!(rotated_refresh_token("old", Some(" ")), None);
    assert_eq!(rotated_refresh_token("old", None), None);
}
