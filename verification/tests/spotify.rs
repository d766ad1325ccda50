use profile_materials::spotify::{
    advance_active_snapshot, form_component, should_persist_track, Album, Artist,
    CurrentlyPlayingResponse, Image, PlaybackDebouncer, SpotifyPlayback, SpotifyPlaybackState,
    SpotifySnapshot, SpotifyStore, TrackItem,
};
use serde_json::Value;
use profile_materials::spotify::{publish_observation, LkgAction};

fn active_track(progress_ms: u64) -> SpotifyPlaybackState {
    SpotifyPlaybackState::Track(SpotifyPlayback {
        album: Some("Album".to_owned()),
        artists: "Artist".to_owned(),
        cover_url: None,
        duration_ms: 180_000,
        is_playing: true,
        progress_ms,
        title: "Track".to_owned(),
        track_id: Some("track-1".to_owned()),
    })
}

/// Reads a currently-playing payload into the library's response type, field by field.
fn response(json: &str) -> CurrentlyPlayingResponse {
    let value: Value = serde_json::from_str(json).unwrap();
    let item = value["item"].as_object().map(|item| TrackItem {
        album: item.get("album").and_then(Value::as_object).map(|album| Album {
            images: album["images"]
                .as_array()
                .unwrap()
                .iter()
                .map(|image| Image {
                    height: image["height"].as_u64(),
                    url: image["url"].as_str().unwrap().to_owned(),
                    width: image["width"].as_u64(),
                })
                .collect(),
            name: album["name"].as_str().unwrap().to_owned(),
        }),
        artists: item["artists"]
            .as_array()
            .unwrap()
            .iter()
            .map(|artist| Artist { name: artist["name"].as_str().unwrap().to_owned() })
            .collect(),
        duration_ms: item["duration_ms"].as_u64().unwrap(),
        id: item["id"].as_str().map(ToOwned::to_owned),
        name: item["name"].as_str().unwrap().to_owned(),
    });
    CurrentlyPlayingResponse {
        is_playing: value["is_playing"].as_bool().unwrap(),
        item,
        progress_ms: value["progress_ms"].as_u64(),
    }
}

#[test]
fn form_encoding_is_safe_for_refresh_tokens() {
    assert_eq!(form_component("abc+def/ghi="), "abc%2Bdef%2Fghi%3D");
}

#[test]
fn converts_current_track_without_exposing_provider_payload() {
    let payload = response(
        r#"{
            "is_playing": true,
            "progress_ms": 42000,
            "item": {
                "id": "track-1",
                "name": "Half Asleep",
                "duration_ms": 180000,
                "artists": [{"name": "Meyo"}],
                "album": {
                    "name": "Half Asleep",
                    "images": [
                        {"url":"https://i.scdn.co/image/small","width":64,"height":64},
                        {"url":"https://i.scdn.co/image/large","width":640,"height":640}
                    ]
                }
            }
        }"#,
    );

    let SpotifyPlaybackState::Track(track) = payload.into_playback() else {
        panic!("expected track");
    };
    assert_eq!(track.title, "Half Asleep");
    assert_eq!(track.artists, "Meyo");
    assert_eq!(track.album.as_deref(), Some("Half Asleep"));
    assert_eq!(track.cover_url.as_deref(), Some("https://i.scdn.co/image/large"));
    assert_eq!(track.progress_ms, 42_000);
    assert!(track.is_playing);
}

#[test]
fn paused_track_is_idle_even_when_spotify_returns_track_metadata() {
    let payload = response(
        r#"{
            "is_playing": false,
            "progress_ms": 42000,
            "item": {
                "id": "track-1",
                "name": "Paused Track",
                "duration_ms": 180000,
                "artists": [{"name": "Artist"}],
                "album": {"name": "Album", "images": []}
            }
        }"#,
    );
    assert_eq!(payload.into_playback(), SpotifyPlaybackState::Idle);
}

#[test]
fn missing_item_is_idle() {
    let payload = response(r#"{"is_playing":false,"progress_ms":null,"item":null}"#);
    assert_eq!(payload.into_playback(), SpotifyPlaybackState::Idle);
}

#[test]
fn active_track_lkg_advances_across_a_short_restart() {
    let snapshot = SpotifySnapshot { playback: active_track(42_000), revision: 7, validated_at_unix_ms: 1_000 };
    let restored = advance_active_snapshot(snapshot, 11_000).expect("active LKG");
    let SpotifyPlaybackState::Track(track) = restored.playback else {
        panic!("expected track");
    };
    assert_eq!(track.progress_ms, 52_000);
    assert_eq!(restored.validated_at_unix_ms, 11_000);
}

#[test]
fn active_track_lkg_expires_after_predicted_end_and_grace() {
    let snapshot = SpotifySnapshot { playback: active_track(170_000), revision: 7, validated_at_unix_ms: 1_000 };
    assert!(advance_active_snapshot(snapshot, 27_000).is_none());
}

#[test]
fn form_encoding_keeps_unreserved_bytes_and_escapes_utf8() {
    assert_eq!(form_component("AZaz09-._~"), "AZaz09-._~");
    assert_eq!(form_component("a b"), "a%20b");
    assert_eq!(form_component("é"), "%C3%A9");
}

#[test]
fn idle_needs_two_polls_after_an_active_track() {
    let mut debouncer = PlaybackDebouncer::new();
    assert_eq!(debouncer.observe(SpotifyPlaybackState::Idle), Some(SpotifyPlaybackState::Idle));
    assert!(debouncer.observe(active_track(1)).is_some());
    assert_eq!(debouncer.observe(SpotifyPlaybackState::Idle), None);
    assert_eq!(debouncer.observe(SpotifyPlaybackState::Idle), Some(SpotifyPlaybackState::Idle));
}

#[test]
fn store_revision_advances_only_on_playback_change() {
    let mut store = SpotifyStore::new();
    assert!(store.load().is_none());
    assert!(store.publish(active_track(1_000), 10));
    let first = store.load().unwrap().revision;
    assert!(!store.publish(active_track(1_000), 20));
    let same = store.load().unwrap();
    assert_eq!(same.revision, first);
    assert_eq!(same.validated_at_unix_ms, 20);
    assert!(store.publish(SpotifyPlaybackState::Idle, 30));
    assert_eq!(store.load().unwrap().revision, first + 1);
}

#[test]
fn persistence_only_for_a_new_track() {
    let current = SpotifySnapshot { playback: active_track(1), revision: 1, validated_at_unix_ms: 1 };
    assert!(!should_persist_track(Some(&current), &active_track(5_000)));
    assert!(should_persist_track(None, &active_track(5_000)));
    assert!(!should_persist_track(None, &SpotifyPlaybackState::Idle));
}

#[test]
fn observations_publish_and_manage_the_persisted_track() {
    let mut store = SpotifyStore::new();
    let mut debouncer = PlaybackDebouncer::new();

    assert_eq!(
        publish_observation(&mut store, &mut debouncer, active_track(1_000), 10),
        Some((true, LkgAction::Persist))
    );
    assert_eq!(
        publish_observation(&mut store, &mut debouncer, active_track(2_000), 20),
        Some((true, LkgAction::Keep))
    );
    assert_eq!(publish_observation(&mut store, &mut debouncer, SpotifyPlaybackState::Idle, 30), None);
    assert_eq!(
        publish_observation(&mut store, &mut debouncer, SpotifyPlaybackState::Idle, 40),
        Some((true, LkgAction::Clear))
    );
    assert_eq!(store.load().unwrap().playback, SpotifyPlaybackState::Idle);
}
