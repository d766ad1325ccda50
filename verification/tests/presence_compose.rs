use profile_materials::presence_compose::{combined_revision, compose_presence, spotify_cover_asset};
use profile_materials::spotify::{SpotifyPlayback, SpotifyPlaybackState, SpotifySnapshot};
use profile_materials::state::{
    ActivityKind, ActivitySnapshot, ClientStatusSnapshot, GatewayStatus, PresenceData,
    PresenceFreshness, PresenceSnapshot, PresenceState, PresenceStatus, RuntimeState,
};

fn runtime(freshness: PresenceFreshness) -> RuntimeState {
    RuntimeState {
        freshness,
        gateway_status: GatewayStatus::Live,
        last_target_event_unix_ms: Some(900),
        presence: PresenceState::Known(PresenceSnapshot {
            data: PresenceData {
                activities: vec![
                    ActivitySnapshot {
                        application_id: None,
                        assets: None,
                        details: Some("Old Discord track".to_owned()),
                        kind: ActivityKind::Listening,
                        name: "Spotify".to_owned(),
                        party: None,
                        state: Some("Old artist".to_owned()),
                        timestamps: None,
                    },
                    ActivitySnapshot {
                        application_id: Some("1".to_owned()),
                        assets: None,
                        details: Some("Competitive".to_owned()),
                        kind: ActivityKind::Playing,
                        name: "VALORANT".to_owned(),
                        party: None,
                        state: None,
                        timestamps: None,
                    },
                ],
                client_status: ClientStatusSnapshot {
                    desktop: Some(PresenceStatus::Online),
                    mobile: None,
                    web: None,
                },
                status: PresenceStatus::Online,
            },
            observed_at_unix_ms: 900,
            revision: 7,
        }),
        stream_revision: 7,
        unvalidated_since_unix_ms: None,
    }
}

fn spotify(playback: SpotifyPlaybackState) -> SpotifySnapshot {
    SpotifySnapshot { playback, revision: 3, validated_at_unix_ms: 1_000 }
}

fn playback() -> SpotifyPlayback {
    SpotifyPlayback {
        album: Some("Album".to_owned()),
        artists: "Artist".to_owned(),
        cover_url: Some("https://i.scdn.co/image/cover".to_owned()),
        duration_ms: 180_000,
        is_playing: true,
        progress_ms: 42_000,
        title: "New native track".to_owned(),
        track_id: Some("track".to_owned()),
    }
}

fn track() -> SpotifyPlaybackState {
    SpotifyPlaybackState::Track(playback())
}

fn known(runtime: RuntimeState) -> PresenceSnapshot {
    match runtime.presence {
        PresenceState::Known(snapshot) => snapshot,
        PresenceState::Unknown => panic!("expected known presence"),
    }
}

#[test]
fn native_spotify_replaces_discord_spotify_without_duplicates() {
    let composed = compose_presence(&runtime(PresenceFreshness::Fresh), Some(&spotify(track())), 1_000);
    let snapshot = known(composed);

    assert_eq!(snapshot.data.activities.len(), 2);
    assert_eq!(snapshot.data.activities[0].name, "VALORANT");
    assert_eq!(snapshot.data.activities[1].name, "Spotify");
    assert_eq!(snapshot.data.activities[1].details.as_deref(), Some("New native track"));
    assert_eq!(
        snapshot.data.activities[1].assets.as_ref().and_then(|assets| assets.large_image.as_deref()),
        Some("spotify:cover")
    );
}

#[test]
fn native_idle_hides_discord_spotify_instead_of_using_rpc_fallback() {
    let composed = compose_presence(
        &runtime(PresenceFreshness::Fresh),
        Some(&spotify(SpotifyPlaybackState::Idle)),
        1_000,
    );
    let snapshot = known(composed);
    assert_eq!(snapshot.data.activities.len(), 1);
    assert_eq!(snapshot.data.activities[0].name, "VALORANT");
}

#[test]
fn native_spotify_stays_visible_when_discord_is_unavailable() {
    let composed =
        compose_presence(&runtime(PresenceFreshness::Unavailable), Some(&spotify(track())), 1_000);
    assert_eq!(composed.freshness, PresenceFreshness::Fresh);
    let snapshot = known(composed);
    assert_eq!(snapshot.data.status, PresenceStatus::Offline);
    assert_eq!(snapshot.data.activities.len(), 1);
    assert_eq!(snapshot.data.activities[0].name, "Spotify");
}

#[test]
fn stale_native_snapshot_still_does_not_expose_discord_spotify() {
    let composed = compose_presence(&runtime(PresenceFreshness::Fresh), Some(&spotify(track())), 70_000);
    let snapshot = known(composed);
    assert_eq!(snapshot.data.activities.len(), 1);
    assert_eq!(snapshot.data.activities[0].name, "VALORANT");
}

#[test]
fn missing_native_snapshot_does_not_expose_discord_spotify() {
    let composed = compose_presence(&runtime(PresenceFreshness::Fresh), None, 1_000);
    let snapshot = known(composed);
    assert_eq!(snapshot.data.activities.len(), 1);
    assert_eq!(snapshot.data.activities[0].name, "VALORANT");
}

#[test]
fn paused_native_spotify_is_not_presented() {
    let mut paused = playback();
    paused.is_playing = false;
    let composed = compose_presence(
        &runtime(PresenceFreshness::Fresh),
        Some(&spotify(SpotifyPlaybackState::Track(paused))),
        1_000,
    );
    let snapshot = known(composed);
    assert_eq!(snapshot.data.activities.len(), 1);
    assert_eq!(snapshot.data.activities[0].name, "VALORANT");
}

#[test]
fn cover_asset_keeps_only_spotify_image_ids() {
    assert_eq!(spotify_cover_asset("https://i.scdn.co/image/abc123").as_deref(), Some("spotify:abc123"));
    assert_eq!(spotify_cover_asset("https://example.com/image/abc123"), None);
}

#[test]
fn combined_revision_mixes_both_revisions() {
    assert_eq!(combined_revision(7, 3), 7 * 1_000_003 + 3);
    assert_ne!(combined_revision(7, 3), combined_revision(7, 4));
    assert_eq!(combined_revision(u64::MAX, 1), u64::MAX.wrapping_mul(1_000_003).wrapping_add(1));
}

#[test]
fn native_track_advances_the_stream_revision() {
    let base = runtime(PresenceFreshness::Fresh);
    let composed = compose_presence(&base, Some(&spotify(track())), 1_000);
    assert_eq!(composed.stream_revision, combined_revision(7, 3));
}
