use profile_materials::activity::{
    activity_richness, is_spotify_activity, local_icon_key, resolve_artwork, spotify_activity,
    ArtworkSource,
};
use profile_materials::state::{
    ActivityAssetsSnapshot, ActivityKind, ActivitySnapshot, ActivityTimestampsSnapshot,
};

fn activity(
    name: &str,
    kind: ActivityKind,
    application_id: Option<&str>,
    large_image: Option<&str>,
) -> ActivitySnapshot {
    ActivitySnapshot {
        application_id: application_id.map(ToOwned::to_owned),
        assets: large_image.map(|large_image| ActivityAssetsSnapshot {
            large_image: Some(large_image.to_owned()),
            large_text: None,
            small_image: None,
            small_text: None,
        }),
        details: None,
        kind,
        name: name.to_owned(),
        party: None,
        state: None,
        timestamps: None,
    }
}

#[test]
fn resolves_discord_application_assets() {
    let activity = activity(
        "VALORANT",
        ActivityKind::Playing,
        Some("1443350165678198935"),
        Some("1514484181319811163"),
    );
    let artwork = resolve_artwork(&activity);

    assert_eq!(artwork.source, ArtworkSource::DiscordApplication);
    assert_eq!(
        artwork.url.as_deref(),
        Some("https://cdn.discordapp.com/app-assets/1443350165678198935/1514484181319811163.png")
    );
    assert_eq!(artwork.fallback_key, "valorant");
}

#[test]
fn resolves_discord_media_proxy_assets() {
    let activity = activity(
        "RustRover",
        ActivityKind::Playing,
        Some("1107202385799041054"),
        Some("mp:external/hash/https/raw.githubusercontent.com/icon.png"),
    );
    let artwork = resolve_artwork(&activity);

    assert_eq!(artwork.source, ArtworkSource::DiscordMediaProxy);
    assert_eq!(
        artwork.url.as_deref(),
        Some("https://media.discordapp.net/external/hash/https/raw.githubusercontent.com/icon.png")
    );
    assert_eq!(artwork.fallback_key, "rustrover");
}

#[test]
fn resolves_spotify_cover_without_spotify_api() {
    let activity = activity(
        "Spotify",
        ActivityKind::Listening,
        None,
        Some("spotify:ab67616d0000b2730ae4f4d42e4a09f3a29f64ad"),
    );
    let artwork = resolve_artwork(&activity);

    assert_eq!(artwork.source, ArtworkSource::Spotify);
    assert_eq!(
        artwork.url.as_deref(),
        Some("https://i.scdn.co/image/ab67616d0000b2730ae4f4d42e4a09f3a29f64ad")
    );
    assert_eq!(artwork.fallback_key, "spotify");
}

#[test]
fn unsafe_or_unknown_assets_fall_back_deterministically() {
    let activity = activity(
        "Mystery App",
        ActivityKind::Playing,
        Some("123"),
        Some("../../bad?asset"),
    );
    let artwork = resolve_artwork(&activity);

    assert_eq!(artwork.source, ArtworkSource::LocalFallback);
    assert!(artwork.url.is_none());
    assert_eq!(artwork.fallback_key, "activity");
    assert_eq!(local_icon_key("Visual Studio Code"), "vscode");
}

#[test]
fn normalizes_linked_spotify_activity_and_duration() {
    let mut activity = activity(
        "Spotify",
        ActivityKind::Listening,
        None,
        Some("spotify:abc123"),
    );
    activity.details = Some("  Track title  ".to_owned());
    activity.state = Some(" Artist A; Artist B ".to_owned());
    activity.assets.as_mut().unwrap().large_text = Some(" Album name ".to_owned());
    activity.timestamps = Some(ActivityTimestampsSnapshot {
        start: Some(1_000),
        end: Some(181_000),
    });

    let spotify = spotify_activity(&[activity]).unwrap();
    assert_eq!(spotify.title.as_deref(), Some("Track title"));
    assert_eq!(spotify.artist.as_deref(), Some("Artist A; Artist B"));
    assert_eq!(spotify.album.as_deref(), Some("Album name"));
    assert_eq!(spotify.duration_ms, Some(180_000));
    assert_eq!(spotify.start_unix_ms, Some(1_000));
    assert_eq!(spotify.end_unix_ms, Some(181_000));
    assert_eq!(spotify.cover_url.as_deref(), Some("https://i.scdn.co/image/abc123"));
}

#[test]
fn spotify_requires_listening_kind_and_trimmed_name() {
    let listening = activity(" spotify ", ActivityKind::Listening, None, None);
    let playing = activity("Spotify", ActivityKind::Playing, None, None);
    assert!(is_spotify_activity(&listening));
    assert!(!is_spotify_activity(&playing));
    assert!(spotify_activity(&[playing]).is_none());
}

#[test]
fn richness_counts_present_fields() {
    let bare = activity("App", ActivityKind::Playing, None, None);
    let rich = activity("App", ActivityKind::Playing, Some("42"), Some("asset"));
    assert!(activity_richness(&rich) > activity_richness(&bare));
}
