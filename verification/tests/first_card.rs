use profile_materials::artwork::{accept_artwork, EmbeddedArtworkBatch};
use profile_materials::first_card::{
    card1_etag, card1_key, progress_span, render_activity_panel, render_presence_card, PanelArtwork, PanelGeometry,
};
use profile_materials::state::{
    ActivityAssetsSnapshot, ActivityKind, ActivitySnapshot, ActivityTimestampsSnapshot, ClientStatusSnapshot,
    GatewayStatus, PresenceData, PresenceFreshness, PresenceSnapshot, PresenceState, PresenceStatus, RuntimeState,
};

fn game(name: &str) -> ActivitySnapshot {
    ActivitySnapshot {
        application_id: None,
        assets: None,
        details: Some("Ranked".to_owned()),
        kind: ActivityKind::Playing,
        name: name.to_owned(),
        party: None,
        state: None,
        timestamps: None,
    }
}

fn song() -> ActivitySnapshot {
    ActivitySnapshot {
        application_id: None,
        assets: Some(ActivityAssetsSnapshot {
            large_image: None,
            large_text: Some("Album".to_owned()),
            small_image: None,
            small_text: None,
        }),
        details: Some("Track".to_owned()),
        kind: ActivityKind::Listening,
        name: "Spotify".to_owned(),
        party: None,
        state: Some("Artist".to_owned()),
        timestamps: Some(ActivityTimestampsSnapshot { start: Some(10_000), end: Some(250_000) }),
    }
}

fn runtime(activities: Vec<ActivitySnapshot>, freshness: PresenceFreshness) -> RuntimeState {
    RuntimeState {
        freshness,
        gateway_status: GatewayStatus::Live,
        last_target_event_unix_ms: Some(10),
        presence: PresenceState::Known(PresenceSnapshot {
            data: PresenceData {
                activities,
                client_status: ClientStatusSnapshot { desktop: Some(PresenceStatus::Online), mobile: None, web: None },
                status: PresenceStatus::Online,
            },
            observed_at_unix_ms: 10,
            revision: 2,
        }),
        stream_revision: 7,
        unvalidated_since_unix_ms: None,
    }
}

fn no_art() -> PanelArtwork {
    PanelArtwork { large_url: None, small_url: None }
}

#[test]
fn panel_without_embedded_art_shows_initials_and_texts() {
    let state = runtime(vec![game("Genshin Impact")], PresenceFreshness::Fresh);
    let mut body = String::new();
    let panel = PanelGeometry { x: 40, y: 180, width: 1120, height: 300 };
    let activity = game("Genshin Impact");
    render_activity_panel(&mut body, &state, &activity, &no_art(), panel, 0, 20, &EmbeddedArtworkBatch::default());
    assert!(body.contains("id=\"panel-clip-0\""));
    assert!(body.contains("fill=\"url(#fallback-art)\""));
    assert!(body.contains(">GI</text>"));
    assert!(body.contains(">PLAYING</text>"));
    assert!(body.contains(">Genshin Impact</text>"));
    assert!(body.contains(">Ranked</text>"));
    assert!(!body.contains("<image"));
}

#[test]
fn panel_with_embedded_art_uses_the_data_uri() {
    let url = "https://cdn.discordapp.com/app-assets/1/2.png";
    let embedded = EmbeddedArtworkBatch::from_results(&vec![accept_artwork(url, 200, Some("image/png"), b"x")]);
    let state = runtime(vec![game("Genshin Impact")], PresenceFreshness::Fresh);
    let activity = game("Genshin Impact");
    let art = PanelArtwork { large_url: Some(url.to_owned()), small_url: None };
    let mut body = String::new();
    let panel = PanelGeometry { x: 40, y: 180, width: 550, height: 280 };
    render_activity_panel(&mut body, &state, &activity, &art, panel, 1, 20, &embedded);
    assert!(body.contains("href=\"data:image/png;base64,eA==\""));
    assert!(body.contains("clip-path=\"url(#art-clip-1)\""));
    assert!(!body.contains(">GI</text>"));
}

#[test]
fn spotify_panel_draws_its_progress_bar_from_the_elapsed_share() {
    let state = runtime(vec![song()], PresenceFreshness::Fresh);
    let mut body = String::new();
    let panel = PanelGeometry { x: 40, y: 180, width: 1120, height: 300 };
    render_activity_panel(&mut body, &state, &song(), &no_art(), panel, 0, 70_000, &EmbeddedArtworkBatch::default());
    assert!(body.contains("width=\"390\" height=\"5\""));
    assert!(body.contains("width=\"98\" height=\"5\""));
    assert!(body.contains(">Album</text>"));
    assert_eq!(progress_span(&song(), 70_000), Some((60_000, 240_000)));
    assert_eq!(progress_span(&song(), 5_000), Some((0, 240_000)));
    assert_eq!(progress_span(&song(), 900_000), Some((240_000, 240_000)));
    assert_eq!(progress_span(&game("x"), 5_000), None);
}

#[test]
fn presence_card_lists_panels_and_counts_the_rest() {
    let names = ["Alpha", "Beta", "Gamma", "Delta", "Epsilon", "Zeta"];
    let state = runtime(names.iter().map(|n| game(n)).collect(), PresenceFreshness::Fresh);
    let card = render_presence_card(&state, None, 20, &EmbeddedArtworkBatch::default(), &Vec::new());
    assert!(card.starts_with("<svg"));
    assert!(card.ends_with("</svg>"));
    assert!(card.contains(">+2 more</text>"));
    assert!(card.contains("id=\"panel-clip-3\""));
    assert!(!card.contains("id=\"panel-clip-4\""));
    assert!(!card.contains("LAST KNOWN"));
}

#[test]
fn presence_card_marks_stale_presence_and_empty_states() {
    let stale = runtime(vec![game("Alpha")], PresenceFreshness::Stale);
    let card = render_presence_card(&stale, None, 20, &EmbeddedArtworkBatch::default(), &Vec::new());
    assert!(card.contains(">LAST KNOWN</text>"));

    let idle = runtime(Vec::new(), PresenceFreshness::Fresh);
    let card = render_presence_card(&idle, None, 20, &EmbeddedArtworkBatch::default(), &Vec::new());
    assert!(card.contains(">No current activity</text>"));

    let gone = runtime(vec![game("Alpha")], PresenceFreshness::Unavailable);
    let card = render_presence_card(&gone, None, 20, &EmbeddedArtworkBatch::default(), &Vec::new());
    assert!(card.contains(">Live presence is temporarily unavailable</text>"));

    let mut waiting = runtime(Vec::new(), PresenceFreshness::Fresh);
    waiting.presence = PresenceState::Unknown;
    let card = render_presence_card(&waiting, None, 20, &EmbeddedArtworkBatch::default(), &Vec::new());
    assert!(card.contains(">Waiting for Discord presence</text>"));
}

#[test]
fn first_card_tag_names_revision_key_and_artwork_state() {
    let timed = runtime(vec![song()], PresenceFreshness::Fresh);
    let key = card1_key(&timed, None, 31_000);
    assert_eq!(key.stream_revision, 7);
    assert_eq!(key.identity_revision, 0);
    assert_eq!(key.time_bucket, 2);
    assert_eq!(card1_etag(key, true), "\"profile-presence-card-v1-7-0-2-full\"");
    let untimed = runtime(vec![game("Alpha")], PresenceFreshness::Fresh);
    let key = card1_key(&untimed, None, 31_000);
    assert_eq!(key.time_bucket, 0);
    assert_eq!(card1_etag(key, false), "\"profile-presence-card-v1-7-0-0-partial\"");
}
