use profile_materials::artwork::{accept_artwork, EmbeddedArtworkBatch};
use profile_materials::first_card::{PanelArtwork, PanelGeometry};
use profile_materials::second_card::{
    fitted_text, live_activities, media_progress, progress_fill, render_activity_panel, render_app_title,
    render_presence_card,
};
use profile_materials::state::{
    ActivityAssetsSnapshot, ActivityKind, ActivityPartySnapshot, ActivitySnapshot, ActivityTimestampsSnapshot,
    ClientStatusSnapshot, GatewayStatus, PresenceData, PresenceFreshness, PresenceSnapshot, PresenceState,
    PresenceStatus, RuntimeState,
};

fn game(name: &str) -> ActivitySnapshot {
    ActivitySnapshot {
        application_id: None,
        assets: None,
        details: None,
        kind: ActivityKind::Playing,
        name: name.to_owned(),
        party: None,
        state: None,
        timestamps: None,
    }
}

fn spotify(end: u64) -> ActivitySnapshot {
    ActivitySnapshot {
        application_id: None,
        assets: Some(ActivityAssetsSnapshot {
            large_image: None,
            large_text: Some("Deluxe".to_owned()),
            small_image: None,
            small_text: None,
        }),
        details: Some("Track".to_owned()),
        kind: ActivityKind::Listening,
        name: "Spotify".to_owned(),
        party: None,
        state: Some("Artist".to_owned()),
        timestamps: Some(ActivityTimestampsSnapshot { start: Some(10_000), end: Some(end) }),
    }
}

fn runtime(activities: Vec<ActivitySnapshot>, freshness: PresenceFreshness) -> RuntimeState {
    RuntimeState {
        freshness,
        gateway_status: GatewayStatus::Live,
        last_target_event_unix_ms: Some(10),
        presence: PresenceState::Known(PresenceSnapshot {
            data: PresenceData {
                activities,
                client_status: ClientStatusSnapshot { desktop: Some(PresenceStatus::Online), mobile: None, web: None },
                status: PresenceStatus::Online,
            },
            observed_at_unix_ms: 10,
            revision: 2,
        }),
        stream_revision: 3,
        unvalidated_since_unix_ms: None,
    }
}

fn no_art() -> PanelArtwork {
    PanelArtwork { large_url: None, small_url: None }
}

#[test]
fn compact_playing_title_uses_the_same_stacked_hierarchy() {
    let activity = ActivitySnapshot {
        application_id: None,
        assets: None,
        details: None,
        kind: ActivityKind::Playing,
        name: "Wuthering Waves".to_owned(),
        party: None,
        state: None,
        timestamps: None,
    };
    let mut svg = String::new();
    render_app_title(&mut svg, &activity, 300, 250, PanelGeometry { x: 62, y: 228, width: 815, height: 300 });

    assert!(svg.contains("font-size=\"16\""));
    assert!(svg.contains(">Playing</text>"));
    assert!(svg.contains("font-size=\"34\""));
    assert!(svg.contains("fill=\"#8f7cff\""));
    assert!(svg.contains(">Wuthering Waves</text>"));
    assert!(!svg.contains("<tspan"));
}

#[test]
fn fitted_spotify_album_keeps_the_complete_value() {
    let album = "Album · Sơn Tùng M-TP - Chúng Ta Của Tương Lai Deluxe Edition";
    let mut svg = String::new();
    fitted_text(&mut svg, 10, 20, 16, "#fff", "500", album, 180, None);
    assert!(svg.contains(album));
    assert!(!svg.contains('…'));
    assert!(svg.contains("textLength=\"180\""));
}

#[test]
fn listening_rpc_with_start_and_end_has_media_progress() {
    let activity = ActivitySnapshot {
        application_id: None,
        assets: None,
        details: Some("Track".to_owned()),
        kind: ActivityKind::Listening,
        name: "SoundCloud".to_owned(),
        party: None,
        state: Some("Artist".to_owned()),
        timestamps: Some(ActivityTimestampsSnapshot { start: Some(10_000), end: Some(250_000) }),
    };

    let (start, end, elapsed, duration) = media_progress(&activity, 70_000).expect("listening progress");
    assert_eq!((start, end), (10_000, 250_000));
    assert_eq!(elapsed, 60_000);
    assert_eq!(duration, 240_000);
    let progress = elapsed as f64 / duration as f64;
    assert!((progress - 0.25).abs() < f64::EPSILON);
    assert_eq!(progress_fill(1000, elapsed, duration), 250);
}

#[test]
fn short_texts_are_not_squeezed() {
    let mut svg = String::new();
    fitted_text(&mut svg, 10, 20, 20, "#fff", "700", "Track", 180, Some("end"));
    assert_eq!(
        svg,
        "<text x=\"10\" y=\"20\" fill=\"#fff\" font-family=\"Inter,Segoe UI,Arial,sans-serif\" font-size=\"20\" font-weight=\"700\" text-anchor=\"end\">Track</text>"
    );
}

#[test]
fn progress_fill_rounds_halves_up() {
    assert_eq!(progress_fill(10, 1, 4), 3);
    assert_eq!(progress_fill(10, 1, 3), 3);
    assert_eq!(progress_fill(10, 0, 3), 0);
    assert_eq!(progress_fill(10, 3, 3), 10);
}

#[test]
fn listening_title_is_one_line_with_the_service_color() {
    let mut svg = String::new();
    render_app_title(&mut svg, &spotify(250_000), 240, 250, PanelGeometry { x: 62, y: 228, width: 1650, height: 300 });
    assert!(svg.contains("font-size=\"31\""));
    assert!(svg.contains("<tspan fill=\"#b9c1dd\">Listening to</tspan><tspan fill=\"#31d978\"> Spotify</tspan>"));
}

#[test]
fn spotify_panel_shows_texts_and_progress_without_small_badge() {
    let state = runtime(vec![spotify(250_000)], PresenceFreshness::Fresh);
    let mut body = String::new();
    let panel = PanelGeometry { x: 62, y: 228, width: 1650, height: 300 };
    let art = PanelArtwork { large_url: None, small_url: Some("https://cdn.discordapp.com/x.png".to_owned()) };
    render_activity_panel(&mut body, &state, &spotify(250_000), &art, panel, 0, 70_000, &EmbeddedArtworkBatch::default());
    assert!(body.starts_with("<g id=\"activity-panel-0\">"));
    assert!(body.ends_with("</g>"));
    assert!(body.contains(">Album · Deluxe</text>"));
    assert!(body.contains("id=\"activity-progress-0\" data-max-width=\"1598\""));
    assert!(body.contains("width=\"400\" height=\"9\""));
    assert!(body.contains(">01:00</text>"));
    assert!(body.contains(">04:00</text>"));
    assert!(!body.contains("small-clip"));
    assert!(body.contains(">S</text>"));
}

#[test]
fn game_panel_shows_embedded_artwork_time_and_party() {
    let url = "https://cdn.discordapp.com/app-assets/1/2.png";
    let embedded = EmbeddedArtworkBatch::from_results(&vec![accept_artwork(url, 200, Some("image/png"), b"x")]);
    let mut activity = game("VALORANT");
    activity.timestamps = Some(ActivityTimestampsSnapshot { start: Some(1_000), end: None });
    activity.party = Some(ActivityPartySnapshot { current_size: 2, max_size: 5 });
    let state = runtime(vec![activity.clone()], PresenceFreshness::Fresh);
    let art = PanelArtwork { large_url: Some(url.to_owned()), small_url: Some(url.to_owned()) };
    let panel = PanelGeometry { x: 62, y: 228, width: 815, height: 300 };
    let mut body = String::new();
    render_activity_panel(&mut body, &state, &activity, &art, panel, 1, 61_000, &embedded);
    assert!(body.contains("href=\"data:image/png;base64,eA==\""));
    assert!(body.contains("id=\"small-clip-1\""));
    assert!(body.contains("data-time-kind=\"elapsed\" data-anchor-ms=\"1000\""));
    assert!(body.contains(">01:00</text>"));
    assert!(body.contains(">Party 2 / 5</text>"));
    assert!(body.contains("filter=\"url(#art-blur-single)\""));
}

#[test]
fn large_card_drops_ended_spotify_and_counts_the_rest() {
    let state = runtime(vec![spotify(20_000)], PresenceFreshness::Fresh);
    assert!(live_activities(&state, 20_000).len() == 1);
    assert!(live_activities(&state, 40_000).is_empty());
    let card = render_presence_card(&state, None, 40_000, &EmbeddedArtworkBatch::default(), &Vec::new());
    assert!(card.contains("height=\"420\""));
    assert!(card.contains(">No current activity</text>"));
    assert!(card.ends_with("</g></svg>"));

    let names = ["Alpha", "Beta", "Gamma", "Delta", "Epsilon"];
    let state = runtime(names.iter().map(|n| game(n)).collect(), PresenceFreshness::Fresh);
    let card = render_presence_card(&state, None, 40_000, &EmbeddedArtworkBatch::default(), &Vec::new());
    assert!(card.contains("height=\"887\""));
    assert!(card.contains(">+1 more</text>"));
    assert!(card.contains("id=\"activity-panel-3\""));
    assert!(!card.contains("id=\"activity-panel-4\""));
}

#[test]
fn large_card_empty_states_follow_presence() {
    let gone = runtime(vec![game("Alpha")], PresenceFreshness::Unavailable);
    let card = render_presence_card(&gone, None, 1, &EmbeddedArtworkBatch::default(), &Vec::new());
    assert!(card.contains(">Live presence is temporarily unavailable</text>"));
    let mut waiting = runtime(Vec::new(), PresenceFreshness::Fresh);
    waiting.presence = PresenceState::Unknown;
    let card = render_presence_card(&waiting, None, 1, &EmbeddedArtworkBatch::default(), &Vec::new());
    assert!(card.contains(">Waiting for Discord presence</text>"));
}
