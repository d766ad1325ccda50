use profile_materials::presence_card as classic;
use profile_materials::presence_card_v2::{
    activity_accent_for, activity_time, activity_title_style, cache_key, custom_status,
    fallback_label, format_duration, has_visible_timestamps, public_badges, spotify_activity_expired,
    status_color, truncate_chars, visible_activities, PresenceCardCache, PresenceCardDocument,
};
use profile_materials::state::{
    ActivityAssetsSnapshot, ActivityKind, ActivitySnapshot, ActivityTimestampsSnapshot,
    ClientStatusSnapshot, GatewayStatus, PresenceData, PresenceFreshness, PresenceSnapshot,
    PresenceState, PresenceStatus, RuntimeState,
};
use profile_materials::artwork::EmbeddedArtworkBatch;
use profile_materials::identity::{DiscordIdentityData, DiscordIdentitySnapshot, PrimaryGuildIdentity};
use profile_materials::presence_card_v2::{format_clock, render_identity_header, visible_presence, VisiblePresence};

fn bare(name: &str, kind: ActivityKind) -> ActivitySnapshot {
    ActivitySnapshot {
        application_id: None,
        assets: None,
        details: None,
        kind,
        name: name.to_owned(),
        party: None,
        state: None,
        timestamps: None,
    }
}

fn activity(name: &str, kind: ActivityKind, details: Option<&str>) -> ActivitySnapshot {
    ActivitySnapshot {
        application_id: Some("123".to_owned()),
        assets: Some(ActivityAssetsSnapshot {
            large_image: None,
            large_text: None,
            small_image: None,
            small_text: None,
        }),
        details: details.map(ToOwned::to_owned),
        kind,
        name: name.to_owned(),
        party: None,
        state: None,
        timestamps: None,
    }
}

fn runtime(activities: Vec<ActivitySnapshot>, freshness: PresenceFreshness) -> RuntimeState {
    RuntimeState {
        freshness,
        gateway_status: GatewayStatus::Live,
        last_target_event_unix_ms: Some(10),
        presence: PresenceState::Known(PresenceSnapshot {
            data: PresenceData {
                activities,
                client_status: ClientStatusSnapshot {
                    desktop: Some(PresenceStatus::Online),
                    mobile: None,
                    web: None,
                },
                status: PresenceStatus::Online,
            },
            observed_at_unix_ms: 10,
            revision: 2,
        }),
        stream_revision: 2,
        unvalidated_since_unix_ms: None,
    }
}

#[test]
fn fallback_labels_are_compact() {
    assert_eq!(classic::fallback_label("RustRover"), "RU");
    assert_eq!(classic::fallback_label("Genshin Impact"), "GI");
}

#[test]
fn activity_selection_excludes_custom_and_keeps_richest_duplicate() {
    let runtime = runtime(
        vec![
            activity("VALORANT", ActivityKind::Playing, None),
            activity("valorant", ActivityKind::Playing, Some("Competitive")),
            activity("Custom Status", ActivityKind::Custom, Some("hello")),
            activity("Spotify", ActivityKind::Listening, Some("track")),
        ],
        PresenceFreshness::Fresh,
    );

    let activities = classic::visible_activities(&runtime);
    assert_eq!(activities.len(), 2);
    assert_eq!(activities[0].name, "valorant");
    assert_eq!(activities[1].name, "Spotify");
}

#[test]
fn formats_elapsed_time_for_activity_cards() {
    assert_eq!(format_duration(126_000), "02:06");
    assert_eq!(format_duration(7_337_000), "02:02:17");
}

#[test]
fn expired_spotify_activity_is_not_rendered_forever() {
    let activity = ActivitySnapshot {
        application_id: None,
        assets: None,
        details: Some("Old track".to_owned()),
        kind: ActivityKind::Listening,
        name: "Spotify".to_owned(),
        party: None,
        state: Some("Artist".to_owned()),
        timestamps: Some(ActivityTimestampsSnapshot { start: Some(1_000), end: Some(181_000) }),
    };

    assert!(!spotify_activity_expired(&activity, 190_000));
    assert!(spotify_activity_expired(&activity, 200_000));
}

#[test]
fn uses_app_specific_accents_when_the_design_calls_for_them() {
    assert_eq!(activity_accent_for("Spotify", ActivityKind::Listening), "#31d978");
    assert_eq!(activity_accent_for("SoundCloud", ActivityKind::Listening), "#ff6b35");
    assert_eq!(activity_accent_for("YouTube Music", ActivityKind::Listening), "#ff3b30");
    assert_eq!(activity_accent_for("Genshin Impact", ActivityKind::Playing), "#56c7ef");
}

#[test]
fn playing_title_uses_neutral_verb_and_dynamic_name_accent() {
    let activity = bare("Wuthering Waves", ActivityKind::Playing);
    assert_eq!(activity_title_style(&activity), ("Playing", "#f8f8ff", "#8f7cff"));
}

#[test]
fn truncates_long_labels_without_exceeding_limit() {
    assert_eq!(truncate_chars("abcdefgh", 5), "abcd…");
    assert_eq!(truncate_chars("abc", 5), "abc");
}

#[test]
fn semantic_title_replaces_brand_icon() {
    let activity = bare("Spotify", ActivityKind::Listening);
    assert_eq!(activity_title_style(&activity), ("Listening to", "#b9c1dd", "#31d978"));
}

#[test]
fn newest_duplicate_wins_and_kinds_set_the_order() {
    let mut old = bare("Game", ActivityKind::Playing);
    old.timestamps = Some(ActivityTimestampsSnapshot { start: Some(10), end: None });
    let mut new = bare("game", ActivityKind::Playing);
    new.timestamps = Some(ActivityTimestampsSnapshot { start: Some(20), end: None });
    let runtime = runtime(
        vec![
            bare("Music", ActivityKind::Listening),
            old,
            bare("Status", ActivityKind::Custom),
            new,
            bare("Match", ActivityKind::Competing),
        ],
        PresenceFreshness::Fresh,
    );
    let shown: Vec<String> = visible_activities(&runtime).into_iter().map(|a| a.name).collect();
    assert_eq!(shown, vec!["Match", "game", "Music"]);
    assert!(has_visible_timestamps(&runtime));
}

#[test]
fn custom_status_prefers_state_then_details() {
    let mut status = bare("Custom Status", ActivityKind::Custom);
    status.state = Some("  ".to_owned());
    status.details = Some(" coding ".to_owned());
    let runtime = runtime(vec![status], PresenceFreshness::Fresh);
    assert_eq!(custom_status(&runtime).as_deref(), Some("coding"));
    assert_eq!(status_color(&runtime), "#43c987");
}

#[test]
fn time_texts_count_from_start_or_until_end() {
    let mut game = bare("Game", ActivityKind::Playing);
    game.timestamps = Some(ActivityTimestampsSnapshot { start: Some(1_000), end: None });
    let (text, word, at) = activity_time(&game, 61_000).unwrap();
    assert_eq!((text.as_str(), word, at), ("01:00", "elapsed", 1_000));
    game.timestamps = Some(ActivityTimestampsSnapshot { start: None, end: Some(121_000) });
    let (text, word, _) = activity_time(&game, 1_000).unwrap();
    assert_eq!((text.as_str(), word), ("02:00", "remaining"));
    let mut music = bare("Spotify", ActivityKind::Listening);
    music.timestamps = Some(ActivityTimestampsSnapshot { start: Some(1), end: None });
    assert!(activity_time(&music, 5).is_none());
}

#[test]
fn badges_and_labels_follow_the_flags_and_words() {
    assert_eq!(public_badges((1 << 0) | (1 << 9) | (1 << 17)), vec!["STAFF", "EARLY", "DEV"]);
    assert_eq!(classic::public_badges((1 << 3) | (1 << 18)), vec!["MOD", "BUG"]);
    assert_eq!(fallback_label("genshin impact game extra"), "GIG");
    assert_eq!(classic::format_duration(3_723_000), "1:02:03");
    assert_eq!(classic::format_duration(65_000), "1:05");
}

#[test]
fn cache_serves_a_card_only_under_the_same_key() {
    let state = runtime(vec![bare("Game", ActivityKind::Playing)], PresenceFreshness::Fresh);
    let key = cache_key(&state, None, 40_000);
    assert_eq!(key.time_bucket, 0);
    let mut cache = PresenceCardCache::new();
    assert!(cache.cached(key).is_none());
    let document = cache.finish(key, "<svg/>".to_owned(), true);
    assert_eq!(document.etag(), "\"profile-presence-card-v13-2-0-0-full\"");
    assert_eq!(cache.cached(key).unwrap().body(), "<svg/>");
    let partial = PresenceCardDocument::new("<svg/>".to_owned(), key, false);
    assert!(partial.etag().ends_with("-partial\""));
}

#[test]
fn classic_card_texts_describe_status_and_platforms() {
    let state = runtime(Vec::new(), PresenceFreshness::Fresh);
    assert_eq!(classic::status_visual(&state), ("Online", "#3ecf8e"));
    assert_eq!(classic::client_platform(&state).as_deref(), Some("Desktop"));
    let all = ClientStatusSnapshot {
        desktop: Some(PresenceStatus::Idle),
        mobile: Some(PresenceStatus::Online),
        web: Some(PresenceStatus::Online),
    };
    assert_eq!(classic::platform_label(&all).as_deref(), Some("Desktop · Mobile · Web"));
    let unavailable = runtime(Vec::new(), PresenceFreshness::Unavailable);
    assert_eq!(classic::status_visual(&unavailable), ("Unavailable", "#7f879f"));
    assert!(classic::client_platform(&unavailable).is_none());
}

#[test]
fn identity_header_shows_identity_badges_and_status() {

    let identity = DiscordIdentitySnapshot {
        data: DiscordIdentityData {
            avatar_decoration_url: None,
            avatar_url: "https://cdn.discordapp.com/avatars/1/a.webp?size=256".to_owned(),
            display_name: "Herz".to_owned(),
            primary_guild: Some(PrimaryGuildIdentity { badge_url: None, tag: "TEST".to_owned() }),
            public_flags: (1 << 0) | (1 << 1) | (1 << 3),
            username: "herz<&>".to_owned(),
        },
        revision: 1,
    };
    let mut status = bare("Custom Status", ActivityKind::Custom);
    status.state = Some("hello".to_owned());
    let state = runtime(vec![status], PresenceFreshness::Fresh);
    let mut body = String::new();
    render_identity_header(&mut body, &state, Some(&identity), &EmbeddedArtworkBatch::default());

    assert!(body.starts_with("<g id=\"identity-static\"><circle cx=\"153\" cy=\"134\" r=\"63\" fill=\"#232845\"/>"));
    assert!(body.contains(">herz&lt;&amp;&gt;</text>"));
    assert!(body.contains("<rect x=\"624\" y=\"103\" width=\"92\" height=\"53\""));
    assert!(body.contains("x=\"640\" y=\"139\""));
    assert!(body.contains(">STAFF</text>"));
    assert!(body.contains(">PARTNER</text>"));
    assert!(!body.contains(">BUG</text>"));
    assert!(body.contains("<circle cx=\"761\" cy=\"129\" r=\"25\""));
    assert!(body.contains("fill=\"#43c987\""));
    assert!(body.ends_with(">hello</text></g>"));

    let mut anonymous = String::new();
    render_identity_header(&mut anonymous, &state, None, &EmbeddedArtworkBatch::default());
    assert!(anonymous.contains(">Discord profile</text>"));
}

#[test]
fn the_card_shows_known_presence_until_it_is_unavailable() {
    assert_eq!(visible_presence(&runtime(Vec::new(), PresenceFreshness::Fresh)), VisiblePresence::Known);
    assert_eq!(visible_presence(&runtime(Vec::new(), PresenceFreshness::Stale)), VisiblePresence::Known);
    assert_eq!(
        visible_presence(&runtime(Vec::new(), PresenceFreshness::Unavailable)),
        VisiblePresence::Unavailable
    );
    let mut unknown = runtime(Vec::new(), PresenceFreshness::Unavailable);
    unknown.presence = PresenceState::Unknown;
    assert_eq!(visible_presence(&unknown), VisiblePresence::Unknown);
}

#[test]
fn the_live_clock_reads_as_a_duration() {
    assert_eq!(format_clock(65_000), "01:05");
    assert_eq!(format_clock(3_725_000), "01:02:05");
}

#[test]
fn first_card_header_shows_names_guild_pill_badges_and_status() {
    let identity = DiscordIdentitySnapshot {
        data: DiscordIdentityData {
            avatar_decoration_url: None,
            avatar_url: "https://cdn.discordapp.com/avatars/1/a.webp?size=256".to_owned(),
            display_name: "Herz".to_owned(),
            primary_guild: Some(PrimaryGuildIdentity { badge_url: None, tag: "TEST".to_owned() }),
            public_flags: (1 << 0) | (1 << 1) | (1 << 3),
            username: "herz<&>".to_owned(),
        },
        revision: 1,
    };
    let mut status = bare("Custom Status", ActivityKind::Custom);
    status.state = Some("hello".to_owned());
    let state = runtime(vec![status], PresenceFreshness::Fresh);
    let mut body = String::new();
    profile_materials::presence_header::render_identity_header(
        &mut body,
        &state,
        Some(&identity),
        &EmbeddedArtworkBatch::default(),
    );
    assert!(body.starts_with("<defs><clipPath id=\"avatar-clip\"><circle cx=\"100\" cy=\"77\" r=\"46\"/></clipPath></defs><circle cx=\"100\" cy=\"77\" r=\"46\" fill=\"#252a43\"/>"));
    assert!(body.contains(">@herz&lt;&amp;&gt;</text>"));
    // The guild pill is 74 + 4 * 11 wide; the badges follow 12 units after it.
    assert!(body.contains("<rect x=\"690\" y=\"47\" width=\"118\" height=\"42\""));
    assert!(body.contains("<rect x=\"820\" y=\"51\" width=\"83\" height=\"34\""));
    assert!(body.contains("<rect x=\"913\" y=\"51\" width=\"101\" height=\"34\""));
    assert!(body.contains(">STAFF</text>"));
    assert!(body.contains(">PARTNER</text>"));
    assert!(!body.contains(">BUG</text>"));
    assert!(body.contains(">Online</text>"));
    assert!(body.ends_with(">hello</text>"));

    let mut loading = String::new();
    profile_materials::presence_header::render_identity_header(
        &mut loading,
        &state,
        None,
        &EmbeddedArtworkBatch::default(),
    );
    assert!(loading.contains(">Discord profile</text>"));
    assert!(loading.contains(">Loading profile identity</text>"));
}
