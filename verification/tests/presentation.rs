use profile_materials::presentation::{build_public_presence, is_target, PublicActivity, PublicPresence};
use profile_materials::state::{
    ActivityAssetsSnapshot, ActivityKind, ActivityPartySnapshot, ActivitySnapshot,
    ActivityTimestampsSnapshot, ClientStatusSnapshot, GatewayStatus, PresenceData,
    PresenceFreshness, PresenceSnapshot, PresenceState, PresenceStatus, RuntimeState,
};

fn runtime(presence: PresenceState, freshness: PresenceFreshness) -> RuntimeState {
    RuntimeState {
        freshness,
        gateway_status: GatewayStatus::Live,
        last_target_event_unix_ms: Some(1234),
        presence,
        stream_revision: 8,
        unvalidated_since_unix_ms: None,
    }
}

fn activity(
    application_id: Option<&str>,
    large_image: Option<&str>,
    large_text: Option<&str>,
    details: &str,
    kind: ActivityKind,
    name: &str,
    state: Option<&str>,
    timestamps: Option<(Option<u64>, Option<u64>)>,
) -> ActivitySnapshot {
    ActivitySnapshot {
        application_id: application_id.map(ToOwned::to_owned),
        assets: large_image.map(|image| ActivityAssetsSnapshot {
            large_image: Some(image.to_owned()),
            large_text: large_text.map(ToOwned::to_owned),
            small_image: None,
            small_text: None,
        }),
        details: Some(details.to_owned()),
        kind,
        name: name.to_owned(),
        party: None,
        state: state.map(ToOwned::to_owned),
        timestamps: timestamps.map(|(start, end)| ActivityTimestampsSnapshot { start, end }),
    }
}

fn online(activities: Vec<ActivitySnapshot>, revision: u64) -> PresenceSnapshot {
    PresenceSnapshot {
        data: PresenceData {
            activities,
            client_status: ClientStatusSnapshot {
                desktop: Some(PresenceStatus::Online),
                mobile: None,
                web: None,
            },
            status: PresenceStatus::Online,
        },
        observed_at_unix_ms: 1234,
        revision,
    }
}

#[test]
fn unknown_state_never_fabricates_offline() {
    let value = build_public_presence(&runtime(PresenceState::Unknown, PresenceFreshness::Unavailable));
    assert_eq!(value.availability, "unknown");
    assert!(value.status.is_none());
    assert!(value.spotify.is_none());
    assert_eq!(value.revision, 0);
}

#[test]
fn stale_state_keeps_lkg_but_unavailable_state_goes_neutral() {
    let snapshot = online(Vec::new(), 7);

    let stale = build_public_presence(&runtime(PresenceState::Known(snapshot.clone()), PresenceFreshness::Stale));
    assert_eq!(stale.availability, "known");
    assert!(stale.stale);
    assert_eq!(stale.status, Some("online"));

    let unavailable =
        build_public_presence(&runtime(PresenceState::Known(snapshot), PresenceFreshness::Unavailable));
    assert_eq!(unavailable.availability, "unavailable");
    assert!(unavailable.status.is_none());
    assert!(unavailable.spotify.is_none());
    assert_eq!(unavailable.activities.len(), 0);
}

#[test]
fn public_dto_exposes_only_selected_presence_fields() {
    let mut editor = activity(
        Some("333"),
        Some("444"),
        None,
        "Editing",
        ActivityKind::Playing,
        "Visual Studio Code",
        Some("main.rs"),
        None,
    );
    editor.party = Some(ActivityPartySnapshot { current_size: 2, max_size: 5 });
    let state = runtime(PresenceState::Known(online(vec![editor], 7)), PresenceFreshness::Fresh);

    let value = build_public_presence(&state);
    assert_eq!(value.availability, "known");
    assert_eq!(value.status, Some("online"));
    assert_eq!(value.activities[0].application_id.as_deref(), Some("333"));
    assert_eq!(value.activities[0].party.map(|p| p.current_size), Some(2));
    assert_eq!(value.activities[0].party.map(|p| p.max_size), Some(5));
    assert_eq!(
        value.activities[0].artwork.url.as_deref(),
        Some("https://cdn.discordapp.com/app-assets/333/444.png")
    );
    assert_eq!(value.activities[0].artwork.fallback_key, "vscode");

    // The public shapes have exactly these fields: no guild, user or session identifier
    // and no secrets.
    let PublicPresence {
        availability: _,
        stale: _,
        status: _,
        client_status: _,
        activities,
        spotify: _,
        observed_at_unix_ms: _,
        revision: _,
    } = value;
    for activity in activities {
        let PublicActivity {
            kind: _,
            name: _,
            application_id: _,
            details: _,
            state: _,
            party: _,
            timestamps: _,
            assets: _,
            artwork: _,
        } = activity;
    }
}

#[test]
fn keeps_distinct_activities_selects_newest_duplicate_and_projects_spotify() {
    let activities = vec![
        activity(Some("123"), None, None, "Old match", ActivityKind::Playing, "VALORANT", None, Some((Some(10), None))),
        activity(
            Some("1107202385799041054"),
            None,
            None,
            "Editing gateway.rs",
            ActivityKind::Playing,
            "RustRover",
            Some("profile-materials"),
            None,
        ),
        activity(
            Some("456"),
            Some("789"),
            None,
            "Competitive (Split) 0 - 0",
            ActivityKind::Playing,
            "valorant",
            None,
            Some((Some(20), None)),
        ),
        activity(
            None,
            Some("spotify:old"),
            Some("Old album"),
            "Old track",
            ActivityKind::Listening,
            "Spotify",
            Some("Old artist"),
            Some((Some(1000), Some(181000))),
        ),
        activity(
            None,
            Some("spotify:new"),
            Some("New album"),
            "New track",
            ActivityKind::Listening,
            "spotify",
            Some("New artist"),
            Some((Some(200000), Some(380000))),
        ),
    ];
    let state = runtime(PresenceState::Known(online(activities, 8)), PresenceFreshness::Fresh);

    let value = build_public_presence(&state);
    let activities = &value.activities;

    assert_eq!(activities.len(), 3);
    assert_eq!(activities[0].name, "valorant");
    assert_eq!(activities[0].application_id.as_deref(), Some("456"));
    assert_eq!(activities[0].details.as_deref(), Some("Competitive (Split) 0 - 0"));
    assert_eq!(activities[1].name, "RustRover");
    assert_eq!(activities[2].name, "spotify");
    assert_eq!(activities[2].details.as_deref(), Some("New track"));
    let spotify = value.spotify.as_ref().unwrap();
    assert_eq!(spotify.title.as_deref(), Some("New track"));
    assert_eq!(spotify.artist.as_deref(), Some("New artist"));
    assert_eq!(spotify.album.as_deref(), Some("New album"));
    assert_eq!(spotify.duration_ms, Some(180000));
    assert_eq!(spotify.cover_url.as_deref(), Some("https://i.scdn.co/image/new"));
}

#[test]
fn filters_by_both_user_and_guild() {
    // The sample presence is that of user 111 in guild 222.
    assert!(is_target(111, 222, 111, 222));
    assert!(!is_target(111, 222, 112, 222));
    assert!(!is_target(111, 222, 111, 223));
}
