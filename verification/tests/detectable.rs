use profile_materials::detectable::{
    apply_icons, missing_application_icons, rpc_icon, valid_application_id, valid_icon_hash,
    IconCache, IconLookup, RpcApplication, FAILURE_RETRY_MS,
};
use profile_materials::state::{
    ActivityAssetsSnapshot, ActivityKind, ActivitySnapshot, ClientStatusSnapshot, GatewayStatus,
    PresenceData, PresenceFreshness, PresenceSnapshot, PresenceState, PresenceStatus, RuntimeState,
};

fn runtime(large_image: Option<&str>) -> RuntimeState {
    RuntimeState {
        freshness: PresenceFreshness::Fresh,
        gateway_status: GatewayStatus::Live,
        last_target_event_unix_ms: Some(1),
        presence: PresenceState::Known(PresenceSnapshot {
            data: PresenceData {
                activities: vec![ActivitySnapshot {
                    application_id: Some("1247227126416146462".to_owned()),
                    assets: large_image.map(|value| ActivityAssetsSnapshot {
                        large_image: Some(value.to_owned()),
                        large_text: None,
                        small_image: None,
                        small_text: None,
                    }),
                    details: None,
                    kind: ActivityKind::Playing,
                    name: "Wuthering Waves".to_owned(),
                    party: None,
                    state: None,
                    timestamps: None,
                }],
                client_status: ClientStatusSnapshot {
                    desktop: Some(PresenceStatus::Online),
                    mobile: None,
                    web: None,
                },
                status: PresenceStatus::Online,
            },
            observed_at_unix_ms: 1,
            revision: 1,
        }),
        stream_revision: 1,
        unvalidated_since_unix_ms: None,
    }
}

fn large_image(runtime: &RuntimeState) -> Option<String> {
    match &runtime.presence {
        PresenceState::Known(snapshot) => snapshot.data.activities[0]
            .assets
            .as_ref()
            .and_then(|assets| assets.large_image.clone()),
        PresenceState::Unknown => panic!("known presence"),
    }
}

#[test]
fn enriches_missing_large_artwork_without_overwriting_rpc_artwork() {
    let icons = vec![(
        "1247227126416146462".to_owned(),
        "1e7d7e9ca69ea0951467994c581f70f5".to_owned(),
    )];
    let candidates = vec!["1247227126416146462".to_owned()];

    let enriched = apply_icons(&runtime(None), &icons, &candidates);
    assert_eq!(
        large_image(&enriched).as_deref(),
        Some("appicon:1e7d7e9ca69ea0951467994c581f70f5")
    );

    let existing = apply_icons(&runtime(Some("rpc-artwork")), &icons, &candidates);
    assert_eq!(large_image(&existing).as_deref(), Some("rpc-artwork"));
}

#[test]
fn parses_rpc_application_icon_shape() {
    let value: serde_json::Value = serde_json::from_str(
        r#"{"id":"1247227126416146462","icon":"1e7d7e9ca69ea0951467994c581f70f5"}"#,
    )
    .expect("valid RPC application payload");
    let application = RpcApplication {
        id: value["id"].as_str().unwrap().to_owned(),
        icon: value["icon"].as_str().map(ToOwned::to_owned),
    };

    assert_eq!(application.id, "1247227126416146462");
    assert_eq!(application.icon.as_deref(), Some("1e7d7e9ca69ea0951467994c581f70f5"));
    assert!(valid_application_id(&application.id));
    assert!(valid_icon_hash(application.icon.as_deref().expect("icon")));
}

#[test]
fn missing_icons_are_requested_for_activities_without_artwork() {
    assert_eq!(missing_application_icons(&runtime(None)), vec!["1247227126416146462"]);
    assert!(missing_application_icons(&runtime(Some("rpc-artwork"))).is_empty());
}

#[test]
fn rpc_icon_belongs_to_the_requested_application() {
    let application = RpcApplication {
        id: "1247227126416146462".to_owned(),
        icon: Some("1e7d7e9ca69ea0951467994c581f70f5".to_owned()),
    };
    assert!(rpc_icon("42", &application).is_err());
    assert_eq!(
        rpc_icon("1247227126416146462", &application).unwrap().as_deref(),
        Some("1e7d7e9ca69ea0951467994c581f70f5")
    );
    let bad = RpcApplication { id: "42".to_owned(), icon: Some("not a hash".to_owned()) };
    assert_eq!(rpc_icon("42", &bad), Ok(None));
    assert!(!valid_application_id("12a"));
    assert!(valid_icon_hash("xyz_1"));
    assert!(!valid_icon_hash("xy z"));
    assert!(!valid_icon_hash(""));
}

#[test]
fn failed_lookup_is_retried_later_and_keeps_known_icon() {
    let mut cache = IconCache::new();
    let id = "1247227126416146462";
    assert!(!cache.is_settled(id, 0));
    cache.record(id, IconLookup::Icon("1e7d7e9ca69ea0951467994c581f70f5".to_owned()), 1_000);
    assert!(cache.is_settled(id, 2_000));
    cache.record(id, IconLookup::Failed, 2_000);
    assert!(cache.is_settled(id, 2_000 + FAILURE_RETRY_MS - 1));
    assert_eq!(cache.icons().len(), 1);
    let candidates = vec![id.to_owned(), "99".to_owned()];
    assert_eq!(cache.due_candidates(&candidates, 2_000), vec!["99"]);
}
