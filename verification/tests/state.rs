use profile_materials::state::{
    freshness_for, public_freshness_class, ClientStatusSnapshot, GatewayStatus, PresenceData,
    PresenceFreshness, PresenceSnapshot, PresenceState, PresenceStatus, PresenceStore,
    PublishOutcome, RestoredPresence,
};

fn presence(status: PresenceStatus) -> PresenceData {
    PresenceData {
        activities: Vec::new(),
        client_status: ClientStatusSnapshot { desktop: None, mobile: None, web: None },
        status,
    }
}

fn store() -> PresenceStore {
    PresenceStore::new(120_000, 600_000, None, 0)
}

#[test]
fn starts_unknown() {
    let current = store().load();
    assert_eq!(current.presence, PresenceState::Unknown);
    assert_eq!(current.gateway_status, GatewayStatus::Starting);
    assert_eq!(current.freshness, PresenceFreshness::Unavailable);
}

#[test]
fn publishes_only_semantic_changes() {
    let mut store = store();

    assert_eq!(
        store.publish(presence(PresenceStatus::Online), 100).unwrap(),
        PublishOutcome::Changed { revision: 1 }
    );
    assert_eq!(
        store.publish(presence(PresenceStatus::Online), 200).unwrap(),
        PublishOutcome::Unchanged { revision: 1 }
    );
    assert_eq!(
        store.publish(presence(PresenceStatus::Idle), 300).unwrap(),
        PublishOutcome::Changed { revision: 2 }
    );

    let current = store.load();
    let PresenceState::Known(snapshot) = &current.presence else {
        panic!("expected known presence");
    };
    assert_eq!(snapshot.observed_at_unix_ms, 300);
    assert_eq!(snapshot.revision, 2);
    assert_eq!(current.last_target_event_unix_ms, Some(300));
    assert_eq!(current.freshness, PresenceFreshness::Fresh);
}

#[test]
fn disconnect_keeps_lkg_then_becomes_stale_and_unavailable() {
    let mut store = store();
    store.publish(presence(PresenceStatus::Online), 1_000).unwrap();
    store.mark_gateway_degraded(2_000).unwrap();

    let current = store.load();
    assert_eq!(current.freshness, PresenceFreshness::Grace);
    let PresenceState::Known(snapshot) = &current.presence else {
        panic!("expected known presence");
    };
    assert_eq!(snapshot.data.status, PresenceStatus::Online);

    store.advance_staleness(122_000).unwrap();
    assert_eq!(store.load().freshness, PresenceFreshness::Stale);

    store.advance_staleness(602_000).unwrap();
    assert_eq!(store.load().freshness, PresenceFreshness::Unavailable);
}

#[test]
fn restored_lkg_uses_validation_age_until_a_live_target_event_arrives() {
    let snapshot = PresenceSnapshot {
        data: presence(PresenceStatus::Idle),
        observed_at_unix_ms: 1_000,
        revision: 7,
    };
    let mut store = PresenceStore::new(
        120_000,
        600_000,
        Some(RestoredPresence { snapshot, validated_at_unix_ms: 1_000 }),
        301_000,
    );

    assert_eq!(store.load().freshness, PresenceFreshness::Stale);
    assert_eq!(
        store.publish(presence(PresenceStatus::Idle), 302_000).unwrap(),
        PublishOutcome::Unchanged { revision: 7 }
    );
    assert_eq!(store.load().freshness, PresenceFreshness::Fresh);
}

#[test]
fn going_live_is_reported_once() {
    let mut store = store();
    assert_eq!(store.mark_gateway_live(), Ok(true));
    assert_eq!(store.mark_gateway_live(), Ok(false));
    assert_eq!(store.load().gateway_status, GatewayStatus::Live);
}

#[test]
fn freshness_follows_the_age_of_the_last_validation() {
    let known = PresenceState::Known(PresenceSnapshot {
        data: presence(PresenceStatus::Online),
        observed_at_unix_ms: 1_000,
        revision: 1,
    });
    assert_eq!(freshness_for(&known, None, 1_000, 120_000, 600_000), PresenceFreshness::Fresh);
    assert_eq!(freshness_for(&known, Some(1_000), 2_000, 120_000, 600_000), PresenceFreshness::Grace);
    assert_eq!(freshness_for(&known, Some(1_000), 121_000, 120_000, 600_000), PresenceFreshness::Stale);
    assert_eq!(freshness_for(&known, Some(1_000), 601_000, 120_000, 600_000), PresenceFreshness::Unavailable);
    assert_eq!(freshness_for(&PresenceState::Unknown, None, 0, 120_000, 600_000), PresenceFreshness::Unavailable);
    assert_eq!(public_freshness_class(PresenceFreshness::Grace), public_freshness_class(PresenceFreshness::Fresh));
}

#[test]
fn persisted_snapshot_carries_its_validation_time() {
    let mut store = store();
    assert!(store.persistence_snapshot().is_none());
    store.publish(presence(PresenceStatus::Online), 5_000).unwrap();
    let (snapshot, validated) = store.persistence_snapshot().unwrap();
    assert_eq!(snapshot.revision, 1);
    assert_eq!(validated, 5_000);
}
