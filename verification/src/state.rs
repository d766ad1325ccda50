//! The normalized presence data and the runtime state machine that keeps the
//! last known good presence, its revisions and its freshness.
use vstd::prelude::*;

use crate::clock::{clock_error_text, ClockError};
use crate::text::{owned, push_str};

verus! {

#[derive(Clone, Copy, Debug, PartialEq, Eq, Structural)]
pub enum ActivityKind {
    Competing,
    Custom,
    Listening,
    Playing,
    Streaming,
    Unknown(u8),
    Watching,
}

#[derive(Clone, Copy, Debug, PartialEq, Eq, Structural)]
pub struct ActivityTimestampsSnapshot {
    pub end: Option<u64>,
    pub start: Option<u64>,
}

#[derive(Clone, Copy, Debug, PartialEq, Eq, Structural)]
pub struct ActivityPartySnapshot {
    pub current_size: u64,
    pub max_size: u64,
}

#[derive(Clone, Copy, Debug, PartialEq, Eq, Structural)]
pub enum PresenceStatus {
    DoNotDisturb,
    Idle,
    Invisible,
    Offline,
    Online,
}

#[derive(Clone, Copy, Debug, PartialEq, Eq, Structural)]
pub struct ClientStatusSnapshot {
    pub desktop: Option<PresenceStatus>,
    pub mobile: Option<PresenceStatus>,
    pub web: Option<PresenceStatus>,
}

#[derive(Clone, Copy, Debug, PartialEq, Eq, Structural)]
pub enum GatewayStatus {
    Degraded,
    Live,
    Starting,
}

#[derive(Clone, Copy, Debug, PartialEq, Eq, Structural)]
pub enum PresenceFreshness {
    Fresh,
    Grace,
    Stale,
    Unavailable,
}

#[derive(Debug, PartialEq, Eq)]
pub struct ActivityAssetsSnapshot {
    pub large_image: Option<String>,
    pub large_text: Option<String>,
    pub small_image: Option<String>,
    pub small_text: Option<String>,
}

/// The value of an `ActivityAssetsSnapshot`.
pub struct AssetsModel {
    pub large_image: Option<Seq<char>>,
    pub large_text: Option<Seq<char>>,
    pub small_image: Option<Seq<char>>,
    pub small_text: Option<Seq<char>>,
}

impl DeepView for ActivityAssetsSnapshot {
    type V = AssetsModel;

    open spec fn deep_view(&self) -> AssetsModel {
        AssetsModel {
            large_image: self.large_image.deep_view(),
            large_text: self.large_text.deep_view(),
            small_image: self.small_image.deep_view(),
            small_text: self.small_text.deep_view(),
        }
    }
}

#[derive(Debug, PartialEq, Eq)]
pub struct ActivitySnapshot {
    pub application_id: Option<String>,
    pub assets: Option<ActivityAssetsSnapshot>,
    pub details: Option<String>,
    pub kind: ActivityKind,
    pub name: String,
    pub party: Option<ActivityPartySnapshot>,
    pub state: Option<String>,
    pub timestamps: Option<ActivityTimestampsSnapshot>,
}

/// The value of an `ActivitySnapshot`.
pub struct ActivityModel {
    pub application_id: Option<Seq<char>>,
    pub assets: Option<AssetsModel>,
    pub details: Option<Seq<char>>,
    pub kind: ActivityKind,
    pub name: Seq<char>,
    pub party: Option<ActivityPartySnapshot>,
    pub state: Option<Seq<char>>,
    pub timestamps: Option<ActivityTimestampsSnapshot>,
}

impl DeepView for ActivitySnapshot {
    type V = ActivityModel;

    open spec fn deep_view(&self) -> ActivityModel {
        ActivityModel {
            application_id: self.application_id.deep_view(),
            assets: self.assets.deep_view(),
            details: self.details.deep_view(),
            kind: self.kind,
            name: self.name@,
            party: self.party,
            state: self.state.deep_view(),
            timestamps: self.timestamps,
        }
    }
}

#[derive(Debug, PartialEq, Eq)]
pub struct PresenceData {
    pub activities: Vec<ActivitySnapshot>,
    pub client_status: ClientStatusSnapshot,
    pub status: PresenceStatus,
}

/// The value of a `PresenceData`.
pub struct PresenceDataModel {
    pub activities: Seq<ActivityModel>,
    pub client_status: ClientStatusSnapshot,
    pub status: PresenceStatus,
}

impl DeepView for PresenceData {
    type V = PresenceDataModel;

    open spec fn deep_view(&self) -> PresenceDataModel {
        PresenceDataModel {
            activities: self.activities.deep_view(),
            client_status: self.client_status,
            status: self.status,
        }
    }
}

#[derive(Debug, PartialEq, Eq)]
pub struct PresenceSnapshot {
    pub data: PresenceData,
    pub observed_at_unix_ms: u64,
    pub revision: u64,
}

/// The value of a `PresenceSnapshot`.
pub struct SnapshotModel {
    pub data: PresenceDataModel,
    pub observed_at_unix_ms: u64,
    pub revision: u64,
}

impl DeepView for PresenceSnapshot {
    type V = SnapshotModel;

    open spec fn deep_view(&self) -> SnapshotModel {
        SnapshotModel {
            data: self.data.deep_view(),
            observed_at_unix_ms: self.observed_at_unix_ms,
            revision: self.revision,
        }
    }
}

#[derive(Debug, PartialEq, Eq)]
pub enum PresenceState {
    Known(PresenceSnapshot),
    Unknown,
}

/// The value of a `PresenceState`.
pub enum PresenceStateModel {
    Known(SnapshotModel),
    Unknown,
}

impl DeepView for PresenceState {
    type V = PresenceStateModel;

    open spec fn deep_view(&self) -> PresenceStateModel {
        match self {
            PresenceState::Known(s) => PresenceStateModel::Known(s.deep_view()),
            PresenceState::Unknown => PresenceStateModel::Unknown,
        }
    }
}

#[derive(Debug, PartialEq, Eq)]
pub struct RuntimeState {
    pub freshness: PresenceFreshness,
    pub gateway_status: GatewayStatus,
    pub last_target_event_unix_ms: Option<u64>,
    pub presence: PresenceState,
    pub stream_revision: u64,
    pub unvalidated_since_unix_ms: Option<u64>,
}

/// The value of a `RuntimeState`.
pub struct RuntimeModel {
    pub freshness: PresenceFreshness,
    pub gateway_status: GatewayStatus,
    pub last_target_event_unix_ms: Option<u64>,
    pub presence: PresenceStateModel,
    pub stream_revision: u64,
    pub unvalidated_since_unix_ms: Option<u64>,
}

impl DeepView for RuntimeState {
    type V = RuntimeModel;

    open spec fn deep_view(&self) -> RuntimeModel {
        RuntimeModel {
            freshness: self.freshness,
            gateway_status: self.gateway_status,
            last_target_event_unix_ms: self.last_target_event_unix_ms,
            presence: self.presence.deep_view(),
            stream_revision: self.stream_revision,
            unvalidated_since_unix_ms: self.unvalidated_since_unix_ms,
        }
    }
}

#[derive(Debug, PartialEq, Eq)]
pub struct RestoredPresence {
    pub snapshot: PresenceSnapshot,
    pub validated_at_unix_ms: u64,
}

/// An owned copy of an optional string.
pub fn clone_opt_string(o: &Option<String>) -> (r: Option<String>)
    ensures
        r.deep_view() == o.deep_view(),
{
    match o {
        Some(s) => Some(owned(s.as_str())),
        None => None,
    }
}

impl Clone for ActivityAssetsSnapshot {
    fn clone(&self) -> (r: Self)
        ensures
            r.deep_view() == self.deep_view(),
    {
        ActivityAssetsSnapshot {
            large_image: clone_opt_string(&self.large_image),
            large_text: clone_opt_string(&self.large_text),
            small_image: clone_opt_string(&self.small_image),
            small_text: clone_opt_string(&self.small_text),
        }
    }
}

impl Clone for ActivitySnapshot {
    fn clone(&self) -> (r: Self)
        ensures
            r.deep_view() == self.deep_view(),
    {
        let assets = match &self.assets {
            Some(a) => Some(a.clone()),
            None => None,
        };
        ActivitySnapshot {
            application_id: clone_opt_string(&self.application_id),
            assets,
            details: clone_opt_string(&self.details),
            kind: self.kind,
            name: owned(self.name.as_str()),
            party: self.party,
            state: clone_opt_string(&self.state),
            timestamps: self.timestamps,
        }
    }
}

/// An owned copy of a list of activities.
pub fn clone_activities(v: &Vec<ActivitySnapshot>) -> (r: Vec<ActivitySnapshot>)
    ensures
        r.deep_view() == v.deep_view(),
{
    let mut r: Vec<ActivitySnapshot> = Vec::new();
    let mut i: usize = 0;
    while i < v.len()
        invariant
            i <= v@.len(),
            r@.len() == i,
            forall|k: int| 0 <= k < i ==> (#[trigger] r@[k]).deep_view() == v@[k].deep_view(),
        decreases v.len() - i,
    {
        r.push(v[i].clone());
        i = i + 1;
    }
    proof {
        assert(r.deep_view() =~= v.deep_view());
    }
    r
}

impl Clone for PresenceData {
    fn clone(&self) -> (r: Self)
        ensures
            r.deep_view() == self.deep_view(),
    {
        PresenceData {
            activities: clone_activities(&self.activities),
            client_status: self.client_status,
            status: self.status,
        }
    }
}

impl Clone for PresenceSnapshot {
    fn clone(&self) -> (r: Self)
        ensures
            r.deep_view() == self.deep_view(),
    {
        PresenceSnapshot {
            data: self.data.clone(),
            observed_at_unix_ms: self.observed_at_unix_ms,
            revision: self.revision,
        }
    }
}

impl Clone for PresenceState {
    fn clone(&self) -> (r: Self)
        ensures
            r.deep_view() == self.deep_view(),
    {
        match self {
            PresenceState::Known(s) => PresenceState::Known(s.clone()),
            PresenceState::Unknown => PresenceState::Unknown,
        }
    }
}

impl Clone for RuntimeState {
    fn clone(&self) -> (r: Self)
        ensures
            r.deep_view() == self.deep_view(),
    {
        RuntimeState {
            freshness: self.freshness,
            gateway_status: self.gateway_status,
            last_target_event_unix_ms: self.last_target_event_unix_ms,
            presence: self.presence.clone(),
            stream_revision: self.stream_revision,
            unvalidated_since_unix_ms: self.unvalidated_since_unix_ms,
        }
    }
}

impl Clone for RestoredPresence {
    fn clone(&self) -> (r: Self)
        ensures
            r.snapshot.deep_view() == self.snapshot.deep_view(),
            r.validated_at_unix_ms == self.validated_at_unix_ms,
    {
        RestoredPresence {
            snapshot: self.snapshot.clone(),
            validated_at_unix_ms: self.validated_at_unix_ms,
        }
    }
}

/// Whether two optional strings hold the same text.
pub fn same_opt_string(a: &Option<String>, b: &Option<String>) -> (r: bool)
    ensures
        r == (a.deep_view() == b.deep_view()),
{
    match (a, b) {
        (Some(x), Some(y)) => *x == *y,
        (None, None) => true,
        _ => false,
    }
}

pub fn same_assets(a: &ActivityAssetsSnapshot, b: &ActivityAssetsSnapshot) -> (r: bool)
    ensures
        r == (a.deep_view() == b.deep_view()),
{
    same_opt_string(&a.large_image, &b.large_image) && same_opt_string(
        &a.large_text,
        &b.large_text,
    ) && same_opt_string(&a.small_image, &b.small_image) && same_opt_string(
        &a.small_text,
        &b.small_text,
    )
}

pub fn same_activity(a: &ActivitySnapshot, b: &ActivitySnapshot) -> (r: bool)
    ensures
        r == (a.deep_view() == b.deep_view()),
{
    let assets_same = match (&a.assets, &b.assets) {
        (Some(x), Some(y)) => same_assets(x, y),
        (None, None) => true,
        _ => false,
    };
    same_opt_string(&a.application_id, &b.application_id) && assets_same && same_opt_string(
        &a.details,
        &b.details,
    ) && a.kind == b.kind && a.name == b.name && a.party == b.party && same_opt_string(
        &a.state,
        &b.state,
    ) && a.timestamps == b.timestamps
}

/// Whether two presence payloads carry the same normalized data.
pub fn same_presence_data(a: &PresenceData, b: &PresenceData) -> (r: bool)
    ensures
        r == (a.deep_view() == b.deep_view()),
{
    if a.client_status != b.client_status || a.status != b.status || a.activities.len()
        != b.activities.len() {
        proof {
            if a.activities@.len() != b.activities@.len() {
                assert(a.activities.deep_view().len() != b.activities.deep_view().len());
            }
        }
        return false;
    }
    let mut i: usize = 0;
    while i < a.activities.len()
        invariant
            a.activities@.len() == b.activities@.len(),
            i <= a.activities@.len(),
            forall|k: int|
                0 <= k < i ==> (#[trigger] a.activities.deep_view()[k]) == b.activities.deep_view()[k],
        decreases a.activities.len() - i,
    {
        if !same_activity(&a.activities[i], &b.activities[i]) {
            proof {
                assert(a.activities.deep_view()[i as int] != b.activities.deep_view()[i as int]);
            }
            return false;
        }
        i = i + 1;
    }
    proof {
        assert(a.activities.deep_view() =~= b.activities.deep_view());
    }
    true
}

#[derive(Clone, Copy, Debug, PartialEq, Eq, Structural)]
pub enum PublishOutcome {
    Changed { revision: u64 },
    Unchanged { revision: u64 },
}

#[derive(Clone, Copy, Debug, PartialEq, Eq, Structural)]
pub enum PublishError {
    RevisionExhausted,
    StreamRevisionExhausted,
    WriterPoisoned,
}

/// The text that reports a refused store update.
pub open spec fn publish_error_text(e: PublishError) -> Seq<char> {
    match e {
        PublishError::RevisionExhausted => "presence revision counter exhausted"@,
        PublishError::StreamRevisionExhausted => "presence stream revision counter exhausted"@,
        PublishError::WriterPoisoned => "presence writer lock is poisoned"@,
    }
}

impl PublishError {
    /// The text that reports the error.
    pub fn message(&self) -> (r: &'static str)
        ensures
            r@ == publish_error_text(*self),
    {
        match self {
            PublishError::RevisionExhausted => "presence revision counter exhausted",
            PublishError::StreamRevisionExhausted => "presence stream revision counter exhausted",
            PublishError::WriterPoisoned => "presence writer lock is poisoned",
        }
    }
}

/// Why the stale watchdog stopped: the clock could not be read, or the store
/// refused the staleness update.
#[derive(Clone, Copy, Debug, PartialEq, Eq, Structural)]
pub enum WatchdogError {
    Clock(ClockError),
    Publish(PublishError),
}

impl WatchdogError {
    /// The text that reports the error: a prefix naming the watchdog, then the
    /// text of the underlying error.
    pub fn message(&self) -> (r: String)
        ensures
            r@ == match self {
                WatchdogError::Clock(e) => "stale watchdog clock error: "@ + clock_error_text(*e),
                WatchdogError::Publish(e) => "stale watchdog state error: "@ + publish_error_text(*e),
            },
    {
        match self {
            WatchdogError::Clock(e) => {
                let mut r = owned("stale watchdog clock error: ");
                push_str(&mut r, e.message());
                r
            },
            WatchdogError::Publish(e) => {
                let mut r = owned("stale watchdog state error: ");
                push_str(&mut r, e.message());
                r
            },
        }
    }
}

/// How public consumers see a freshness: live (fresh or within the grace window),
/// stale, or unavailable.
pub open spec fn freshness_class(f: PresenceFreshness) -> int {
    match f {
        PresenceFreshness::Fresh | PresenceFreshness::Grace => 0,
        PresenceFreshness::Stale => 1,
        PresenceFreshness::Unavailable => 2,
    }
}

/// Orders the freshness states from the most to the least trustworthy.
pub open spec fn freshness_rank(f: PresenceFreshness) -> int {
    match f {
        PresenceFreshness::Fresh => 0,
        PresenceFreshness::Grace => 1,
        PresenceFreshness::Stale => 2,
        PresenceFreshness::Unavailable => 3,
    }
}

/// The freshness of a presence that has gone unvalidated since `unvalidated_since`:
/// no known presence is unavailable; a validated one is fresh; otherwise the age
/// decides between grace, stale and unavailable.
pub open spec fn freshness_spec(
    known: bool,
    unvalidated_since: Option<u64>,
    now: u64,
    stale_after_ms: u64,
    unavailable_after_ms: u64,
) -> PresenceFreshness {
    if !known {
        PresenceFreshness::Unavailable
    } else {
        match unvalidated_since {
            None => PresenceFreshness::Fresh,
            Some(since) => {
                let age = if now >= since {
                    now - since
                } else {
                    0
                };
                if age >= unavailable_after_ms {
                    PresenceFreshness::Unavailable
                } else if age >= stale_after_ms {
                    PresenceFreshness::Stale
                } else {
                    PresenceFreshness::Grace
                }
            },
        }
    }
}

pub open spec fn is_known(p: PresenceStateModel) -> bool {
    p is Known
}

pub open spec fn outcome_revision(o: PublishOutcome) -> u64 {
    match o {
        PublishOutcome::Changed { revision } => revision,
        PublishOutcome::Unchanged { revision } => revision,
    }
}

/// The snapshot that a target presence event produces, with the publish outcome.
pub open spec fn publish_snapshot_spec(
    m: RuntimeModel,
    data: PresenceDataModel,
    observed: u64,
) -> Result<(SnapshotModel, PublishOutcome), PublishError> {
    match m.presence {
        PresenceStateModel::Known(s) => if s.data == data {
            Ok((s, PublishOutcome::Unchanged { revision: s.revision }))
        } else if s.revision == u64::MAX {
            Err(PublishError::RevisionExhausted)
        } else {
            Ok(
                (
                    SnapshotModel {
                        data,
                        observed_at_unix_ms: observed,
                        revision: (s.revision + 1) as u64,
                    },
                    PublishOutcome::Changed { revision: (s.revision + 1) as u64 },
                ),
            )
        },
        PresenceStateModel::Unknown => Ok(
            (
                SnapshotModel { data, observed_at_unix_ms: observed, revision: 1 },
                PublishOutcome::Changed { revision: 1 },
            ),
        ),
    }
}

/// The runtime state after a target presence event, or the error that leaves it as it was.
pub open spec fn publish_spec(m: RuntimeModel, data: PresenceDataModel, observed: u64) -> Result<
    (RuntimeModel, PublishOutcome),
    PublishError,
> {
    match publish_snapshot_spec(m, data, observed) {
        Err(e) => Err(e),
        Ok((snapshot, outcome)) => {
            let public_changed = outcome is Changed || freshness_class(m.freshness) != 0;
            if public_changed && m.stream_revision == u64::MAX {
                Err(PublishError::StreamRevisionExhausted)
            } else {
                Ok(
                    (
                        RuntimeModel {
                            freshness: PresenceFreshness::Fresh,
                            gateway_status: GatewayStatus::Live,
                            last_target_event_unix_ms: Some(observed),
                            presence: PresenceStateModel::Known(snapshot),
                            stream_revision: if public_changed {
                                (m.stream_revision + 1) as u64
                            } else {
                                m.stream_revision
                            },
                            unvalidated_since_unix_ms: None,
                        },
                        outcome,
                    ),
                )
            }
        },
    }
}

/// The runtime state after a gateway transport failure at `now`, with whether anything changed.
pub open spec fn degraded_spec(m: RuntimeModel, now: u64, stale_ms: u64, unavailable_ms: u64) -> Result<
    (RuntimeModel, bool),
    PublishError,
> {
    let gateway_changed = m.gateway_status != GatewayStatus::Degraded;
    let start_clock = m.unvalidated_since_unix_ms is None;
    let freshness = if start_clock {
        freshness_spec(is_known(m.presence), Some(now), now, stale_ms, unavailable_ms)
    } else {
        m.freshness
    };
    let next = RuntimeModel {
        freshness,
        gateway_status: GatewayStatus::Degraded,
        unvalidated_since_unix_ms: if start_clock {
            Some(now)
        } else {
            m.unvalidated_since_unix_ms
        },
        ..m
    };
    if !gateway_changed && !start_clock {
        Ok((m, false))
    } else {
        let public_changed = freshness_class(m.freshness) != freshness_class(freshness);
        if public_changed && m.stream_revision == u64::MAX {
            Err(PublishError::StreamRevisionExhausted)
        } else {
            Ok(
                (
                    RuntimeModel {
                        stream_revision: if public_changed {
                            (m.stream_revision + 1) as u64
                        } else {
                            m.stream_revision
                        },
                        ..next
                    },
                    true,
                ),
            )
        }
    }
}

/// The runtime state after the clock reached `now`, with whether the freshness moved.
pub open spec fn staleness_spec(m: RuntimeModel, now: u64, stale_ms: u64, unavailable_ms: u64) -> Result<
    (RuntimeModel, bool),
    PublishError,
> {
    match m.unvalidated_since_unix_ms {
        None => Ok((m, false)),
        Some(since) => {
            let f = freshness_spec(is_known(m.presence), Some(since), now, stale_ms, unavailable_ms);
            if f == m.freshness {
                Ok((m, false))
            } else {
                let public_changed = freshness_class(m.freshness) != freshness_class(f);
                if public_changed && m.stream_revision == u64::MAX {
                    Err(PublishError::StreamRevisionExhausted)
                } else {
                    Ok(
                        (
                            RuntimeModel {
                                freshness: f,
                                stream_revision: if public_changed {
                                    (m.stream_revision + 1) as u64
                                } else {
                                    m.stream_revision
                                },
                                ..m
                            },
                            true,
                        ),
                    )
                }
            }
        },
    }
}

/// The state a store starts in, from an optionally restored last-known-good snapshot.
pub open spec fn initial_spec(
    restored: Option<(SnapshotModel, u64)>,
    now: u64,
    stale_ms: u64,
    unavailable_ms: u64,
) -> RuntimeModel {
    match restored {
        Some((snapshot, validated)) => RuntimeModel {
            freshness: freshness_spec(true, Some(validated), now, stale_ms, unavailable_ms),
            gateway_status: GatewayStatus::Starting,
            last_target_event_unix_ms: Some(validated),
            presence: PresenceStateModel::Known(snapshot),
            stream_revision: snapshot.revision,
            unvalidated_since_unix_ms: Some(validated),
        },
        None => RuntimeModel {
            freshness: PresenceFreshness::Unavailable,
            gateway_status: GatewayStatus::Starting,
            last_target_event_unix_ms: None,
            presence: PresenceStateModel::Unknown,
            stream_revision: 0,
            unvalidated_since_unix_ms: None,
        },
    }
}

/// `freshness_spec` computed on machine integers. Thresholds are in milliseconds.
pub fn freshness_for(
    presence: &PresenceState,
    unvalidated_since_unix_ms: Option<u64>,
    now_unix_ms: u64,
    stale_after_ms: u64,
    unavailable_after_ms: u64,
) -> (r: PresenceFreshness)
    ensures
        r == freshness_spec(
            presence is Known,
            unvalidated_since_unix_ms,
            now_unix_ms,
            stale_after_ms,
            unavailable_after_ms,
        ),
{
    if let PresenceState::Unknown = presence {
        return PresenceFreshness::Unavailable;
    }
    let since = match unvalidated_since_unix_ms {
        None => return PresenceFreshness::Fresh,
        Some(since) => since,
    };
    let age_ms = now_unix_ms.saturating_sub(since);
    if age_ms >= unavailable_after_ms {
        PresenceFreshness::Unavailable
    } else if age_ms >= stale_after_ms {
        PresenceFreshness::Stale
    } else {
        PresenceFreshness::Grace
    }
}

/// The public class of a freshness: 0 live, 1 stale, 2 unavailable.
pub fn public_freshness_class(freshness: PresenceFreshness) -> (r: u8)
    ensures
        r == freshness_class(freshness),
{
    match freshness {
        PresenceFreshness::Fresh | PresenceFreshness::Grace => 0,
        PresenceFreshness::Stale => 1,
        PresenceFreshness::Unavailable => 2,
    }
}

/// The presence runtime state with its freshness thresholds.
///
/// Every change of what the public endpoints show advances `stream_revision`, so a
/// caller that compares the stream revision before and after an operation knows
/// whether subscribers must be told.
pub struct PresenceStore {
    current: RuntimeState,
    stale_after_ms: u64,
    unavailable_after_ms: u64,
}

impl PresenceStore {
    pub closed spec fn runtime(&self) -> RuntimeModel {
        self.current.deep_view()
    }

    pub closed spec fn stale_ms(&self) -> u64 {
        self.stale_after_ms
    }

    pub closed spec fn unavailable_ms(&self) -> u64 {
        self.unavailable_after_ms
    }

    /// A store that starts from the restored last-known-good presence, if any.
    /// The thresholds are in milliseconds.
    pub fn new(
        stale_after_ms: u64,
        unavailable_after_ms: u64,
        restored: Option<RestoredPresence>,
        now_unix_ms: u64,
    ) -> (store: Self)
        ensures
            store.stale_ms() == stale_after_ms,
            store.unavailable_ms() == unavailable_after_ms,
            store.runtime() == initial_spec(
                match restored {
                    Some(r) => Some((r.snapshot.deep_view(), r.validated_at_unix_ms)),
                    None => None,
                },
                now_unix_ms,
                stale_after_ms,
                unavailable_after_ms,
            ),
    {
        let initial = match restored {
            Some(restored) => {
                let validated = restored.validated_at_unix_ms;
                let stream_revision = restored.snapshot.revision;
                let presence = PresenceState::Known(restored.snapshot);
                let freshness = freshness_for(
                    &presence,
                    Some(validated),
                    now_unix_ms,
                    stale_after_ms,
                    unavailable_after_ms,
                );
                RuntimeState {
                    freshness,
                    gateway_status: GatewayStatus::Starting,
                    last_target_event_unix_ms: Some(validated),
                    presence,
                    stream_revision,
                    unvalidated_since_unix_ms: Some(validated),
                }
            },
            None => RuntimeState {
                freshness: PresenceFreshness::Unavailable,
                gateway_status: GatewayStatus::Starting,
                last_target_event_unix_ms: None,
                presence: PresenceState::Unknown,
                stream_revision: 0,
                unvalidated_since_unix_ms: None,
            },
        };
        PresenceStore { current: initial, stale_after_ms, unavailable_after_ms }
    }

    /// A copy of the current runtime state.
    pub fn load(&self) -> (r: RuntimeState)
        ensures
            r.deep_view() == self.runtime(),
    {
        self.current.clone()
    }

    /// Records a target presence event observed at `observed_at_unix_ms`.
    pub fn publish(&mut self, data: PresenceData, observed_at_unix_ms: u64) -> (r: Result<
        PublishOutcome,
        PublishError,
    >)
        ensures
            final(self).stale_ms() == old(self).stale_ms(),
            final(self).unavailable_ms() == old(self).unavailable_ms(),
            match publish_spec(old(self).runtime(), data.deep_view(), observed_at_unix_ms) {
                Ok((next, outcome)) => r == Ok::<PublishOutcome, PublishError>(outcome)
                    && final(self).runtime() == next,
                Err(e) => r == Err::<PublishOutcome, PublishError>(e) && final(self).runtime()
                    == old(self).runtime(),
            },
    {
        let previous_class = public_freshness_class(self.current.freshness);
        let unchanged_revision: Option<u64> = match &self.current.presence {
            PresenceState::Known(snapshot) => if same_presence_data(&snapshot.data, &data) {
                Some(snapshot.revision)
            } else {
                None
            },
            PresenceState::Unknown => None,
        };
        let outcome = match unchanged_revision {
            Some(revision) => PublishOutcome::Unchanged { revision },
            None => {
                let revision = match &self.current.presence {
                    PresenceState::Known(snapshot) => {
                        if snapshot.revision == u64::MAX {
                            return Err(PublishError::RevisionExhausted);
                        }
                        snapshot.revision + 1
                    },
                    PresenceState::Unknown => 1,
                };
                PublishOutcome::Changed { revision }
            },
        };
        let public_changed = unchanged_revision.is_none() || previous_class != 0;
        if public_changed && self.current.stream_revision == u64::MAX {
            return Err(PublishError::StreamRevisionExhausted);
        }
        if let PublishOutcome::Changed { revision } = outcome {
            self.current.presence = PresenceState::Known(
                PresenceSnapshot { data, observed_at_unix_ms, revision },
            );
        }
        self.current.gateway_status = GatewayStatus::Live;
        self.current.last_target_event_unix_ms = Some(observed_at_unix_ms);
        self.current.unvalidated_since_unix_ms = None;
        self.current.freshness = PresenceFreshness::Fresh;
        if public_changed {
            self.current.stream_revision = self.current.stream_revision + 1;
        }
        Ok(outcome)
    }

    /// Records that the gateway delivered an event; returns whether the status changed.
    pub fn mark_gateway_live(&mut self) -> (r: Result<bool, PublishError>)
        ensures
            final(self).stale_ms() == old(self).stale_ms(),
            final(self).unavailable_ms() == old(self).unavailable_ms(),
            r == Ok::<bool, PublishError>(old(self).runtime().gateway_status != GatewayStatus::Live),
            final(self).runtime() == (RuntimeModel {
                gateway_status: GatewayStatus::Live,
                ..old(self).runtime()
            }),
    {
        if self.current.gateway_status == GatewayStatus::Live {
            return Ok(false);
        }
        self.current.gateway_status = GatewayStatus::Live;
        Ok(true)
    }

    /// Records a gateway transport failure at `now_unix_ms`. The last known presence is
    /// kept; only the validation clock starts.
    pub fn mark_gateway_degraded(&mut self, now_unix_ms: u64) -> (r: Result<bool, PublishError>)
        ensures
            final(self).stale_ms() == old(self).stale_ms(),
            final(self).unavailable_ms() == old(self).unavailable_ms(),
            match degraded_spec(
                old(self).runtime(),
                now_unix_ms,
                old(self).stale_ms(),
                old(self).unavailable_ms(),
            ) {
                Ok((next, changed)) => r == Ok::<bool, PublishError>(changed) && final(self).runtime() == next,
                Err(e) => r == Err::<bool, PublishError>(e) && final(self).runtime() == old(self).runtime(),
            },
    {
        let previous_class = public_freshness_class(self.current.freshness);
        let gateway_changed = self.current.gateway_status != GatewayStatus::Degraded;
        let start_clock = self.current.unvalidated_since_unix_ms.is_none();
        if !gateway_changed && !start_clock {
            return Ok(false);
        }
        let freshness = if start_clock {
            freshness_for(
                &self.current.presence,
                Some(now_unix_ms),
                now_unix_ms,
                self.stale_after_ms,
                self.unavailable_after_ms,
            )
        } else {
            self.current.freshness
        };
        let public_changed = previous_class != public_freshness_class(freshness);
        if public_changed && self.current.stream_revision == u64::MAX {
            return Err(PublishError::StreamRevisionExhausted);
        }
        self.current.gateway_status = GatewayStatus::Degraded;
        if start_clock {
            self.current.unvalidated_since_unix_ms = Some(now_unix_ms);
        }
        self.current.freshness = freshness;
        if public_changed {
            self.current.stream_revision = self.current.stream_revision + 1;
        }
        Ok(true)
    }

    /// Moves the freshness on as the clock reaches `now_unix_ms`; returns whether it moved.
    pub fn advance_staleness(&mut self, now_unix_ms: u64) -> (r: Result<bool, PublishError>)
        ensures
            final(self).stale_ms() == old(self).stale_ms(),
            final(self).unavailable_ms() == old(self).unavailable_ms(),
            match staleness_spec(
                old(self).runtime(),
                now_unix_ms,
                old(self).stale_ms(),
                old(self).unavailable_ms(),
            ) {
                Ok((next, changed)) => r == Ok::<bool, PublishError>(changed) && final(self).runtime() == next,
                Err(e) => r == Err::<bool, PublishError>(e) && final(self).runtime() == old(self).runtime(),
            },
    {
        let since = match self.current.unvalidated_since_unix_ms {
            None => return Ok(false),
            Some(since) => since,
        };
        let next_freshness = freshness_for(
            &self.current.presence,
            Some(since),
            now_unix_ms,
            self.stale_after_ms,
            self.unavailable_after_ms,
        );
        if next_freshness == self.current.freshness {
            return Ok(false);
        }
        let public_changed = public_freshness_class(self.current.freshness)
            != public_freshness_class(next_freshness);
        if public_changed && self.current.stream_revision == u64::MAX {
            return Err(PublishError::StreamRevisionExhausted);
        }
        self.current.freshness = next_freshness;
        if public_changed {
            self.current.stream_revision = self.current.stream_revision + 1;
        }
        Ok(true)
    }

    /// The snapshot to persist with the time it was last validated, if a presence is known.
    pub fn persistence_snapshot(&self) -> (r: Option<(PresenceSnapshot, u64)>)
        ensures
            match self.runtime().presence {
                PresenceStateModel::Known(s) => r matches Some((snapshot, validated))
                    && snapshot.deep_view() == s && validated == match self.runtime().last_target_event_unix_ms {
                        Some(t) => t,
                        None => s.observed_at_unix_ms,
                    },
                PresenceStateModel::Unknown => r is None,
            },
    {
        match &self.current.presence {
            PresenceState::Known(snapshot) => {
                let validated = match self.current.last_target_event_unix_ms {
                    Some(t) => t,
                    None => snapshot.observed_at_unix_ms,
                };
                Some((snapshot.clone(), validated))
            },
            PresenceState::Unknown => None,
        }
    }
}

/// The states a store can reach: an unknown presence is unavailable, and a known
/// presence whose validation clock is not running is fresh.
pub open spec fn runtime_wf(m: RuntimeModel) -> bool {
    &&& !is_known(m.presence) ==> m.freshness == PresenceFreshness::Unavailable
    &&& is_known(m.presence) && m.unvalidated_since_unix_ms is None ==> m.freshness
        == PresenceFreshness::Fresh
}

/// Every store starts in, and every operation keeps it in, a reachable state.
pub proof fn law_operations_keep_wf(
    m: RuntimeModel,
    restored: Option<(SnapshotModel, u64)>,
    data: PresenceDataModel,
    now: u64,
    stale_ms: u64,
    unavailable_ms: u64,
)
    ensures
        runtime_wf(initial_spec(restored, now, stale_ms, unavailable_ms)),
        runtime_wf(m) && publish_spec(m, data, now) is Ok ==> runtime_wf(
            publish_spec(m, data, now)->Ok_0.0,
        ),
        runtime_wf(m) && degraded_spec(m, now, stale_ms, unavailable_ms) is Ok ==> runtime_wf(
            degraded_spec(m, now, stale_ms, unavailable_ms)->Ok_0.0,
        ),
        runtime_wf(m) && staleness_spec(m, now, stale_ms, unavailable_ms) is Ok ==> runtime_wf(
            staleness_spec(m, now, stale_ms, unavailable_ms)->Ok_0.0,
        ),
        runtime_wf(m) ==> runtime_wf(RuntimeModel { gateway_status: GatewayStatus::Live, ..m }),
{
}

/// Publishing the same presence data again is answered `Unchanged` with the revision
/// that the first publish produced, and leaves the snapshot and stream revision alone.
pub proof fn law_republish_is_unchanged(
    m: RuntimeModel,
    data: PresenceDataModel,
    first_at: u64,
    second_at: u64,
)
    requires
        publish_spec(m, data, first_at) is Ok,
    ensures
        ({
            let (m1, o1) = publish_spec(m, data, first_at)->Ok_0;
            &&& publish_spec(m1, data, second_at) is Ok
            &&& publish_spec(m1, data, second_at)->Ok_0.1 == (PublishOutcome::Unchanged {
                revision: outcome_revision(o1),
            })
            &&& publish_spec(m1, data, second_at)->Ok_0.0.presence == m1.presence
            &&& publish_spec(m1, data, second_at)->Ok_0.0.stream_revision == m1.stream_revision
        }),
{
}

/// A target presence event always leaves the presence known, fresh and validated.
pub proof fn law_publish_restores_fresh(m: RuntimeModel, data: PresenceDataModel, at: u64)
    requires
        publish_spec(m, data, at) is Ok,
    ensures
        ({
            let next = publish_spec(m, data, at)->Ok_0.0;
            &&& next.freshness == PresenceFreshness::Fresh
            &&& next.presence is Known
            &&& next.unvalidated_since_unix_ms is None
            &&& next.gateway_status == GatewayStatus::Live
        }),
{
}

/// The stream revision advances exactly when what the public endpoints show changes:
/// a semantic presence change or a change of the public freshness class.
pub proof fn law_publish_stream_revision(m: RuntimeModel, data: PresenceDataModel, at: u64)
    requires
        publish_spec(m, data, at) is Ok,
    ensures
        ({
            let (next, outcome) = publish_spec(m, data, at)->Ok_0;
            &&& (next.stream_revision != m.stream_revision) == (outcome is Changed
                || freshness_class(m.freshness) != freshness_class(next.freshness))
            &&& next.stream_revision >= m.stream_revision
        }),
{
}

/// Snapshot revisions never go back, and change only with the data.
pub proof fn law_publish_revision_monotone(m: RuntimeModel, data: PresenceDataModel, at: u64)
    requires
        publish_spec(m, data, at) is Ok,
        m.presence is Known,
    ensures
        ({
            let (next, outcome) = publish_spec(m, data, at)->Ok_0;
            let before = m.presence->Known_0;
            let after = next.presence->Known_0;
            &&& after.revision >= before.revision
            &&& (after.revision == before.revision) == (before.data == data)
            &&& after.data == data
        }),
{
}

/// A gateway transport failure never alters or drops the last known presence and never
/// makes the state fresher.
pub proof fn law_degraded_keeps_presence(m: RuntimeModel, now: u64, stale_ms: u64, unavailable_ms: u64)
    requires
        degraded_spec(m, now, stale_ms, unavailable_ms) is Ok,
        runtime_wf(m),
    ensures
        ({
            let next = degraded_spec(m, now, stale_ms, unavailable_ms)->Ok_0.0;
            &&& next.presence == m.presence
            &&& next.last_target_event_unix_ms == m.last_target_event_unix_ms
            &&& next.stream_revision >= m.stream_revision
            &&& freshness_rank(next.freshness) >= freshness_rank(m.freshness)
        }),
{
}

/// With the validation clock running, the freshness only degrades as time passes.
pub proof fn law_freshness_monotone_in_time(
    known: bool,
    since: u64,
    earlier: u64,
    later: u64,
    stale_ms: u64,
    unavailable_ms: u64,
)
    requires
        earlier <= later,
    ensures
        freshness_rank(freshness_spec(known, Some(since), earlier, stale_ms, unavailable_ms))
            <= freshness_rank(freshness_spec(known, Some(since), later, stale_ms, unavailable_ms)),
{
}

/// Advancing the clock never alters the presence, and the stream revision never goes back.
pub proof fn law_staleness_keeps_presence(m: RuntimeModel, now: u64, stale_ms: u64, unavailable_ms: u64)
    requires
        staleness_spec(m, now, stale_ms, unavailable_ms) is Ok,
    ensures
        ({
            let next = staleness_spec(m, now, stale_ms, unavailable_ms)->Ok_0.0;
            &&& next.presence == m.presence
            &&& next.unvalidated_since_unix_ms == m.unvalidated_since_unix_ms
            &&& next.stream_revision >= m.stream_revision
        }),
{
}

/// Without any presence event the state is never presented as live: an unknown presence
/// is always unavailable, whatever the clock says.
pub proof fn law_unknown_is_unavailable(
    since: Option<u64>,
    now: u64,
    stale_ms: u64,
    unavailable_ms: u64,
)
    ensures
        freshness_spec(false, since, now, stale_ms, unavailable_ms)
            == PresenceFreshness::Unavailable,
        initial_spec(None, now, stale_ms, unavailable_ms).freshness
            == PresenceFreshness::Unavailable,
{
}

/// The schema version of the persisted last-known-good presence.
pub const LKG_SCHEMA_VERSION: u8 = 1;

/// The presence restored from a persisted file: refused, with the file's version, where
/// the file was written under another schema.
pub fn restore_lkg(schema_version: u8, snapshot: PresenceSnapshot, validated_at_unix_ms: u64) -> (r: Result<
    RestoredPresence,
    u8,
>)
    ensures
        schema_version == LKG_SCHEMA_VERSION ==> (r matches Ok(restored) && restored.snapshot.deep_view()
            == snapshot.deep_view() && restored.validated_at_unix_ms == validated_at_unix_ms),
        schema_version != LKG_SCHEMA_VERSION ==> r == Err::<RestoredPresence, u8>(schema_version),
{
    if schema_version != LKG_SCHEMA_VERSION {
        return Err(schema_version);
    }
    Ok(RestoredPresence { snapshot, validated_at_unix_ms })
}

} // verus!
