//! The public projection of the runtime state: only the selected presence fields,
//! with duplicate activities collapsed and the Spotify fields projected.
use vstd::prelude::*;

use crate::activity::{
    artwork_spec, icon_key_spec, resolve_artwork, spotify_activity, spotify_activity_spec,
    ArtworkSource, ResolvedArtwork, SpotifyActivity, SpotifyActivityModel,
};
use crate::selection::{
    law_selection_is_distinct_and_preferred, names_match, select_spec, selected_activities,
    DuplicateRule, NameMatch,
};
use crate::state::{
    clone_opt_string, ActivityAssetsSnapshot, ActivityKind, ActivityModel,
    ActivityPartySnapshot, ActivitySnapshot, ActivityTimestampsSnapshot, AssetsModel,
    ClientStatusSnapshot, GatewayStatus, PresenceFreshness, PresenceState, PresenceStateModel,
    PresenceStatus, RuntimeModel, RuntimeState,
};
use crate::text::owned;

verus! {

/// The public form of one activity.
#[derive(Debug)]
pub struct PublicActivity {
    pub kind: &'static str,
    pub name: String,
    pub application_id: Option<String>,
    pub details: Option<String>,
    pub state: Option<String>,
    pub party: Option<ActivityPartySnapshot>,
    pub timestamps: Option<ActivityTimestampsSnapshot>,
    pub assets: Option<ActivityAssetsSnapshot>,
    pub artwork: ResolvedArtwork,
}

/// The value of a `PublicActivity`.
pub struct PublicActivityModel {
    pub kind: Seq<char>,
    pub name: Seq<char>,
    pub application_id: Option<Seq<char>>,
    pub details: Option<Seq<char>>,
    pub state: Option<Seq<char>>,
    pub party: Option<ActivityPartySnapshot>,
    pub timestamps: Option<ActivityTimestampsSnapshot>,
    pub assets: Option<AssetsModel>,
    pub artwork_source: ArtworkSource,
    pub artwork_url: Option<Seq<char>>,
    pub fallback_key: Seq<char>,
}

impl DeepView for PublicActivity {
    type V = PublicActivityModel;

    open spec fn deep_view(&self) -> PublicActivityModel {
        PublicActivityModel {
            kind: self.kind@,
            name: self.name@,
            application_id: self.application_id.deep_view(),
            details: self.details.deep_view(),
            state: self.state.deep_view(),
            party: self.party,
            timestamps: self.timestamps,
            assets: self.assets.deep_view(),
            artwork_source: self.artwork.source,
            artwork_url: self.artwork.url.deep_view(),
            fallback_key: self.artwork.fallback_key@,
        }
    }
}

/// The public status of each client.
#[derive(Debug)]
pub struct PublicClientStatus {
    pub desktop: Option<&'static str>,
    pub mobile: Option<&'static str>,
    pub web: Option<&'static str>,
}

/// The value of a `PublicClientStatus`.
pub struct PublicClientStatusModel {
    pub desktop: Option<Seq<char>>,
    pub mobile: Option<Seq<char>>,
    pub web: Option<Seq<char>>,
}

pub open spec fn name_view(o: Option<&'static str>) -> Option<Seq<char>> {
    match o {
        Some(s) => Some(s@),
        None => None,
    }
}

impl DeepView for PublicClientStatus {
    type V = PublicClientStatusModel;

    open spec fn deep_view(&self) -> PublicClientStatusModel {
        PublicClientStatusModel {
            desktop: name_view(self.desktop),
            mobile: name_view(self.mobile),
            web: name_view(self.web),
        }
    }
}

/// The public presence document.
#[derive(Debug)]
pub struct PublicPresence {
    pub availability: &'static str,
    pub stale: bool,
    pub status: Option<&'static str>,
    pub client_status: Option<PublicClientStatus>,
    pub activities: Vec<PublicActivity>,
    pub spotify: Option<SpotifyActivity>,
    pub observed_at_unix_ms: Option<u64>,
    pub revision: u64,
}

/// The value of a `PublicPresence`.
pub struct PublicPresenceModel {
    pub availability: Seq<char>,
    pub stale: bool,
    pub status: Option<Seq<char>>,
    pub client_status: Option<PublicClientStatusModel>,
    pub activities: Seq<PublicActivityModel>,
    pub spotify: Option<SpotifyActivityModel>,
    pub observed_at_unix_ms: Option<u64>,
    pub revision: u64,
}

impl DeepView for PublicPresence {
    type V = PublicPresenceModel;

    open spec fn deep_view(&self) -> PublicPresenceModel {
        PublicPresenceModel {
            availability: self.availability@,
            stale: self.stale,
            status: name_view(self.status),
            client_status: self.client_status.deep_view(),
            activities: self.activities.deep_view(),
            spotify: self.spotify.deep_view(),
            observed_at_unix_ms: self.observed_at_unix_ms,
            revision: self.revision,
        }
    }
}

pub open spec fn status_name_spec(status: PresenceStatus) -> Seq<char> {
    match status {
        PresenceStatus::DoNotDisturb => "dnd"@,
        PresenceStatus::Idle => "idle"@,
        PresenceStatus::Invisible => "invisible"@,
        PresenceStatus::Offline => "offline"@,
        PresenceStatus::Online => "online"@,
    }
}

pub open spec fn kind_name_spec(kind: ActivityKind) -> Seq<char> {
    match kind {
        ActivityKind::Competing => "competing"@,
        ActivityKind::Custom => "custom"@,
        ActivityKind::Listening => "listening"@,
        ActivityKind::Playing => "playing"@,
        ActivityKind::Streaming => "streaming"@,
        ActivityKind::Unknown(_) => "unknown"@,
        ActivityKind::Watching => "watching"@,
    }
}

/// Every activity kind is published under its own name: competing, custom, listening,
/// playing, streaming, watching, and unknown for the kinds Discord adds later. No two
/// known kinds share a name.
pub proof fn law_kind_names_tell_kinds_apart(a: ActivityKind, b: ActivityKind)
    ensures
        kind_name_spec(ActivityKind::Competing) == "competing"@,
        kind_name_spec(ActivityKind::Custom) == "custom"@,
        kind_name_spec(ActivityKind::Listening) == "listening"@,
        kind_name_spec(ActivityKind::Playing) == "playing"@,
        kind_name_spec(ActivityKind::Streaming) == "streaming"@,
        kind_name_spec(ActivityKind::Watching) == "watching"@,
        a is Unknown ==> kind_name_spec(a) == "unknown"@,
        kind_name_spec(a) == kind_name_spec(b) ==> a == b || (a is Unknown && b is Unknown),
{
    reveal_strlit("competing");
    reveal_strlit("custom");
    reveal_strlit("listening");
    reveal_strlit("playing");
    reveal_strlit("streaming");
    reveal_strlit("unknown");
    reveal_strlit("watching");
    let na = kind_name_spec(a);
    let nb = kind_name_spec(b);
    if a != b && !(a is Unknown && b is Unknown) {
        assert(na.len() != nb.len() || na[0] != nb[0]) by {
            match a {
                ActivityKind::Competing => {},
                ActivityKind::Custom => {},
                ActivityKind::Listening => {},
                ActivityKind::Playing => {},
                ActivityKind::Streaming => {},
                ActivityKind::Unknown(_) => {},
                ActivityKind::Watching => {},
            }
        }
    }
}

pub open spec fn gateway_name_spec(status: GatewayStatus) -> Seq<char> {
    match status {
        GatewayStatus::Degraded => "degraded"@,
        GatewayStatus::Live => "live"@,
        GatewayStatus::Starting => "starting"@,
    }
}

pub open spec fn availability_spec(m: RuntimeModel) -> Seq<char> {
    match m.presence {
        PresenceStateModel::Unknown => "unknown"@,
        PresenceStateModel::Known(_) => if m.freshness == PresenceFreshness::Unavailable {
            "unavailable"@
        } else {
            "known"@
        },
    }
}

pub open spec fn opt_status_name(s: Option<PresenceStatus>) -> Option<Seq<char>> {
    match s {
        Some(x) => Some(status_name_spec(x)),
        None => None,
    }
}

pub open spec fn client_status_spec(c: ClientStatusSnapshot) -> PublicClientStatusModel {
    PublicClientStatusModel {
        desktop: opt_status_name(c.desktop),
        mobile: opt_status_name(c.mobile),
        web: opt_status_name(c.web),
    }
}

/// The public form of one activity, with its resolved artwork.
pub open spec fn public_activity_spec(a: ActivityModel) -> PublicActivityModel {
    PublicActivityModel {
        kind: kind_name_spec(a.kind),
        name: a.name,
        application_id: a.application_id,
        details: a.details,
        state: a.state,
        party: a.party,
        timestamps: a.timestamps,
        assets: a.assets,
        artwork_source: artwork_spec(a).0,
        artwork_url: artwork_spec(a).1,
        fallback_key: icon_key_spec(a.name),
    }
}

/// The public presence: nothing is fabricated for an unknown presence, an unavailable
/// one keeps only its time and revision, and a known one shows its status, its
/// activities with one entry per name (the newest duplicate), and the Spotify fields
/// of the Spotify entry among them.
pub open spec fn public_presence_spec(m: RuntimeModel) -> PublicPresenceModel {
    match m.presence {
        PresenceStateModel::Unknown => PublicPresenceModel {
            availability: "unknown"@,
            stale: false,
            status: None,
            client_status: None,
            activities: Seq::empty(),
            spotify: None,
            observed_at_unix_ms: None,
            revision: 0,
        },
        PresenceStateModel::Known(s) => if m.freshness == PresenceFreshness::Unavailable {
            PublicPresenceModel {
                availability: "unavailable"@,
                stale: true,
                status: None,
                client_status: None,
                activities: Seq::empty(),
                spotify: None,
                observed_at_unix_ms: Some(s.observed_at_unix_ms),
                revision: s.revision,
            }
        } else {
            let selected = select_spec(NameMatch::AsciiCase, DuplicateRule::Newest, s.data.activities);
            PublicPresenceModel {
                availability: "known"@,
                stale: m.freshness == PresenceFreshness::Stale,
                status: Some(status_name_spec(s.data.status)),
                client_status: Some(client_status_spec(s.data.client_status)),
                activities: selected.map_values(|a: ActivityModel| public_activity_spec(a)),
                spotify: spotify_activity_spec(selected),
                observed_at_unix_ms: Some(s.observed_at_unix_ms),
                revision: s.revision,
            }
        },
    }
}

/// The public name of a presence status.
pub fn status_name(status: PresenceStatus) -> (r: &'static str)
    ensures
        r@ == status_name_spec(status),
{
    match status {
        PresenceStatus::DoNotDisturb => "dnd",
        PresenceStatus::Idle => "idle",
        PresenceStatus::Invisible => "invisible",
        PresenceStatus::Offline => "offline",
        PresenceStatus::Online => "online",
    }
}

/// The public name of an activity kind.
pub fn activity_kind_name(kind: ActivityKind) -> (r: &'static str)
    ensures
        r@ == kind_name_spec(kind),
{
    match kind {
        ActivityKind::Competing => "competing",
        ActivityKind::Custom => "custom",
        ActivityKind::Listening => "listening",
        ActivityKind::Playing => "playing",
        ActivityKind::Streaming => "streaming",
        ActivityKind::Unknown(_) => "unknown",
        ActivityKind::Watching => "watching",
    }
}

/// The public name of the gateway connection status.
pub fn gateway_status_name(status: GatewayStatus) -> (r: &'static str)
    ensures
        r@ == gateway_name_spec(status),
{
    match status {
        GatewayStatus::Degraded => "degraded",
        GatewayStatus::Live => "live",
        GatewayStatus::Starting => "starting",
    }
}

/// Whether the presence is unknown, unavailable or known.
pub fn presence_availability(runtime: &RuntimeState) -> (r: &'static str)
    ensures
        r@ == availability_spec(runtime.deep_view()),
{
    match &runtime.presence {
        PresenceState::Unknown => "unknown",
        PresenceState::Known(_) => if runtime.freshness == PresenceFreshness::Unavailable {
            "unavailable"
        } else {
            "known"
        },
    }
}

/// Whether the presence is stale or unavailable.
pub fn presence_is_stale(runtime: &RuntimeState) -> (r: bool)
    ensures
        r == (runtime.freshness == PresenceFreshness::Stale || runtime.freshness
            == PresenceFreshness::Unavailable),
{
    match runtime.freshness {
        PresenceFreshness::Stale | PresenceFreshness::Unavailable => true,
        _ => false,
    }
}

fn opt_status(s: Option<PresenceStatus>) -> (r: Option<&'static str>)
    ensures
        name_view(r) == opt_status_name(s),
{
    match s {
        Some(x) => Some(status_name(x)),
        None => None,
    }
}

/// The public status of each client.
pub fn public_client_status(status: &ClientStatusSnapshot) -> (r: PublicClientStatus)
    ensures
        r.deep_view() == client_status_spec(*status),
{
    PublicClientStatus {
        desktop: opt_status(status.desktop),
        mobile: opt_status(status.mobile),
        web: opt_status(status.web),
    }
}

/// The public form of one activity, with its resolved artwork.
pub fn public_activity(activity: &ActivitySnapshot) -> (r: PublicActivity)
    ensures
        r.deep_view() == public_activity_spec(activity.deep_view()),
{
    let artwork = resolve_artwork(activity);
    let assets = match &activity.assets {
        Some(a) => Some(a.clone()),
        None => None,
    };
    PublicActivity {
        kind: activity_kind_name(activity.kind),
        name: owned(activity.name.as_str()),
        application_id: clone_opt_string(&activity.application_id),
        details: clone_opt_string(&activity.details),
        state: clone_opt_string(&activity.state),
        party: activity.party,
        timestamps: activity.timestamps,
        assets,
        artwork,
    }
}

/// The public activities: one entry per display name, where the name first appears,
/// holding the newest duplicate (the later start, then the richer entry).
pub fn public_activities(selected: &Vec<ActivitySnapshot>) -> (r: Vec<PublicActivity>)
    ensures
        r.deep_view() == selected.deep_view().map_values(
            |a: ActivityModel| public_activity_spec(a),
        ),
{
    let mut r: Vec<PublicActivity> = Vec::new();
    let mut i: usize = 0;
    while i < selected.len()
        invariant
            i <= selected@.len(),
            r@.len() == i,
            forall|k: int|
                0 <= k < i ==> (#[trigger] r@[k]).deep_view() == public_activity_spec(
                    selected@[k].deep_view(),
                ),
        decreases selected.len() - i,
    {
        r.push(public_activity(&selected[i]));
        i = i + 1;
    }
    proof {
        assert(r.deep_view() =~= selected.deep_view().map_values(
            |a: ActivityModel| public_activity_spec(a),
        ));
    }
    r
}

/// The public presence document for a runtime state.
pub fn build_public_presence(runtime: &RuntimeState) -> (r: PublicPresence)
    ensures
        r.deep_view() == public_presence_spec(runtime.deep_view()),
{
    match &runtime.presence {
        PresenceState::Unknown => {
            let activities: Vec<PublicActivity> = Vec::new();
            proof {
                assert(activities.deep_view() =~= Seq::<PublicActivityModel>::empty());
            }
            PublicPresence {
                availability: "unknown",
                stale: false,
                status: None,
                client_status: None,
                activities,
                spotify: None,
                observed_at_unix_ms: None,
                revision: 0,
            }
        },
        PresenceState::Known(snapshot) => {
            if runtime.freshness == PresenceFreshness::Unavailable {
                let activities: Vec<PublicActivity> = Vec::new();
                proof {
                    assert(activities.deep_view() =~= Seq::<PublicActivityModel>::empty());
                }
                PublicPresence {
                    availability: "unavailable",
                    stale: true,
                    status: None,
                    client_status: None,
                    activities,
                    spotify: None,
                    observed_at_unix_ms: Some(snapshot.observed_at_unix_ms),
                    revision: snapshot.revision,
                }
            } else {
                let selected = selected_activities(&snapshot.data.activities, NameMatch::AsciiCase, DuplicateRule::Newest);
                let spotify = spotify_activity(selected.as_slice());
                proof {
                    assert(selected@.map_values(|a: ActivitySnapshot| a.deep_view())
                        =~= selected.deep_view());
                }
                PublicPresence {
                    availability: "known",
                    stale: runtime.freshness == PresenceFreshness::Stale,
                    status: Some(status_name(snapshot.data.status)),
                    client_status: Some(public_client_status(&snapshot.data.client_status)),
                    activities: public_activities(&selected),
                    spotify,
                    observed_at_unix_ms: Some(snapshot.observed_at_unix_ms),
                    revision: snapshot.revision,
                }
            }
        },
    }
}

/// A known public presence lists no display name twice.
pub proof fn law_public_activities_have_distinct_names(m: RuntimeModel)
    ensures
        forall|i: int, j: int|
            0 <= i < j < public_presence_spec(m).activities.len() ==> !names_match(
                NameMatch::AsciiCase,
                #[trigger] public_presence_spec(m).activities[i].name,
                #[trigger] public_presence_spec(m).activities[j].name,
            ),
{
    match m.presence {
        PresenceStateModel::Known(s) => {
            law_selection_is_distinct_and_preferred(
                NameMatch::AsciiCase,
                DuplicateRule::Newest,
                s.data.activities,
            );
        },
        PresenceStateModel::Unknown => {},
    }
}

/// Whether the service is ready: its gateway connection is live or a presence is known.
pub fn is_ready(runtime: &RuntimeState) -> (r: bool)
    ensures
        r == (runtime.gateway_status == GatewayStatus::Live || runtime.deep_view().presence is Known),
{
    runtime.gateway_status == GatewayStatus::Live || match &runtime.presence {
        PresenceState::Known(_) => true,
        PresenceState::Unknown => false,
    }
}

/// Whether a live stream that last sent the state of `last_sent` sends the state of
/// `stream_revision`: each stream revision is sent once.
pub fn presence_event_due(last_sent: Option<u64>, stream_revision: u64) -> (r: bool)
    ensures
        r == (last_sent != Some(stream_revision)),
{
    match last_sent {
        Some(sent) => sent != stream_revision,
        None => true,
    }
}

/// Whether a presence update is about the target user in the target guild.
pub fn is_target(user_id: u64, guild_id: u64, target_user_id: u64, target_guild_id: u64) -> (r: bool)
    ensures
        r == (user_id == target_user_id && guild_id == target_guild_id),
{
    user_id == target_user_id && guild_id == target_guild_id
}

} // verus!
