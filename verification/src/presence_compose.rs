//! Composition of the Discord presence with the native Spotify playback, which is
//! authoritative for what is being listened to.
use vstd::prelude::*;

use crate::activity::{is_spotify_activity, is_spotify_spec, simple_id_char};
use crate::spotify::{
    PlaybackModel, PlaybackStateModel, SpotifyPlayback, SpotifyPlaybackState, SpotifySnapshot,
    SpotifySnapshotModel,
};
use crate::state::{
    clone_opt_string, ActivityAssetsSnapshot, ActivityKind, ActivityModel, ActivitySnapshot,
    ActivityTimestampsSnapshot, AssetsModel, ClientStatusSnapshot, PresenceData,
    PresenceDataModel, PresenceFreshness, PresenceSnapshot, PresenceState, PresenceStateModel,
    PresenceStatus, RuntimeModel, RuntimeState, SnapshotModel,
};
use crate::text::{chars_of, has_prefix, is_alphanumeric_ascii, owned, push_chars, starts_with};

verus! {

/// How long a validated native Spotify snapshot stays authoritative.
pub const SPOTIFY_AUTHORITY_TTL_MS: u64 = 60_000;

/// 2^64, the modulus of revision arithmetic.
pub open spec fn revision_modulus() -> int {
    0x1_0000_0000_0000_0000
}

/// `base * 1_000_003 + spotify`, wrapping at 2^64.
pub open spec fn combined_spec(base: u64, spotify: u64) -> u64 {
    ((base * 1_000_003 + spotify) % revision_modulus()) as u64
}

pub open spec fn saturating_sub_spec(a: u64, b: u64) -> u64 {
    if a >= b {
        (a - b) as u64
    } else {
        0
    }
}

pub open spec fn saturating_add_spec(a: u64, b: u64) -> u64 {
    if a + b > u64::MAX {
        u64::MAX
    } else {
        (a + b) as u64
    }
}

/// The `spotify:<id>` asset for a Spotify CDN image URL whose id is non-empty and made
/// of ASCII letters, digits, `_` and `-`.
pub open spec fn cover_asset_spec(url: Seq<char>) -> Option<Seq<char>> {
    let prefix = "https://i.scdn.co/image/"@;
    let id = url.skip(prefix.len() as int);
    if has_prefix(url, prefix) && id.len() > 0 && forall|i: int|
        0 <= i < id.len() ==> simple_id_char(#[trigger] id[i]) {
        Some("spotify:"@ + id)
    } else {
        None
    }
}

/// The start and end of a playing track, derived from its progress at `observed`.
pub open spec fn native_timestamps_spec(p: PlaybackModel, observed: u64) -> Option<
    ActivityTimestampsSnapshot,
> {
    if p.is_playing && p.duration_ms > 0 {
        let start = saturating_sub_spec(observed, p.progress_ms);
        Some(
            ActivityTimestampsSnapshot {
                end: Some(saturating_add_spec(start, p.duration_ms)),
                start: Some(start),
            },
        )
    } else {
        None
    }
}

/// The listening activity that stands for a native Spotify playback.
pub open spec fn native_activity_spec(p: PlaybackModel, observed: u64) -> ActivityModel {
    ActivityModel {
        application_id: None,
        assets: Some(
            AssetsModel {
                large_image: match p.cover_url {
                    Some(u) => cover_asset_spec(u),
                    None => None,
                },
                large_text: p.album,
                small_image: None,
                small_text: None,
            },
        ),
        details: Some(p.title),
        kind: ActivityKind::Listening,
        name: "Spotify"@,
        party: None,
        state: if p.artists.len() > 0 {
            Some(p.artists)
        } else {
            None
        },
        timestamps: native_timestamps_spec(p, observed),
    }
}

/// The snapshot, if it was validated no longer than the authority window before `now`.
pub open spec fn fresh_spotify_spec(s: Option<SpotifySnapshotModel>, now: u64) -> Option<
    SpotifySnapshotModel,
> {
    match s {
        Some(x) => if saturating_sub_spec(now, x.validated_at_unix_ms) <= SPOTIFY_AUTHORITY_TTL_MS {
            Some(x)
        } else {
            None
        },
        None => None,
    }
}

/// The native activity of a fresh snapshot that plays a track.
pub open spec fn native_of_spec(fresh: Option<SpotifySnapshotModel>) -> Option<ActivityModel> {
    match fresh {
        Some(x) => match x.playback {
            PlaybackStateModel::Track(p) => if p.is_playing {
                Some(native_activity_spec(p, x.validated_at_unix_ms))
            } else {
                None
            },
            PlaybackStateModel::Idle => None,
        },
        None => None,
    }
}

/// The activities that are not Discord's Spotify activity, in their order.
pub open spec fn without_spotify(acts: Seq<ActivityModel>) -> Seq<ActivityModel>
    decreases acts.len(),
{
    if acts.len() == 0 {
        Seq::empty()
    } else {
        let rest = without_spotify(acts.drop_last());
        if is_spotify_spec(acts.last()) {
            rest
        } else {
            rest.push(acts.last())
        }
    }
}

pub open spec fn no_client_status() -> ClientStatusSnapshot {
    ClientStatusSnapshot { desktop: None, mobile: None, web: None }
}

/// A fresh presence that shows only the native track, as an offline user.
pub open spec fn spotify_only_spec(base: RuntimeModel, a: ActivityModel, s: SpotifySnapshotModel) -> RuntimeModel {
    let revision = combined_spec(base.stream_revision, s.revision);
    RuntimeModel {
        freshness: PresenceFreshness::Fresh,
        gateway_status: base.gateway_status,
        last_target_event_unix_ms: base.last_target_event_unix_ms,
        presence: PresenceStateModel::Known(
            SnapshotModel {
                data: PresenceDataModel {
                    activities: seq![a],
                    client_status: no_client_status(),
                    status: PresenceStatus::Offline,
                },
                observed_at_unix_ms: s.validated_at_unix_ms,
                revision,
            },
        ),
        stream_revision: revision,
        unvalidated_since_unix_ms: base.unvalidated_since_unix_ms,
    }
}

/// The known presence with Discord's Spotify activities replaced by the native one.
pub open spec fn merged_spec(base: RuntimeModel, s: SnapshotModel, fresh: Option<SpotifySnapshotModel>) -> RuntimeModel {
    let kept = without_spotify(s.data.activities);
    let activities = match native_of_spec(fresh) {
        Some(a) => kept.push(a),
        None => kept,
    };
    let spotify_revision = match fresh {
        Some(f) => f.revision,
        None => 0,
    };
    let spotify_observed = match fresh {
        Some(f) => f.validated_at_unix_ms,
        None => 0,
    };
    RuntimeModel {
        freshness: base.freshness,
        gateway_status: base.gateway_status,
        last_target_event_unix_ms: base.last_target_event_unix_ms,
        presence: PresenceStateModel::Known(
            SnapshotModel {
                data: PresenceDataModel {
                    activities,
                    client_status: s.data.client_status,
                    status: s.data.status,
                },
                observed_at_unix_ms: if s.observed_at_unix_ms >= spotify_observed {
                    s.observed_at_unix_ms
                } else {
                    spotify_observed
                },
                revision: combined_spec(s.revision, spotify_revision),
            },
        ),
        stream_revision: combined_spec(base.stream_revision, spotify_revision),
        unvalidated_since_unix_ms: base.unvalidated_since_unix_ms,
    }
}

/// The known, unavailable presence with Discord's Spotify activities removed.
pub open spec fn hidden_spotify_spec(base: RuntimeModel, s: SnapshotModel) -> RuntimeModel {
    RuntimeModel {
        freshness: base.freshness,
        gateway_status: base.gateway_status,
        last_target_event_unix_ms: base.last_target_event_unix_ms,
        presence: PresenceStateModel::Known(
            SnapshotModel {
                data: PresenceDataModel {
                    activities: without_spotify(s.data.activities),
                    client_status: s.data.client_status,
                    status: s.data.status,
                },
                observed_at_unix_ms: s.observed_at_unix_ms,
                revision: s.revision,
            },
        ),
        stream_revision: base.stream_revision,
        unvalidated_since_unix_ms: base.unvalidated_since_unix_ms,
    }
}

/// The presented runtime state: the Discord presence with native Spotify as the only
/// source of listening activity.
pub open spec fn compose_spec(base: RuntimeModel, spotify: Option<SpotifySnapshotModel>, now: u64) -> RuntimeModel {
    let fresh = fresh_spotify_spec(spotify, now);
    match base.presence {
        PresenceStateModel::Known(s) => if base.freshness != PresenceFreshness::Unavailable {
            merged_spec(base, s, fresh)
        } else {
            match native_of_spec(fresh) {
                Some(a) => spotify_only_spec(base, a, fresh->0),
                None => hidden_spotify_spec(base, s),
            }
        },
        PresenceStateModel::Unknown => match native_of_spec(fresh) {
            Some(a) => spotify_only_spec(base, a, fresh->0),
            None => base,
        },
    }
}

/// Combines a presence revision with the Spotify revision, wrapping.
pub fn combined_revision(base: u64, spotify: u64) -> (r: u64)
    ensures
        r == combined_spec(base, spotify),
{
    let product = base.wrapping_mul(1_000_003);
    let r = product.wrapping_add(spotify);
    proof {
        let m = revision_modulus();
        let x = base * 1_000_003;
        assert(product == x % m);
        vstd::arithmetic::div_mod::lemma_add_mod_noop(x, spotify as int, m);
        vstd::arithmetic::div_mod::lemma_small_mod(spotify as nat, m as nat);
        let s = product + spotify;
        assert(s % m == if s >= m { s - m } else { s }) by (nonlinear_arith)
            requires
                0 <= s < 2 * m,
                m == revision_modulus(),
        {
            if s >= m {
                vstd::arithmetic::div_mod::lemma_fundamental_div_mod(s, m);
            }
        }
    }
    r
}

/// The `spotify:<id>` asset for a Spotify CDN cover URL, if the URL is one.
pub fn spotify_cover_asset(url: &str) -> (r: Option<String>)
    ensures
        r.deep_view() == cover_asset_spec(url@),
{
    let prefix = "https://i.scdn.co/image/";
    proof {
        reveal_strlit("https://i.scdn.co/image/");
    }
    if !starts_with(url, prefix) {
        return None;
    }
    let chars = chars_of(url);
    let n = chars.len();
    let start: usize = 24;
    let ghost id = url@.skip(24);
    if n == start {
        return None;
    }
    let mut i = start;
    while i < n
        invariant
            start <= i <= n,
            n == chars@.len(),
            chars@ == url@,
            id == url@.skip(24),
            start == 24,
            forall|k: int| 0 <= k < i - start ==> simple_id_char(#[trigger] id[k]),
        decreases n - i,
    {
        let c = chars[i];
        if !(is_alphanumeric_ascii(c) || c == '_' || c == '-') {
            proof {
                assert(id.len() == n - 24);
                assert(id[i - start] == chars@[i as int]);
                assert(!simple_id_char(id[i - start]));
                reveal_strlit("https://i.scdn.co/image/");
            }
            return None;
        }
        i = i + 1;
    }
    let mut r = owned("spotify:");
    push_chars(&mut r, &chars, start, n);
    proof {
        assert(chars@.subrange(24, n as int) == id);
    }
    Some(r)
}

/// The listening activity that stands for a native Spotify playback.
pub fn native_spotify_activity(playback: &SpotifyPlayback, observed_at_unix_ms: u64) -> (r:
    ActivitySnapshot)
    ensures
        r.deep_view() == native_activity_spec(playback.deep_view(), observed_at_unix_ms),
{
    let timestamps = if playback.is_playing && playback.duration_ms > 0 {
        let start = observed_at_unix_ms.saturating_sub(playback.progress_ms);
        Some(
            ActivityTimestampsSnapshot {
                end: Some(start.saturating_add(playback.duration_ms)),
                start: Some(start),
            },
        )
    } else {
        None
    };
    let large_image = match &playback.cover_url {
        Some(u) => spotify_cover_asset(u.as_str()),
        None => None,
    };
    let state = if playback.artists.as_str().is_empty() {
        None
    } else {
        Some(owned(playback.artists.as_str()))
    };
    ActivitySnapshot {
        application_id: None,
        assets: Some(
            ActivityAssetsSnapshot {
                large_image,
                large_text: clone_opt_string(&playback.album),
                small_image: None,
                small_text: None,
            },
        ),
        details: Some(owned(playback.title.as_str())),
        kind: ActivityKind::Listening,
        name: owned("Spotify"),
        party: None,
        state,
        timestamps,
    }
}

/// Copies the activities that are not Discord's Spotify activity.
pub fn retain_non_spotify(activities: &Vec<ActivitySnapshot>) -> (r: Vec<ActivitySnapshot>)
    ensures
        r.deep_view() == without_spotify(activities.deep_view()),
{
    let ghost all = activities.deep_view();
    let mut r: Vec<ActivitySnapshot> = Vec::new();
    let mut i: usize = 0;
    while i < activities.len()
        invariant
            i <= activities@.len(),
            all == activities.deep_view(),
            r.deep_view() == without_spotify(all.take(i as int)),
        decreases activities.len() - i,
    {
        proof {
            assert(all.take(i + 1).drop_last() == all.take(i as int));
            assert(all.take(i + 1).last() == activities@[i as int].deep_view());
        }
        if !is_spotify_activity(&activities[i]) {
            let ghost before = r.deep_view();
            r.push(activities[i].clone());
            proof {
                assert(r.deep_view() =~= before.push(activities@[i as int].deep_view()));
            }
        }
        i = i + 1;
    }
    proof {
        assert(all.take(activities@.len() as int) == all);
    }
    r
}

fn spotify_only(base: &RuntimeState, activity: ActivitySnapshot, spotify: &SpotifySnapshot) -> (r:
    RuntimeState)
    ensures
        r.deep_view() == spotify_only_spec(
            base.deep_view(),
            activity.deep_view(),
            spotify.deep_view(),
        ),
{
    let revision = combined_revision(base.stream_revision, spotify.revision);
    let mut activities: Vec<ActivitySnapshot> = Vec::new();
    let ghost a = activity.deep_view();
    activities.push(activity);
    proof {
        assert(activities.deep_view() =~= seq![a]);
    }
    RuntimeState {
        freshness: PresenceFreshness::Fresh,
        gateway_status: base.gateway_status,
        last_target_event_unix_ms: base.last_target_event_unix_ms,
        presence: PresenceState::Known(
            PresenceSnapshot {
                data: PresenceData {
                    activities,
                    client_status: ClientStatusSnapshot { desktop: None, mobile: None, web: None },
                    status: PresenceStatus::Offline,
                },
                observed_at_unix_ms: spotify.validated_at_unix_ms,
                revision,
            },
        ),
        stream_revision: revision,
        unvalidated_since_unix_ms: base.unvalidated_since_unix_ms,
    }
}

/// The presented runtime state: the Discord presence with native Spotify as the only
/// source of listening activity. A Spotify snapshot counts only within the authority
/// window after its validation, and only a playing track is shown.
pub fn compose_presence(base: &RuntimeState, spotify: Option<&SpotifySnapshot>, now_unix_ms: u64) -> (r:
    RuntimeState)
    ensures
        r.deep_view() == compose_spec(base.deep_view(), spotify.deep_view(), now_unix_ms),
{
    let fresh: Option<&SpotifySnapshot> = match spotify {
        Some(s) => if now_unix_ms.saturating_sub(s.validated_at_unix_ms) <= SPOTIFY_AUTHORITY_TTL_MS {
            Some(s)
        } else {
            None
        },
        None => None,
    };
    assert(fresh.deep_view() == fresh_spotify_spec(spotify.deep_view(), now_unix_ms));
    let native: Option<ActivitySnapshot> = match fresh {
        Some(s) => match &s.playback {
            SpotifyPlaybackState::Track(p) => if p.is_playing {
                Some(native_spotify_activity(p, s.validated_at_unix_ms))
            } else {
                None
            },
            SpotifyPlaybackState::Idle => None,
        },
        None => None,
    };
    assert(native.deep_view() == native_of_spec(fresh.deep_view()));
    match &base.presence {
        PresenceState::Known(snapshot) => {
            if base.freshness != PresenceFreshness::Unavailable {
                let mut activities = retain_non_spotify(&snapshot.data.activities);
                let ghost kept = activities.deep_view();
                match native {
                    Some(a) => {
                        let ghost am = a.deep_view();
                        activities.push(a);
                        proof {
                            assert(activities.deep_view() =~= kept.push(am));
                        }
                    },
                    None => {},
                }
                let (spotify_revision, spotify_observed) = match fresh {
                    Some(s) => (s.revision, s.validated_at_unix_ms),
                    None => (0, 0),
                };
                let observed = if snapshot.observed_at_unix_ms >= spotify_observed {
                    snapshot.observed_at_unix_ms
                } else {
                    spotify_observed
                };
                RuntimeState {
                    freshness: base.freshness,
                    gateway_status: base.gateway_status,
                    last_target_event_unix_ms: base.last_target_event_unix_ms,
                    presence: PresenceState::Known(
                        PresenceSnapshot {
                            data: PresenceData {
                                activities,
                                client_status: snapshot.data.client_status,
                                status: snapshot.data.status,
                            },
                            observed_at_unix_ms: observed,
                            revision: combined_revision(snapshot.revision, spotify_revision),
                        },
                    ),
                    stream_revision: combined_revision(base.stream_revision, spotify_revision),
                    unvalidated_since_unix_ms: base.unvalidated_since_unix_ms,
                }
            } else {
                match native {
                    Some(a) => spotify_only(base, a, fresh.unwrap()),
                    None => RuntimeState {
                        freshness: base.freshness,
                        gateway_status: base.gateway_status,
                        last_target_event_unix_ms: base.last_target_event_unix_ms,
                        presence: PresenceState::Known(
                            PresenceSnapshot {
                                data: PresenceData {
                                    activities: retain_non_spotify(&snapshot.data.activities),
                                    client_status: snapshot.data.client_status,
                                    status: snapshot.data.status,
                                },
                                observed_at_unix_ms: snapshot.observed_at_unix_ms,
                                revision: snapshot.revision,
                            },
                        ),
                        stream_revision: base.stream_revision,
                        unvalidated_since_unix_ms: base.unvalidated_since_unix_ms,
                    },
                }
            }
        },
        PresenceState::Unknown => match native {
            Some(a) => spotify_only(base, a, fresh.unwrap()),
            None => base.clone(),
        },
    }
}

/// No activity that `without_spotify` keeps is a Spotify activity.
pub proof fn lemma_without_spotify_has_none(acts: Seq<ActivityModel>)
    ensures
        forall|i: int|
            0 <= i < without_spotify(acts).len() ==> !is_spotify_spec(
                #[trigger] without_spotify(acts)[i],
            ),
        without_spotify(acts).len() <= acts.len(),
    decreases acts.len(),
{
    if acts.len() > 0 {
        lemma_without_spotify_has_none(acts.drop_last());
    }
}

/// The presented activities hold at most one Spotify activity: the last one, which is
/// the native playback's activity. Discord's own Spotify activity is never presented.
pub proof fn law_native_spotify_is_authoritative(
    base: RuntimeModel,
    spotify: Option<SpotifySnapshotModel>,
    now: u64,
)
    ensures
        compose_spec(base, spotify, now).presence matches PresenceStateModel::Known(s) ==> forall|i: int|
            0 <= i < s.data.activities.len() && is_spotify_spec(#[trigger] s.data.activities[i])
                ==> i == s.data.activities.len() - 1 && native_of_spec(
                fresh_spotify_spec(spotify, now),
            ) == Some(s.data.activities[i]),
{
    match base.presence {
        PresenceStateModel::Known(s) => lemma_without_spotify_has_none(s.data.activities),
        PresenceStateModel::Unknown => {},
    }
}

/// A Spotify snapshot validated longer ago than the authority window counts as absent.
pub proof fn law_stale_spotify_is_absent(base: RuntimeModel, spotify: SpotifySnapshotModel, now: u64)
    requires
        saturating_sub_spec(now, spotify.validated_at_unix_ms) > SPOTIFY_AUTHORITY_TTL_MS,
    ensures
        compose_spec(base, Some(spotify), now) == compose_spec(base, None, now),
{
}

/// A fresh playing track stays visible when Discord's presence is unknown or unavailable:
/// the result is fresh and shows exactly the native activity.
pub proof fn law_native_track_survives_discord_outage(
    base: RuntimeModel,
    spotify: SpotifySnapshotModel,
    now: u64,
)
    requires
        base.presence is Unknown || base.freshness == PresenceFreshness::Unavailable,
        native_of_spec(fresh_spotify_spec(Some(spotify), now)) is Some,
    ensures
        compose_spec(base, Some(spotify), now).freshness == PresenceFreshness::Fresh,
        compose_spec(base, Some(spotify), now).presence == PresenceStateModel::Known(
            SnapshotModel {
                data: PresenceDataModel {
                    activities: seq![native_of_spec(fresh_spotify_spec(Some(spotify), now))->0],
                    client_status: no_client_status(),
                    status: PresenceStatus::Offline,
                },
                observed_at_unix_ms: spotify.validated_at_unix_ms,
                revision: combined_spec(base.stream_revision, spotify.revision),
            },
        ),
{
}

/// Without a fresh playing track, an unknown presence is passed through unchanged.
pub proof fn law_unknown_without_track_is_unchanged(
    base: RuntimeModel,
    spotify: Option<SpotifySnapshotModel>,
    now: u64,
)
    requires
        base.presence is Unknown,
        native_of_spec(fresh_spotify_spec(spotify, now)) is None,
    ensures
        compose_spec(base, spotify, now) == base,
{
}

} // verus!
