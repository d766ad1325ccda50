//! Native Spotify playback: the playback model, the store that revisions it, the idle
//! debouncer, the restart restore rule and the reduction of the provider payload.
use vstd::prelude::*;
use vstd::string::StringSliceAdditionalSpecFns;

use crate::state::{clone_opt_string, same_opt_string};
use crate::text::{
    non_empty_spec, owned, push_char, push_str, trim, trim_spec,
};

verus! {

pub const IDLE_CONFIRMATION_POLLS: u8 = 2;

pub const ACTIVE_TRACK_GRACE_MS: u64 = 15_000;

#[derive(Debug, PartialEq, Eq)]
pub struct SpotifyPlayback {
    pub album: Option<String>,
    pub artists: String,
    pub cover_url: Option<String>,
    pub duration_ms: u64,
    pub is_playing: bool,
    pub progress_ms: u64,
    pub title: String,
    pub track_id: Option<String>,
}

/// The value of a `SpotifyPlayback`.
pub struct PlaybackModel {
    pub album: Option<Seq<char>>,
    pub artists: Seq<char>,
    pub cover_url: Option<Seq<char>>,
    pub duration_ms: u64,
    pub is_playing: bool,
    pub progress_ms: u64,
    pub title: Seq<char>,
    pub track_id: Option<Seq<char>>,
}

impl DeepView for SpotifyPlayback {
    type V = PlaybackModel;

    open spec fn deep_view(&self) -> PlaybackModel {
        PlaybackModel {
            album: self.album.deep_view(),
            artists: self.artists@,
            cover_url: self.cover_url.deep_view(),
            duration_ms: self.duration_ms,
            is_playing: self.is_playing,
            progress_ms: self.progress_ms,
            title: self.title@,
            track_id: self.track_id.deep_view(),
        }
    }
}

#[derive(Debug, PartialEq, Eq)]
pub enum SpotifyPlaybackState {
    Idle,
    Track(SpotifyPlayback),
}

/// The value of a `SpotifyPlaybackState`.
pub enum PlaybackStateModel {
    Idle,
    Track(PlaybackModel),
}

impl DeepView for SpotifyPlaybackState {
    type V = PlaybackStateModel;

    open spec fn deep_view(&self) -> PlaybackStateModel {
        match self {
            SpotifyPlaybackState::Idle => PlaybackStateModel::Idle,
            SpotifyPlaybackState::Track(p) => PlaybackStateModel::Track(p.deep_view()),
        }
    }
}

#[derive(Debug, PartialEq, Eq)]
pub struct SpotifySnapshot {
    pub playback: SpotifyPlaybackState,
    pub revision: u64,
    pub validated_at_unix_ms: u64,
}

/// The value of a `SpotifySnapshot`.
pub struct SpotifySnapshotModel {
    pub playback: PlaybackStateModel,
    pub revision: u64,
    pub validated_at_unix_ms: u64,
}

impl DeepView for SpotifySnapshot {
    type V = SpotifySnapshotModel;

    open spec fn deep_view(&self) -> SpotifySnapshotModel {
        SpotifySnapshotModel {
            playback: self.playback.deep_view(),
            revision: self.revision,
            validated_at_unix_ms: self.validated_at_unix_ms,
        }
    }
}

impl Clone for SpotifyPlayback {
    fn clone(&self) -> (r: Self)
        ensures
            r.deep_view() == self.deep_view(),
    {
        SpotifyPlayback {
            album: clone_opt_string(&self.album),
            artists: owned(self.artists.as_str()),
            cover_url: clone_opt_string(&self.cover_url),
            duration_ms: self.duration_ms,
            is_playing: self.is_playing,
            progress_ms: self.progress_ms,
            title: owned(self.title.as_str()),
            track_id: clone_opt_string(&self.track_id),
        }
    }
}

impl Clone for SpotifyPlaybackState {
    fn clone(&self) -> (r: Self)
        ensures
            r.deep_view() == self.deep_view(),
    {
        match self {
            SpotifyPlaybackState::Idle => SpotifyPlaybackState::Idle,
            SpotifyPlaybackState::Track(p) => SpotifyPlaybackState::Track(p.clone()),
        }
    }
}

impl Clone for SpotifySnapshot {
    fn clone(&self) -> (r: Self)
        ensures
            r.deep_view() == self.deep_view(),
    {
        SpotifySnapshot {
            playback: self.playback.clone(),
            revision: self.revision,
            validated_at_unix_ms: self.validated_at_unix_ms,
        }
    }
}

pub fn same_playback(a: &SpotifyPlayback, b: &SpotifyPlayback) -> (r: bool)
    ensures
        r == (a.deep_view() == b.deep_view()),
{
    same_opt_string(&a.album, &b.album) && a.artists == b.artists && same_opt_string(
        &a.cover_url,
        &b.cover_url,
    ) && a.duration_ms == b.duration_ms && a.is_playing == b.is_playing && a.progress_ms
        == b.progress_ms && a.title == b.title && same_opt_string(&a.track_id, &b.track_id)
}

pub fn same_playback_state(a: &SpotifyPlaybackState, b: &SpotifyPlaybackState) -> (r: bool)
    ensures
        r == (a.deep_view() == b.deep_view()),
{
    match (a, b) {
        (SpotifyPlaybackState::Idle, SpotifyPlaybackState::Idle) => true,
        (SpotifyPlaybackState::Track(x), SpotifyPlaybackState::Track(y)) => same_playback(x, y),
        _ => false,
    }
}

/// The snapshot after a validated observation: the revision advances only when the
/// playback changed (saturating), and the first observation has revision 1.
pub open spec fn spotify_publish_spec(
    current: Option<SpotifySnapshotModel>,
    playback: PlaybackStateModel,
    validated: u64,
) -> (SpotifySnapshotModel, bool) {
    let revision = match current {
        Some(c) => if c.playback == playback {
            c.revision
        } else if c.revision == u64::MAX {
            u64::MAX
        } else {
            (c.revision + 1) as u64
        },
        None => 1,
    };
    let changed = match current {
        Some(c) => c.playback != playback,
        None => true,
    };
    (SpotifySnapshotModel { playback, revision, validated_at_unix_ms: validated }, changed)
}

/// The latest validated native Spotify playback.
pub struct SpotifyStore {
    current: Option<SpotifySnapshot>,
}

impl SpotifyStore {
    pub closed spec fn snapshot(&self) -> Option<SpotifySnapshotModel> {
        self.current.deep_view()
    }

    pub fn new() -> (r: Self)
        ensures
            r.snapshot() is None,
    {
        SpotifyStore { current: None }
    }

    /// A copy of the current snapshot, if any.
    pub fn load(&self) -> (r: Option<SpotifySnapshot>)
        ensures
            r.deep_view() == self.snapshot(),
    {
        match &self.current {
            Some(s) => Some(s.clone()),
            None => None,
        }
    }

    /// Installs a snapshot restored from disk, with its revision.
    pub fn restore(&mut self, snapshot: SpotifySnapshot)
        ensures
            final(self).snapshot() == Some(snapshot.deep_view()),
    {
        self.current = Some(snapshot);
    }

    /// Records a validated observation; returns whether the playback changed.
    pub fn publish(&mut self, playback: SpotifyPlaybackState, validated_at_unix_ms: u64) -> (r:
        bool)
        ensures
            (final(self).snapshot()->0, r) == spotify_publish_spec(
                old(self).snapshot(),
                playback.deep_view(),
                validated_at_unix_ms,
            ),
            final(self).snapshot() is Some,
    {
        let (revision, changed) = match &self.current {
            Some(current) => if same_playback_state(&current.playback, &playback) {
                (current.revision, false)
            } else {
                (current.revision.saturating_add(1), true)
            },
            None => (1, true),
        };
        self.current = Some(SpotifySnapshot { playback, revision, validated_at_unix_ms });
        changed
    }
}

/// Suppresses a single idle poll while a track is active.
pub struct PlaybackDebouncer {
    pub consecutive_idle: u8,
    pub has_active_track: bool,
}

/// The debouncer's answer to one observation: what to publish, if anything, and its next state.
pub open spec fn observe_spec(idle: u8, active: bool, playback: PlaybackStateModel) -> (
    Option<PlaybackStateModel>,
    u8,
    bool,
) {
    match playback {
        PlaybackStateModel::Track(_) => (Some(playback), 0, true),
        PlaybackStateModel::Idle => if !active {
            (Some(PlaybackStateModel::Idle), 0, false)
        } else {
            let next = if idle == u8::MAX {
                u8::MAX
            } else {
                (idle + 1) as u8
            };
            if next >= 2 {
                (Some(PlaybackStateModel::Idle), 0, false)
            } else {
                (None, next, true)
            }
        },
    }
}

impl PlaybackDebouncer {
    pub fn new() -> (r: Self)
        ensures
            r.consecutive_idle == 0,
            !r.has_active_track,
    {
        PlaybackDebouncer { consecutive_idle: 0, has_active_track: false }
    }

    /// Passes tracks through at once and idles only after two idle polls in a row
    /// while a track was active.
    pub fn observe(&mut self, playback: SpotifyPlaybackState) -> (r: Option<SpotifyPlaybackState>)
        ensures
            (r.deep_view(), final(self).consecutive_idle, final(self).has_active_track)
                == observe_spec(
                old(self).consecutive_idle,
                old(self).has_active_track,
                playback.deep_view(),
            ),
    {
        match playback {
            SpotifyPlaybackState::Track(_) => {
                self.consecutive_idle = 0;
                self.has_active_track = true;
                Some(playback)
            },
            SpotifyPlaybackState::Idle => {
                if !self.has_active_track {
                    self.consecutive_idle = 0;
                    Some(SpotifyPlaybackState::Idle)
                } else {
                    self.consecutive_idle = self.consecutive_idle.saturating_add(1);
                    if self.consecutive_idle >= IDLE_CONFIRMATION_POLLS {
                        self.consecutive_idle = 0;
                        self.has_active_track = false;
                        Some(SpotifyPlaybackState::Idle)
                    } else {
                        None
                    }
                }
            },
        }
    }
}

/// A persisted playing track moved forward to `now`, or nothing when it is not playing,
/// has no length, or ended (with a grace period) before `now`.
pub open spec fn advance_spec(s: SpotifySnapshotModel, now: u64) -> Option<SpotifySnapshotModel> {
    match s.playback {
        PlaybackStateModel::Idle => None,
        PlaybackStateModel::Track(t) => {
            let elapsed = if now >= s.validated_at_unix_ms {
                now - s.validated_at_unix_ms
            } else {
                0
            };
            let remaining = if t.duration_ms >= t.progress_ms {
                t.duration_ms - t.progress_ms
            } else {
                0
            };
            if !t.is_playing || t.duration_ms == 0 || elapsed > remaining + ACTIVE_TRACK_GRACE_MS {
                None
            } else {
                let progressed = if t.progress_ms + elapsed > u64::MAX {
                    u64::MAX as int
                } else {
                    t.progress_ms + elapsed
                };
                let progress = if progressed < t.duration_ms {
                    progressed
                } else {
                    t.duration_ms as int
                };
                Some(
                    SpotifySnapshotModel {
                        playback: PlaybackStateModel::Track(
                            PlaybackModel { progress_ms: progress as u64, ..t },
                        ),
                        validated_at_unix_ms: now,
                        ..s
                    },
                )
            }
        },
    }
}

/// Moves a persisted playing track forward across a restart, or drops it when it ended.
pub fn advance_active_snapshot(snapshot: SpotifySnapshot, now_unix_ms: u64) -> (r: Option<
    SpotifySnapshot,
>)
    ensures
        r.deep_view() == advance_spec(snapshot.deep_view(), now_unix_ms),
{
    let SpotifySnapshot { playback, revision, validated_at_unix_ms } = snapshot;
    match playback {
        SpotifyPlaybackState::Idle => None,
        SpotifyPlaybackState::Track(mut track) => {
            if !track.is_playing || track.duration_ms == 0 {
                return None;
            }
            let elapsed = now_unix_ms.saturating_sub(validated_at_unix_ms);
            let remaining = track.duration_ms.saturating_sub(track.progress_ms);
            if elapsed > remaining.saturating_add(ACTIVE_TRACK_GRACE_MS) {
                return None;
            }
            let progressed = track.progress_ms.saturating_add(elapsed);
            track.progress_ms = if progressed < track.duration_ms {
                progressed
            } else {
                track.duration_ms
            };
            Some(
                SpotifySnapshot {
                    playback: SpotifyPlaybackState::Track(track),
                    revision,
                    validated_at_unix_ms: now_unix_ms,
                },
            )
        },
    }
}

/// Two playbacks are the same track when both carry the same track id, or, without
/// ids on both, when title, artists and duration agree.
pub open spec fn same_track_spec(a: PlaybackModel, b: PlaybackModel) -> bool {
    match (a.track_id, b.track_id) {
        (Some(x), Some(y)) => x == y,
        _ => a.title == b.title && a.artists == b.artists && a.duration_ms == b.duration_ms,
    }
}

pub fn same_track_identity(left: &SpotifyPlayback, right: &SpotifyPlayback) -> (r: bool)
    ensures
        r == same_track_spec(left.deep_view(), right.deep_view()),
{
    match (&left.track_id, &right.track_id) {
        (Some(a), Some(b)) => *a == *b,
        _ => left.title == right.title && left.artists == right.artists && left.duration_ms
            == right.duration_ms,
    }
}

/// A track observation is persisted when nothing or idle was stored, or another track was.
pub open spec fn should_persist_spec(
    current: Option<SpotifySnapshotModel>,
    next: PlaybackStateModel,
) -> bool {
    match next {
        PlaybackStateModel::Idle => false,
        PlaybackStateModel::Track(n) => match current {
            Some(c) => match c.playback {
                PlaybackStateModel::Track(t) => !same_track_spec(t, n),
                PlaybackStateModel::Idle => true,
            },
            None => true,
        },
    }
}

pub fn should_persist_track(current: Option<&SpotifySnapshot>, next: &SpotifyPlaybackState) -> (r:
    bool)
    ensures
        r == should_persist_spec(
            match current {
                Some(c) => Some(c.deep_view()),
                None => None,
            },
            next.deep_view(),
        ),
{
    let next = match next {
        SpotifyPlaybackState::Idle => return false,
        SpotifyPlaybackState::Track(n) => n,
    };
    match current {
        Some(c) => match &c.playback {
            SpotifyPlaybackState::Track(t) => !same_track_identity(t, next),
            SpotifyPlaybackState::Idle => true,
        },
        None => true,
    }
}

/// An album image offered by the provider.
pub struct Image {
    pub height: Option<u64>,
    pub url: String,
    pub width: Option<u64>,
}

pub struct Album {
    pub images: Vec<Image>,
    pub name: String,
}

pub struct Artist {
    pub name: String,
}

/// The track item of a currently-playing response.
pub struct TrackItem {
    pub album: Option<Album>,
    pub artists: Vec<Artist>,
    pub duration_ms: u64,
    pub id: Option<String>,
    pub name: String,
}

/// A currently-playing response.
pub struct CurrentlyPlayingResponse {
    pub is_playing: bool,
    pub item: Option<TrackItem>,
    pub progress_ms: Option<u64>,
}

/// The area by which images are compared (saturating).
pub open spec fn image_area(w: Option<u64>, h: Option<u64>) -> u64 {
    let w = match w {
        Some(x) => x,
        None => 0,
    };
    let h = match h {
        Some(x) => x,
        None => 0,
    };
    if w * h > u64::MAX {
        u64::MAX
    } else {
        (w * h) as u64
    }
}

/// The index of the largest image, the last of several equally large ones.
pub open spec fn largest_image_from(areas: Seq<u64>, i: int, best: int) -> int
    decreases areas.len() - i,
{
    if i >= areas.len() || i < 0 {
        best
    } else if areas[i] >= areas[best] {
        largest_image_from(areas, i + 1, i)
    } else {
        largest_image_from(areas, i + 1, best)
    }
}

pub open spec fn image_areas(images: Seq<Image>) -> Seq<u64> {
    images.map_values(|im: Image| image_area(im.width, im.height))
}

/// The URL of the largest image, if there is any image.
pub open spec fn cover_url_spec(images: Seq<Image>) -> Option<Seq<char>> {
    if images.len() == 0 {
        None
    } else {
        Some(images[largest_image_from(image_areas(images), 1, 0)].url@)
    }
}

/// Whether the `j`-th of `areas` is at least as large as every other, and larger than
/// every later one.
pub open spec fn last_largest(areas: Seq<u64>, j: int) -> bool {
    &&& 0 <= j < areas.len()
    &&& forall|k: int| 0 <= k < areas.len() ==> #[trigger] areas[k] <= areas[j]
    &&& forall|k: int| j < k < areas.len() ==> #[trigger] areas[k] < areas[j]
}

proof fn lemma_largest_image_from(areas: Seq<u64>, i: int, best: int)
    requires
        0 <= best < i <= areas.len(),
        forall|k: int| 0 <= k < i ==> #[trigger] areas[k] <= areas[best],
        forall|k: int| best < k < i ==> #[trigger] areas[k] < areas[best],
    ensures
        last_largest(areas, largest_image_from(areas, i, best)),
    decreases areas.len() - i,
{
    if i < areas.len() {
        if areas[i] >= areas[best] {
            lemma_largest_image_from(areas, i + 1, i);
        } else {
            lemma_largest_image_from(areas, i + 1, best);
        }
    }
}

/// The cover is the URL of the album's largest image, by width times height (saturating,
/// a missing side counted as zero); of several equally large images, the last. An album
/// without images has no cover.
pub proof fn law_cover_is_the_largest_image(images: Seq<Image>)
    ensures
        images.len() == 0 ==> cover_url_spec(images) is None,
        images.len() > 0 ==> exists|j: int|
            last_largest(image_areas(images), j) && cover_url_spec(images) == Some(#[trigger] images[j].url@),
        forall|k: int| 0 <= k < images.len() ==> #[trigger] image_areas(images)[k] == image_area(images[k].width, images[k].height),
{
    if images.len() > 0 {
        let areas = image_areas(images);
        lemma_largest_image_from(areas, 1, 0);
        let j = largest_image_from(areas, 1, 0);
        assert(last_largest(areas, j) && cover_url_spec(images) == Some(images[j].url@));
    }
}

/// Joins the parts with `sep` between them.
pub open spec fn join_spec(parts: Seq<Seq<char>>, sep: Seq<char>) -> Seq<char>
    decreases parts.len(),
{
    if parts.len() == 0 {
        Seq::empty()
    } else if parts.len() == 1 {
        parts[0]
    } else {
        join_spec(parts.drop_last(), sep) + sep + parts.last()
    }
}

/// The trimmed artist names that are not empty, in order.
pub open spec fn artist_names(artists: Seq<Artist>) -> Seq<Seq<char>>
    decreases artists.len(),
{
    if artists.len() == 0 {
        Seq::empty()
    } else {
        let rest = artist_names(artists.drop_last());
        let t = trim_spec(artists.last().name@);
        if t.len() > 0 {
            rest.push(t)
        } else {
            rest
        }
    }
}

/// The playback that a provider track item describes.
pub open spec fn track_playback_spec(item: TrackItem, is_playing: bool, progress: u64) -> PlaybackModel {
    PlaybackModel {
        album: match item.album {
            Some(a) => if trim_spec(a.name@).len() > 0 {
                Some(trim_spec(a.name@))
            } else {
                None
            },
            None => None,
        },
        artists: join_spec(artist_names(item.artists@), ", "@),
        cover_url: match item.album {
            Some(a) => cover_url_spec(a.images@),
            None => None,
        },
        duration_ms: item.duration_ms,
        is_playing,
        progress_ms: if progress < item.duration_ms {
            progress
        } else {
            item.duration_ms
        },
        title: trim_spec(item.name@),
        track_id: item.id.deep_view(),
    }
}

fn image_area_of(im: &Image) -> (r: u64)
    ensures
        r == image_area(im.width, im.height),
{
    let w = match im.width {
        Some(x) => x,
        None => 0,
    };
    let h = match im.height {
        Some(x) => x,
        None => 0,
    };
    match w.checked_mul(h) {
        Some(p) => p,
        None => u64::MAX,
    }
}

/// The URL of the largest image, the last of several equally large ones.
fn cover_url(images: &Vec<Image>) -> (r: Option<String>)
    ensures
        r.deep_view() == cover_url_spec(images@),
{
    if images.len() == 0 {
        return None;
    }
    let ghost areas = image_areas(images@);
    let mut best: usize = 0;
    let mut best_area = image_area_of(&images[0]);
    let mut i: usize = 1;
    while i < images.len()
        invariant
            1 <= i <= images@.len(),
            best < i,
            areas == image_areas(images@),
            best_area == areas[best as int],
            largest_image_from(areas, 1, 0) == largest_image_from(areas, i as int, best as int),
        decreases images.len() - i,
    {
        let a = image_area_of(&images[i]);
        if a >= best_area {
            best = i;
            best_area = a;
        }
        i = i + 1;
    }
    Some(owned(images[best].url.as_str()))
}

proof fn lemma_artist_names_step(artists: Seq<Artist>, i: int)
    requires
        0 <= i < artists.len(),
    ensures
        artist_names(artists.take(i + 1)) == if trim_spec(artists[i].name@).len() > 0 {
            artist_names(artists.take(i)).push(trim_spec(artists[i].name@))
        } else {
            artist_names(artists.take(i))
        },
{
    assert(artists.take(i + 1).drop_last() == artists.take(i));
}

/// The trimmed, non-empty artist names joined with ", ".
fn join_artists(artists: &Vec<Artist>) -> (r: String)
    ensures
        r@ == join_spec(artist_names(artists@), ", "@),
{
    let mut r = String::new();
    let mut count: usize = 0;
    let mut i: usize = 0;
    while i < artists.len()
        invariant
            i <= artists@.len(),
            count <= i,
            count == artist_names(artists@.take(i as int)).len(),
            r@ == join_spec(artist_names(artists@.take(i as int)), ", "@),
        decreases artists.len() - i,
    {
        let t = trim(artists[i].name.as_str());
        proof {
            lemma_artist_names_step(artists@, i as int);
        }
        if !t.as_str().is_empty() {
            let ghost names = artist_names(artists@.take(i as int));
            if count > 0 {
                push_str(&mut r, ", ");
            }
            push_str(&mut r, t.as_str());
            proof {
                let next = names.push(t@);
                assert(next.drop_last() == names);
                if count == 0 {
                    assert(next.len() == 1);
                    assert(r@ == t@);
                }
            }
            count = count + 1;
        }
        i = i + 1;
    }
    proof {
        assert(artists@.take(artists@.len() as int) == artists@);
    }
    r
}

/// The playback that a provider track item describes.
pub fn track_item_into_playback(item: TrackItem, is_playing: bool, progress_ms: u64) -> (r:
    SpotifyPlayback)
    ensures
        r.deep_view() == track_playback_spec(item, is_playing, progress_ms),
{
    let artists = join_artists(&item.artists);
    let (album, cover) = match &item.album {
        Some(a) => {
            let t = trim(a.name.as_str());
            let album = if t.as_str().is_empty() {
                None
            } else {
                Some(t)
            };
            (album, cover_url(&a.images))
        },
        None => (None, None),
    };
    SpotifyPlayback {
        album,
        artists,
        cover_url: cover,
        duration_ms: item.duration_ms,
        is_playing,
        progress_ms: if progress_ms < item.duration_ms {
            progress_ms
        } else {
            item.duration_ms
        },
        title: trim(item.name.as_str()),
        track_id: clone_opt_string(&item.id),
    }
}

impl CurrentlyPlayingResponse {
    /// A playing item becomes a track; anything else is idle.
    pub fn into_playback(self) -> (r: SpotifyPlaybackState)
        ensures
            r.deep_view() == (if self.is_playing && self.item is Some {
                PlaybackStateModel::Track(
                    track_playback_spec(
                        self.item->0,
                        true,
                        match self.progress_ms {
                            Some(p) => p,
                            None => 0,
                        },
                    ),
                )
            } else {
                PlaybackStateModel::Idle
            }),
    {
        if !self.is_playing {
            return SpotifyPlaybackState::Idle;
        }
        let progress = match self.progress_ms {
            Some(p) => p,
            None => 0,
        };
        match self.item {
            Some(item) => SpotifyPlaybackState::Track(track_item_into_playback(item, true, progress)),
            None => SpotifyPlaybackState::Idle,
        }
    }
}

pub open spec fn unreserved(b: u8) -> bool {
    (0x30 <= b <= 0x39) || (0x41 <= b <= 0x5a) || (0x61 <= b <= 0x7a) || b == 0x2d || b == 0x2e
        || b == 0x5f || b == 0x7e
}

pub open spec fn hex_digit(n: u8) -> char {
    if n < 10 {
        ((0x30 + n) as u8) as char
    } else {
        ((0x41 + n - 10) as u8) as char
    }
}

/// The form encoding of one byte: unreserved bytes stand for themselves, every other
/// byte becomes `%XX` with upper-case hex digits.
pub open spec fn form_byte_spec(b: u8) -> Seq<char> {
    if unreserved(b) {
        seq![b as char]
    } else {
        seq!['%', hex_digit(b / 16), hex_digit(b % 16)]
    }
}

pub open spec fn form_spec(bytes: Seq<u8>) -> Seq<char>
    decreases bytes.len(),
{
    if bytes.len() == 0 {
        Seq::empty()
    } else {
        form_spec(bytes.drop_last()) + form_byte_spec(bytes.last())
    }
}

fn hex_char(n: u8) -> (r: char)
    requires
        n < 16,
    ensures
        r == hex_digit(n),
{
    if n < 10 {
        (0x30 + n) as char
    } else {
        (0x41 + n - 10) as char
    }
}

/// Percent-encodes a value for an `application/x-www-form-urlencoded` body.
pub fn form_component(value: &str) -> (r: String)
    ensures
        r@ == form_spec(value.spec_bytes()),
{
    let bytes = value.as_bytes();
    let mut r = String::new();
    let mut i: usize = 0;
    while i < bytes.len()
        invariant
            i <= bytes@.len(),
            bytes@ == value.spec_bytes(),
            r@ == form_spec(bytes@.take(i as int)),
        decreases bytes.len() - i,
    {
        let b = bytes[i];
        let ghost before = r@;
        if (0x30 <= b && b <= 0x39) || (0x41 <= b && b <= 0x5a) || (0x61 <= b && b <= 0x7a) || b
            == 0x2d || b == 0x2e || b == 0x5f || b == 0x7e {
            push_char(&mut r, b as char);
        } else {
            push_char(&mut r, '%');
            push_char(&mut r, hex_char(b / 16));
            push_char(&mut r, hex_char(b % 16));
        }
        proof {
            assert(bytes@.take(i + 1).drop_last() == bytes@.take(i as int));
            assert(r@ =~= before + form_byte_spec(b));
        }
        i = i + 1;
    }
    proof {
        assert(bytes@.take(bytes@.len() as int) == bytes@);
    }
    r
}

/// Publishing the same playback again reports no change and keeps its revision; only
/// the validation time moves.
pub proof fn law_spotify_republish_is_unchanged(
    current: Option<SpotifySnapshotModel>,
    playback: PlaybackStateModel,
    first_at: u64,
    second_at: u64,
)
    ensures
        ({
            let (s1, _) = spotify_publish_spec(current, playback, first_at);
            let (s2, changed) = spotify_publish_spec(Some(s1), playback, second_at);
            &&& !changed
            &&& s2.revision == s1.revision
            &&& s2.playback == s1.playback
            &&& s2.validated_at_unix_ms == second_at
        }),
{
}

/// A changed playback is reported and gets a later revision, unless the revision
/// counter is exhausted.
pub proof fn law_spotify_change_advances_revision(
    current: SpotifySnapshotModel,
    playback: PlaybackStateModel,
    at: u64,
)
    requires
        current.playback != playback,
        current.revision < u64::MAX,
    ensures
        spotify_publish_spec(Some(current), playback, at).1,
        spotify_publish_spec(Some(current), playback, at).0.revision == current.revision + 1,
{
}

/// After a track is observed, one idle poll publishes nothing and a second idle poll in
/// a row publishes idle.
pub proof fn law_idle_confirmed_by_second_poll(idle: u8, active: bool, track: PlaybackModel)
    ensures
        ({
            let (_, idle0, active0) = observe_spec(idle, active, PlaybackStateModel::Track(track));
            let (first, idle1, active1) = observe_spec(idle0, active0, PlaybackStateModel::Idle);
            let (second, idle2, active2) = observe_spec(idle1, active1, PlaybackStateModel::Idle);
            &&& first is None
            &&& second == Some(PlaybackStateModel::Idle)
            &&& !active2
            &&& idle2 == 0
        }),
{
}

/// What a published observation asks of the persisted playback.
#[derive(Clone, Copy, Debug, PartialEq, Eq, Structural)]
pub enum LkgAction {
    /// Persist the new track.
    Persist,
    /// Remove the persisted track: playback went idle.
    Clear,
    /// Leave the persisted playback as it is.
    Keep,
}

pub open spec fn lkg_action_spec(previous: Option<SpotifySnapshotModel>, playback: PlaybackStateModel) -> LkgAction {
    if should_persist_spec(previous, playback) {
        LkgAction::Persist
    } else if playback is Idle && (previous matches Some(p) && p.playback is Track) {
        LkgAction::Clear
    } else {
        LkgAction::Keep
    }
}

/// Handles one validated observation: the debouncer decides whether it is published;
/// a published one goes to the store, and the answer says whether the playback changed
/// and what becomes of the persisted playback.
pub fn publish_observation(
    store: &mut SpotifyStore,
    debouncer: &mut PlaybackDebouncer,
    playback: SpotifyPlaybackState,
    validated_at_unix_ms: u64,
) -> (r: Option<(bool, LkgAction)>)
    ensures
        ({
            let (published, idle, active) = observe_spec(
                old(debouncer).consecutive_idle,
                old(debouncer).has_active_track,
                playback.deep_view(),
            );
            &&& final(debouncer).consecutive_idle == idle
            &&& final(debouncer).has_active_track == active
            &&& match published {
                None => r is None && final(store).snapshot() == old(store).snapshot(),
                Some(p) => {
                    let (next, changed) = spotify_publish_spec(old(store).snapshot(), p, validated_at_unix_ms);
                    &&& final(store).snapshot() == Some(next)
                    &&& r == Some((changed, lkg_action_spec(old(store).snapshot(), p)))
                },
            }
        }),
{
    let observed = match debouncer.observe(playback) {
        Some(p) => p,
        None => return None,
    };
    let previous = store.load();
    let persist = should_persist_track(
        match &previous {
            Some(s) => Some(s),
            None => None,
        },
        &observed,
    );
    let clear = match (&observed, &previous) {
        (SpotifyPlaybackState::Idle, Some(s)) => match &s.playback {
            SpotifyPlaybackState::Track(_) => true,
            SpotifyPlaybackState::Idle => false,
        },
        _ => false,
    };
    let changed = store.publish(observed, validated_at_unix_ms);
    let action = if persist {
        LkgAction::Persist
    } else if clear {
        LkgAction::Clear
    } else {
        LkgAction::Keep
    };
    Some((changed, action))
}

} // verus!
