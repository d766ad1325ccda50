//! The decisions behind the large presence card: which activities it shows and in
//! which order, their accents and titles, the time texts, the badges, and the cache of
//! rendered documents.
use vstd::prelude::*;

use crate::activity::{is_spotify_activity, is_spotify_spec};
use crate::contributions::{less_than, str_less};
use crate::artwork::EmbeddedArtworkBatch;
use crate::identity::{
    DiscordIdentityData, DiscordIdentitySnapshot, GuildModel, IdentityModel, IdentitySnapshotModel,
    PrimaryGuildIdentity,
};
use crate::svg::DocumentModel;
use crate::selection::{select_spec, selected_activities, DuplicateRule, NameMatch};
use crate::state::{
    ActivityKind, ActivityModel, ActivitySnapshot, PresenceFreshness, PresenceState,
    PresenceStateModel, PresenceStatus, RuntimeModel, RuntimeState,
};
use crate::text::{
    chars_of, decimal_spec, ellipsis, escape_spec, push_escaped, owned, push_decimal, eq_ignore_case, eq_ignore_case_spec, is_whitespace, is_ws, lower, lower_spec,
    non_empty, non_empty_spec, pad2_spec, push_char, push_pad2, push_str, string_of, to_upper, trim,
    trim_spec, upper_spec,
};

verus! {

/// Where the card draws at most this many activities.
pub const MAX_VISIBLE_ACTIVITIES: usize = 4;

/// How long after its predicted end a Spotify activity is still drawn.
pub const SPOTIFY_EXPIRY_GRACE_MS: u64 = 15_000;

/// The period of the time texts: a card with time texts is redrawn once per period.
pub const TIME_BUCKET_MS: u64 = 15_000;

/// The revision of the card's drawing, part of its entity tag.
pub const RENDERER_REVISION: u64 = 13;

/// The display order of activity kinds: competing first, custom statuses last.
pub open spec fn priority_spec(kind: ActivityKind) -> u8 {
    match kind {
        ActivityKind::Competing => 0,
        ActivityKind::Playing => 1,
        ActivityKind::Streaming => 2,
        ActivityKind::Listening => 3,
        ActivityKind::Watching => 4,
        ActivityKind::Unknown(_) => 5,
        ActivityKind::Custom => 6,
    }
}

pub fn activity_priority(kind: ActivityKind) -> (r: u8)
    ensures
        r == priority_spec(kind),
{
    match kind {
        ActivityKind::Competing => 0,
        ActivityKind::Playing => 1,
        ActivityKind::Streaming => 2,
        ActivityKind::Listening => 3,
        ActivityKind::Watching => 4,
        ActivityKind::Unknown(_) => 5,
        ActivityKind::Custom => 6,
    }
}

/// Whether `a` sorts strictly after `b`: by kind, and where `by_name` also by the
/// ASCII lower-case name.
pub open spec fn sorts_after(a: ActivityModel, b: ActivityModel, by_name: bool) -> bool {
    ||| priority_spec(a.kind) > priority_spec(b.kind)
    ||| by_name && priority_spec(a.kind) == priority_spec(b.kind) && str_less(
        lower_spec(b.name),
        lower_spec(a.name),
    )
}

/// The first position at or after `k` whose activity sorts after `x`.
pub open spec fn first_after(sorted: Seq<ActivityModel>, x: ActivityModel, by_name: bool, k: int) -> int
    decreases sorted.len() - k,
{
    if k < 0 || k >= sorted.len() {
        sorted.len() as int
    } else if sorts_after(sorted[k], x, by_name) {
        k
    } else {
        first_after(sorted, x, by_name, k + 1)
    }
}

/// The activities in display order; activities that sort alike keep their order.
pub open spec fn display_order(acts: Seq<ActivityModel>, by_name: bool) -> Seq<ActivityModel>
    decreases acts.len(),
{
    if acts.len() == 0 {
        Seq::empty()
    } else {
        let s = display_order(acts.drop_last(), by_name);
        s.insert(first_after(s, acts.last(), by_name, 0), acts.last())
    }
}

fn sorts_after_exec(a: &ActivitySnapshot, b: &ActivitySnapshot, by_name: bool) -> (r: bool)
    ensures
        r == sorts_after(a.deep_view(), b.deep_view(), by_name),
{
    let pa = activity_priority(a.kind);
    let pb = activity_priority(b.kind);
    if pa > pb {
        true
    } else if by_name && pa == pb {
        let la = lower(a.name.as_str());
        let lb = lower(b.name.as_str());
        less_than(lb.as_str(), la.as_str())
    } else {
        false
    }
}

/// Sorts activities into display order (a stable sort).
pub fn sort_for_display(acts: &Vec<ActivitySnapshot>, by_name: bool) -> (r: Vec<ActivitySnapshot>)
    ensures
        r.deep_view() == display_order(acts.deep_view(), by_name),
{
    let ghost all = acts.deep_view();
    let mut sorted: Vec<ActivitySnapshot> = Vec::new();
    let mut i: usize = 0;
    while i < acts.len()
        invariant
            i <= acts@.len(),
            all == acts.deep_view(),
            sorted.deep_view() == display_order(all.take(i as int), by_name),
        decreases acts.len() - i,
    {
        let ghost prev = sorted.deep_view();
        let x = acts[i].clone();
        let ghost xv = x.deep_view();
        let mut j: usize = 0;
        while j < sorted.len() && !sorts_after_exec(&sorted[j], &x, by_name)
            invariant
                j <= sorted@.len(),
                prev == sorted.deep_view(),
                xv == x.deep_view(),
                first_after(prev, xv, by_name, 0) == first_after(prev, xv, by_name, j as int),
            decreases sorted.len() - j,
        {
            j = j + 1;
        }
        sorted.insert(j, x);
        proof {
            assert(all.take(i + 1).drop_last() =~= all.take(i as int));
            assert(all.take(i + 1).last() == xv);
            assert(sorted.deep_view() =~= prev.insert(j as int, xv));
        }
        i = i + 1;
    }
    proof {
        assert(all.take(acts@.len() as int) =~= all);
    }
    sorted
}

/// The activities other than custom statuses, in order.
pub open spec fn without_custom(acts: Seq<ActivityModel>) -> Seq<ActivityModel>
    decreases acts.len(),
{
    if acts.len() == 0 {
        Seq::empty()
    } else {
        let rest = without_custom(acts.drop_last());
        if acts.last().kind == ActivityKind::Custom {
            rest
        } else {
            rest.push(acts.last())
        }
    }
}

pub fn drop_custom(acts: &Vec<ActivitySnapshot>) -> (r: Vec<ActivitySnapshot>)
    ensures
        r.deep_view() == without_custom(acts.deep_view()),
{
    let ghost all = acts.deep_view();
    let mut kept: Vec<ActivitySnapshot> = Vec::new();
    let mut i: usize = 0;
    while i < acts.len()
        invariant
            i <= acts@.len(),
            all == acts.deep_view(),
            kept.deep_view() == without_custom(all.take(i as int)),
        decreases acts.len() - i,
    {
        proof {
            assert(all.take(i + 1).drop_last() =~= all.take(i as int));
        }
        match acts[i].kind {
            ActivityKind::Custom => {},
            _ => {
                let ghost before = kept.deep_view();
                kept.push(acts[i].clone());
                proof {
                    assert(kept.deep_view() =~= before.push(all[i as int]));
                }
            },
        }
        i = i + 1;
    }
    proof {
        assert(all.take(acts@.len() as int) =~= all);
    }
    kept
}

/// The activities the card shows: custom statuses left out, one per name (trimmed, ASCII
/// case ignored) with the newest and then richest duplicate winning, in display order.
pub open spec fn visible_spec(m: RuntimeModel) -> Seq<ActivityModel> {
    match m.presence {
        PresenceStateModel::Known(s) => display_order(
            select_spec(NameMatch::AsciiCase, DuplicateRule::Newest, without_custom(s.data.activities)),
            false,
        ),
        PresenceStateModel::Unknown => Seq::empty(),
    }
}

pub fn visible_activities(runtime: &RuntimeState) -> (r: Vec<ActivitySnapshot>)
    ensures
        r.deep_view() == visible_spec(runtime.deep_view()),
{
    match &runtime.presence {
        PresenceState::Known(snapshot) => {
            let kept = drop_custom(&snapshot.data.activities);
            let selected = selected_activities(&kept, NameMatch::AsciiCase, DuplicateRule::Newest);
            sort_for_display(&selected, false)
        },
        PresenceState::Unknown => Vec::new(),
    }
}

/// Whether a shown activity carries timestamps, so that the card shows time texts.
pub open spec fn has_visible_timestamps_spec(m: RuntimeModel) -> bool {
    exists|i: int| 0 <= i < visible_spec(m).len() && (#[trigger] visible_spec(m)[i]).timestamps is Some
}

pub fn has_visible_timestamps(runtime: &RuntimeState) -> (r: bool)
    ensures
        r == has_visible_timestamps_spec(runtime.deep_view()),
{
    let shown = visible_activities(runtime);
    let ghost v = visible_spec(runtime.deep_view());
    let mut i: usize = 0;
    while i < shown.len()
        invariant
            i <= shown@.len(),
            shown.deep_view() == v,
            v == visible_spec(runtime.deep_view()),
            forall|k: int| 0 <= k < i ==> (#[trigger] v[k]).timestamps is None,
        decreases shown.len() - i,
    {
        assert(shown.deep_view()[i as int] == shown@[i as int].deep_view());
        if shown[i].timestamps.is_some() {
            assert(visible_spec(runtime.deep_view())[i as int].timestamps is Some);
            return true;
        }
        i = i + 1;
    }
    false
}

/// Whether a Spotify activity is past its predicted end by more than the grace period.
pub open spec fn spotify_expired_spec(a: ActivityModel, now: u64) -> bool {
    &&& is_spotify_spec(a)
    &&& a.timestamps matches Some(t)
    &&& t.end matches Some(end)
    &&& now > (if end + SPOTIFY_EXPIRY_GRACE_MS > u64::MAX {
        u64::MAX as int
    } else {
        end + SPOTIFY_EXPIRY_GRACE_MS
    })
}

pub fn spotify_activity_expired(activity: &ActivitySnapshot, now_unix_ms: u64) -> (r: bool)
    ensures
        r == spotify_expired_spec(activity.deep_view(), now_unix_ms),
{
    if !is_spotify_activity(activity) {
        return false;
    }
    match activity.timestamps {
        Some(t) => match t.end {
            Some(end) => now_unix_ms > end.saturating_add(SPOTIFY_EXPIRY_GRACE_MS),
            None => false,
        },
        None => false,
    }
}

/// What the card shows of the presence as a whole.
#[derive(Clone, Copy, Debug, PartialEq, Eq, Structural)]
pub enum VisiblePresence {
    Known,
    Unavailable,
    Unknown,
}

pub open spec fn visible_presence_spec(m: RuntimeModel) -> VisiblePresence {
    match m.presence {
        PresenceStateModel::Known(_) => if m.freshness == PresenceFreshness::Unavailable {
            VisiblePresence::Unavailable
        } else {
            VisiblePresence::Known
        },
        PresenceStateModel::Unknown => VisiblePresence::Unknown,
    }
}

pub fn visible_presence(runtime: &RuntimeState) -> (r: VisiblePresence)
    ensures
        r == visible_presence_spec(runtime.deep_view()),
{
    match &runtime.presence {
        PresenceState::Known(_) => if runtime.freshness == PresenceFreshness::Unavailable {
            VisiblePresence::Unavailable
        } else {
            VisiblePresence::Known
        },
        PresenceState::Unknown => VisiblePresence::Unknown,
    }
}

/// The position of the first custom status at or after `k`.
pub open spec fn first_custom(acts: Seq<ActivityModel>, k: int) -> Option<int>
    decreases acts.len() - k,
{
    if k < 0 || k >= acts.len() {
        None
    } else if acts[k].kind == ActivityKind::Custom {
        Some(k)
    } else {
        first_custom(acts, k + 1)
    }
}

/// The text of the first custom status: its state, else its details, each trimmed and
/// only where not blank.
pub open spec fn custom_status_spec(m: RuntimeModel) -> Option<Seq<char>> {
    match m.presence {
        PresenceStateModel::Known(s) => match first_custom(s.data.activities, 0) {
            Some(k) => {
                let a = s.data.activities[k];
                match non_empty_spec(a.state) {
                    Some(t) => Some(t),
                    None => non_empty_spec(a.details),
                }
            },
            None => None,
        },
        PresenceStateModel::Unknown => None,
    }
}

pub fn custom_status(runtime: &RuntimeState) -> (r: Option<String>)
    ensures
        r.deep_view() == custom_status_spec(runtime.deep_view()),
{
    match &runtime.presence {
        PresenceState::Known(snapshot) => {
            let acts = &snapshot.data.activities;
            let ghost all = acts.deep_view();
            let ghost target = custom_status_spec(runtime.deep_view());
            proof {
                assert(target == match first_custom(all, 0) {
                    Some(k) => match non_empty_spec(all[k].state) {
                        Some(t) => Some(t),
                        None => non_empty_spec(all[k].details),
                    },
                    None => None,
                });
            }
            let mut i: usize = 0;
            while i < acts.len()
                invariant
                    i <= acts@.len(),
                    all == acts.deep_view(),
                    target == custom_status_spec(runtime.deep_view()),
                    target == match first_custom(all, 0) {
                        Some(k) => match non_empty_spec(all[k].state) {
                            Some(t) => Some(t),
                            None => non_empty_spec(all[k].details),
                        },
                        None => None,
                    },
                    first_custom(all, 0) == first_custom(all, i as int),
                decreases acts.len() - i,
            {
                assert(all[i as int] == acts@[i as int].deep_view());
                match acts[i].kind {
                    ActivityKind::Custom => {
                        proof {
                            assert(first_custom(all, i as int) == Some(i as int));
                            assert(all[i as int].state == acts@[i as int].state.deep_view());
                            assert(all[i as int].details == acts@[i as int].details.deep_view());
                        }
                        return match non_empty(&acts[i].state) {
                            Some(t) => Some(t),
                            None => non_empty(&acts[i].details),
                        };
                    },
                    _ => {},
                }
                i = i + 1;
            }
            None
        },
        PresenceState::Unknown => None,
    }
}

/// The color of the status dot; a presence that is not shown counts as offline.
pub open spec fn status_color_spec(m: RuntimeModel) -> Seq<char> {
    let status = match m.presence {
        PresenceStateModel::Known(s) => if m.freshness != PresenceFreshness::Unavailable {
            s.data.status
        } else {
            PresenceStatus::Offline
        },
        PresenceStateModel::Unknown => PresenceStatus::Offline,
    };
    match status {
        PresenceStatus::Online => "#43c987"@,
        PresenceStatus::Idle => "#f3bf4f"@,
        PresenceStatus::DoNotDisturb => "#ef5f67"@,
        PresenceStatus::Invisible | PresenceStatus::Offline => "#80869a"@,
    }
}

pub fn status_color(runtime: &RuntimeState) -> (r: &'static str)
    ensures
        r@ == status_color_spec(runtime.deep_view()),
{
    let status = match &runtime.presence {
        PresenceState::Known(snapshot) => if runtime.freshness != PresenceFreshness::Unavailable {
            snapshot.data.status
        } else {
            PresenceStatus::Offline
        },
        PresenceState::Unknown => PresenceStatus::Offline,
    };
    match status {
        PresenceStatus::Online => "#43c987",
        PresenceStatus::Idle => "#f3bf4f",
        PresenceStatus::DoNotDisturb => "#ef5f67",
        PresenceStatus::Invisible | PresenceStatus::Offline => "#80869a",
    }
}

/// The accent of an activity: a brand color for a few known applications, else the
/// color of its kind.
pub open spec fn accent_for_spec(name: Seq<char>, kind: ActivityKind) -> Seq<char> {
    let n = trim_spec(name);
    if eq_ignore_case_spec(n, "spotify"@) {
        "#31d978"@
    } else if eq_ignore_case_spec(n, "soundcloud"@) {
        "#ff6b35"@
    } else if eq_ignore_case_spec(n, "youtube music"@) || eq_ignore_case_spec(n, "yt music"@) {
        "#ff3b30"@
    } else if eq_ignore_case_spec(n, "genshin impact"@) || eq_ignore_case_spec(n, "genshin"@) {
        "#56c7ef"@
    } else if eq_ignore_case_spec(n, "valorant"@) {
        "#8f7cff"@
    } else if eq_ignore_case_spec(n, "rustrover"@) {
        "#ff675d"@
    } else {
        kind_color_spec(kind)
    }
}

pub open spec fn kind_color_spec(kind: ActivityKind) -> Seq<char> {
    match kind {
        ActivityKind::Listening => "#31d978"@,
        ActivityKind::Playing | ActivityKind::Competing => "#8f7cff"@,
        ActivityKind::Streaming => "#c877ff"@,
        ActivityKind::Watching => "#56c7ef"@,
        ActivityKind::Custom | ActivityKind::Unknown(_) => "#8ea0c7"@,
    }
}

pub fn activity_kind_color(kind: ActivityKind) -> (r: &'static str)
    ensures
        r@ == kind_color_spec(kind),
{
    match kind {
        ActivityKind::Listening => "#31d978",
        ActivityKind::Playing | ActivityKind::Competing => "#8f7cff",
        ActivityKind::Streaming => "#c877ff",
        ActivityKind::Watching => "#56c7ef",
        ActivityKind::Custom | ActivityKind::Unknown(_) => "#8ea0c7",
    }
}

pub fn activity_accent_for(name: &str, kind: ActivityKind) -> (r: &'static str)
    ensures
        r@ == accent_for_spec(name@, kind),
{
    let n = trim(name);
    let n = n.as_str();
    if eq_ignore_case(n, "spotify") {
        "#31d978"
    } else if eq_ignore_case(n, "soundcloud") {
        "#ff6b35"
    } else if eq_ignore_case(n, "youtube music") || eq_ignore_case(n, "yt music") {
        "#ff3b30"
    } else if eq_ignore_case(n, "genshin impact") || eq_ignore_case(n, "genshin") {
        "#56c7ef"
    } else if eq_ignore_case(n, "valorant") {
        "#8f7cff"
    } else if eq_ignore_case(n, "rustrover") {
        "#ff675d"
    } else {
        activity_kind_color(kind)
    }
}

pub fn activity_accent(activity: &ActivitySnapshot) -> (r: &'static str)
    ensures
        r@ == accent_for_spec(activity.name@, activity.kind),
{
    activity_accent_for(activity.name.as_str(), activity.kind)
}

/// The color of a listening service's name in the card's title.
pub open spec fn listening_color_spec(name: Seq<char>) -> Seq<char> {
    let n = trim_spec(name);
    if eq_ignore_case_spec(n, "spotify"@) {
        "#31d978"@
    } else if eq_ignore_case_spec(n, "soundcloud"@) {
        "#ff6b35"@
    } else if eq_ignore_case_spec(n, "youtube music"@) || eq_ignore_case_spec(n, "yt music"@) {
        "#ff3b30"@
    } else {
        "#f8f8ff"@
    }
}

pub fn listening_service_color(name: &str) -> (r: &'static str)
    ensures
        r@ == listening_color_spec(name@),
{
    let n = trim(name);
    let n = n.as_str();
    if eq_ignore_case(n, "spotify") {
        "#31d978"
    } else if eq_ignore_case(n, "soundcloud") {
        "#ff6b35"
    } else if eq_ignore_case(n, "youtube music") || eq_ignore_case(n, "yt music") {
        "#ff3b30"
    } else {
        "#f8f8ff"
    }
}

/// The title of an activity panel: the verb, the verb's color and the name's color.
pub open spec fn title_style_spec(a: ActivityModel) -> (Seq<char>, Seq<char>, Seq<char>) {
    match a.kind {
        ActivityKind::Listening => ("Listening to"@, "#b9c1dd"@, listening_color_spec(a.name)),
        ActivityKind::Playing | ActivityKind::Competing => ("Playing"@, "#f8f8ff"@, accent_for_spec(
            a.name,
            a.kind,
        )),
        ActivityKind::Streaming => ("Streaming"@, "#f8f8ff"@, accent_for_spec(a.name, a.kind)),
        ActivityKind::Watching => ("Watching"@, "#f8f8ff"@, accent_for_spec(a.name, a.kind)),
        ActivityKind::Custom | ActivityKind::Unknown(_) => ("Using"@, "#f8f8ff"@, accent_for_spec(
            a.name,
            a.kind,
        )),
    }
}

pub fn activity_title_style(activity: &ActivitySnapshot) -> (r: (&'static str, &'static str, &'static str))
    ensures
        (r.0@, r.1@, r.2@) == title_style_spec(activity.deep_view()),
{
    match activity.kind {
        ActivityKind::Listening => (
            "Listening to",
            "#b9c1dd",
            listening_service_color(activity.name.as_str()),
        ),
        ActivityKind::Playing | ActivityKind::Competing => (
            "Playing",
            "#f8f8ff",
            activity_accent(activity),
        ),
        ActivityKind::Streaming => ("Streaming", "#f8f8ff", activity_accent(activity)),
        ActivityKind::Watching => ("Watching", "#f8f8ff", activity_accent(activity)),
        ActivityKind::Custom | ActivityKind::Unknown(_) => ("Using", "#f8f8ff", activity_accent(activity)),
    }
}

/// The public badges of a set of user flags, in a fixed order.
pub open spec fn badges_spec(flags: u64) -> Seq<Seq<char>> {
    (if flags & (1u64 << 0u64) != 0 { seq!["STAFF"@] } else { Seq::empty() })
        + (if flags & (1u64 << 1u64) != 0 { seq!["PARTNER"@] } else { Seq::empty() })
        + (if flags & (1u64 << 3u64) != 0 { seq!["BUG"@] } else { Seq::empty() })
        + (if flags & (1u64 << 9u64) != 0 { seq!["EARLY"@] } else { Seq::empty() })
        + (if flags & (1u64 << 14u64) != 0 { seq!["BUG II"@] } else { Seq::empty() })
        + (if flags & (1u64 << 17u64) != 0 { seq!["DEV"@] } else { Seq::empty() })
}

pub(crate) fn push_badge_if(badges: &mut Vec<&'static str>, set: bool, badge: &'static str)
    ensures
        final(badges)@.map_values(|b: &'static str| b@) == old(badges)@.map_values(|b: &'static str| b@) + (if set {
            seq![badge@]
        } else {
            Seq::empty()
        }),
{
    let ghost before = badges@;
    if set {
        badges.push(badge);
        proof {
            assert(badges@.map_values(|b: &'static str| b@) =~= before.map_values(|b: &'static str| b@) + seq![badge@]);
        }
    } else {
        proof {
            assert(badges@.map_values(|b: &'static str| b@) =~= before.map_values(|b: &'static str| b@) + Seq::<Seq<char>>::empty());
        }
    }
}

pub fn public_badges(flags: u64) -> (r: Vec<&'static str>)
    ensures
        r@.map_values(|b: &'static str| b@) == badges_spec(flags),
{
    let mut badges: Vec<&'static str> = Vec::new();
    proof {
        assert(badges@.map_values(|b: &'static str| b@) =~= Seq::<Seq<char>>::empty());
    }
    push_badge_if(&mut badges, flags & (1u64 << 0u64) != 0, "STAFF");
    push_badge_if(&mut badges, flags & (1u64 << 1u64) != 0, "PARTNER");
    push_badge_if(&mut badges, flags & (1u64 << 3u64) != 0, "BUG");
    push_badge_if(&mut badges, flags & (1u64 << 9u64) != 0, "EARLY");
    push_badge_if(&mut badges, flags & (1u64 << 14u64) != 0, "BUG II");
    push_badge_if(&mut badges, flags & (1u64 << 17u64) != 0, "DEV");
    proof {
        assert(Seq::<Seq<char>>::empty() + (if flags & (1u64 << 0u64) != 0 { seq!["STAFF"@] } else { Seq::empty() })
            =~= (if flags & (1u64 << 0u64) != 0 { seq!["STAFF"@] } else { Seq::<Seq<char>>::empty() }));
    }
    badges
}

/// The first characters of the words of a name from position `k`, where `prev_ws`
/// says whether the character before `k` is white space.
pub open spec fn initials_from(s: Seq<char>, k: int, prev_ws: bool) -> Seq<char>
    decreases s.len() - k,
{
    if k < 0 || k >= s.len() {
        Seq::empty()
    } else if prev_ws && !is_ws(s[k]) {
        seq![s[k]] + initials_from(s, k + 1, false)
    } else {
        initials_from(s, k + 1, is_ws(s[k]))
    }
}

/// The fallback artwork label: the first characters of at most three words, in ASCII
/// upper case.
pub open spec fn fallback_label_spec(name: Seq<char>) -> Seq<char> {
    let i = initials_from(name, 0, true);
    upper_spec(if i.len() > 3 {
        i.take(3)
    } else {
        i
    })
}

pub fn fallback_label(name: &str) -> (r: String)
    ensures
        r@ == fallback_label_spec(name@),
{
    let chars = chars_of(name);
    let mut out = String::new();
    let mut taken: usize = 0;
    let mut prev_ws = true;
    let mut k: usize = 0;
    let ghost all = initials_from(name@, 0, true);
    let ghost first = if all.len() > 3 {
        all.take(3)
    } else {
        all
    };
    let ghost mut acc: Seq<char> = Seq::empty();
    while k < chars.len() && taken < 3
        invariant
            chars@ == name@,
            k <= chars@.len(),
            taken <= 3,
            acc.len() == taken,
            all == initials_from(name@, 0, true),
            all == acc + initials_from(name@, k as int, prev_ws),
            out@ == upper_spec(acc),
        decreases chars.len() - k,
    {
        let c = chars[k];
        let ws = is_whitespace(c);
        if prev_ws && !ws {
            proof {
                assert(initials_from(name@, k as int, prev_ws) == seq![c] + initials_from(name@, k + 1, false));
                assert(acc.push(c) + initials_from(name@, k + 1, false) =~= acc + (seq![c] + initials_from(
                    name@,
                    k + 1,
                    false,
                )));
            }
            push_char(&mut out, to_upper(c));
            proof {
                assert(out@ =~= upper_spec(acc.push(c)));
                acc = acc.push(c);
            }
            taken = taken + 1;
        }
        prev_ws = ws;
        k = k + 1;
    }
    proof {
        if taken == 3 {
            assert(all.take(3) =~= acc);
        } else {
            assert(initials_from(name@, k as int, prev_ws) =~= Seq::<char>::empty());
            assert(all =~= acc);
        }
        assert(first =~= acc);
    }
    out
}

/// A duration as two-digit minutes and seconds, preceded by the hours when there are any.
pub open spec fn format_duration_spec(ms: u64) -> Seq<char> {
    let seconds = ms as nat / 1000;
    let hours = seconds / 3600;
    let minutes = (seconds % 3600) / 60;
    let secs = seconds % 60;
    if hours > 0 {
        pad2_spec(hours) + ":"@ + pad2_spec(minutes) + ":"@ + pad2_spec(secs)
    } else {
        pad2_spec(minutes) + ":"@ + pad2_spec(secs)
    }
}

pub fn format_duration(ms: u64) -> (r: String)
    ensures
        r@ == format_duration_spec(ms),
{
    let seconds = ms / 1000;
    let hours = seconds / 3600;
    let minutes = (seconds % 3600) / 60;
    let secs = seconds % 60;
    let mut out = String::new();
    if hours > 0 {
        push_pad2(&mut out, hours);
        push_str(&mut out, ":");
    }
    push_pad2(&mut out, minutes);
    push_str(&mut out, ":");
    push_pad2(&mut out, secs);
    proof {
        if hours > 0 {
            assert(out@ =~= pad2_spec(hours as nat) + ":"@ + pad2_spec(minutes as nat) + ":"@ + pad2_spec(secs as nat));
        } else {
            assert(out@ =~= pad2_spec(minutes as nat) + ":"@ + pad2_spec(secs as nat));
        }
    }
    out
}

/// The live clock text, which reads as a duration.
pub fn format_clock(ms: u64) -> (r: String)
    ensures
        r@ == format_duration_spec(ms),
{
    format_duration(ms)
}

/// The time text of an activity other than Spotify: the time since its start, else the
/// time until its end, with the word for it and the timestamp it counts from.
pub open spec fn activity_time_spec(a: ActivityModel, now: u64) -> Option<(Seq<char>, Seq<char>, u64)> {
    match a.timestamps {
        None => None,
        Some(t) => if is_spotify_spec(a) {
            None
        } else if t.start is Some && now >= t.start->0 {
            Some((format_duration_spec((now - t.start->0) as u64), "elapsed"@, t.start->0))
        } else if t.end is Some && t.end->0 >= now {
            Some((format_duration_spec((t.end->0 - now) as u64), "remaining"@, t.end->0))
        } else {
            None
        },
    }
}

pub fn activity_time(activity: &ActivitySnapshot, now: u64) -> (r: Option<(String, &'static str, u64)>)
    ensures
        match r {
            Some((text, word, at)) => activity_time_spec(activity.deep_view(), now) == Some((text@, word@, at)),
            None => activity_time_spec(activity.deep_view(), now) is None,
        },
{
    let t = match activity.timestamps {
        Some(t) => t,
        None => return None,
    };
    if is_spotify_activity(activity) {
        return None;
    }
    if let Some(start) = t.start {
        if now >= start {
            return Some((format_duration(now - start), "elapsed", start));
        }
    }
    if let Some(end) = t.end {
        if end >= now {
            return Some((format_duration(end - now), "remaining", end));
        }
    }
    None
}

/// Like `truncate_spec`, but the ellipsis replaces the last kept character where more
/// than one character is kept, so that the result stays within `max` characters.
pub open spec fn truncate_within_spec(s: Seq<char>, max: nat) -> Seq<char> {
    if s.len() <= max {
        s
    } else if max > 1 {
        s.take(max - 1).push(ellipsis())
    } else {
        s.take(max as int).push(ellipsis())
    }
}

/// Truncation whose ellipsis takes the place of the last kept character.
pub fn truncate_chars(value: &str, max: usize) -> (r: String)
    ensures
        r@ == truncate_within_spec(value@, max as nat),
{
    let chars = chars_of(value);
    if chars.len() <= max {
        let r = string_of(&chars, 0, chars.len());
        proof {
            assert(chars@.subrange(0, chars@.len() as int) == chars@);
        }
        r
    } else {
        let keep = if max > 1 {
            max - 1
        } else {
            max
        };
        let mut r = string_of(&chars, 0, keep);
        push_char(&mut r, '\u{2026}');
        r
    }
}

/// What a rendered card depends on besides its artwork: the identity revision, the
/// stream revision and the period of its time texts.
#[derive(Clone, Copy, Debug, PartialEq, Eq, Structural)]
pub struct PresenceCardCacheKey {
    pub identity_revision: u64,
    pub stream_revision: u64,
    pub time_bucket: u64,
}

/// The key of the card for the runtime state, the identity and the time: the time
/// period counts only while a shown activity has timestamps.
pub open spec fn cache_key_spec(m: RuntimeModel, identity_revision: Option<u64>, now: u64) -> PresenceCardCacheKey {
    PresenceCardCacheKey {
        identity_revision: match identity_revision {
            Some(r) => r,
            None => 0,
        },
        stream_revision: m.stream_revision,
        time_bucket: if has_visible_timestamps_spec(m) {
            (now / TIME_BUCKET_MS) as u64
        } else {
            0
        },
    }
}

pub fn cache_key(runtime: &RuntimeState, identity: Option<&DiscordIdentitySnapshot>, now_unix_ms: u64) -> (r:
    PresenceCardCacheKey)
    ensures
        r == cache_key_spec(
            runtime.deep_view(),
            match identity {
                Some(i) => Some(i.revision),
                None => None,
            },
            now_unix_ms,
        ),
{
    let time_bucket = if has_visible_timestamps(runtime) {
        now_unix_ms / TIME_BUCKET_MS
    } else {
        0
    };
    let identity_revision = match identity {
        Some(i) => i.revision,
        None => 0,
    };
    PresenceCardCacheKey { identity_revision, stream_revision: runtime.stream_revision, time_bucket }
}

/// The entity tag of a card: the renderer revision, the key, and whether all of its
/// artwork was embedded.
pub open spec fn card_etag_spec(key: PresenceCardCacheKey, complete: bool) -> Seq<char> {
    "\"profile-presence-card-v"@ + decimal_spec(RENDERER_REVISION as nat) + "-"@ + decimal_spec(
        key.stream_revision as nat,
    ) + "-"@ + decimal_spec(key.identity_revision as nat) + "-"@ + decimal_spec(key.time_bucket as nat)
        + "-"@ + (if complete {
        "full"@
    } else {
        "partial"@
    }) + "\""@
}

pub fn card_etag(key: PresenceCardCacheKey, complete: bool) -> (r: String)
    ensures
        r@ == card_etag_spec(key, complete),
{
    let mut etag = owned("\"profile-presence-card-v");
    push_decimal(&mut etag, RENDERER_REVISION);
    push_str(&mut etag, "-");
    push_decimal(&mut etag, key.stream_revision);
    push_str(&mut etag, "-");
    push_decimal(&mut etag, key.identity_revision);
    push_str(&mut etag, "-");
    push_decimal(&mut etag, key.time_bucket);
    push_str(&mut etag, "-");
    push_str(&mut etag, if complete { "full" } else { "partial" });
    push_str(&mut etag, "\"");
    etag
}

/// A rendered presence card.
#[derive(Debug)]
pub struct PresenceCardDocument {
    body: String,
    etag: String,
    stream_revision: u64,
}

impl PresenceCardDocument {
    pub closed spec fn model(&self) -> DocumentModel {
        DocumentModel { body: self.body@, etag: self.etag@, stream_revision: self.stream_revision }
    }

    /// The document of a rendered body, tagged with its key and artwork completeness.
    pub fn new(body: String, key: PresenceCardCacheKey, complete: bool) -> (r: Self)
        ensures
            r.model() == (DocumentModel {
                body: body@,
                etag: card_etag_spec(key, complete),
                stream_revision: key.stream_revision,
            }),
    {
        let etag = card_etag(key, complete);
        PresenceCardDocument { body, etag, stream_revision: key.stream_revision }
    }

    pub fn body(&self) -> (r: &str)
        ensures
            r@ == self.model().body,
    {
        self.body.as_str()
    }

    pub fn etag(&self) -> (r: &str)
        ensures
            r@ == self.model().etag,
    {
        self.etag.as_str()
    }

    pub fn stream_revision(&self) -> (r: u64)
        ensures
            r == self.model().stream_revision,
    {
        self.stream_revision
    }

    fn duplicate(&self) -> (r: Self)
        ensures
            r.model() == self.model(),
    {
        PresenceCardDocument {
            body: self.body.clone(),
            etag: self.etag.clone(),
            stream_revision: self.stream_revision,
        }
    }
}

/// The last card rendered with all of its artwork, under its key.
pub struct PresenceCardCache {
    entry: Option<(PresenceCardCacheKey, PresenceCardDocument)>,
}

impl PresenceCardCache {
    pub closed spec fn view(&self) -> Option<(PresenceCardCacheKey, DocumentModel)> {
        match self.entry {
            Some((k, d)) => Some((k, d.model())),
            None => None,
        }
    }

    pub fn new() -> (r: Self)
        ensures
            r.view() is None,
    {
        PresenceCardCache { entry: None }
    }

    /// The kept card, if it was rendered under the same key.
    pub fn cached(&self, key: PresenceCardCacheKey) -> (r: Option<PresenceCardDocument>)
        ensures
            match r {
                Some(d) => self.view() == Some((key, d.model())),
                None => !(self.view() matches Some((k, _)) && k == key),
            },
    {
        match &self.entry {
            Some((k, d)) => if *k == key {
                Some(d.duplicate())
            } else {
                None
            },
            None => None,
        }
    }

    /// Makes the document of a rendered body and keeps it when all of its artwork was
    /// embedded.
    pub fn finish(&mut self, key: PresenceCardCacheKey, body: String, complete: bool) -> (r: PresenceCardDocument)
        ensures
            r.model() == (DocumentModel {
                body: body@,
                etag: card_etag_spec(key, complete),
                stream_revision: key.stream_revision,
            }),
            final(self).view() == if complete {
                Some((key, r.model()))
            } else {
                old(self).view()
            },
    {
        let document = PresenceCardDocument::new(body, key, complete);
        if complete {
            self.entry = Some((key, document.duplicate()));
        }
        document
    }
}

pub open spec fn dec32(n: u32) -> Seq<char> {
    decimal_spec(n as nat)
}

/// A text element of the card, its value escaped.
pub open spec fn text_spec(
    x: u32,
    y: u32,
    size: u32,
    fill: Seq<char>,
    weight: Seq<char>,
    value: Seq<char>,
    anchor: Option<Seq<char>>,
) -> Seq<char> {
    "<text x=\""@ + dec32(x) + "\" y=\""@ + dec32(y) + "\" fill=\""@ + fill
        + "\" font-family=\"Inter,Segoe UI,Arial,sans-serif\" font-size=\""@ + dec32(size)
        + "\" font-weight=\""@ + weight + "\" text-anchor=\""@ + (match anchor {
        Some(a) => a,
        None => "start"@,
    }) + "\">"@ + escape_spec(value) + "</text>"@
}

fn text_element(
    x: u32,
    y: u32,
    size: u32,
    fill: &str,
    weight: &str,
    value: &str,
    anchor: Option<&str>,
) -> (r: String)
    ensures
        r@ == text_spec(
            x,
            y,
            size,
            fill@,
            weight@,
            value@,
            match anchor {
                Some(a) => Some(a@),
                None => None,
            },
        ),
{
    let mut t = owned("<text x=\"");
    push_decimal(&mut t, x as u64);
    push_str(&mut t, "\" y=\"");
    push_decimal(&mut t, y as u64);
    push_str(&mut t, "\" fill=\"");
    push_str(&mut t, fill);
    push_str(&mut t, "\" font-family=\"Inter,Segoe UI,Arial,sans-serif\" font-size=\"");
    push_decimal(&mut t, size as u64);
    push_str(&mut t, "\" font-weight=\"");
    push_str(&mut t, weight);
    push_str(&mut t, "\" text-anchor=\"");
    push_str(
        &mut t,
        match anchor {
            Some(a) => a,
            None => "start",
        },
    );
    push_str(&mut t, "\">");
    push_escaped(&mut t, value);
    push_str(&mut t, "</text>");
    t
}

/// Writes a text element of the card.
pub fn text(
    body: &mut String,
    x: u32,
    y: u32,
    size: u32,
    fill: &str,
    weight: &str,
    value: &str,
    anchor: Option<&str>,
)
    ensures
        final(body)@ == old(body)@ + text_spec(
            x,
            y,
            size,
            fill@,
            weight@,
            value@,
            match anchor {
                Some(a) => Some(a@),
                None => None,
            },
        ),
{
    let t = text_element(x, y, size, fill, weight, value, anchor);
    push_str(body, t.as_str());
}

/// The circle drawn where no avatar could be embedded.
pub open spec fn avatar_fallback_spec(x: u32, y: u32, size: u32) -> Seq<char> {
    "<circle cx=\""@ + decimal_spec((x + size / 2) as nat) + "\" cy=\""@ + decimal_spec((y + size / 2) as nat)
        + "\" r=\""@ + decimal_spec((size / 2) as nat) + "\" fill=\"#232845\"/>"@
}

pub fn avatar_fallback(body: &mut String, x: u32, y: u32, size: u32)
    requires
        x + size / 2 <= u32::MAX,
        y + size / 2 <= u32::MAX,
    ensures
        final(body)@ == old(body)@ + avatar_fallback_spec(x, y, size),
{
    let mut t = owned("<circle cx=\"");
    push_decimal(&mut t, (x + size / 2) as u64);
    push_str(&mut t, "\" cy=\"");
    push_decimal(&mut t, (y + size / 2) as u64);
    push_str(&mut t, "\" r=\"");
    push_decimal(&mut t, (size / 2) as u64);
    push_str(&mut t, "\" fill=\"#232845\"/>");
    push_str(body, t.as_str());
}

/// The avatar of an identity: its embedded image, else the fallback circle; then its
/// embedded decoration, where it has one.
pub open spec fn avatar_part_spec(d: IdentityModel, embedded: EmbeddedArtworkBatch) -> Seq<char> {
    (match embedded.image(d.avatar_url) {
        Some(uri) => "<image x=\"90\" y=\"71\" width=\"126\" height=\"126\" href=\""@ + escape_spec(uri)
            + "\" preserveAspectRatio=\"xMidYMid slice\" clip-path=\"url(#avatar-clip)\"/>"@,
        None => avatar_fallback_spec(90, 71, 126),
    }) + (match d.avatar_decoration_url {
        Some(url) => match embedded.image(url) {
            Some(uri) => "<image x=\"73\" y=\"54\" width=\"160\" height=\"160\" href=\""@ + escape_spec(uri)
                + "\" preserveAspectRatio=\"xMidYMid meet\"/>"@,
            None => ""@,
        },
        None => ""@,
    })
}

fn avatar_part(data: &DiscordIdentityData, embedded: &EmbeddedArtworkBatch) -> (r: String)
    ensures
        r@ == avatar_part_spec(data.deep_view(), *embedded),
{
    let mut t = String::new();
    match embedded.href(data.avatar_url.as_str()) {
        Some(uri) => {
            push_str(&mut t, "<image x=\"90\" y=\"71\" width=\"126\" height=\"126\" href=\"");
            push_escaped(&mut t, uri.as_str());
            push_str(&mut t, "\" preserveAspectRatio=\"xMidYMid slice\" clip-path=\"url(#avatar-clip)\"/>");
        },
        None => avatar_fallback(&mut t, 90, 71, 126),
    }
    let ghost first = t@;
    match &data.avatar_decoration_url {
        Some(url) => match embedded.href(url.as_str()) {
            Some(uri) => {
                push_str(&mut t, "<image x=\"73\" y=\"54\" width=\"160\" height=\"160\" href=\"");
                push_escaped(&mut t, uri.as_str());
                push_str(&mut t, "\" preserveAspectRatio=\"xMidYMid meet\"/>");
            },
            None => push_str(&mut t, ""),
        },
        None => push_str(&mut t, ""),
    }
    proof {
        assert(t@ =~= avatar_part_spec(data.deep_view(), *embedded));
    }
    t
}

/// The width of a guild tag in the header: fifteen units per character.
pub open spec fn guild_badge_offset(has_image: bool) -> u32 {
    if has_image {
        56
    } else {
        16
    }
}

/// The characters a tag is measured by: its length, or four where the length does not
/// fit in a `u32`.
pub open spec fn tag_units(tag: Seq<char>) -> int {
    if tag.len() <= u32::MAX {
        tag.len() as int
    } else {
        4
    }
}

pub open spec fn guild_badge_width(tag: Seq<char>, has_image: bool) -> int {
    guild_badge_offset(has_image) + tag_units(tag) * 15 + 16
}

/// The guild badge of the header at x 624: a frame, the embedded badge image where there
/// is one, and the tag.
pub open spec fn guild_part_spec(g: GuildModel, embedded: EmbeddedArtworkBatch) -> Seq<char> {
    let image = match g.badge_url {
        Some(u) => embedded.image(u),
        None => None,
    };
    let has_image = image is Some;
    let width = guild_badge_width(g.tag, has_image);
    "<rect x=\"624\" y=\"103\" width=\""@ + decimal_spec(width as nat)
        + "\" height=\"53\" rx=\"15\" fill=\"#1b1b31\" stroke=\"#6657b8\" stroke-opacity=\".62\"/>"@ + (match image {
        Some(uri) => "<image x=\"640\" y=\"115\" width=\"30\" height=\"30\" href=\""@ + escape_spec(uri)
            + "\" preserveAspectRatio=\"xMidYMid meet\"/>"@,
        None => ""@,
    }) + text_spec((624 + guild_badge_offset(has_image)) as u32, 139, 24, "#efeaff"@, "700"@, g.tag, None)
}

fn guild_part(guild: &PrimaryGuildIdentity, embedded: &EmbeddedArtworkBatch) -> (r: (String, u32))
    requires
        624 + guild_badge_width(guild.tag@, guild_has_image(guild.deep_view(), *embedded)) + 20 <= u32::MAX,
    ensures
        r.0@ == guild_part_spec(guild.deep_view(), *embedded),
        r.1 == 624 + guild_badge_width(
            guild.tag@,
            (match guild.badge_url {
                Some(u) => embedded.image(u@),
                None => None,
            }) is Some,
        ) + 20,
{
    let image = match &guild.badge_url {
        Some(u) => embedded.href(u.as_str()),
        None => None,
    };
    let has_image = image.is_some();
    let count = chars_of(guild.tag.as_str()).len();
    let units: u32 = if count <= 0xffff_ffff {
        count as u32
    } else {
        4
    };
    let tag_width = units * 15;
    let offset: u32 = if has_image {
        56
    } else {
        16
    };
    let width = offset + tag_width + 16;
    let mut t = owned("<rect x=\"624\" y=\"103\" width=\"");
    push_decimal(&mut t, width as u64);
    push_str(&mut t, "\" height=\"53\" rx=\"15\" fill=\"#1b1b31\" stroke=\"#6657b8\" stroke-opacity=\".62\"/>");
    let ghost head = t@;
    match &image {
        Some(uri) => {
            push_str(&mut t, "<image x=\"640\" y=\"115\" width=\"30\" height=\"30\" href=\"");
            push_escaped(&mut t, uri.as_str());
            push_str(&mut t, "\" preserveAspectRatio=\"xMidYMid meet\"/>");
        },
        None => push_str(&mut t, ""),
    }
    let ghost mid = t@;
    text(&mut t, 624 + offset, 139, 24, "#efeaff", "700", guild.tag.as_str(), None);
    proof {
        assert(t@ =~= guild_part_spec(guild.deep_view(), *embedded));
    }
    (t, 624 + width + 20)
}

/// Up to two public badges at `x`, seventy units apart.
pub open spec fn badge_row_spec(badges: Seq<Seq<char>>, x: int) -> Seq<char>
    decreases badges.len(),
{
    if badges.len() == 0 {
        Seq::empty()
    } else {
        let k = badges.len() - 1;
        let bx = x + 70 * k;
        badge_row_spec(badges.drop_last(), x) + "<circle cx=\""@ + decimal_spec((bx + 25) as nat)
            + "\" cy=\"129\" r=\"25\" fill=\"#fb696f\" fill-opacity=\".95\"/><circle cx=\""@ + decimal_spec(
            (bx + 25) as nat,
        ) + "\" cy=\"129\" r=\"11\" fill=\"#11162a\"/>"@ + text_spec(
            (bx + 25) as u32,
            181,
            11,
            "#7f88a7"@,
            "600"@,
            badges.last(),
            Some("middle"@),
        )
    }
}

fn badge_row(badges: &Vec<&'static str>, x: u32) -> (r: String)
    requires
        badges@.len() <= 2,
        x + 70 * badges@.len() <= u32::MAX,
    ensures
        r@ == badge_row_spec(badges@.map_values(|b: &'static str| b@), x as int),
{
    let ghost all = badges@.map_values(|b: &'static str| b@);
    let mut t = String::new();
    let mut k: usize = 0;
    while k < badges.len()
        invariant
            k <= badges@.len() <= 2,
            x + 70 * badges@.len() <= u32::MAX,
            all == badges@.map_values(|b: &'static str| b@),
            t@ == badge_row_spec(all.take(k as int), x as int),
        decreases badges.len() - k,
    {
        let bx = x + 70 * (k as u32) + 25;
        let ghost before = t@;
        push_str(&mut t, "<circle cx=\"");
        push_decimal(&mut t, bx as u64);
        push_str(&mut t, "\" cy=\"129\" r=\"25\" fill=\"#fb696f\" fill-opacity=\".95\"/><circle cx=\"");
        push_decimal(&mut t, bx as u64);
        push_str(&mut t, "\" cy=\"129\" r=\"11\" fill=\"#11162a\"/>");
        text(&mut t, bx, 181, 11, "#7f88a7", "600", badges[k], Some("middle"));
        proof {
            let next = all.take(k + 1);
            assert(next.drop_last() =~= all.take(k as int));
            assert(next.last() == badges@[k as int]@);
            assert(t@ =~= badge_row_spec(next, x as int));
        }
        k = k + 1;
    }
    proof {
        assert(all.take(badges@.len() as int) =~= all);
    }
    t
}

pub open spec fn guild_has_image(g: GuildModel, embedded: EmbeddedArtworkBatch) -> bool {
    (match g.badge_url {
        Some(u) => embedded.image(u),
        None => None,
    }) is Some
}

/// The first two public badges of the flags.
pub open spec fn badges_shown(flags: u64) -> Seq<Seq<char>> {
    let b = badges_spec(flags);
    if b.len() > 2 {
        b.take(2)
    } else {
        b
    }
}

/// The static part of the header: avatar, name, guild badge and public badges of the
/// identity, or a fallback avatar and a generic title without one.
pub open spec fn identity_static_spec(identity: Option<IdentitySnapshotModel>, embedded: EmbeddedArtworkBatch) -> Seq<
    char,
> {
    "<g id=\"identity-static\">"@ + (match identity {
        Some(i) => {
            let d = i.data;
            let name = text_spec(271, 144, 45, "#f7f7ff"@, "800"@, truncate_within_spec(d.username, 28), None);
            let guild = match d.primary_guild {
                Some(g) => guild_part_spec(g, embedded),
                None => ""@,
            };
            let badge_x = match d.primary_guild {
                Some(g) => 624 + guild_badge_width(g.tag, guild_has_image(g, embedded)) + 20,
                None => 624,
            };
            avatar_part_spec(d, embedded) + name + guild + badge_row_spec(badges_shown(d.public_flags), badge_x)
        },
        None => avatar_fallback_spec(90, 71, 126) + text_spec(
            271,
            144,
            45,
            "#f7f7ff"@,
            "800"@,
            "Discord profile"@,
            None,
        ),
    }) + "</g>"@
}

/// The dynamic part of the header: the status dot and the custom status.
pub open spec fn identity_dynamic_spec(m: RuntimeModel) -> Seq<char> {
    "<g id=\"presence-header-dynamic\">"@
        + "<circle cx=\"202\" cy=\"176\" r=\"22\" fill=\"#101624\"/><circle id=\"presence-status-dot\" cx=\"202\" cy=\"176\" r=\"15\" fill=\""@
        + status_color_spec(m) + "\"/>"@ + (match custom_status_spec(m) {
        Some(c) => text_spec(271, 179, 18, "#8d95b3"@, "500"@, truncate_within_spec(c, 78), None),
        None => ""@,
    }) + "</g>"@
}

/// Whether the header's coordinates fit in a `u32`: the guild badge and the public
/// badges after it end at most at `u32::MAX`.
pub open spec fn header_fits(identity: Option<IdentitySnapshotModel>, embedded: EmbeddedArtworkBatch) -> bool {
    match identity {
        Some(i) => match i.data.primary_guild {
            Some(g) => 624 + guild_badge_width(g.tag, guild_has_image(g, embedded)) + 20 + 70 * badges_shown(
                i.data.public_flags,
            ).len() <= u32::MAX,
            None => true,
        },
        None => true,
    }
}

fn identity_static(identity: Option<&DiscordIdentitySnapshot>, embedded: &EmbeddedArtworkBatch) -> (r: String)
    requires
        header_fits(
            match identity {
                Some(i) => Some(i.deep_view()),
                None => None,
            },
            *embedded,
        ),
    ensures
        r@ == identity_static_spec(
            match identity {
                Some(i) => Some(i.deep_view()),
                None => None,
            },
            *embedded,
        ),
{
    let mut t = owned("<g id=\"identity-static\">");
    let ghost head = t@;
    match identity {
        Some(i) => {
            let avatar = avatar_part(&i.data, embedded);
            push_str(&mut t, avatar.as_str());
            let name = truncate_chars(i.data.username.as_str(), 28);
            text(&mut t, 271, 144, 45, "#f7f7ff", "800", name.as_str(), None);
            let ghost before_guild = t@;
            let badge_x: u32 = match &i.data.primary_guild {
                Some(g) => {
                    let (part, next_x) = guild_part(g, embedded);
                    push_str(&mut t, part.as_str());
                    next_x
                },
                None => {
                    push_str(&mut t, "");
                    624
                },
            };
            let all = public_badges(i.data.public_flags);
            let mut shown: Vec<&'static str> = Vec::new();
            if all.len() > 0 {
                shown.push(all[0]);
            }
            if all.len() > 1 {
                shown.push(all[1]);
            }
            proof {
                let b = badges_spec(i.data.public_flags);
                assert(shown@.map_values(|x: &'static str| x@) =~= badges_shown(i.data.public_flags)) by {
                    assert(all@.map_values(|x: &'static str| x@) == b);
                }
            }
            let row = badge_row(&shown, badge_x);
            push_str(&mut t, row.as_str());
        },
        None => {
            avatar_fallback(&mut t, 90, 71, 126);
            text(&mut t, 271, 144, 45, "#f7f7ff", "800", "Discord profile", None);
        },
    }
    push_str(&mut t, "</g>");
    proof {
        let iv = match identity {
            Some(i) => Some(i.deep_view()),
            None => None,
        };
        assert(t@ =~= identity_static_spec(iv, *embedded));
    }
    t
}

fn identity_dynamic(runtime: &RuntimeState) -> (r: String)
    ensures
        r@ == identity_dynamic_spec(runtime.deep_view()),
{
    let mut t = owned("<g id=\"presence-header-dynamic\">");
    push_str(
        &mut t,
        "<circle cx=\"202\" cy=\"176\" r=\"22\" fill=\"#101624\"/><circle id=\"presence-status-dot\" cx=\"202\" cy=\"176\" r=\"15\" fill=\"",
    );
    push_str(&mut t, status_color(runtime));
    push_str(&mut t, "\"/>");
    match custom_status(runtime) {
        Some(c) => {
            let cut = truncate_chars(c.as_str(), 78);
            text(&mut t, 271, 179, 18, "#8d95b3", "500", cut.as_str(), None);
        },
        None => push_str(&mut t, ""),
    }
    push_str(&mut t, "</g>");
    t
}

/// Writes the card's header: the identity, then the presence's status dot and custom
/// status.
pub fn render_identity_header(
    body: &mut String,
    runtime: &RuntimeState,
    identity: Option<&DiscordIdentitySnapshot>,
    embedded: &EmbeddedArtworkBatch,
)
    requires
        header_fits(
            match identity {
                Some(i) => Some(i.deep_view()),
                None => None,
            },
            *embedded,
        ),
    ensures
        final(body)@ == old(body)@ + identity_static_spec(
            match identity {
                Some(i) => Some(i.deep_view()),
                None => None,
            },
            *embedded,
        ) + identity_dynamic_spec(runtime.deep_view()),
{
    let s = identity_static(identity, embedded);
    push_str(body, s.as_str());
    let d = identity_dynamic(runtime);
    push_str(body, d.as_str());
}

/// A truncated label never exceeds a limit of two or more characters, and a label
/// within the limit is kept whole.
pub proof fn law_truncation_stays_within_limit(s: Seq<char>, max: nat)
    ensures
        max >= 2 ==> truncate_within_spec(s, max).len() <= max,
        s.len() <= max ==> truncate_within_spec(s, max) == s,
{
}

} // verus!
