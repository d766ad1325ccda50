//! Application icons for activities that report none: which applications need one,
//! how a cached icon is applied, and when an application's icon is looked up again.
use vstd::prelude::*;

use crate::state::{
    clone_opt_string, ActivityAssetsSnapshot, ActivityModel, ActivitySnapshot, AssetsModel,
    PresenceData, PresenceSnapshot, PresenceState, PresenceStateModel, RuntimeModel, RuntimeState,
};
use crate::text::{
    chars_of, equals, is_alphanumeric_ascii, is_ascii_alphanumeric, is_ascii_digit, is_blank,
    is_digit, owned, push_str, trim, trim_spec,
};

verus! {

/// How long a resolved icon is kept, in milliseconds.
pub const ICON_TTL_MS: u64 = 86_400_000;

/// How long the absence of an icon is kept, in milliseconds.
pub const NO_ICON_TTL_MS: u64 = 3_600_000;

/// How long to wait after a failed lookup, in milliseconds.
pub const FAILURE_RETRY_MS: u64 = 300_000;

/// Whether the activity has no large image (none, or a blank one).
pub open spec fn lacks_large_image(a: ActivityModel) -> bool {
    match a.assets {
        Some(x) => match x.large_image {
            Some(v) => trim_spec(v).len() == 0,
            None => true,
        },
        None => true,
    }
}

/// The application ids of the activities without a large image, each once, in order.
pub open spec fn missing_icons_from(acts: Seq<ActivityModel>) -> Seq<Seq<char>>
    decreases acts.len(),
{
    if acts.len() == 0 {
        Seq::empty()
    } else {
        let rest = missing_icons_from(acts.drop_last());
        let a = acts.last();
        if a.application_id is Some && lacks_large_image(a) && !rest.contains(a.application_id->0) {
            rest.push(a.application_id->0)
        } else {
            rest
        }
    }
}

/// The applications whose icon is wanted: those of the known activities without a large
/// image.
pub open spec fn missing_icons_spec(m: RuntimeModel) -> Seq<Seq<char>> {
    match m.presence {
        PresenceStateModel::Known(s) => missing_icons_from(s.data.activities),
        PresenceStateModel::Unknown => Seq::empty(),
    }
}

fn lacks_large_image_exec(a: &ActivitySnapshot) -> (r: bool)
    ensures
        r == lacks_large_image(a.deep_view()),
{
    match &a.assets {
        Some(x) => match &x.large_image {
            Some(v) => is_blank(v.as_str()),
            None => true,
        },
        None => true,
    }
}

fn contains_string(v: &Vec<String>, s: &str) -> (r: bool)
    ensures
        r == v.deep_view().contains(s@),
{
    let ghost dv = v.deep_view();
    let mut i: usize = 0;
    while i < v.len()
        invariant
            i <= v@.len(),
            dv == v.deep_view(),
            forall|k: int| 0 <= k < i ==> dv[k] != s@,
        decreases v.len() - i,
    {
        if equals(v[i].as_str(), s) {
            proof {
                assert(dv[i as int] == s@);
            }
            return true;
        }
        i = i + 1;
    }
    false
}

/// The applications whose icon is wanted, each once.
pub fn missing_application_icons(runtime: &RuntimeState) -> (r: Vec<String>)
    ensures
        r.deep_view() == missing_icons_spec(runtime.deep_view()),
{
    let mut r: Vec<String> = Vec::new();
    match &runtime.presence {
        PresenceState::Known(snapshot) => {
            let acts = &snapshot.data.activities;
            let ghost all = acts.deep_view();
            let mut i: usize = 0;
            while i < acts.len()
                invariant
                    i <= acts@.len(),
                    all == acts.deep_view(),
                    r.deep_view() == missing_icons_from(all.take(i as int)),
                decreases acts.len() - i,
            {
                proof {
                    assert(all.take(i + 1).drop_last() == all.take(i as int));
                    assert(all.take(i + 1).last() == all[i as int]);
                }
                let a = &acts[i];
                if let Some(id) = &a.application_id {
                    if lacks_large_image_exec(a) && !contains_string(&r, id.as_str()) {
                        let ghost before = r.deep_view();
                        r.push(owned(id.as_str()));
                        proof {
                            assert(r.deep_view() =~= before.push(id@));
                        }
                    }
                }
                i = i + 1;
            }
            proof {
                assert(all.take(acts@.len() as int) == all);
            }
        },
        PresenceState::Unknown => {
            proof {
                assert(r.deep_view() =~= Seq::<Seq<char>>::empty());
            }
        },
    }
    r
}

/// The icon cached for an application: the last entry for it wins.
pub open spec fn icon_for(icons: Seq<(Seq<char>, Seq<char>)>, id: Seq<char>) -> Option<Seq<char>>
    decreases icons.len(),
{
    if icons.len() == 0 {
        None
    } else if icons.last().0 == id {
        Some(icons.last().1)
    } else {
        icon_for(icons.drop_last(), id)
    }
}

/// An activity with the cached icon of its application as its large image, where it is a
/// candidate, an icon is cached and it has no large image of its own.
pub open spec fn with_icon_spec(
    a: ActivityModel,
    icons: Seq<(Seq<char>, Seq<char>)>,
    candidates: Seq<Seq<char>>,
) -> ActivityModel {
    match a.application_id {
        Some(id) => if candidates.contains(id) && icon_for(icons, id) is Some {
            let assets = match a.assets {
                Some(x) => x,
                None => AssetsModel {
                    large_image: None,
                    large_text: None,
                    small_image: None,
                    small_text: None,
                },
            };
            let large = match assets.large_image {
                Some(v) => if trim_spec(v).len() == 0 {
                    Some("appicon:"@ + icon_for(icons, id)->0)
                } else {
                    Some(v)
                },
                None => Some("appicon:"@ + icon_for(icons, id)->0),
            };
            ActivityModel {
                assets: Some(
                    AssetsModel {
                        large_image: large,
                        large_text: assets.large_text,
                        small_image: assets.small_image,
                        small_text: assets.small_text,
                    },
                ),
                ..a
            }
        } else {
            a
        },
        None => a,
    }
}

/// The runtime state with the cached icons applied to its activities.
pub open spec fn apply_icons_spec(
    m: RuntimeModel,
    icons: Seq<(Seq<char>, Seq<char>)>,
    candidates: Seq<Seq<char>>,
) -> RuntimeModel {
    match m.presence {
        PresenceStateModel::Known(s) => RuntimeModel {
            presence: PresenceStateModel::Known(
                crate::state::SnapshotModel {
                    data: crate::state::PresenceDataModel {
                        activities: s.data.activities.map_values(
                            |a: ActivityModel| with_icon_spec(a, icons, candidates),
                        ),
                        ..s.data
                    },
                    ..s
                },
            ),
            ..m
        },
        PresenceStateModel::Unknown => m,
    }
}

fn icon_lookup(icons: &Vec<(String, String)>, id: &str) -> (r: Option<String>)
    ensures
        r.deep_view() == icon_for(icons.deep_view(), id@),
{
    let ghost all = icons.deep_view();
    let mut k = icons.len();
    proof {
        assert(all.take(k as int) == all);
    }
    while k > 0
        invariant
            k <= icons@.len(),
            all == icons.deep_view(),
            icon_for(all, id@) == icon_for(all.take(k as int), id@),
        decreases k,
    {
        proof {
            assert(all.take(k as int).drop_last() == all.take(k - 1));
            assert(all.take(k as int).last() == all[k - 1]);
        }
        if equals(icons[k - 1].0.as_str(), id) {
            return Some(owned(icons[k - 1].1.as_str()));
        }
        k = k - 1;
    }
    None
}

fn with_icon(
    a: &ActivitySnapshot,
    icons: &Vec<(String, String)>,
    candidates: &Vec<String>,
) -> (r: ActivitySnapshot)
    ensures
        r.deep_view() == with_icon_spec(a.deep_view(), icons.deep_view(), candidates.deep_view()),
{
    let mut r = a.clone();
    let id = match &a.application_id {
        Some(id) => id,
        None => return r,
    };
    if !contains_string(candidates, id.as_str()) {
        return r;
    }
    let icon = match icon_lookup(icons, id.as_str()) {
        Some(h) => h,
        None => return r,
    };
    let mut appicon = owned("appicon:");
    push_str(&mut appicon, icon.as_str());
    let assets = match &a.assets {
        Some(x) => x.clone(),
        None => ActivityAssetsSnapshot {
            large_image: None,
            large_text: None,
            small_image: None,
            small_text: None,
        },
    };
    let large = match &assets.large_image {
        Some(v) => if is_blank(v.as_str()) {
            Some(appicon)
        } else {
            Some(owned(v.as_str()))
        },
        None => Some(appicon),
    };
    r.assets = Some(
        ActivityAssetsSnapshot {
            large_image: large,
            large_text: assets.large_text,
            small_image: assets.small_image,
            small_text: assets.small_text,
        },
    );
    r
}

/// The runtime state with the cached icons applied to the candidate activities that
/// have no large image of their own.
pub fn apply_icons(
    runtime: &RuntimeState,
    icons: &Vec<(String, String)>,
    candidates: &Vec<String>,
) -> (r: RuntimeState)
    ensures
        r.deep_view() == apply_icons_spec(
            runtime.deep_view(),
            icons.deep_view(),
            candidates.deep_view(),
        ),
{
    match &runtime.presence {
        PresenceState::Known(snapshot) => {
            let acts = &snapshot.data.activities;
            let mut out: Vec<ActivitySnapshot> = Vec::new();
            let mut i: usize = 0;
            while i < acts.len()
                invariant
                    i <= acts@.len(),
                    out@.len() == i,
                    forall|k: int|
                        0 <= k < i ==> (#[trigger] out@[k]).deep_view() == with_icon_spec(
                            acts@[k].deep_view(),
                            icons.deep_view(),
                            candidates.deep_view(),
                        ),
                decreases acts.len() - i,
            {
                out.push(with_icon(&acts[i], icons, candidates));
                i = i + 1;
            }
            proof {
                assert(out.deep_view() =~= acts.deep_view().map_values(
                    |a: ActivityModel| with_icon_spec(a, icons.deep_view(), candidates.deep_view()),
                ));
            }
            RuntimeState {
                freshness: runtime.freshness,
                gateway_status: runtime.gateway_status,
                last_target_event_unix_ms: runtime.last_target_event_unix_ms,
                presence: PresenceState::Known(
                    PresenceSnapshot {
                        data: PresenceData {
                            activities: out,
                            client_status: snapshot.data.client_status,
                            status: snapshot.data.status,
                        },
                        observed_at_unix_ms: snapshot.observed_at_unix_ms,
                        revision: snapshot.revision,
                    },
                ),
                stream_revision: runtime.stream_revision,
                unvalidated_since_unix_ms: runtime.unvalidated_since_unix_ms,
            }
        },
        PresenceState::Unknown => runtime.clone(),
    }
}

/// Whether an application id is a non-empty run of ASCII digits.
pub open spec fn valid_application_id_spec(s: Seq<char>) -> bool {
    s.len() > 0 && forall|i: int| 0 <= i < s.len() ==> is_ascii_digit(#[trigger] s[i])
}

/// Whether an icon hash is a non-empty run of ASCII letters, digits and `_`.
pub open spec fn valid_icon_hash_spec(s: Seq<char>) -> bool {
    s.len() > 0 && forall|i: int|
        0 <= i < s.len() ==> is_ascii_alphanumeric(#[trigger] s[i]) || s[i] == '_'
}

/// Whether an application id is a non-empty run of ASCII digits.
pub fn valid_application_id(value: &str) -> (r: bool)
    ensures
        r == valid_application_id_spec(value@),
{
    let chars = chars_of(value);
    if chars.len() == 0 {
        return false;
    }
    let mut i: usize = 0;
    while i < chars.len()
        invariant
            i <= chars@.len(),
            chars@ == value@,
            forall|k: int| 0 <= k < i ==> is_ascii_digit(#[trigger] value@[k]),
        decreases chars.len() - i,
    {
        if !is_digit(chars[i]) {
            return false;
        }
        i = i + 1;
    }
    true
}

/// Whether an icon hash is a non-empty run of ASCII letters, digits and `_`.
pub fn valid_icon_hash(value: &str) -> (r: bool)
    ensures
        r == valid_icon_hash_spec(value@),
{
    let chars = chars_of(value);
    if chars.len() == 0 {
        return false;
    }
    let mut i: usize = 0;
    while i < chars.len()
        invariant
            i <= chars@.len(),
            chars@ == value@,
            forall|k: int| 0 <= k < i ==> is_ascii_alphanumeric(#[trigger] value@[k]) || value@[k] == '_',
        decreases chars.len() - i,
    {
        if !(is_alphanumeric_ascii(chars[i]) || chars[i] == '_') {
            return false;
        }
        i = i + 1;
    }
    true
}

/// An application as the RPC metadata endpoint reports it.
#[derive(Debug)]
pub struct RpcApplication {
    pub id: String,
    pub icon: Option<String>,
}

/// The icon of an application's RPC metadata: an error where the metadata is about
/// another application; its trimmed icon hash where that is valid.
pub fn rpc_icon(expected_id: &str, application: &RpcApplication) -> (r: Result<Option<String>, ()>)
    ensures
        application.id@ != expected_id@ ==> r is Err,
        application.id@ == expected_id@ ==> (r matches Ok(icon) && icon.deep_view() == match application.icon {
            Some(h) => if valid_icon_hash_spec(trim_spec(h@)) {
                Some(trim_spec(h@))
            } else {
                None
            },
            None => None,
        }),
{
    if !equals(application.id.as_str(), expected_id) {
        return Err(());
    }
    match &application.icon {
        Some(h) => {
            let t = trim(h.as_str());
            if valid_icon_hash(t.as_str()) {
                Ok(Some(t))
            } else {
                Ok(None)
            }
        },
        None => Ok(None),
    }
}

/// What the cache knows of one application.
#[derive(Debug)]
pub struct IconCacheEntry {
    pub application_id: String,
    pub icon: Option<String>,
    pub valid_until_ms: Option<u64>,
    pub retry_after_ms: Option<u64>,
}

/// The value of an `IconCacheEntry`, without its key.
pub struct EntryModel {
    pub icon: Option<Seq<char>>,
    pub valid_until_ms: Option<u64>,
    pub retry_after_ms: Option<u64>,
}

/// The outcome of looking up an application's icon.
#[derive(Debug)]
pub enum IconLookup {
    /// The application has this icon.
    Icon(String),
    /// The application has no icon.
    NoIcon,
    /// The lookup failed.
    Failed,
}

/// The cached icons, with how long each answer holds and when a failed lookup may be
/// retried; one entry per application.
pub struct IconCache {
    entries: Vec<IconCacheEntry>,
}

/// The position of the first entry at or after `k` for `id`.
pub open spec fn entry_index(ids: Seq<Seq<char>>, id: Seq<char>, k: int) -> Option<int>
    decreases ids.len() - k,
{
    if k < 0 || k >= ids.len() {
        None
    } else if ids[k] == id {
        Some(k)
    } else {
        entry_index(ids, id, k + 1)
    }
}

/// Whether the answer for an application is still valid at `now`, or a retry is not yet
/// due.
pub open spec fn settled(e: Option<EntryModel>, now: u64) -> bool {
    match e {
        Some(x) => (x.valid_until_ms matches Some(t) && t > now) || (x.retry_after_ms matches Some(
            t,
        ) && t > now),
        None => false,
    }
}

/// The entry after a lookup at `now`.
pub open spec fn after_lookup(e: Option<EntryModel>, outcome: IconLookup, now: u64) -> EntryModel {
    match outcome {
        IconLookup::Icon(h) => EntryModel {
            icon: Some(h@),
            valid_until_ms: Some((now + ICON_TTL_MS) as u64),
            retry_after_ms: None,
        },
        IconLookup::NoIcon => EntryModel {
            icon: None,
            valid_until_ms: Some((now + NO_ICON_TTL_MS) as u64),
            retry_after_ms: None,
        },
        IconLookup::Failed => EntryModel {
            icon: match e {
                Some(x) => x.icon,
                None => None,
            },
            valid_until_ms: match e {
                Some(x) => x.valid_until_ms,
                None => None,
            },
            retry_after_ms: Some((now + FAILURE_RETRY_MS) as u64),
        },
    }
}

/// The candidates whose icon is due for a lookup at `now`, in their order.
pub open spec fn due_spec(cache: IconCache, candidates: Seq<Seq<char>>, now: u64) -> Seq<Seq<char>>
    decreases candidates.len(),
{
    if candidates.len() == 0 {
        Seq::empty()
    } else {
        let rest = due_spec(cache, candidates.drop_last(), now);
        if settled(cache.entry(candidates.last()), now) {
            rest
        } else {
            rest.push(candidates.last())
        }
    }
}

impl IconCache {
    pub closed spec fn ids(&self) -> Seq<Seq<char>> {
        self.entries@.map_values(|e: IconCacheEntry| e.application_id@)
    }

    /// What the cache knows of an application.
    pub closed spec fn entry(&self, id: Seq<char>) -> Option<EntryModel> {
        match entry_index(self.ids(), id, 0) {
            Some(i) => Some(
                EntryModel {
                    icon: self.entries@[i].icon.deep_view(),
                    valid_until_ms: self.entries@[i].valid_until_ms,
                    retry_after_ms: self.entries@[i].retry_after_ms,
                },
            ),
            None => None,
        }
    }

    /// The cached icons, one per application.
    pub closed spec fn icon_pairs(&self) -> Seq<(Seq<char>, Seq<char>)> {
        icon_pairs_of(self.entries@)
    }

    pub fn new() -> (r: Self)
        ensures
            forall|id: Seq<char>| r.entry(id) is None,
    {
        IconCache { entries: Vec::new() }
    }

    fn find(&self, id: &str) -> (r: Option<usize>)
        ensures
            r matches Some(i) ==> entry_index(self.ids(), id@, 0) == Some(i as int) && i
                < self.entries@.len(),
            r is None ==> entry_index(self.ids(), id@, 0) is None,
    {
        let ghost ids = self.ids();
        let mut i: usize = 0;
        while i < self.entries.len()
            invariant
                i <= self.entries@.len(),
                ids == self.ids(),
                ids.len() == self.entries@.len(),
                entry_index(ids, id@, 0) == entry_index(ids, id@, i as int),
            decreases self.entries.len() - i,
        {
            proof {
                assert(ids[i as int] == self.entries@[i as int].application_id@);
            }
            if equals(self.entries[i].application_id.as_str(), id) {
                return Some(i);
            }
            i = i + 1;
        }
        None
    }

    /// Whether the answer for an application still holds at `now`.
    pub fn is_settled(&self, id: &str, now_ms: u64) -> (r: bool)
        ensures
            r == settled(self.entry(id@), now_ms),
    {
        match self.find(id) {
            Some(i) => {
                let e = &self.entries[i];
                (match e.valid_until_ms {
                    Some(t) => t > now_ms,
                    None => false,
                }) || (match e.retry_after_ms {
                    Some(t) => t > now_ms,
                    None => false,
                })
            },
            None => false,
        }
    }

    /// The candidates whose icon is due for a lookup at `now`: neither a valid answer nor
    /// a pending retry window holds for them.
    pub fn due_candidates(&self, candidates: &Vec<String>, now_ms: u64) -> (r: Vec<String>)
        ensures
            r.deep_view() == due_spec(*self, candidates.deep_view(), now_ms),
    {
        let ghost all = candidates.deep_view();
        let mut r: Vec<String> = Vec::new();
        let mut i: usize = 0;
        while i < candidates.len()
            invariant
                i <= candidates@.len(),
                all == candidates.deep_view(),
                r.deep_view() == due_spec(*self, all.take(i as int), now_ms),
            decreases candidates.len() - i,
        {
            proof {
                assert(all.take(i + 1).drop_last() == all.take(i as int));
                assert(all.take(i + 1).last() == all[i as int]);
            }
            if !self.is_settled(candidates[i].as_str(), now_ms) {
                let ghost before = r.deep_view();
                r.push(owned(candidates[i].as_str()));
                proof {
                    assert(r.deep_view() =~= before.push(all[i as int]));
                }
            }
            i = i + 1;
        }
        proof {
            assert(all.take(candidates@.len() as int) == all);
        }
        r
    }

    /// Records the outcome of a lookup at `now`: a found icon holds for a day, the absence
    /// of one for an hour, and a failure keeps what was known and waits five minutes
    /// before the next lookup. Other applications are untouched.
    pub fn record(&mut self, id: &str, outcome: IconLookup, now_ms: u64)
        requires
            now_ms <= u64::MAX - ICON_TTL_MS,
        ensures
            final(self).entry(id@) == Some(after_lookup(old(self).entry(id@), outcome, now_ms)),
            forall|other: Seq<char>| other != id@ ==> final(self).entry(other) == old(self).entry(
                other,
            ),
    {
        let ghost before = self.entry(id@);
        let ghost old_ids = self.ids();
        let ghost old_entries = self.entries@;
        let found = self.find(id);
        let (icon, valid, retry) = match &outcome {
            IconLookup::Icon(h) => (Some(owned(h.as_str())), Some(now_ms + ICON_TTL_MS), None),
            IconLookup::NoIcon => (None, Some(now_ms + NO_ICON_TTL_MS), None),
            IconLookup::Failed => match found {
                Some(i) => (
                    clone_opt_string(&self.entries[i].icon),
                    self.entries[i].valid_until_ms,
                    Some(now_ms + FAILURE_RETRY_MS),
                ),
                None => (None, None, Some(now_ms + FAILURE_RETRY_MS)),
            },
        };
        let entry = IconCacheEntry {
            application_id: owned(id),
            icon,
            valid_until_ms: valid,
            retry_after_ms: retry,
        };
        match found {
            Some(i) => {
                let ghost new_id = entry.application_id@;
                self.entries.set(i, entry);
                proof {
                    lemma_entry_index_bounds(old_ids, id@, 0);
                    assert(old_ids[i as int] == id@);
                    assert(self.entries@ == old_entries.update(i as int, self.entries@[i as int]));
                    assert forall|k: int| 0 <= k < self.ids().len() implies self.ids()[k] == old_ids[k] by {
                        if k == i {
                            assert(self.ids()[k] == self.entries@[k].application_id@);
                        } else {
                            assert(self.entries@[k] == old_entries[k]);
                        }
                    }
                    assert(self.ids() =~= old_ids);
                    assert forall|other: Seq<char>| other != id@ implies self.entry(other)
                        == old(self).entry(other) by {
                        lemma_entry_index_not(old_ids, id@, other, i as int, 0);
                        lemma_entry_index_bounds(old_ids, other, 0);
                        match entry_index(old_ids, other, 0) {
                            Some(j) => {
                                assert(self.entries@[j] == old_entries[j]);
                            },
                            None => {},
                        }
                    }
                }
            },
            None => {
                self.entries.push(entry);
                proof {
                    assert(self.ids() =~= old_ids.push(id@));
                    lemma_entry_index_push(old_ids, id@, 0);
                    assert forall|other: Seq<char>| other != id@ implies self.entry(other)
                        == old(self).entry(other) by {
                        lemma_entry_index_push_other(old_ids, id@, other, 0);
                        lemma_entry_index_bounds(old_ids, other, 0);
                        match entry_index(old_ids, other, 0) {
                            Some(j) => {
                                assert(self.entries@[j] == old_entries[j]);
                            },
                            None => {},
                        }
                    }
                }
            },
        }
    }

    /// The cached icons, one pair of application and icon hash per application that has one.
    pub fn icons(&self) -> (r: Vec<(String, String)>)
        ensures
            r.deep_view() == self.icon_pairs(),
    {
        let ghost all = self.entries@;
        let mut r: Vec<(String, String)> = Vec::new();
        let mut i: usize = 0;
        while i < self.entries.len()
            invariant
                i <= self.entries@.len(),
                all == self.entries@,
                r.deep_view() == icon_pairs_of(all.take(i as int)),
            decreases self.entries.len() - i,
        {
            proof {
                assert(all.take(i + 1).drop_last() == all.take(i as int));
                assert(all.take(i + 1).last() == all[i as int]);
            }
            if let Some(h) = &self.entries[i].icon {
                let ghost before = r.deep_view();
                let pair = (owned(self.entries[i].application_id.as_str()), owned(h.as_str()));
                r.push(pair);
                proof {
                    assert(r.deep_view() =~= before.push((all[i as int].application_id@, h@)));
                }
            }
            i = i + 1;
        }
        proof {
            assert(all.take(self.entries@.len() as int) == all);
        }
        r
    }
}

/// The pairs of application and icon hash of the entries that have an icon.
pub open spec fn icon_pairs_of(entries: Seq<IconCacheEntry>) -> Seq<(Seq<char>, Seq<char>)>
    decreases entries.len(),
{
    if entries.len() == 0 {
        Seq::empty()
    } else {
        let rest = icon_pairs_of(entries.drop_last());
        match entries.last().icon {
            Some(h) => rest.push((entries.last().application_id@, h@)),
            None => rest,
        }
    }
}

proof fn lemma_entry_index_bounds(ids: Seq<Seq<char>>, id: Seq<char>, k: int)
    requires
        0 <= k,
    ensures
        entry_index(ids, id, k) matches Some(j) ==> k <= j < ids.len() && ids[j] == id,
    decreases ids.len() - k,
{
    if k < ids.len() && ids[k] != id {
        lemma_entry_index_bounds(ids, id, k + 1);
    }
}

proof fn lemma_entry_index_not(ids: Seq<Seq<char>>, id: Seq<char>, other: Seq<char>, i: int, k: int)
    requires
        other != id,
        0 <= k,
        entry_index(ids, id, 0) == Some(i),
    ensures
        entry_index(ids, other, k) matches Some(j) ==> j != i,
    decreases ids.len() - k,
{
    lemma_entry_index_bounds(ids, id, 0);
    lemma_entry_index_bounds(ids, other, k);
    if k < ids.len() && ids[k] != other {
        lemma_entry_index_not(ids, id, other, i, k + 1);
    }
}

proof fn lemma_entry_index_push(ids: Seq<Seq<char>>, id: Seq<char>, k: int)
    requires
        0 <= k <= ids.len(),
        entry_index(ids, id, k) is None,
    ensures
        entry_index(ids.push(id), id, k) == Some(ids.len() as int),
    decreases ids.len() - k,
{
    if k < ids.len() {
        assert(ids.push(id)[k] == ids[k]);
        lemma_entry_index_push(ids, id, k + 1);
    } else {
        assert(ids.push(id)[k] == id);
    }
}

proof fn lemma_entry_index_push_other(ids: Seq<Seq<char>>, id: Seq<char>, other: Seq<char>, k: int)
    requires
        0 <= k <= ids.len(),
        other != id,
    ensures
        entry_index(ids.push(id), other, k) == entry_index(ids, other, k),
    decreases ids.len() - k,
{
    if k < ids.len() {
        assert(ids.push(id)[k] == ids[k]);
        lemma_entry_index_push_other(ids, id, other, k + 1);
    } else {
        assert(ids.push(id)[k] == id);
        assert(entry_index(ids.push(id), other, k + 1) is None);
    }
}

/// A failed lookup keeps the icon that was known, and the application is not due again
/// until the retry window has passed.
pub proof fn law_failed_lookup_keeps_stale_icon(e: Option<EntryModel>, now: u64)
    requires
        now <= u64::MAX - ICON_TTL_MS,
    ensures
        after_lookup(e, IconLookup::Failed, now).icon == match e {
            Some(x) => x.icon,
            None => None,
        },
        settled(Some(after_lookup(e, IconLookup::Failed, now)), now),
{
}

/// A recorded answer holds at the time it was recorded, so the application is not looked
/// up again at once.
pub proof fn law_recorded_answer_settles(e: Option<EntryModel>, outcome: IconLookup, now: u64)
    requires
        now <= u64::MAX - ICON_TTL_MS,
    ensures
        settled(Some(after_lookup(e, outcome, now)), now),
{
}

} // verus!
