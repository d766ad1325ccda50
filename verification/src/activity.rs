//! Artwork resolution and the Spotify projection of Discord activities.
use vstd::prelude::*;

use crate::state::{ActivityKind, ActivityModel, ActivitySnapshot};
use crate::text::{
    chars_of, eq_ignore_case_spec, equals, has_prefix, is_alphanumeric_ascii, is_ascii_alphanumeric,
    is_ascii_digit, is_digit, lower, lower_spec, matches_at, non_empty, non_empty_spec, owned,
    push_chars, push_str, trim, trim_spec, trimmed_is,
};

verus! {

#[derive(Clone, Copy, Debug, PartialEq, Eq, Structural)]
pub enum ArtworkSource {
    DiscordApplication,
    DiscordMediaProxy,
    Spotify,
    LocalFallback,
}

pub open spec fn source_name(source: ArtworkSource) -> Seq<char> {
    match source {
        ArtworkSource::DiscordApplication => "discord_application"@,
        ArtworkSource::DiscordMediaProxy => "discord_media_proxy"@,
        ArtworkSource::Spotify => "spotify"@,
        ArtworkSource::LocalFallback => "local_fallback"@,
    }
}

impl ArtworkSource {
    /// The stable public name of the source.
    pub fn as_str(self) -> (r: &'static str)
        ensures
            r@ == source_name(self),
    {
        match self {
            ArtworkSource::DiscordApplication => "discord_application",
            ArtworkSource::DiscordMediaProxy => "discord_media_proxy",
            ArtworkSource::Spotify => "spotify",
            ArtworkSource::LocalFallback => "local_fallback",
        }
    }
}

#[derive(Debug, PartialEq, Eq)]
pub struct ResolvedArtwork {
    pub fallback_key: &'static str,
    pub source: ArtworkSource,
    pub url: Option<String>,
}

#[derive(Debug, PartialEq, Eq)]
pub struct SpotifyActivity {
    pub album: Option<String>,
    pub artist: Option<String>,
    pub cover_url: Option<String>,
    pub duration_ms: Option<u64>,
    pub end_unix_ms: Option<u64>,
    pub start_unix_ms: Option<u64>,
    pub title: Option<String>,
}

/// The value of a `SpotifyActivity`.
pub struct SpotifyActivityModel {
    pub album: Option<Seq<char>>,
    pub artist: Option<Seq<char>>,
    pub cover_url: Option<Seq<char>>,
    pub duration_ms: Option<u64>,
    pub end_unix_ms: Option<u64>,
    pub start_unix_ms: Option<u64>,
    pub title: Option<Seq<char>>,
}

impl DeepView for SpotifyActivity {
    type V = SpotifyActivityModel;

    open spec fn deep_view(&self) -> SpotifyActivityModel {
        SpotifyActivityModel {
            album: self.album.deep_view(),
            artist: self.artist.deep_view(),
            cover_url: self.cover_url.deep_view(),
            duration_ms: self.duration_ms,
            end_unix_ms: self.end_unix_ms,
            start_unix_ms: self.start_unix_ms,
            title: self.title.deep_view(),
        }
    }
}

/// The local icon that stands in for an activity's artwork.
pub open spec fn icon_key_spec(name: Seq<char>) -> Seq<char> {
    let k = lower_spec(trim_spec(name));
    if k == "spotify"@ {
        "spotify"@
    } else if k == "valorant"@ {
        "valorant"@
    } else if k == "rustrover"@ {
        "rustrover"@
    } else if k == "intellij idea"@ || k == "intellij idea ultimate"@ {
        "intellij"@
    } else if k == "pycharm"@ || k == "pycharm professional"@ {
        "pycharm"@
    } else if k == "visual studio code"@ || k == "code"@ {
        "vscode"@
    } else {
        "activity"@
    }
}

pub open spec fn is_spotify_spec(a: ActivityModel) -> bool {
    a.kind == ActivityKind::Listening && eq_ignore_case_spec(trim_spec(a.name), "spotify"@)
}

pub open spec fn simple_id_char(c: char) -> bool {
    is_ascii_alphanumeric(c) || c == '_' || c == '-'
}

pub open spec fn media_char(c: char) -> bool {
    let n = c as u32;
    !(n < 0x20 || n == 0x7f) && !(c == ' ' || c == '\t' || c == '\n' || c == '\x0C' || c
        == '\r') && c != '?' && c != '#'
}

pub open spec fn valid_snowflake_spec(s: Seq<char>) -> bool {
    s.len() > 0 && forall|i: int| 0 <= i < s.len() ==> is_ascii_digit(#[trigger] s[i])
}

pub open spec fn valid_simple_id_spec(s: Seq<char>) -> bool {
    s.len() > 0 && forall|i: int| 0 <= i < s.len() ==> simple_id_char(#[trigger] s[i])
}

pub open spec fn valid_media_proxy_spec(s: Seq<char>) -> bool {
    s.len() > 0 && s[0] != '/' && forall|i: int| 0 <= i < s.len() ==> media_char(#[trigger] s[i])
}

/// The trimmed, non-empty large image key of an activity.
pub open spec fn large_image_spec(a: ActivityModel) -> Option<Seq<char>> {
    match a.assets {
        Some(x) => non_empty_spec(x.large_image),
        None => None,
    }
}

/// Where an activity's artwork comes from and the image URL, if one is usable:
/// a media proxy key, a Spotify cover key on a Spotify activity, or a Discord
/// application asset of an activity with a numeric application id.
pub open spec fn artwork_spec(a: ActivityModel) -> (ArtworkSource, Option<Seq<char>>) {
    match large_image_spec(a) {
        None => (ArtworkSource::LocalFallback, None),
        Some(raw) => {
            let mp = "mp:"@;
            let sp = "spotify:"@;
            if has_prefix(raw, mp) && valid_media_proxy_spec(raw.skip(mp.len() as int)) {
                (
                    ArtworkSource::DiscordMediaProxy,
                    Some("https://media.discordapp.net/"@ + raw.skip(mp.len() as int)),
                )
            } else if is_spotify_spec(a) && has_prefix(raw, sp) && valid_simple_id_spec(
                raw.skip(sp.len() as int),
            ) {
                (
                    ArtworkSource::Spotify,
                    Some("https://i.scdn.co/image/"@ + raw.skip(sp.len() as int)),
                )
            } else if valid_simple_id_spec(raw) && a.application_id is Some
                && valid_snowflake_spec(a.application_id->0) {
                (
                    ArtworkSource::DiscordApplication,
                    Some(
                        "https://cdn.discordapp.com/app-assets/"@ + a.application_id->0 + "/"@
                            + raw + ".png"@,
                    ),
                )
            } else {
                (ArtworkSource::LocalFallback, None)
            }
        },
    }
}

/// The Spotify fields that a Spotify activity carries.
pub open spec fn spotify_from_spec(a: ActivityModel) -> SpotifyActivityModel {
    let start = match a.timestamps {
        Some(t) => t.start,
        None => None,
    };
    let end = match a.timestamps {
        Some(t) => t.end,
        None => None,
    };
    SpotifyActivityModel {
        album: match a.assets {
            Some(x) => non_empty_spec(x.large_text),
            None => None,
        },
        artist: non_empty_spec(a.state),
        cover_url: artwork_spec(a).1,
        duration_ms: match (start, end) {
            (Some(s), Some(e)) => if e >= s {
                Some((e - s) as u64)
            } else {
                None
            },
            _ => None,
        },
        end_unix_ms: end,
        start_unix_ms: start,
        title: non_empty_spec(a.details),
    }
}

/// The index of the first Spotify activity at or after `i`.
pub open spec fn first_spotify_from(acts: Seq<ActivityModel>, i: int) -> Option<int>
    decreases acts.len() - i,
{
    if i < 0 || i >= acts.len() {
        None
    } else if is_spotify_spec(acts[i]) {
        Some(i)
    } else {
        first_spotify_from(acts, i + 1)
    }
}

/// The Spotify projection of the first Spotify activity, if there is one.
pub open spec fn spotify_activity_spec(acts: Seq<ActivityModel>) -> Option<SpotifyActivityModel> {
    match first_spotify_from(acts, 0) {
        Some(i) => Some(spotify_from_spec(acts[i])),
        None => None,
    }
}

pub fn is_spotify_activity(activity: &ActivitySnapshot) -> (r: bool)
    ensures
        r == is_spotify_spec(activity.deep_view()),
{
    activity.kind == ActivityKind::Listening && trimmed_is(activity.name.as_str(), "spotify")
}

/// Each known product gets its own icon, whatever the case and surrounding whitespace
/// of its name: Spotify, VALORANT and RustRover their own; IntelliJ IDEA (also
/// Ultimate) "intellij"; PyCharm (also Professional) "pycharm"; Visual Studio Code and
/// Code "vscode"; every other name the generic "activity".
pub proof fn law_product_names_map_to_their_icons(name: Seq<char>)
    ensures
        ({
            let k = lower_spec(trim_spec(name));
            &&& k == "spotify"@ ==> icon_key_spec(name) == "spotify"@
            &&& k == "valorant"@ ==> icon_key_spec(name) == "valorant"@
            &&& k == "rustrover"@ ==> icon_key_spec(name) == "rustrover"@
            &&& (k == "intellij idea"@ || k == "intellij idea ultimate"@) ==> icon_key_spec(name) == "intellij"@
            &&& (k == "pycharm"@ || k == "pycharm professional"@) ==> icon_key_spec(name) == "pycharm"@
            &&& (k == "visual studio code"@ || k == "code"@) ==> icon_key_spec(name) == "vscode"@
            &&& (k != "spotify"@ && k != "valorant"@ && k != "rustrover"@ && k != "intellij idea"@
                && k != "intellij idea ultimate"@ && k != "pycharm"@ && k != "pycharm professional"@
                && k != "visual studio code"@ && k != "code"@) ==> icon_key_spec(name) == "activity"@
        }),
{
    reveal_strlit("spotify");
    reveal_strlit("valorant");
    reveal_strlit("rustrover");
    reveal_strlit("intellij idea");
    reveal_strlit("intellij idea ultimate");
    reveal_strlit("pycharm");
    reveal_strlit("pycharm professional");
    reveal_strlit("visual studio code");
    reveal_strlit("code");
    assert("spotify"@.len() == 7);
    assert("valorant"@.len() == 8);
    assert("rustrover"@.len() == 9);
    assert("intellij idea"@.len() == 13);
    assert("intellij idea ultimate"@.len() == 22);
    assert("pycharm"@.len() == 7);
    assert("pycharm professional"@.len() == 20);
    assert("visual studio code"@.len() == 18);
    assert("code"@.len() == 4);
    assert("spotify"@[0] != "pycharm"@[0]);
}

/// The local icon key for an activity name.
pub fn local_icon_key(name: &str) -> (r: &'static str)
    ensures
        r@ == icon_key_spec(name@),
{
    let t = trim(name);
    let k = lower(t.as_str());
    let k = k.as_str();
    if equals(k, "spotify") {
        "spotify"
    } else if equals(k, "valorant") {
        "valorant"
    } else if equals(k, "rustrover") {
        "rustrover"
    } else if equals(k, "intellij idea") || equals(k, "intellij idea ultimate") {
        "intellij"
    } else if equals(k, "pycharm") || equals(k, "pycharm professional") {
        "pycharm"
    } else if equals(k, "visual studio code") || equals(k, "code") {
        "vscode"
    } else {
        "activity"
    }
}

/// Whether every character of `chars[from..to]` is an ASCII digit, and there is one.
fn valid_snowflake_range(chars: &Vec<char>, from: usize, to: usize) -> (r: bool)
    requires
        from <= to <= chars@.len(),
    ensures
        r == valid_snowflake_spec(chars@.subrange(from as int, to as int)),
{
    let ghost s = chars@.subrange(from as int, to as int);
    if from == to {
        return false;
    }
    let mut i = from;
    while i < to
        invariant
            from <= i <= to <= chars@.len(),
            s == chars@.subrange(from as int, to as int),
            forall|k: int| 0 <= k < i - from ==> is_ascii_digit(#[trigger] s[k]),
        decreases to - i,
    {
        if !is_digit(chars[i]) {
            proof {
                assert(!is_ascii_digit(s[i - from]));
            }
            return false;
        }
        i = i + 1;
    }
    true
}

/// Whether `chars[from..to]` is a non-empty run of ASCII letters, digits, `_` and `-`.
fn valid_simple_id_range(chars: &Vec<char>, from: usize, to: usize) -> (r: bool)
    requires
        from <= to <= chars@.len(),
    ensures
        r == valid_simple_id_spec(chars@.subrange(from as int, to as int)),
{
    let ghost s = chars@.subrange(from as int, to as int);
    if from == to {
        return false;
    }
    let mut i = from;
    while i < to
        invariant
            from <= i <= to <= chars@.len(),
            s == chars@.subrange(from as int, to as int),
            forall|k: int| 0 <= k < i - from ==> simple_id_char(#[trigger] s[k]),
        decreases to - i,
    {
        let c = chars[i];
        if !(is_alphanumeric_ascii(c) || c == '_' || c == '-') {
            proof {
                assert(!simple_id_char(s[i - from]));
            }
            return false;
        }
        i = i + 1;
    }
    true
}

/// Whether `chars[from..to]` is a usable media proxy path.
fn valid_media_proxy_range(chars: &Vec<char>, from: usize, to: usize) -> (r: bool)
    requires
        from <= to <= chars@.len(),
    ensures
        r == valid_media_proxy_spec(chars@.subrange(from as int, to as int)),
{
    let ghost s = chars@.subrange(from as int, to as int);
    if from == to || chars[from] == '/' {
        return false;
    }
    let mut i = from;
    while i < to
        invariant
            from < to <= chars@.len(),
            from <= i <= to,
            s == chars@.subrange(from as int, to as int),
            s[0] != '/',
            forall|k: int| 0 <= k < i - from ==> media_char(#[trigger] s[k]),
        decreases to - i,
    {
        let c = chars[i];
        let n = c as u32;
        let ok = !(n < 0x20 || n == 0x7f) && !(c == ' ' || c == '\t' || c == '\n' || c == '\x0C'
            || c == '\r') && c != '?' && c != '#';
        if !ok {
            proof {
                assert(!media_char(s[i - from]));
            }
            return false;
        }
        i = i + 1;
    }
    true
}

/// A string made of `head` followed by `chars[from..to]`.
fn join_prefix(head: &str, chars: &Vec<char>, from: usize, to: usize) -> (r: String)
    requires
        from <= to <= chars@.len(),
    ensures
        r@ == head@ + chars@.subrange(from as int, to as int),
{
    let mut r = owned(head);
    push_chars(&mut r, chars, from, to);
    r
}

/// Resolves an activity's artwork into an image URL where Discord provides a usable
/// asset, with a deterministic local fallback key in every case.
pub fn resolve_artwork(activity: &ActivitySnapshot) -> (r: ResolvedArtwork)
    ensures
        r.fallback_key@ == icon_key_spec(activity.name@),
        (r.source, r.url.deep_view()) == artwork_spec(activity.deep_view()),
{
    let fallback_key = local_icon_key(activity.name.as_str());
    let raw = match &activity.assets {
        Some(assets) => non_empty(&assets.large_image),
        None => None,
    };
    let raw = match raw {
        Some(raw) => raw,
        None => {
            return ResolvedArtwork { fallback_key, source: ArtworkSource::LocalFallback, url: None };
        },
    };
    let chars = chars_of(raw.as_str());
    let n = chars.len();
    let ghost full = chars@.subrange(0, n as int);
    proof {
        assert(full == chars@);
    }
    let mp = chars_of("mp:");
    if matches_at(&chars, 0, &mp) && valid_media_proxy_range(&chars, mp.len(), n) {
        proof {
            assert(chars@.skip(mp@.len() as int) == chars@.subrange(mp@.len() as int, n as int));
        }
        return ResolvedArtwork {
            fallback_key,
            source: ArtworkSource::DiscordMediaProxy,
            url: Some(join_prefix("https://media.discordapp.net/", &chars, mp.len(), n)),
        };
    }
    let sp = chars_of("spotify:");
    if is_spotify_activity(activity) && matches_at(&chars, 0, &sp) && valid_simple_id_range(
        &chars,
        sp.len(),
        n,
    ) {
        proof {
            assert(chars@.skip(sp@.len() as int) == chars@.subrange(sp@.len() as int, n as int));
        }
        return ResolvedArtwork {
            fallback_key,
            source: ArtworkSource::Spotify,
            url: Some(join_prefix("https://i.scdn.co/image/", &chars, sp.len(), n)),
        };
    }
    if valid_simple_id_range(&chars, 0, n) {
        if let Some(application_id) = &activity.application_id {
            let ids = chars_of(application_id.as_str());
            if valid_snowflake_range(&ids, 0, ids.len()) {
                proof {
                    assert(ids@.subrange(0, ids@.len() as int) == ids@);
                }
                let mut url = owned("https://cdn.discordapp.com/app-assets/");
                push_str(&mut url, application_id.as_str());
                push_str(&mut url, "/");
                push_str(&mut url, raw.as_str());
                push_str(&mut url, ".png");
                return ResolvedArtwork {
                    fallback_key,
                    source: ArtworkSource::DiscordApplication,
                    url: Some(url),
                };
            }
            proof {
                assert(ids@.subrange(0, ids@.len() as int) == ids@);
            }
        }
    }
    ResolvedArtwork { fallback_key, source: ArtworkSource::LocalFallback, url: None }
}

/// The Spotify fields of the first Spotify listening activity, if there is one.
pub fn spotify_activity(activities: &[ActivitySnapshot]) -> (r: Option<SpotifyActivity>)
    ensures
        r.deep_view() == spotify_activity_spec(activities@.map_values(
            |a: ActivitySnapshot| a.deep_view(),
        )),
{
    let ghost acts = activities@.map_values(|a: ActivitySnapshot| a.deep_view());
    let mut i: usize = 0;
    while i < activities.len()
        invariant
            i <= activities@.len(),
            acts == activities@.map_values(|a: ActivitySnapshot| a.deep_view()),
            first_spotify_from(acts, 0) == first_spotify_from(acts, i as int),
        decreases activities.len() - i,
    {
        if is_spotify_activity(&activities[i]) {
            return Some(spotify_from(&activities[i]));
        }
        i = i + 1;
    }
    None
}

/// The Spotify fields of one Spotify activity.
fn spotify_from(activity: &ActivitySnapshot) -> (r: SpotifyActivity)
    ensures
        r.deep_view() == spotify_from_spec(activity.deep_view()),
{
    let artwork = resolve_artwork(activity);
    let (start, end) = match activity.timestamps {
        Some(t) => (t.start, t.end),
        None => (None, None),
    };
    let duration_ms = match (start, end) {
        (Some(s), Some(e)) => if e >= s {
            Some(e - s)
        } else {
            None
        },
        _ => None,
    };
    SpotifyActivity {
        album: match &activity.assets {
            Some(assets) => non_empty(&assets.large_text),
            None => None,
        },
        artist: non_empty(&activity.state),
        cover_url: artwork.url,
        duration_ms,
        end_unix_ms: end,
        start_unix_ms: start,
        title: non_empty(&activity.details),
    }
}

/// How many descriptive, asset, timestamp and application fields an activity fills in.
pub open spec fn richness_spec(a: ActivityModel) -> (u8, u8, u8, u8) {
    let b = |x: bool|
        if x {
            1u8
        } else {
            0u8
        };
    let descriptive = b(non_empty_spec(a.details) is Some) + b(non_empty_spec(a.state) is Some);
    let assets = match a.assets {
        Some(x) => b(non_empty_spec(x.large_image) is Some) + b(non_empty_spec(x.large_text) is Some)
            + b(non_empty_spec(x.small_image) is Some) + b(non_empty_spec(x.small_text) is Some),
        None => 0,
    };
    let timestamps = match a.timestamps {
        Some(t) => b(t.start is Some) + b(t.end is Some),
        None => 0,
    };
    let application = b(non_empty_spec(a.application_id) is Some);
    (descriptive as u8, assets as u8, timestamps as u8, application)
}

fn flag(x: bool) -> (r: u8)
    ensures
        r == (if x {
            1u8
        } else {
            0u8
        }),
{
    if x {
        1
    } else {
        0
    }
}

/// How many descriptive, asset, timestamp and application fields an activity fills in.
pub fn activity_richness(activity: &ActivitySnapshot) -> (r: (u8, u8, u8, u8))
    ensures
        r == richness_spec(activity.deep_view()),
{
    let descriptive = flag(non_empty(&activity.details).is_some()) + flag(
        non_empty(&activity.state).is_some(),
    );
    let assets = match &activity.assets {
        Some(x) => flag(non_empty(&x.large_image).is_some()) + flag(
            non_empty(&x.large_text).is_some(),
        ) + flag(non_empty(&x.small_image).is_some()) + flag(non_empty(&x.small_text).is_some()),
        None => 0,
    };
    let timestamps = match activity.timestamps {
        Some(t) => flag(t.start.is_some()) + flag(t.end.is_some()),
        None => 0,
    };
    let application = flag(non_empty(&activity.application_id).is_some());
    (descriptive, assets, timestamps, application)
}

/// The key by which a duplicate activity is preferred: the later start, then the richer entry.
pub open spec fn preference_spec(a: ActivityModel) -> (u64, (u8, u8, u8, u8)) {
    let start = match a.timestamps {
        Some(t) => match t.start {
            Some(s) => s,
            None => 0,
        },
        None => 0,
    };
    (start, richness_spec(a))
}

/// Lexicographic order on richness tuples.
pub open spec fn richness_gt(a: (u8, u8, u8, u8), b: (u8, u8, u8, u8)) -> bool {
    a.0 > b.0 || (a.0 == b.0 && (a.1 > b.1 || (a.1 == b.1 && (a.2 > b.2 || (a.2 == b.2 && a.3
        > b.3)))))
}

/// Lexicographic order on preference keys.
pub open spec fn preference_gt(a: (u64, (u8, u8, u8, u8)), b: (u64, (u8, u8, u8, u8))) -> bool {
    a.0 > b.0 || (a.0 == b.0 && richness_gt(a.1, b.1))
}

pub fn activity_preference_key(activity: &ActivitySnapshot) -> (r: (u64, (u8, u8, u8, u8)))
    ensures
        r == preference_spec(activity.deep_view()),
{
    let start = match activity.timestamps {
        Some(t) => match t.start {
            Some(s) => s,
            None => 0,
        },
        None => 0,
    };
    (start, activity_richness(activity))
}

pub fn richness_greater(a: (u8, u8, u8, u8), b: (u8, u8, u8, u8)) -> (r: bool)
    ensures
        r == richness_gt(a, b),
{
    a.0 > b.0 || (a.0 == b.0 && (a.1 > b.1 || (a.1 == b.1 && (a.2 > b.2 || (a.2 == b.2 && a.3
        > b.3)))))
}

pub fn preference_greater(a: (u64, (u8, u8, u8, u8)), b: (u64, (u8, u8, u8, u8))) -> (r: bool)
    ensures
        r == preference_gt(a, b),
{
    a.0 > b.0 || (a.0 == b.0 && richness_greater(a.1, b.1))
}

} // verus!
