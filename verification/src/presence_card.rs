//! The decisions behind the first presence card: which activities it lists, its fallback
//! labels, status and platform texts, badges and time texts.
use vstd::prelude::*;

use crate::presence_card_v2::{
    display_order, first_custom, initials_from, push_badge_if, sort_for_display, drop_custom,
    without_custom,
};
use crate::selection::{select_spec, selected_activities, DuplicateRule, NameMatch};
use crate::state::{
    ActivityKind, ActivityModel, ActivitySnapshot, ClientStatusSnapshot, PresenceFreshness,
    PresenceState, PresenceStateModel, PresenceStatus, RuntimeModel, RuntimeState,
};
use crate::text::{
    chars_of, decimal_spec, is_whitespace, non_empty, non_empty_spec, owned, pad2_spec, push_char,
    push_decimal, push_pad2, push_str, string_of,
};

verus! {

/// Whether a character is alphabetic or numeric in Unicode, as `char::is_alphanumeric`
/// decides it.
pub uninterp spec fn unicode_alphanumeric(c: char) -> bool;

/// The Unicode upper-case mapping of a character, as `char::to_uppercase` yields it.
pub uninterp spec fn unicode_upper_char(c: char) -> Seq<char>;

/// `char::is_alphanumeric`: whether the character has the Unicode `Alphabetic` or a
/// numeric property. The tables behind it are not stated here.
#[verifier::external_body]
fn is_alphanumeric(c: char) -> (r: bool)
    ensures
        r == unicode_alphanumeric(c),
{
    c.is_alphanumeric()
}

/// `char::to_uppercase`, collected into a string: the characters of the Unicode
/// upper-case mapping, which are not stated here.
#[verifier::external_body]
fn upper_case_of(c: char) -> (r: String)
    ensures
        r@ == unicode_upper_char(c),
{
    let mut out = String::new();
    for u in c.to_uppercase() {
        out.push(u);
    }
    out
}

/// The alphanumeric characters of a text, in order.
pub open spec fn alnum_chars(s: Seq<char>) -> Seq<char>
    decreases s.len(),
{
    if s.len() == 0 {
        Seq::empty()
    } else {
        let r = alnum_chars(s.drop_last());
        if unicode_alphanumeric(s.last()) {
            r.push(s.last())
        } else {
            r
        }
    }
}

/// The Unicode upper-case mappings of the characters, one after another.
pub open spec fn upper_all(s: Seq<char>) -> Seq<char>
    decreases s.len(),
{
    if s.len() == 0 {
        Seq::empty()
    } else {
        upper_all(s.drop_last()) + unicode_upper_char(s.last())
    }
}

pub open spec fn at_most(s: Seq<char>, n: nat) -> Seq<char> {
    if s.len() > n {
        s.take(n as int)
    } else {
        s
    }
}

/// The fallback label of an artwork: the upper-case initials of the first two words,
/// or, for a single word, its first two alphanumeric characters in upper case, cut to
/// two characters.
pub open spec fn fallback_label_spec(name: Seq<char>) -> Seq<char> {
    let initials = initials_from(name, 0, true);
    if initials.len() >= 2 {
        upper_all(initials.take(2))
    } else {
        at_most(upper_all(at_most(alnum_chars(name), 2)), 2)
    }
}

fn word_initials(chars: &Vec<char>) -> (r: Vec<char>)
    ensures
        r@ == initials_from(chars@, 0, true),
{
    let mut out: Vec<char> = Vec::new();
    let mut prev_ws = true;
    let mut k: usize = 0;
    while k < chars.len()
        invariant
            k <= chars@.len(),
            initials_from(chars@, 0, true) == out@ + initials_from(chars@, k as int, prev_ws),
        decreases chars.len() - k,
    {
        let c = chars[k];
        let ws = is_whitespace(c);
        if prev_ws && !ws {
            proof {
                assert(out@.push(c) + initials_from(chars@, k + 1, false) =~= out@ + (seq![c] + initials_from(
                    chars@,
                    k + 1,
                    false,
                )));
            }
            out.push(c);
        }
        prev_ws = ws;
        k = k + 1;
    }
    proof {
        assert(out@ + initials_from(chars@, k as int, prev_ws) =~= out@);
    }
    out
}

fn upper_prefix(chars: &Vec<char>, n: usize) -> (r: String)
    requires
        n <= chars@.len(),
    ensures
        r@ == upper_all(chars@.take(n as int)),
{
    let mut out = String::new();
    let mut k: usize = 0;
    while k < n
        invariant
            k <= n <= chars@.len(),
            out@ == upper_all(chars@.take(k as int)),
        decreases n - k,
    {
        let u = upper_case_of(chars[k]);
        push_str(&mut out, u.as_str());
        proof {
            assert(chars@.take(k + 1).drop_last() =~= chars@.take(k as int));
        }
        k = k + 1;
    }
    out
}

pub fn fallback_label(name: &str) -> (r: String)
    ensures
        r@ == fallback_label_spec(name@),
{
    let chars = chars_of(name);
    let initials = word_initials(&chars);
    if initials.len() >= 2 {
        return upper_prefix(&initials, 2);
    }
    let mut alnum: Vec<char> = Vec::new();
    let mut k: usize = 0;
    while k < chars.len()
        invariant
            k <= chars@.len(),
            alnum@ == alnum_chars(chars@.take(k as int)),
        decreases chars.len() - k,
    {
        proof {
            assert(chars@.take(k + 1).drop_last() =~= chars@.take(k as int));
        }
        if is_alphanumeric(chars[k]) {
            alnum.push(chars[k]);
        }
        k = k + 1;
    }
    proof {
        assert(chars@.take(chars@.len() as int) =~= chars@);
    }
    let n = if alnum.len() > 2 {
        2
    } else {
        alnum.len()
    };
    let up = upper_prefix(&alnum, n);
    proof {
        assert(at_most(alnum@, 2) =~= alnum@.take(n as int));
    }
    let up_chars = chars_of(up.as_str());
    let m = if up_chars.len() > 2 {
        2
    } else {
        up_chars.len()
    };
    let r = string_of(&up_chars, 0, m);
    proof {
        assert(at_most(up@, 2) =~= up_chars@.subrange(0, m as int));
    }
    r
}

/// The activities the card lists: none unless the presence is known and available;
/// custom statuses left out; one per name (trimmed, ASCII case ignored) with the
/// richest duplicate winning; ordered by kind, then by ASCII lower-case name.
pub open spec fn visible_spec(m: RuntimeModel) -> Seq<ActivityModel> {
    match m.presence {
        PresenceStateModel::Known(s) => if m.freshness == PresenceFreshness::Unavailable {
            Seq::empty()
        } else {
            display_order(
                select_spec(NameMatch::AsciiCase, DuplicateRule::Richest, without_custom(s.data.activities)),
                true,
            )
        },
        PresenceStateModel::Unknown => Seq::empty(),
    }
}

pub fn visible_activities(runtime: &RuntimeState) -> (r: Vec<ActivitySnapshot>)
    ensures
        r.deep_view() == visible_spec(runtime.deep_view()),
{
    match &runtime.presence {
        PresenceState::Known(snapshot) => {
            if runtime.freshness == PresenceFreshness::Unavailable {
                return Vec::new();
            }
            let kept = drop_custom(&snapshot.data.activities);
            let selected = selected_activities(&kept, NameMatch::AsciiCase, DuplicateRule::Richest);
            sort_for_display(&selected, true)
        },
        PresenceState::Unknown => Vec::new(),
    }
}

/// The text of the first custom status of an available presence: its state, else its
/// details, trimmed and only where not blank.
pub open spec fn custom_status_spec(m: RuntimeModel) -> Option<Seq<char>> {
    match m.presence {
        PresenceStateModel::Known(s) => if m.freshness == PresenceFreshness::Unavailable {
            None
        } else {
            match first_custom(s.data.activities, 0) {
                Some(k) => match non_empty_spec(s.data.activities[k].state) {
                    Some(t) => Some(t),
                    None => non_empty_spec(s.data.activities[k].details),
                },
                None => None,
            }
        },
        PresenceStateModel::Unknown => None,
    }
}

pub fn custom_status(runtime: &RuntimeState) -> (r: Option<String>)
    ensures
        r.deep_view() == custom_status_spec(runtime.deep_view()),
{
    if runtime.freshness == PresenceFreshness::Unavailable {
        return None;
    }
    crate::presence_card_v2::custom_status(runtime)
}

/// A duration as `m:ss`, or `h:mm:ss` where it reaches an hour.
pub open spec fn format_duration_spec(ms: u64) -> Seq<char> {
    let total = ms as nat / 1000;
    let hours = total / 3600;
    let minutes = (total % 3600) / 60;
    let seconds = total % 60;
    if hours > 0 {
        decimal_spec(hours) + ":"@ + pad2_spec(minutes) + ":"@ + pad2_spec(seconds)
    } else {
        decimal_spec(minutes) + ":"@ + pad2_spec(seconds)
    }
}

pub fn format_duration(duration_ms: u64) -> (r: String)
    ensures
        r@ == format_duration_spec(duration_ms),
{
    let total = duration_ms / 1000;
    let hours = total / 3600;
    let minutes = (total % 3600) / 60;
    let seconds = total % 60;
    let mut out = String::new();
    if hours > 0 {
        push_decimal(&mut out, hours);
        push_str(&mut out, ":");
        push_pad2(&mut out, minutes);
    } else {
        push_decimal(&mut out, minutes);
    }
    push_str(&mut out, ":");
    push_pad2(&mut out, seconds);
    proof {
        if hours > 0 {
            assert(out@ =~= decimal_spec(hours as nat) + ":"@ + pad2_spec(minutes as nat) + ":"@ + pad2_spec(
                seconds as nat,
            ));
        } else {
            assert(out@ =~= decimal_spec(minutes as nat) + ":"@ + pad2_spec(seconds as nat));
        }
    }
    out
}

pub open spec fn sat_sub(a: u64, b: u64) -> u64 {
    if a >= b {
        (a - b) as u64
    } else {
        0
    }
}

/// The time text of an activity: progress through a known span, else the time since
/// its start, else the time until a future end.
pub open spec fn activity_time_spec(a: ActivityModel, now: u64) -> Option<Seq<char>> {
    match a.timestamps {
        None => None,
        Some(t) => match (t.start, t.end) {
            (Some(start), Some(end)) if end > start => {
                let span = (end - start) as u64;
                let elapsed = if sat_sub(now, start) < span {
                    sat_sub(now, start)
                } else {
                    span
                };
                Some(format_duration_spec(elapsed) + " / "@ + format_duration_spec(span))
            },
            (Some(start), _) => Some(format_duration_spec(sat_sub(now, start)) + " elapsed"@),
            (None, Some(end)) if end > now => Some(format_duration_spec((end - now) as u64) + " remaining"@),
            _ => None,
        },
    }
}

pub fn activity_time(activity: &ActivitySnapshot, now_unix_ms: u64) -> (r: Option<String>)
    ensures
        r.deep_view() == activity_time_spec(activity.deep_view(), now_unix_ms),
{
    let t = match activity.timestamps {
        Some(t) => t,
        None => return None,
    };
    match (t.start, t.end) {
        (Some(start), Some(end)) if end > start => {
            let span = end - start;
            let since = now_unix_ms.saturating_sub(start);
            let elapsed = if since < span {
                since
            } else {
                span
            };
            let mut out = format_duration(elapsed);
            push_str(&mut out, " / ");
            let total = format_duration(span);
            push_str(&mut out, total.as_str());
            Some(out)
        },
        (Some(start), _) => {
            let mut out = format_duration(now_unix_ms.saturating_sub(start));
            push_str(&mut out, " elapsed");
            Some(out)
        },
        (None, Some(end)) if end > now_unix_ms => {
            let mut out = format_duration(end - now_unix_ms);
            push_str(&mut out, " remaining");
            Some(out)
        },
        _ => None,
    }
}

/// A platform label with one more platform, joined by a middle dot where it is present.
pub open spec fn add_platform(label: Option<Seq<char>>, present: bool, name: Seq<char>) -> Option<Seq<char>> {
    if present {
        Some(
            match label {
                Some(s) => s + " \u{b7} "@ + name,
                None => name,
            },
        )
    } else {
        label
    }
}

/// The platforms a presence is active on (desktop, mobile, web), joined by middle dots,
/// or nothing.
pub open spec fn platform_label_spec(status: ClientStatusSnapshot) -> Option<Seq<char>> {
    add_platform(
        add_platform(add_platform(None, status.desktop is Some, "Desktop"@), status.mobile is Some, "Mobile"@),
        status.web is Some,
        "Web"@,
    )
}

fn push_platform(out: &mut Option<String>, present: bool, name: &str)
    ensures
        final(out).deep_view() == add_platform(old(out).deep_view(), present, name@),
{
    if present {
        match out {
            Some(s) => {
                push_str(s, " \u{b7} ");
                push_str(s, name);
            },
            None => {
                *out = Some(owned(name));
            },
        }
    }
}

pub fn platform_label(status: &ClientStatusSnapshot) -> (r: Option<String>)
    ensures
        r.deep_view() == platform_label_spec(*status),
{
    let mut out: Option<String> = None;
    push_platform(&mut out, status.desktop.is_some(), "Desktop");
    push_platform(&mut out, status.mobile.is_some(), "Mobile");
    push_platform(&mut out, status.web.is_some(), "Web");
    out
}

/// The platform label of an available presence.
pub fn client_platform(runtime: &RuntimeState) -> (r: Option<String>)
    ensures
        r.deep_view() == match runtime.deep_view().presence {
            PresenceStateModel::Known(s) => if runtime.freshness == PresenceFreshness::Unavailable {
                None
            } else {
                platform_label_spec(s.data.client_status)
            },
            PresenceStateModel::Unknown => None,
        },
{
    match &runtime.presence {
        PresenceState::Known(snapshot) => if runtime.freshness == PresenceFreshness::Unavailable {
            None
        } else {
            platform_label(&snapshot.data.client_status)
        },
        PresenceState::Unknown => None,
    }
}

/// The status text and color of the card.
pub open spec fn status_visual_spec(m: RuntimeModel) -> (Seq<char>, Seq<char>) {
    match m.presence {
        PresenceStateModel::Known(s) => if m.freshness != PresenceFreshness::Unavailable {
            match s.data.status {
                PresenceStatus::Online => ("Online"@, "#3ecf8e"@),
                PresenceStatus::Idle => ("Idle"@, "#f0b85c"@),
                PresenceStatus::DoNotDisturb => ("Do Not Disturb"@, "#f06565"@),
                PresenceStatus::Invisible | PresenceStatus::Offline => ("Offline"@, "#7f879f"@),
            }
        } else {
            ("Unavailable"@, "#7f879f"@)
        },
        PresenceStateModel::Unknown => ("Connecting"@, "#8e96b7"@),
    }
}

pub fn status_visual(runtime: &RuntimeState) -> (r: (&'static str, &'static str))
    ensures
        (r.0@, r.1@) == status_visual_spec(runtime.deep_view()),
{
    match &runtime.presence {
        PresenceState::Known(snapshot) => if runtime.freshness != PresenceFreshness::Unavailable {
            match snapshot.data.status {
                PresenceStatus::Online => ("Online", "#3ecf8e"),
                PresenceStatus::Idle => ("Idle", "#f0b85c"),
                PresenceStatus::DoNotDisturb => ("Do Not Disturb", "#f06565"),
                PresenceStatus::Invisible | PresenceStatus::Offline => ("Offline", "#7f879f"),
            }
        } else {
            ("Unavailable", "#7f879f")
        },
        PresenceState::Unknown => ("Connecting", "#8e96b7"),
    }
}

pub open spec fn badge_if(flags: u64, bit: u64, label: Seq<char>) -> Seq<Seq<char>> {
    if flags & (1u64 << bit) != 0 {
        seq![label]
    } else {
        Seq::empty()
    }
}

/// The public badges of a set of user flags, in the card's order.
pub open spec fn badges_spec(flags: u64) -> Seq<Seq<char>> {
    badge_if(flags, 0, "STAFF"@) + badge_if(flags, 1, "PARTNER"@) + badge_if(flags, 14, "BUG II"@)
        + badge_if(flags, 18, "MOD"@) + badge_if(flags, 17, "DEV"@) + badge_if(flags, 9, "EARLY"@)
        + badge_if(flags, 3, "BUG"@) + badge_if(flags, 2, "HS"@) + badge_if(flags, 6, "BRAVERY"@)
        + badge_if(flags, 7, "BRILLIANCE"@) + badge_if(flags, 8, "BALANCE"@)
}

pub fn public_badges(flags: u64) -> (r: Vec<&'static str>)
    ensures
        r@.map_values(|b: &'static str| b@) == badges_spec(flags),
{
    let mut badges: Vec<&'static str> = Vec::new();
    proof {
        assert(badges@.map_values(|b: &'static str| b@) =~= Seq::<Seq<char>>::empty());
    }
    push_badge_if(&mut badges, flags & (1u64 << 0u64) != 0, "STAFF");
    push_badge_if(&mut badges, flags & (1u64 << 1u64) != 0, "PARTNER");
    push_badge_if(&mut badges, flags & (1u64 << 14u64) != 0, "BUG II");
    push_badge_if(&mut badges, flags & (1u64 << 18u64) != 0, "MOD");
    push_badge_if(&mut badges, flags & (1u64 << 17u64) != 0, "DEV");
    push_badge_if(&mut badges, flags & (1u64 << 9u64) != 0, "EARLY");
    push_badge_if(&mut badges, flags & (1u64 << 3u64) != 0, "BUG");
    push_badge_if(&mut badges, flags & (1u64 << 2u64) != 0, "HS");
    push_badge_if(&mut badges, flags & (1u64 << 6u64) != 0, "BRAVERY");
    push_badge_if(&mut badges, flags & (1u64 << 7u64) != 0, "BRILLIANCE");
    push_badge_if(&mut badges, flags & (1u64 << 8u64) != 0, "BALANCE");
    proof {
        assert(Seq::<Seq<char>>::empty() + badge_if(flags, 0, "STAFF"@) =~= badge_if(flags, 0, "STAFF"@));
    }
    badges
}

/// The word for an activity kind on the card.
pub open spec fn kind_name_spec(kind: ActivityKind) -> Seq<char> {
    match kind {
        ActivityKind::Competing => "competing"@,
        ActivityKind::Custom => "custom"@,
        ActivityKind::Listening => "listening"@,
        ActivityKind::Playing => "playing"@,
        ActivityKind::Streaming => "streaming"@,
        ActivityKind::Unknown(_) => "activity"@,
        ActivityKind::Watching => "watching"@,
    }
}

pub fn activity_kind_name(kind: ActivityKind) -> (r: &'static str)
    ensures
        r@ == kind_name_spec(kind),
{
    match kind {
        ActivityKind::Competing => "competing",
        ActivityKind::Custom => "custom",
        ActivityKind::Listening => "listening",
        ActivityKind::Playing => "playing",
        ActivityKind::Streaming => "streaming",
        ActivityKind::Unknown(_) => "activity",
        ActivityKind::Watching => "watching",
    }
}

/// The color of an activity kind on the card.
pub open spec fn kind_color_spec(kind: ActivityKind) -> Seq<char> {
    match kind {
        ActivityKind::Competing => "#ff7a72"@,
        ActivityKind::Listening => "#46d995"@,
        ActivityKind::Streaming => "#d58cff"@,
        ActivityKind::Watching => "#63b6ff"@,
        ActivityKind::Playing | ActivityKind::Unknown(_) | ActivityKind::Custom => "#8f87ff"@,
    }
}

pub fn activity_kind_color(kind: ActivityKind) -> (r: &'static str)
    ensures
        r@ == kind_color_spec(kind),
{
    match kind {
        ActivityKind::Competing => "#ff7a72",
        ActivityKind::Listening => "#46d995",
        ActivityKind::Streaming => "#d58cff",
        ActivityKind::Watching => "#63b6ff",
        ActivityKind::Playing | ActivityKind::Unknown(_) | ActivityKind::Custom => "#8f87ff",
    }
}

} // verus!
