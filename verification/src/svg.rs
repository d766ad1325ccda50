//! The realtime SVG cards: a renderer test card, the presence card and the Spotify card,
//! each drawn from the runtime state with external text escaped and only embedded
//! artwork shown.
use vstd::prelude::*;

use crate::activity::{
    resolve_artwork, spotify_activity, spotify_activity_spec, ArtworkSource, ResolvedArtwork,
    SpotifyActivity, SpotifyActivityModel,
};
use crate::artwork::EmbeddedArtworkBatch;
use crate::presentation::{activity_kind_name, kind_name_spec, status_name, status_name_spec};
use crate::selection::{select_spec, selected_activities, DuplicateRule, NameMatch};
use crate::spotify::join_spec;
use crate::state::{
    ActivityModel, ActivitySnapshot, PresenceFreshness, PresenceState, PresenceStateModel,
    PresenceStatus, RuntimeModel, RuntimeState,
};
use crate::text::{
    decimal, decimal_spec, escape_spec, escape_xml, non_empty, non_empty_spec, owned, pad2_spec,
    push_decimal, push_escaped, push_pad2, push_str, trim, trim_spec, truncate_chars,
    truncate_spec,
};

verus! {

pub const RENDERER_REVISION: u64 = 2;

/// The layouts of the Spotify card.
#[derive(Clone, Copy, Debug, PartialEq, Eq, Hash, Structural)]
pub enum SpotifyLayout {
    Mini,
    Compact,
    Wide,
}

pub open spec fn layout_name_spec(s: Seq<char>) -> Option<SpotifyLayout> {
    let k = crate::text::lower_spec(trim_spec(s));
    if k == "mini"@ {
        Some(SpotifyLayout::Mini)
    } else if k == "compact"@ {
        Some(SpotifyLayout::Compact)
    } else if k == "wide"@ {
        Some(SpotifyLayout::Wide)
    } else {
        None
    }
}

impl SpotifyLayout {
    /// The layout named by a query value, trimmed and ignoring ASCII case.
    pub fn parse(value: &str) -> (r: Option<Self>)
        ensures
            r == layout_name_spec(value@),
    {
        let k = crate::text::lower(trim(value).as_str());
        if crate::text::equals(k.as_str(), "mini") {
            Some(SpotifyLayout::Mini)
        } else if crate::text::equals(k.as_str(), "compact") {
            Some(SpotifyLayout::Compact)
        } else if crate::text::equals(k.as_str(), "wide") {
            Some(SpotifyLayout::Wide)
        } else {
            None
        }
    }
}

/// `a + b`, saturating at the greatest `u32`.
pub open spec fn sat_add32(a: int, b: int) -> int {
    if a + b > u32::MAX {
        u32::MAX as int
    } else {
        a + b
    }
}

/// `a * b`, saturating at the greatest `u32`.
pub open spec fn sat_mul32(a: int, b: int) -> int {
    if a * b > u32::MAX {
        u32::MAX as int
    } else {
        a * b
    }
}

/// `a - b`, saturating at zero.
pub open spec fn sat_sub(a: int, b: int) -> int {
    if a >= b {
        a - b
    } else {
        0
    }
}

pub open spec fn dec(n: int) -> Seq<char> {
    decimal_spec(n as nat)
}

/// The opening of a card and its title.
pub open spec fn svg_open_spec(width: int, height: int, title: Seq<char>) -> Seq<char> {
    "<svg xmlns=\"http://www.w3.org/2000/svg\" width=\""@ + dec(width) + "\" height=\""@ + dec(
        height,
    ) + "\" viewBox=\"0 0 "@ + dec(width) + " "@ + dec(height) + "\" role=\"img\">"@
        + "<title>"@ + escape_spec(title) + "</title>"@
}

pub(crate) fn svg_open(width: u32, height: u32, title: &str) -> (r: String)
    ensures
        r@ == svg_open_spec(width as int, height as int, title@),
{
    let mut r = owned("<svg xmlns=\"http://www.w3.org/2000/svg\" width=\"");
    push_decimal(&mut r, width as u64);
    push_str(&mut r, "\" height=\"");
    push_decimal(&mut r, height as u64);
    push_str(&mut r, "\" viewBox=\"0 0 ");
    push_decimal(&mut r, width as u64);
    push_str(&mut r, " ");
    push_decimal(&mut r, height as u64);
    push_str(&mut r, "\" role=\"img\">");
    push_str(&mut r, "<title>");
    push_escaped(&mut r, title);
    push_str(&mut r, "</title>");
    r
}

/// The trimmed names of the activities that are not empty, in order.
pub open spec fn shown_names(acts: Seq<ActivityModel>) -> Seq<Seq<char>>
    decreases acts.len(),
{
    if acts.len() == 0 {
        Seq::empty()
    } else {
        let rest = shown_names(acts.drop_last());
        if trim_spec(acts.last().name).len() > 0 {
            rest.push(trim_spec(acts.last().name))
        } else {
            rest
        }
    }
}

/// The activities a card shows for a known presence: one per name (Unicode lower case),
/// the richest duplicate winning.
pub open spec fn display_activities(acts: Seq<ActivityModel>) -> Seq<ActivityModel> {
    select_spec(NameMatch::UnicodeLower, DuplicateRule::Richest, acts)
}

/// The status, revision, activity line and freshness shown on the renderer test card.
pub open spec fn hero_test_fields(m: RuntimeModel) -> (Seq<char>, u64, Seq<char>, Seq<char>) {
    match m.presence {
        PresenceStateModel::Unknown => ("unknown"@, 0, "Waiting for Discord presence"@, "waiting"@),
        PresenceStateModel::Known(s) => if m.freshness == PresenceFreshness::Unavailable {
            ("unavailable"@, s.revision, "Presence temporarily unavailable"@, "unavailable"@)
        } else {
            let names = shown_names(display_activities(s.data.activities));
            (
                status_name_spec(s.data.status),
                s.revision,
                if names.len() == 0 {
                    "No current activity"@
                } else {
                    join_spec(names, " \u{b7} "@)
                },
                if m.freshness == PresenceFreshness::Stale {
                    "last known"@
                } else {
                    "live"@
                },
            )
        },
    }
}

/// The renderer test card.
pub open spec fn hero_test_spec(m: RuntimeModel) -> Seq<char> {
    let (status, revision, line, freshness) = hero_test_fields(m);
    svg_open_spec(960, 180, "ItzHerzchen realtime renderer test"@)
        + "<rect width=\"960\" height=\"180\" rx=\"24\" fill=\"#0b1020\"/>"@
        + "<rect x=\"1\" y=\"1\" width=\"958\" height=\"178\" rx=\"23\" fill=\"none\" stroke=\"#293659\"/>"@
        + "<text x=\"36\" y=\"58\" fill=\"#f4f7ff\" font-family=\"ui-monospace, SFMono-Regular, Consolas, monospace\" font-size=\"26\" font-weight=\"700\">ItzHerzchen realtime renderer</text>"@
        + "<text x=\"36\" y=\"96\" fill=\"#9fb0d9\" font-family=\"ui-monospace, SFMono-Regular, Consolas, monospace\" font-size=\"17\">status: "@
        + escape_spec(status) + " \u{b7} "@ + escape_spec(freshness) + " \u{b7} revision "@ + dec(
        revision as int,
    ) + " \u{b7} stream "@ + dec(m.stream_revision as int) + "</text>"@
        + "<text x=\"36\" y=\"137\" fill=\"#d7def2\" font-family=\"ui-monospace, SFMono-Regular, Consolas, monospace\" font-size=\"18\">"@
        + escape_spec(truncate_spec(line, 90)) + "</text>"@ + "</svg>"@
}

fn activity_names_line(acts: &Vec<ActivitySnapshot>) -> (r: String)
    ensures
        r@ == if shown_names(acts.deep_view()).len() == 0 {
            "No current activity"@
        } else {
            join_spec(shown_names(acts.deep_view()), " \u{b7} "@)
        },
{
    let ghost all = acts.deep_view();
    let mut line = String::new();
    let mut count: usize = 0;
    let mut i: usize = 0;
    while i < acts.len()
        invariant
            i <= acts@.len(),
            all == acts.deep_view(),
            count <= i,
            count == shown_names(all.take(i as int)).len(),
            line@ == join_spec(shown_names(all.take(i as int)), " \u{b7} "@),
        decreases acts.len() - i,
    {
        proof {
            assert(all.take(i + 1).drop_last() == all.take(i as int));
            assert(all.take(i + 1).last() == all[i as int]);
        }
        let t = trim(acts[i].name.as_str());
        if !t.as_str().is_empty() {
            let ghost names = shown_names(all.take(i as int));
            if count > 0 {
                push_str(&mut line, " \u{b7} ");
            }
            push_str(&mut line, t.as_str());
            proof {
                let next = names.push(t@);
                assert(next.drop_last() == names);
                if count == 0 {
                    assert(next.len() == 1);
                    assert(line@ == t@);
                }
            }
            count = count + 1;
        }
        i = i + 1;
    }
    proof {
        assert(all.take(acts@.len() as int) == all);
    }
    if count == 0 {
        owned("No current activity")
    } else {
        line
    }
}

/// The renderer test card.
pub fn render_hero_test(runtime: &RuntimeState) -> (r: String)
    ensures
        r@ == hero_test_spec(runtime.deep_view()),
{
    let (status, revision, line, freshness): (&str, u64, String, &str) = match &runtime.presence {
        PresenceState::Unknown => ("unknown", 0, owned("Waiting for Discord presence"), "waiting"),
        PresenceState::Known(snapshot) => {
            if runtime.freshness == PresenceFreshness::Unavailable {
                (
                    "unavailable",
                    snapshot.revision,
                    owned("Presence temporarily unavailable"),
                    "unavailable",
                )
            } else {
                let shown = selected_activities(
                    &snapshot.data.activities,
                    NameMatch::UnicodeLower,
                    DuplicateRule::Richest,
                );
                (
                    status_name(snapshot.data.status),
                    snapshot.revision,
                    activity_names_line(&shown),
                    if runtime.freshness == PresenceFreshness::Stale {
                        "last known"
                    } else {
                        "live"
                    },
                )
            }
        },
    };
    let mut body = svg_open(960, 180, "ItzHerzchen realtime renderer test");
    push_str(&mut body, "<rect width=\"960\" height=\"180\" rx=\"24\" fill=\"#0b1020\"/>");
    push_str(
        &mut body,
        "<rect x=\"1\" y=\"1\" width=\"958\" height=\"178\" rx=\"23\" fill=\"none\" stroke=\"#293659\"/>",
    );
    push_str(
        &mut body,
        "<text x=\"36\" y=\"58\" fill=\"#f4f7ff\" font-family=\"ui-monospace, SFMono-Regular, Consolas, monospace\" font-size=\"26\" font-weight=\"700\">ItzHerzchen realtime renderer</text>",
    );
    push_str(
        &mut body,
        "<text x=\"36\" y=\"96\" fill=\"#9fb0d9\" font-family=\"ui-monospace, SFMono-Regular, Consolas, monospace\" font-size=\"17\">status: ",
    );
    push_escaped(&mut body, status);
    push_str(&mut body, " \u{b7} ");
    push_escaped(&mut body, freshness);
    push_str(&mut body, " \u{b7} revision ");
    push_decimal(&mut body, revision);
    push_str(&mut body, " \u{b7} stream ");
    push_decimal(&mut body, runtime.stream_revision);
    push_str(&mut body, "</text>");
    push_str(
        &mut body,
        "<text x=\"36\" y=\"137\" fill=\"#d7def2\" font-family=\"ui-monospace, SFMono-Regular, Consolas, monospace\" font-size=\"18\">",
    );
    let cut = truncate_chars(line.as_str(), 90);
    push_escaped(&mut body, cut.as_str());
    push_str(&mut body, "</text>");
    push_str(&mut body, "</svg>");
    body
}

/// The first character of the fallback key in ASCII upper case, or `?`.
pub open spec fn fallback_letter(key: Seq<char>) -> Seq<char> {
    if key.len() > 0 {
        seq![crate::text::upper_char(key[0])]
    } else {
        "?"@
    }
}

/// An activity's artwork: the embedded image where its URL was embedded, else a tile with
/// the first letter of its fallback key. A remote URL is never written.
pub open spec fn artwork_spec(
    source_url: Option<Seq<char>>,
    fallback_key: Seq<char>,
    x: int,
    y: int,
    size: int,
    embedded: EmbeddedArtworkBatch,
) -> Seq<char> {
    let href = match source_url {
        Some(u) => embedded.image(u),
        None => None,
    };
    match href {
        Some(d) => "<image x=\""@ + dec(x) + "\" y=\""@ + dec(y) + "\" width=\""@ + dec(size)
            + "\" height=\""@ + dec(size) + "\" href=\""@ + escape_spec(d)
            + "\" preserveAspectRatio=\"xMidYMid slice\"/>"@,
        None => "<rect x=\""@ + dec(x) + "\" y=\""@ + dec(y) + "\" width=\""@ + dec(size)
            + "\" height=\""@ + dec(size) + "\" rx=\"10\" fill=\"#18213a\"/>"@
            + "<text x=\""@ + dec(sat_add32(x, size / 2)) + "\" y=\""@ + dec(
            sat_add32(sat_add32(y, size / 2), 6),
        )
            + "\" text-anchor=\"middle\" fill=\"#9fb0d9\" font-family=\"ui-monospace, SFMono-Regular, Consolas, monospace\" font-size=\"18\" font-weight=\"700\">"@
            + escape_spec(fallback_letter(fallback_key)) + "</text>"@,
    }
}

fn sat_add(a: u32, b: u32) -> (r: u32)
    ensures
        r == sat_add32(a as int, b as int),
{
    a.saturating_add(b)
}

fn sat_mul(a: u32, b: u32) -> (r: u32)
    ensures
        r == sat_mul32(a as int, b as int),
{
    match a.checked_mul(b) {
        Some(v) => v,
        None => u32::MAX,
    }
}

/// Writes an activity's artwork.
pub fn render_artwork(
    body: &mut String,
    artwork: &ResolvedArtwork,
    x: u32,
    y: u32,
    size: u32,
    embedded: &EmbeddedArtworkBatch,
)
    ensures
        final(body)@ == old(body)@ + artwork_spec(
            artwork.url.deep_view(),
            artwork.fallback_key@,
            x as int,
            y as int,
            size as int,
            *embedded,
        ),
{
    let href = match &artwork.url {
        Some(u) => embedded.href(u.as_str()),
        None => None,
    };
    let part = match href {
        Some(d) => {
            let mut p = owned("<image x=\"");
            push_decimal(&mut p, x as u64);
            push_str(&mut p, "\" y=\"");
            push_decimal(&mut p, y as u64);
            push_str(&mut p, "\" width=\"");
            push_decimal(&mut p, size as u64);
            push_str(&mut p, "\" height=\"");
            push_decimal(&mut p, size as u64);
            push_str(&mut p, "\" href=\"");
            push_escaped(&mut p, d.as_str());
            push_str(&mut p, "\" preserveAspectRatio=\"xMidYMid slice\"/>");
            p
        },
        None => {
            let key = crate::text::chars_of(artwork.fallback_key);
            let letter = if key.len() > 0 {
                let mut l = String::new();
                crate::text::push_char(&mut l, crate::text::to_upper(key[0]));
                proof {
                    assert(l@ =~= seq![crate::text::upper_char(key@[0])]);
                }
                l
            } else {
                owned("?")
            };
            let mut p = owned("<rect x=\"");
            push_decimal(&mut p, x as u64);
            push_str(&mut p, "\" y=\"");
            push_decimal(&mut p, y as u64);
            push_str(&mut p, "\" width=\"");
            push_decimal(&mut p, size as u64);
            push_str(&mut p, "\" height=\"");
            push_decimal(&mut p, size as u64);
            push_str(&mut p, "\" rx=\"10\" fill=\"#18213a\"/>");
            push_str(&mut p, "<text x=\"");
            push_decimal(&mut p, sat_add(x, size / 2) as u64);
            push_str(&mut p, "\" y=\"");
            push_decimal(&mut p, sat_add(sat_add(y, size / 2), 6) as u64);
            push_str(
                &mut p,
                "\" text-anchor=\"middle\" fill=\"#9fb0d9\" font-family=\"ui-monospace, SFMono-Regular, Consolas, monospace\" font-size=\"18\" font-weight=\"700\">",
            );
            push_escaped(&mut p, letter.as_str());
            push_str(&mut p, "</text>");
            p
        },
    };
    push_str(body, part.as_str());
}

/// The detail line of an activity: its details and state (trimmed, not blank), joined
/// with a dot where both are there and differ; else whichever is there; else its kind.
pub open spec fn activity_detail_spec(a: ActivityModel) -> Seq<char> {
    match (non_empty_spec(a.details), non_empty_spec(a.state)) {
        (Some(d), Some(s)) => if d != s {
            d + " \u{b7} "@ + s
        } else {
            d
        },
        (Some(d), None) => d,
        (None, Some(s)) => s,
        (None, None) => kind_name_spec(a.kind),
    }
}

/// The detail line of an activity.
pub fn activity_detail(activity: &ActivitySnapshot) -> (r: String)
    ensures
        r@ == activity_detail_spec(activity.deep_view()),
{
    let details = non_empty(&activity.details);
    let state = non_empty(&activity.state);
    match (details, state) {
        (Some(d), Some(s)) => {
            if !crate::text::equals(d.as_str(), s.as_str()) {
                let mut r = d;
                push_str(&mut r, " \u{b7} ");
                push_str(&mut r, s.as_str());
                r
            } else {
                d
            }
        },
        (Some(d), None) => d,
        (None, Some(s)) => s,
        (None, None) => owned(activity_kind_name(activity.kind)),
    }
}

/// One activity row of the presence card.
pub open spec fn activity_row_spec(a: ActivityModel, row_y: int, embedded: EmbeddedArtworkBatch) -> Seq<char> {
    artwork_spec(
        crate::activity::artwork_spec(a).1,
        crate::activity::icon_key_spec(a.name),
        28,
        row_y,
        42,
        embedded,
    )
        + "<text x=\"84\" y=\""@ + dec(sat_add32(row_y, 17))
        + "\" fill=\"#f4f7ff\" font-family=\"ui-monospace, SFMono-Regular, Consolas, monospace\" font-size=\"17\" font-weight=\"600\">"@
        + escape_spec(truncate_spec(trim_spec(a.name), 52)) + "</text>"@
        + "<text x=\"84\" y=\""@ + dec(sat_add32(row_y, 38))
        + "\" fill=\"#9fb0d9\" font-family=\"ui-monospace, SFMono-Regular, Consolas, monospace\" font-size=\"14\">"@
        + escape_spec(truncate_spec(activity_detail_spec(a), 72)) + "</text>"@
}

fn render_activity_row(
    body: &mut String,
    activity: &ActivitySnapshot,
    row_y: u32,
    embedded: &EmbeddedArtworkBatch,
)
    ensures
        final(body)@ == old(body)@ + activity_row_spec(activity.deep_view(), row_y as int, *embedded),
{
    let ghost start = body@;
    let artwork = resolve_artwork(activity);
    render_artwork(body, &artwork, 28, row_y, 42, embedded);
    push_str(body, "<text x=\"84\" y=\"");
    push_decimal(body, sat_add(row_y, 17) as u64);
    push_str(
        body,
        "\" fill=\"#f4f7ff\" font-family=\"ui-monospace, SFMono-Regular, Consolas, monospace\" font-size=\"17\" font-weight=\"600\">",
    );
    let name = truncate_chars(trim(activity.name.as_str()).as_str(), 52);
    push_escaped(body, name.as_str());
    push_str(body, "</text>");
    push_str(body, "<text x=\"84\" y=\"");
    push_decimal(body, sat_add(row_y, 38) as u64);
    push_str(
        body,
        "\" fill=\"#9fb0d9\" font-family=\"ui-monospace, SFMono-Regular, Consolas, monospace\" font-size=\"14\">",
    );
    let detail = activity_detail(activity);
    let cut = truncate_chars(detail.as_str(), 72);
    push_escaped(body, cut.as_str());
    push_str(body, "</text>");
    proof {
        assert(body@ =~= start + activity_row_spec(activity.deep_view(), row_y as int, *embedded));
    }
}

/// The rows of the activities from the `k`-th on.
pub open spec fn activity_rows_spec(acts: Seq<ActivityModel>, embedded: EmbeddedArtworkBatch) -> Seq<char>
    decreases acts.len(),
{
    if acts.len() == 0 {
        Seq::empty()
    } else {
        let k = acts.len() - 1;
        activity_rows_spec(acts.drop_last(), embedded) + activity_row_spec(
            acts.last(),
            sat_add32(94, sat_mul32(if k > u32::MAX {
                u32::MAX as int
            } else {
                k
            }, 58)),
            embedded,
        )
    }
}

/// The height of the presence card for a number of activities.
pub open spec fn presence_height(count: int) -> int {
    let rows = if count > 1 {
        count
    } else {
        1
    };
    sat_add32(112, sat_mul32(if rows > u32::MAX {
        u32::MAX as int
    } else {
        rows
    }, 58))
}

/// The part of the presence card below its title.
pub open spec fn presence_content_spec(m: RuntimeModel, embedded: EmbeddedArtworkBatch) -> Seq<char> {
    match m.presence {
        PresenceStateModel::Unknown => "<text x=\"28\" y=\"70\" fill=\"#9fb0d9\" font-family=\"ui-monospace, SFMono-Regular, Consolas, monospace\" font-size=\"15\">waiting</text>"@
            + "<text x=\"28\" y=\"126\" fill=\"#c4cee8\" font-family=\"ui-monospace, SFMono-Regular, Consolas, monospace\" font-size=\"17\">Waiting for Discord presence</text>"@,
        PresenceStateModel::Known(s) => if m.freshness == PresenceFreshness::Unavailable {
            "<text x=\"28\" y=\"70\" fill=\"#9fb0d9\" font-family=\"ui-monospace, SFMono-Regular, Consolas, monospace\" font-size=\"15\">unavailable \u{b7} last revision "@
                + dec(s.revision as int) + "</text>"@
                + "<text x=\"28\" y=\"126\" fill=\"#c4cee8\" font-family=\"ui-monospace, SFMono-Regular, Consolas, monospace\" font-size=\"17\">Presence temporarily unavailable</text>"@
        } else {
            let acts = display_activities(s.data.activities);
            "<text x=\"28\" y=\"70\" fill=\"#9fb0d9\" font-family=\"ui-monospace, SFMono-Regular, Consolas, monospace\" font-size=\"15\">"@
                + escape_spec(status_name_spec(s.data.status)) + " \u{b7} revision "@ + dec(
                s.revision as int,
            ) + "</text>"@ + (if m.freshness == PresenceFreshness::Stale {
                "<text x=\"728\" y=\"42\" text-anchor=\"end\" fill=\"#f2c879\" font-family=\"ui-monospace, SFMono-Regular, Consolas, monospace\" font-size=\"14\">last known</text>"@
            } else {
                ""@
            }) + (if acts.len() == 0 {
                "<text x=\"28\" y=\"126\" fill=\"#c4cee8\" font-family=\"ui-monospace, SFMono-Regular, Consolas, monospace\" font-size=\"17\">No current activity</text>"@
            } else {
                activity_rows_spec(acts, embedded)
            })
        },
    }
}

/// The number of activity rows the presence card holds.
pub open spec fn presence_rows(m: RuntimeModel) -> int {
    match m.presence {
        PresenceStateModel::Known(s) => if m.freshness == PresenceFreshness::Unavailable {
            0
        } else {
            display_activities(s.data.activities).len() as int
        },
        PresenceStateModel::Unknown => 0,
    }
}

/// The presence card.
pub open spec fn presence_card_spec(m: RuntimeModel, embedded: EmbeddedArtworkBatch) -> Seq<char> {
    let height = presence_height(presence_rows(m));
    svg_open_spec(760, height, "ItzHerzchen Discord presence"@) + "<rect width=\"760\" height=\""@
        + dec(height) + "\" rx=\"22\" fill=\"#0b1020\"/>"@ + "<rect x=\"1\" y=\"1\" width=\"758\" height=\""@
        + dec(sat_sub(height, 2)) + "\" rx=\"21\" fill=\"none\" stroke=\"#293659\"/>"@
        + "<text x=\"28\" y=\"42\" fill=\"#f4f7ff\" font-family=\"ui-monospace, SFMono-Regular, Consolas, monospace\" font-size=\"22\" font-weight=\"700\">Discord presence</text>"@
        + presence_content_spec(m, embedded) + "</svg>"@
}

fn clamp_u32(n: usize) -> (r: u32)
    ensures
        r == if n > u32::MAX {
            u32::MAX as int
        } else {
            n as int
        },
{
    if n > 0xffff_ffff {
        0xffff_ffff
    } else {
        n as u32
    }
}

fn render_rows(body: &mut String, acts: &Vec<ActivitySnapshot>, embedded: &EmbeddedArtworkBatch)
    ensures
        final(body)@ == old(body)@ + activity_rows_spec(acts.deep_view(), *embedded),
{
    let ghost start = body@;
    let ghost all = acts.deep_view();
    let mut i: usize = 0;
    while i < acts.len()
        invariant
            i <= acts@.len(),
            all == acts.deep_view(),
            body@ == start + activity_rows_spec(all.take(i as int), *embedded),
        decreases acts.len() - i,
    {
        proof {
            assert(all.take(i + 1).drop_last() == all.take(i as int));
            assert(all.take(i + 1).last() == all[i as int]);
        }
        let row_y = sat_add(94, sat_mul(clamp_u32(i), 58));
        render_activity_row(body, &acts[i], row_y, embedded);
        proof {
            assert(body@ =~= start + activity_rows_spec(all.take(i + 1), *embedded));
        }
        i = i + 1;
    }
    proof {
        assert(all.take(acts@.len() as int) == all);
    }
}

fn push_presence_content(
    body: &mut String,
    runtime: &RuntimeState,
    shown: &Vec<ActivitySnapshot>,
    embedded: &EmbeddedArtworkBatch,
)
    requires
        match runtime.deep_view().presence {
            PresenceStateModel::Known(s) => runtime.freshness != PresenceFreshness::Unavailable ==> shown.deep_view()
                == display_activities(s.data.activities),
            PresenceStateModel::Unknown => true,
        },
    ensures
        final(body)@ == old(body)@ + presence_content_spec(runtime.deep_view(), *embedded),
{
    let ghost before_content = body@;
    match &runtime.presence {
        PresenceState::Unknown => {
            push_str(
                body,
                "<text x=\"28\" y=\"70\" fill=\"#9fb0d9\" font-family=\"ui-monospace, SFMono-Regular, Consolas, monospace\" font-size=\"15\">waiting</text>",
            );
            push_str(
                body,
                "<text x=\"28\" y=\"126\" fill=\"#c4cee8\" font-family=\"ui-monospace, SFMono-Regular, Consolas, monospace\" font-size=\"17\">Waiting for Discord presence</text>",
            );
        },
        PresenceState::Known(snapshot) => {
            if runtime.freshness == PresenceFreshness::Unavailable {
                push_str(
                    body,
                    "<text x=\"28\" y=\"70\" fill=\"#9fb0d9\" font-family=\"ui-monospace, SFMono-Regular, Consolas, monospace\" font-size=\"15\">unavailable \u{b7} last revision ",
                );
                push_decimal(body, snapshot.revision);
                push_str(body, "</text>");
                push_str(
                    body,
                    "<text x=\"28\" y=\"126\" fill=\"#c4cee8\" font-family=\"ui-monospace, SFMono-Regular, Consolas, monospace\" font-size=\"17\">Presence temporarily unavailable</text>",
                );
            } else {
                push_str(
                    body,
                    "<text x=\"28\" y=\"70\" fill=\"#9fb0d9\" font-family=\"ui-monospace, SFMono-Regular, Consolas, monospace\" font-size=\"15\">",
                );
                push_escaped(body, status_name(snapshot.data.status));
                push_str(body, " \u{b7} revision ");
                push_decimal(body, snapshot.revision);
                push_str(body, "</text>");
                if runtime.freshness == PresenceFreshness::Stale {
                    push_str(
                        body,
                        "<text x=\"728\" y=\"42\" text-anchor=\"end\" fill=\"#f2c879\" font-family=\"ui-monospace, SFMono-Regular, Consolas, monospace\" font-size=\"14\">last known</text>",
                    );
                } else {
                    push_str(body, "");
                }
                if shown.len() == 0 {
                    push_str(
                        body,
                        "<text x=\"28\" y=\"126\" fill=\"#c4cee8\" font-family=\"ui-monospace, SFMono-Regular, Consolas, monospace\" font-size=\"17\">No current activity</text>",
                    );
                } else {
                    render_rows(body, &shown, embedded);
                }
            }
        },
    }
    proof {
        assert(body@ =~= before_content + presence_content_spec(runtime.deep_view(), *embedded));
    }
}

/// The presence card: the status, revision and one row per shown activity of a known
/// presence, or a neutral notice while the presence is unknown or unavailable.
pub fn render_presence_card(runtime: &RuntimeState, embedded: &EmbeddedArtworkBatch) -> (r: String)
    ensures
        r@ == presence_card_spec(runtime.deep_view(), *embedded),
{
    let shown: Vec<ActivitySnapshot> = match &runtime.presence {
        PresenceState::Known(snapshot) => if runtime.freshness == PresenceFreshness::Unavailable {
            Vec::new()
        } else {
            selected_activities(
                &snapshot.data.activities,
                NameMatch::UnicodeLower,
                DuplicateRule::Richest,
            )
        },
        PresenceState::Unknown => Vec::new(),
    };
    let count = shown.len();
    let rows = if count > 1 {
        count
    } else {
        1
    };
    let height = sat_add(112, sat_mul(clamp_u32(rows), 58));
    let mut body = svg_open(760, height, "ItzHerzchen Discord presence");
    push_str(&mut body, "<rect width=\"760\" height=\"");
    push_decimal(&mut body, height as u64);
    push_str(&mut body, "\" rx=\"22\" fill=\"#0b1020\"/>");
    push_str(&mut body, "<rect x=\"1\" y=\"1\" width=\"758\" height=\"");
    push_decimal(&mut body, height.saturating_sub(2) as u64);
    push_str(&mut body, "\" rx=\"21\" fill=\"none\" stroke=\"#293659\"/>");
    push_str(
        &mut body,
        "<text x=\"28\" y=\"42\" fill=\"#f4f7ff\" font-family=\"ui-monospace, SFMono-Regular, Consolas, monospace\" font-size=\"22\" font-weight=\"700\">Discord presence</text>",
    );
    push_presence_content(&mut body, runtime, &shown, embedded);
    push_str(&mut body, "</svg>");
    body
}

/// A duration as minutes and two-digit seconds (`m:ss`).
pub open spec fn minutes_seconds_spec(ms: u64) -> Seq<char> {
    let total = ms as nat / 1000;
    decimal_spec(total / 60) + ":"@ + pad2_spec(total % 60)
}

/// A duration as minutes and two-digit seconds (`m:ss`).
pub fn format_duration(duration_ms: u64) -> (r: String)
    ensures
        r@ == minutes_seconds_spec(duration_ms),
{
    let total = duration_ms / 1000;
    let mut r = decimal(total / 60);
    push_str(&mut r, ":");
    push_pad2(&mut r, total % 60);
    r
}

/// What the Spotify card shows.
pub enum VisibleSpotify {
    Track(SpotifyActivityModel, bool),
    Inactive,
    Unavailable,
}

/// What the Spotify card shows: the first Spotify activity of a known presence (with
/// whether it is stale), nothing playing, or an unavailable presence.
pub open spec fn visible_spotify_spec(m: RuntimeModel) -> VisibleSpotify {
    match m.presence {
        PresenceStateModel::Unknown => VisibleSpotify::Unavailable,
        PresenceStateModel::Known(s) => if m.freshness == PresenceFreshness::Unavailable {
            VisibleSpotify::Unavailable
        } else {
            match spotify_activity_spec(s.data.activities) {
                Some(a) => VisibleSpotify::Track(a, m.freshness == PresenceFreshness::Stale),
                None => VisibleSpotify::Inactive,
            }
        },
    }
}

/// The card's width, height, cover size, title size and text column of a layout.
pub open spec fn layout_dims(layout: SpotifyLayout) -> (int, int, int, int, int) {
    match layout {
        SpotifyLayout::Mini => (420, 96, 64, 16, 94),
        SpotifyLayout::Compact => (560, 128, 92, 18, 126),
        SpotifyLayout::Wide => (720, 152, 116, 21, 154),
    }
}

fn dims(layout: SpotifyLayout) -> (r: (u32, u32, u32, u32, u32))
    ensures
        (r.0 as int, r.1 as int, r.2 as int, r.3 as int, r.4 as int) == layout_dims(layout),
{
    match layout {
        SpotifyLayout::Mini => (420, 96, 64, 16, 94),
        SpotifyLayout::Compact => (560, 128, 92, 18, 126),
        SpotifyLayout::Wide => (720, 152, 116, 21, 154),
    }
}

/// The cover of the Spotify card: the embedded cover, or a note tile.
pub open spec fn spotify_cover_spec(cover_url: Option<Seq<char>>, x: int, y: int, size: int, embedded: EmbeddedArtworkBatch) -> Seq<char> {
    let href = match cover_url {
        Some(u) => embedded.image(u),
        None => None,
    };
    match href {
        Some(d) => "<image x=\""@ + dec(x) + "\" y=\""@ + dec(y) + "\" width=\""@ + dec(size)
            + "\" height=\""@ + dec(size) + "\" href=\""@ + escape_spec(d)
            + "\" preserveAspectRatio=\"xMidYMid slice\"/>"@,
        None => "<rect x=\""@ + dec(x) + "\" y=\""@ + dec(y) + "\" width=\""@ + dec(size)
            + "\" height=\""@ + dec(size) + "\" rx=\"12\" fill=\"#18213a\"/>"@ + "<text x=\""@
            + dec(sat_add32(x, size / 2)) + "\" y=\""@ + dec(sat_add32(sat_add32(y, size / 2), 7))
            + "\" text-anchor=\"middle\" fill=\"#9fb0d9\" font-family=\"ui-monospace, SFMono-Regular, Consolas, monospace\" font-size=\"22\">\u{266a}</text>"@,
    }
}

fn spotify_cover(
    cover_url: &Option<String>,
    x: u32,
    y: u32,
    size: u32,
    embedded: &EmbeddedArtworkBatch,
) -> (r: String)
    ensures
        r@ == spotify_cover_spec(cover_url.deep_view(), x as int, y as int, size as int, *embedded),
{
    let href = match cover_url {
        Some(u) => embedded.href(u.as_str()),
        None => None,
    };
    let part = match href {
        Some(d) => {
            let mut p = owned("<image x=\"");
            push_decimal(&mut p, x as u64);
            push_str(&mut p, "\" y=\"");
            push_decimal(&mut p, y as u64);
            push_str(&mut p, "\" width=\"");
            push_decimal(&mut p, size as u64);
            push_str(&mut p, "\" height=\"");
            push_decimal(&mut p, size as u64);
            push_str(&mut p, "\" href=\"");
            push_escaped(&mut p, d.as_str());
            push_str(&mut p, "\" preserveAspectRatio=\"xMidYMid slice\"/>");
            p
        },
        None => {
            let mut p = owned("<rect x=\"");
            push_decimal(&mut p, x as u64);
            push_str(&mut p, "\" y=\"");
            push_decimal(&mut p, y as u64);
            push_str(&mut p, "\" width=\"");
            push_decimal(&mut p, size as u64);
            push_str(&mut p, "\" height=\"");
            push_decimal(&mut p, size as u64);
            push_str(&mut p, "\" rx=\"12\" fill=\"#18213a\"/>");
            push_str(&mut p, "<text x=\"");
            push_decimal(&mut p, sat_add(x, size / 2) as u64);
            push_str(&mut p, "\" y=\"");
            push_decimal(&mut p, sat_add(sat_add(y, size / 2), 7) as u64);
            push_str(
                &mut p,
                "\" text-anchor=\"middle\" fill=\"#9fb0d9\" font-family=\"ui-monospace, SFMono-Regular, Consolas, monospace\" font-size=\"22\">\u{266a}</text>",
            );
            p
        },
    };
    part
}

pub open spec fn or_default(v: Option<Seq<char>>, d: Seq<char>) -> Seq<char> {
    match v {
        Some(x) => x,
        None => d,
    }
}

/// The track part of the Spotify card.
pub open spec fn spotify_track_spec(
    a: SpotifyActivityModel,
    stale: bool,
    layout: SpotifyLayout,
    embedded: EmbeddedArtworkBatch,
) -> Seq<char> {
    let (width, height, cover, title_size, x_text) = layout_dims(layout);
    let wide = layout == SpotifyLayout::Wide;
    let mini = layout == SpotifyLayout::Mini;
    spotify_cover_spec(a.cover_url, 16, 16, cover, embedded) + "<text x=\""@ + dec(x_text)
        + "\" y=\""@ + dec(if mini {
        38
    } else {
        42
    }) + "\" fill=\"#f4f7ff\" font-family=\"ui-monospace, SFMono-Regular, Consolas, monospace\" font-size=\""@
        + dec(title_size) + "\" font-weight=\"700\">"@ + escape_spec(
        truncate_spec(or_default(a.title, "Unknown track"@), if wide {
            52
        } else {
            36
        }),
    ) + "</text>"@ + "<text x=\""@ + dec(x_text) + "\" y=\""@ + dec(if mini {
        63
    } else {
        68
    }) + "\" fill=\"#9fb0d9\" font-family=\"ui-monospace, SFMono-Regular, Consolas, monospace\" font-size=\"14\">"@
        + escape_spec(truncate_spec(or_default(a.artist, "Unknown artist"@), if wide {
        58
    } else {
        40
    })) + "</text>"@ + (if mini {
        ""@
    } else {
        "<text x=\""@ + dec(x_text)
            + "\" y=\"94\" fill=\"#7f91bd\" font-family=\"ui-monospace, SFMono-Regular, Consolas, monospace\" font-size=\"13\">"@
            + escape_spec(truncate_spec(or_default(a.album, "Unknown album"@), if wide {
            58
        } else {
            40
        })) + "</text>"@ + match a.duration_ms {
            Some(d) => "<text x=\""@ + dec(sat_sub(width, 18)) + "\" y=\""@ + dec(
                sat_sub(height, 18),
            )
                + "\" text-anchor=\"end\" fill=\"#7f91bd\" font-family=\"ui-monospace, SFMono-Regular, Consolas, monospace\" font-size=\"13\">"@
                + minutes_seconds_spec(d) + "</text>"@,
            None => ""@,
        }
    }) + (if stale {
        "<text x=\""@ + dec(sat_sub(width, 18))
            + "\" y=\"24\" text-anchor=\"end\" fill=\"#f2c879\" font-family=\"ui-monospace, SFMono-Regular, Consolas, monospace\" font-size=\"12\">last known</text>"@
    } else {
        ""@
    })
}

pub open spec fn spotify_notice_spec(message: Seq<char>) -> Seq<char> {
    "<circle cx=\"44\" cy=\"48\" r=\"24\" fill=\"#18213a\"/>"@
        + "<text x=\"44\" y=\"54\" text-anchor=\"middle\" fill=\"#9fb0d9\" font-family=\"ui-monospace, SFMono-Regular, Consolas, monospace\" font-size=\"18\">\u{266a}</text>"@
        + "<text x=\"84\" y=\"43\" fill=\"#f4f7ff\" font-family=\"ui-monospace, SFMono-Regular, Consolas, monospace\" font-size=\"17\" font-weight=\"700\">Spotify</text>"@
        + "<text x=\"84\" y=\"67\" fill=\"#9fb0d9\" font-family=\"ui-monospace, SFMono-Regular, Consolas, monospace\" font-size=\"14\">"@
        + message + "</text>"@
}

/// The Spotify card of a layout.
pub open spec fn spotify_card_spec(m: RuntimeModel, layout: SpotifyLayout, embedded: EmbeddedArtworkBatch) -> Seq<char> {
    let (width, height, cover, title_size, x_text) = layout_dims(layout);
    svg_open_spec(width, height, "ItzHerzchen Spotify activity"@) + "<rect width=\""@ + dec(width)
        + "\" height=\""@ + dec(height) + "\" rx=\"20\" fill=\"#0b1020\"/>"@
        + "<rect x=\"1\" y=\"1\" width=\""@ + dec(sat_sub(width, 2)) + "\" height=\""@ + dec(
        sat_sub(height, 2),
    ) + "\" rx=\"19\" fill=\"none\" stroke=\"#293659\"/>"@ + match visible_spotify_spec(m) {
        VisibleSpotify::Track(a, stale) => spotify_track_spec(a, stale, layout, embedded),
        VisibleSpotify::Inactive => spotify_notice_spec("Not listening right now"@),
        VisibleSpotify::Unavailable => spotify_notice_spec("Presence temporarily unavailable"@),
    } + "</svg>"@
}

fn push_or_default(body: &mut String, value: &Option<String>, default: &str, max: usize)
    ensures
        final(body)@ == old(body)@ + escape_spec(
            truncate_spec(or_default(value.deep_view(), default@), max as nat),
        ),
{
    let cut = match value {
        Some(v) => truncate_chars(v.as_str(), max),
        None => truncate_chars(default, max),
    };
    push_escaped(body, cut.as_str());
}

fn spotify_track(
    a: &SpotifyActivity,
    stale: bool,
    layout: SpotifyLayout,
    embedded: &EmbeddedArtworkBatch,
) -> (r: String)
    ensures
        r@ == spotify_track_spec(a.deep_view(), stale, layout, *embedded),
{
    let (width, height, cover, title_size, x_text) = dims(layout);
    let wide = layout == SpotifyLayout::Wide;
    let mini = layout == SpotifyLayout::Mini;
    let mut p = spotify_cover(&a.cover_url, 16, 16, cover, embedded);
    push_str(&mut p, "<text x=\"");
    push_decimal(&mut p, x_text as u64);
    push_str(&mut p, "\" y=\"");
    push_decimal(&mut p, if mini {
        38
    } else {
        42
    });
    push_str(
        &mut p,
        "\" fill=\"#f4f7ff\" font-family=\"ui-monospace, SFMono-Regular, Consolas, monospace\" font-size=\"",
    );
    push_decimal(&mut p, title_size as u64);
    push_str(&mut p, "\" font-weight=\"700\">");
    push_or_default(&mut p, &a.title, "Unknown track", if wide {
        52
    } else {
        36
    });
    push_str(&mut p, "</text>");
    push_str(&mut p, "<text x=\"");
    push_decimal(&mut p, x_text as u64);
    push_str(&mut p, "\" y=\"");
    push_decimal(&mut p, if mini {
        63
    } else {
        68
    });
    push_str(
        &mut p,
        "\" fill=\"#9fb0d9\" font-family=\"ui-monospace, SFMono-Regular, Consolas, monospace\" font-size=\"14\">",
    );
    push_or_default(&mut p, &a.artist, "Unknown artist", if wide {
        58
    } else {
        40
    });
    push_str(&mut p, "</text>");
    let album = if mini {
        owned("")
    } else {
        let duration = match a.duration_ms {
            Some(d) => {
                let mut q = owned("<text x=\"");
                push_decimal(&mut q, width.saturating_sub(18) as u64);
                push_str(&mut q, "\" y=\"");
                push_decimal(&mut q, height.saturating_sub(18) as u64);
                push_str(
                    &mut q,
                    "\" text-anchor=\"end\" fill=\"#7f91bd\" font-family=\"ui-monospace, SFMono-Regular, Consolas, monospace\" font-size=\"13\">",
                );
                let text = format_duration(d);
                push_str(&mut q, text.as_str());
                push_str(&mut q, "</text>");
                q
            },
            None => owned(""),
        };
        let mut q = owned("<text x=\"");
        push_decimal(&mut q, x_text as u64);
        push_str(
            &mut q,
            "\" y=\"94\" fill=\"#7f91bd\" font-family=\"ui-monospace, SFMono-Regular, Consolas, monospace\" font-size=\"13\">",
        );
        push_or_default(&mut q, &a.album, "Unknown album", if wide {
            58
        } else {
            40
        });
        push_str(&mut q, "</text>");
        push_str(&mut q, duration.as_str());
        q
    };
    push_str(&mut p, album.as_str());
    let last_known = if stale {
        let mut q = owned("<text x=\"");
        push_decimal(&mut q, width.saturating_sub(18) as u64);
        push_str(
            &mut q,
            "\" y=\"24\" text-anchor=\"end\" fill=\"#f2c879\" font-family=\"ui-monospace, SFMono-Regular, Consolas, monospace\" font-size=\"12\">last known</text>",
        );
        q
    } else {
        owned("")
    };
    push_str(&mut p, last_known.as_str());
    p
}

fn push_notice(body: &mut String, message: &str)
    ensures
        final(body)@ == old(body)@ + spotify_notice_spec(message@),
{
    let ghost start = body@;
    push_str(body, "<circle cx=\"44\" cy=\"48\" r=\"24\" fill=\"#18213a\"/>");
    push_str(
        body,
        "<text x=\"44\" y=\"54\" text-anchor=\"middle\" fill=\"#9fb0d9\" font-family=\"ui-monospace, SFMono-Regular, Consolas, monospace\" font-size=\"18\">\u{266a}</text>",
    );
    push_str(
        body,
        "<text x=\"84\" y=\"43\" fill=\"#f4f7ff\" font-family=\"ui-monospace, SFMono-Regular, Consolas, monospace\" font-size=\"17\" font-weight=\"700\">Spotify</text>",
    );
    push_str(
        body,
        "<text x=\"84\" y=\"67\" fill=\"#9fb0d9\" font-family=\"ui-monospace, SFMono-Regular, Consolas, monospace\" font-size=\"14\">",
    );
    push_str(body, message);
    push_str(body, "</text>");
    proof {
        assert(body@ =~= start + spotify_notice_spec(message@));
    }
}

/// The Spotify card of a layout: the first Spotify activity's cover, title, artist and
/// (except in the mini layout) album and duration, or a notice when nothing plays or
/// the presence is unavailable.
pub fn render_spotify_card(runtime: &RuntimeState, layout: SpotifyLayout, embedded: &EmbeddedArtworkBatch) -> (r:
    String)
    ensures
        r@ == spotify_card_spec(runtime.deep_view(), layout, *embedded),
{
    let (width, height, cover, title_size, x_text) = dims(layout);
    let mut body = svg_open(width, height, "ItzHerzchen Spotify activity");
    push_str(&mut body, "<rect width=\"");
    push_decimal(&mut body, width as u64);
    push_str(&mut body, "\" height=\"");
    push_decimal(&mut body, height as u64);
    push_str(&mut body, "\" rx=\"20\" fill=\"#0b1020\"/>");
    push_str(&mut body, "<rect x=\"1\" y=\"1\" width=\"");
    push_decimal(&mut body, width.saturating_sub(2) as u64);
    push_str(&mut body, "\" height=\"");
    push_decimal(&mut body, height.saturating_sub(2) as u64);
    push_str(&mut body, "\" rx=\"19\" fill=\"none\" stroke=\"#293659\"/>");
    let ghost before = body@;
    match &runtime.presence {
        PresenceState::Unknown => push_notice(&mut body, "Presence temporarily unavailable"),
        PresenceState::Known(snapshot) => {
            if runtime.freshness == PresenceFreshness::Unavailable {
                push_notice(&mut body, "Presence temporarily unavailable");
            } else {
                let found = spotify_activity(snapshot.data.activities.as_slice());
                proof {
                    assert(snapshot.data.activities@.map_values(|a: ActivitySnapshot| a.deep_view())
                        =~= snapshot.data.activities.deep_view());
                }
                match found {
                    Some(a) => {
                        let track = spotify_track(
                            &a,
                            runtime.freshness == PresenceFreshness::Stale,
                            layout,
                            embedded,
                        );
                        push_str(&mut body, track.as_str());
                    },
                    None => push_notice(&mut body, "Not listening right now"),
                }
            }
        },
    }
    proof {
        let content = match visible_spotify_spec(runtime.deep_view()) {
            VisibleSpotify::Track(a, stale) => spotify_track_spec(a, stale, layout, *embedded),
            VisibleSpotify::Inactive => spotify_notice_spec("Not listening right now"@),
            VisibleSpotify::Unavailable => spotify_notice_spec("Presence temporarily unavailable"@),
        };
        assert(body@ == before + content);
    }
    push_str(&mut body, "</svg>");
    body
}

/// The cards the realtime renderer draws; each is cached on its own.
#[derive(Clone, Copy, Debug, PartialEq, Eq, Hash, Structural)]
pub enum SvgVariant {
    HeroTest,
    Presence,
    Spotify(SpotifyLayout),
}

pub open spec fn layout_key_spec(layout: SpotifyLayout) -> Seq<char> {
    match layout {
        SpotifyLayout::Mini => "spotify-mini"@,
        SpotifyLayout::Compact => "spotify-compact"@,
        SpotifyLayout::Wide => "spotify-wide"@,
    }
}

pub open spec fn variant_key_spec(variant: SvgVariant) -> Seq<char> {
    match variant {
        SvgVariant::HeroTest => "hero-test"@,
        SvgVariant::Presence => "presence"@,
        SvgVariant::Spotify(layout) => layout_key_spec(layout),
    }
}

impl SpotifyLayout {
    /// The name of the layout's card in entity tags.
    pub fn cache_key(self) -> (r: &'static str)
        ensures
            r@ == layout_key_spec(self),
    {
        match self {
            SpotifyLayout::Mini => "spotify-mini",
            SpotifyLayout::Compact => "spotify-compact",
            SpotifyLayout::Wide => "spotify-wide",
        }
    }
}

impl SvgVariant {
    /// The name of the card in entity tags.
    pub fn cache_key(self) -> (r: &'static str)
        ensures
            r@ == variant_key_spec(self),
    {
        match self {
            SvgVariant::HeroTest => "hero-test",
            SvgVariant::Presence => "presence",
            SvgVariant::Spotify(layout) => layout.cache_key(),
        }
    }
}

/// The entity tag of a card: the renderer revision, the card, the stream revision and
/// whether all of its artwork was embedded.
pub open spec fn svg_etag_spec(variant: SvgVariant, revision: u64, complete: bool) -> Seq<char> {
    "\"profile-svg-v"@ + decimal_spec(RENDERER_REVISION as nat) + "-"@ + variant_key_spec(variant)
        + "-"@ + decimal_spec(revision as nat) + "-"@ + (if complete {
        "full"@
    } else {
        "partial"@
    }) + "\""@
}

pub fn svg_etag(variant: SvgVariant, revision: u64, complete: bool) -> (r: String)
    ensures
        r@ == svg_etag_spec(variant, revision, complete),
{
    let mut etag = owned("\"profile-svg-v");
    push_decimal(&mut etag, RENDERER_REVISION);
    push_str(&mut etag, "-");
    push_str(&mut etag, variant.cache_key());
    push_str(&mut etag, "-");
    push_decimal(&mut etag, revision);
    push_str(&mut etag, "-");
    push_str(&mut etag, if complete { "full" } else { "partial" });
    push_str(&mut etag, "\"");
    etag
}

/// A rendered document as values: its body, its entity tag and the stream revision it shows.
pub struct DocumentModel {
    pub body: Seq<char>,
    pub etag: Seq<char>,
    pub stream_revision: u64,
}

/// A rendered realtime card.
#[derive(Debug)]
pub struct SvgDocument {
    body: String,
    etag: String,
    stream_revision: u64,
}

impl SvgDocument {
    pub closed spec fn model(&self) -> DocumentModel {
        DocumentModel { body: self.body@, etag: self.etag@, stream_revision: self.stream_revision }
    }

    pub fn body(&self) -> (r: &str)
        ensures
            r@ == self.model().body,
    {
        self.body.as_str()
    }

    pub fn etag(&self) -> (r: &str)
        ensures
            r@ == self.model().etag,
    {
        self.etag.as_str()
    }

    pub fn stream_revision(&self) -> (r: u64)
        ensures
            r == self.model().stream_revision,
    {
        self.stream_revision
    }

    fn duplicate(&self) -> (r: Self)
        ensures
            r.model() == self.model(),
    {
        SvgDocument {
            body: self.body.clone(),
            etag: self.etag.clone(),
            stream_revision: self.stream_revision,
        }
    }
}

/// The body of a card for the runtime state and the embedded artwork.
pub open spec fn variant_body_spec(m: RuntimeModel, variant: SvgVariant, embedded: EmbeddedArtworkBatch) -> Seq<
    char,
> {
    match variant {
        SvgVariant::HeroTest => hero_test_spec(m),
        SvgVariant::Presence => presence_card_spec(m, embedded),
        SvgVariant::Spotify(layout) => spotify_card_spec(m, layout, embedded),
    }
}

pub open spec fn document_spec(m: RuntimeModel, variant: SvgVariant, embedded: EmbeddedArtworkBatch) -> DocumentModel {
    DocumentModel {
        body: variant_body_spec(m, variant, embedded),
        etag: svg_etag_spec(variant, m.stream_revision, embedded.is_complete()),
        stream_revision: m.stream_revision,
    }
}

/// Renders a card into a document tagged with the stream revision it shows.
pub fn render_document(runtime: &RuntimeState, variant: SvgVariant, embedded: &EmbeddedArtworkBatch) -> (r:
    SvgDocument)
    ensures
        r.model() == document_spec(runtime.deep_view(), variant, *embedded),
{
    let body = match variant {
        SvgVariant::HeroTest => render_hero_test(runtime),
        SvgVariant::Presence => render_presence_card(runtime, embedded),
        SvgVariant::Spotify(layout) => render_spotify_card(runtime, layout, embedded),
    };
    let etag = svg_etag(variant, runtime.stream_revision, embedded.complete());
    SvgDocument { body, etag, stream_revision: runtime.stream_revision }
}

pub open spec fn slot_of(variant: SvgVariant) -> int {
    match variant {
        SvgVariant::HeroTest => 0,
        SvgVariant::Presence => 1,
        SvgVariant::Spotify(SpotifyLayout::Mini) => 2,
        SvgVariant::Spotify(SpotifyLayout::Compact) => 3,
        SvgVariant::Spotify(SpotifyLayout::Wide) => 4,
    }
}

fn slot_index(variant: SvgVariant) -> (r: usize)
    ensures
        r == slot_of(variant),
        r < 5,
{
    match variant {
        SvgVariant::HeroTest => 0,
        SvgVariant::Presence => 1,
        SvgVariant::Spotify(SpotifyLayout::Mini) => 2,
        SvgVariant::Spotify(SpotifyLayout::Compact) => 3,
        SvgVariant::Spotify(SpotifyLayout::Wide) => 4,
    }
}

/// The cached document of a card, if it shows the given stream revision.
pub open spec fn reusable(entry: Option<DocumentModel>, revision: u64) -> Option<DocumentModel> {
    match entry {
        Some(d) => if d.stream_revision == revision {
            Some(d)
        } else {
            None
        },
        None => None,
    }
}

/// The last complete rendering of each card.
pub struct SvgCache {
    slots: Vec<Option<SvgDocument>>,
}

impl SvgCache {
    #[verifier::type_invariant]
    spec fn wf(&self) -> bool {
        self.slots@.len() == 5
    }

    /// The document cached for a card.
    pub closed spec fn entry(&self, variant: SvgVariant) -> Option<DocumentModel> {
        match self.slots@[slot_of(variant)] {
            Some(d) => Some(d.model()),
            None => None,
        }
    }

    pub fn new() -> (r: Self)
        ensures
            forall|v: SvgVariant| #[trigger] r.entry(v) is None,
    {
        let mut slots: Vec<Option<SvgDocument>> = Vec::new();
        let mut i: usize = 0;
        while i < 5
            invariant
                i <= 5,
                slots@.len() == i,
                forall|j: int| 0 <= j < i ==> slots@[j] is None,
            decreases 5 - i,
        {
            slots.push(None);
            i = i + 1;
        }
        SvgCache { slots }
    }

    /// The cached card, if it was rendered for the runtime's stream revision.
    pub fn cached(&self, runtime: &RuntimeState, variant: SvgVariant) -> (r: Option<SvgDocument>)
        ensures
            match r {
                Some(d) => reusable(self.entry(variant), runtime.stream_revision) == Some(d.model()),
                None => reusable(self.entry(variant), runtime.stream_revision) is None,
            },
    {
        proof {
            use_type_invariant(self);
        }
        let i = slot_index(variant);
        match &self.slots[i] {
            Some(d) => if d.stream_revision == runtime.stream_revision {
                Some(d.duplicate())
            } else {
                None
            },
            None => None,
        }
    }

    /// Renders a card and keeps it when all of its artwork was embedded. Where a card of
    /// the same stream revision was kept meanwhile, that one is served instead.
    pub fn finish_render(&mut self, runtime: &RuntimeState, variant: SvgVariant, embedded: &EmbeddedArtworkBatch) -> (r:
        SvgDocument)
        ensures
            !embedded.is_complete() ==> r.model() == document_spec(runtime.deep_view(), variant, *embedded)
                && final(self).entry(variant) == old(self).entry(variant),
            embedded.is_complete() ==> match reusable(old(self).entry(variant), runtime.stream_revision) {
                Some(e) => r.model() == e && final(self).entry(variant) == old(self).entry(variant),
                None => r.model() == document_spec(runtime.deep_view(), variant, *embedded)
                    && final(self).entry(variant) == Some(r.model()),
            },
            forall|v: SvgVariant| v != variant ==> #[trigger] final(self).entry(v) == old(self).entry(v),
    {
        proof {
            use_type_invariant(&*self);
        }
        let document = render_document(runtime, variant, embedded);
        if !embedded.complete() {
            return document;
        }
        let i = slot_index(variant);
        let existing = match &self.slots[i] {
            Some(d) => if d.stream_revision == runtime.stream_revision {
                Some(d.duplicate())
            } else {
                None
            },
            None => None,
        };
        match existing {
            Some(d) => d,
            None => {
                let kept = document.duplicate();
                let mut slots: Vec<Option<SvgDocument>> = vec![None, None, None, None, None];
                std::mem::swap(&mut slots, &mut self.slots);
                slots.set(i, Some(kept));
                self.slots = slots;
                proof {
                    assert forall|v: SvgVariant| v != variant implies #[trigger] self.entry(v) == old(self).entry(v) by {
                        assert(slot_of(v) != slot_of(variant));
                    }
                }
                document
            },
        }
    }
}

/// The artwork URLs of the shown activities, each once, in order of appearance.
pub open spec fn artwork_urls_of(acts: Seq<ActivityModel>) -> Seq<Seq<char>>
    decreases acts.len(),
{
    if acts.len() == 0 {
        Seq::empty()
    } else {
        let r = artwork_urls_of(acts.drop_last());
        match crate::activity::artwork_spec(acts.last()).1 {
            Some(u) => if r.contains(u) {
                r
            } else {
                r.push(u)
            },
            None => r,
        }
    }
}

/// The artwork to embed in the presence card: that of the shown activities of an
/// available presence.
pub open spec fn presence_artwork_urls_spec(m: RuntimeModel) -> Seq<Seq<char>> {
    match m.presence {
        PresenceStateModel::Known(s) => if m.freshness == PresenceFreshness::Unavailable {
            Seq::empty()
        } else {
            artwork_urls_of(display_activities(s.data.activities))
        },
        PresenceStateModel::Unknown => Seq::empty(),
    }
}

pub fn presence_artwork_urls(runtime: &RuntimeState) -> (r: Vec<String>)
    ensures
        r.deep_view() == presence_artwork_urls_spec(runtime.deep_view()),
{
    let snapshot = match &runtime.presence {
        PresenceState::Known(snapshot) => snapshot,
        PresenceState::Unknown => return Vec::new(),
    };
    if runtime.freshness == PresenceFreshness::Unavailable {
        return Vec::new();
    }
    let shown = selected_activities(
        &snapshot.data.activities,
        NameMatch::UnicodeLower,
        DuplicateRule::Richest,
    );
    let ghost acts = shown.deep_view();
    let mut urls: Vec<String> = Vec::new();
    let mut i: usize = 0;
    while i < shown.len()
        invariant
            i <= shown@.len(),
            acts == shown.deep_view(),
            urls.deep_view() == artwork_urls_of(acts.take(i as int)),
        decreases shown.len() - i,
    {
        proof {
            assert(acts.take(i + 1).drop_last() =~= acts.take(i as int));
            assert(acts[i as int] == shown@[i as int].deep_view());
        }
        let art = resolve_artwork(&shown[i]);
        match art.url {
            Some(u) => {
                let mut seen = false;
                let mut k: usize = 0;
                while k < urls.len()
                    invariant
                        k <= urls@.len(),
                        seen <==> exists|j: int| 0 <= j < k && urls.deep_view()[j] == u@,
                    decreases urls.len() - k,
                {
                    assert(urls.deep_view()[k as int] == urls@[k as int]@);
                    if crate::text::equals(urls[k].as_str(), u.as_str()) {
                        seen = true;
                    }
                    k = k + 1;
                }
                proof {
                    if seen {
                        let j = choose|j: int| 0 <= j < k && urls.deep_view()[j] == u@;
                        assert(urls.deep_view().contains(u@));
                    } else {
                        assert(!urls.deep_view().contains(u@));
                    }
                }
                if !seen {
                    let ghost before = urls.deep_view();
                    let ghost uv = u@;
                    urls.push(u);
                    proof {
                        assert(urls.deep_view() =~= before.push(uv));
                    }
                }
            },
            None => {},
        }
        i = i + 1;
    }
    proof {
        assert(acts.take(shown@.len() as int) =~= acts);
    }
    urls
}

/// The artwork to embed in the Spotify card: the cover of the first Spotify activity of
/// an available presence.
pub open spec fn spotify_artwork_urls_spec(m: RuntimeModel) -> Seq<Seq<char>> {
    match m.presence {
        PresenceStateModel::Known(s) => if m.freshness == PresenceFreshness::Unavailable {
            Seq::empty()
        } else {
            match spotify_activity_spec(s.data.activities) {
                Some(a) => match a.cover_url {
                    Some(u) => seq![u],
                    None => Seq::empty(),
                },
                None => Seq::empty(),
            }
        },
        PresenceStateModel::Unknown => Seq::empty(),
    }
}

pub fn spotify_artwork_urls(runtime: &RuntimeState) -> (r: Vec<String>)
    ensures
        r.deep_view() == spotify_artwork_urls_spec(runtime.deep_view()),
{
    let snapshot = match &runtime.presence {
        PresenceState::Known(snapshot) => snapshot,
        PresenceState::Unknown => return Vec::new(),
    };
    if runtime.freshness == PresenceFreshness::Unavailable {
        return Vec::new();
    }
    let found = spotify_activity(snapshot.data.activities.as_slice());
    proof {
        assert(snapshot.data.activities@.map_values(|a: ActivitySnapshot| a.deep_view())
            =~= snapshot.data.activities.deep_view());
    }
    let mut urls: Vec<String> = Vec::new();
    match found {
        Some(a) => match a.cover_url {
            Some(u) => {
                let ghost uv = u@;
                urls.push(u);
                proof {
                    assert(urls.deep_view() =~= seq![uv]);
                }
            },
            None => {},
        },
        None => {},
    }
    proof {
        assert(urls.deep_view().len() == urls@.len());
    }
    urls
}

/// Artwork that could not be embedded is drawn from its fallback key alone: what is
/// written does not depend on the remote URL, so the URL is never emitted.
pub proof fn law_remote_artwork_is_never_emitted(
    url: Seq<char>,
    fallback_key: Seq<char>,
    x: int,
    y: int,
    size: int,
    embedded: EmbeddedArtworkBatch,
)
    requires
        embedded.image(url) is None,
    ensures
        artwork_spec(Some(url), fallback_key, x, y, size, embedded) == artwork_spec(
            None,
            fallback_key,
            x,
            y,
            size,
            embedded,
        ),
{
}

} // verus!
