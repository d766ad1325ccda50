//! The header of the first presence card: avatar, names, guild tag, public badges and
//! the presence's status.
use vstd::prelude::*;

use crate::artwork::EmbeddedArtworkBatch;
use crate::identity::{DiscordIdentityData, DiscordIdentitySnapshot, IdentityModel, IdentitySnapshotModel, PrimaryGuildIdentity, GuildModel};
use crate::presence_card::{badges_spec, custom_status, custom_status_spec, public_badges, status_visual, status_visual_spec};
use crate::state::{RuntimeModel, RuntimeState};
use crate::text::{chars_of, decimal_spec, escape_spec, owned, push_decimal, push_escaped, push_str, truncate_chars, truncate_spec};

verus! {

/// The opening of a line of text: its position and anchor.
pub open spec fn text1_head(x: nat, y: nat, anchor: Option<Seq<char>>) -> Seq<char> {
    "<text x=\""@ + decimal_spec(x) + "\" y=\""@ + decimal_spec(y) + "\""@ + (match anchor {
        Some(a) => " text-anchor=\""@ + escape_spec(a) + "\""@,
        None => Seq::empty(),
    })
}

/// The rest of a line of text: its fill, font and text.
pub open spec fn text1_tail(size: nat, fill: Seq<char>, weight: Seq<char>, value: Seq<char>) -> Seq<char> {
    " fill=\""@ + escape_spec(fill) + "\" font-family=\"Inter, ui-sans-serif, system-ui, -apple-system, 'Segoe UI', sans-serif\" font-size=\""@ + decimal_spec(size)
        + "\" font-weight=\""@ + escape_spec(weight) + "\">"@ + escape_spec(value) + "</text>"@
}

/// A line of text of the first card.
pub open spec fn text1_spec(x: nat, y: nat, size: nat, fill: Seq<char>, weight: Seq<char>, value: Seq<char>, anchor: Option<Seq<char>>) -> Seq<char> {
    text1_head(x, y, anchor) + text1_tail(size, fill, weight, value)
}

fn text1_opening(x: u32, y: u32, anchor: Option<&str>) -> (r: String)
    ensures
        r@ == text1_head(
            x as nat,
            y as nat,
            match anchor {
                Some(a) => Some(a@),
                None => None,
            },
        ),
{
    let mut t = owned("<text x=\"");
    push_decimal(&mut t, x as u64);
    push_str(&mut t, "\" y=\"");
    push_decimal(&mut t, y as u64);
    push_str(&mut t, "\"");
    let ghost mid = t@;
    match anchor {
        Some(a) => {
            push_str(&mut t, " text-anchor=\"");
            push_escaped(&mut t, a);
            push_str(&mut t, "\"");
            proof {
                assert(t@ =~= mid + (" text-anchor=\""@ + escape_spec(a@) + "\""@));
            }
        },
        None => {
            proof {
                assert(t@ =~= mid + Seq::<char>::empty());
            }
        },
    }
    t
}

fn text1_rest(size: u32, fill: &str, weight: &str, value: &str) -> (r: String)
    ensures
        r@ == text1_tail(size as nat, fill@, weight@, value@),
{
    let mut t = owned(" fill=\"");
    push_escaped(&mut t, fill);
    push_str(&mut t, "\" font-family=\"Inter, ui-sans-serif, system-ui, -apple-system, 'Segoe UI', sans-serif\" font-size=\"");
    push_decimal(&mut t, size as u64);
    push_str(&mut t, "\" font-weight=\"");
    push_escaped(&mut t, weight);
    push_str(&mut t, "\">");
    push_escaped(&mut t, value);
    push_str(&mut t, "</text>");
    t
}

/// Writes a line of text of the first card.
pub fn push_text1(body: &mut String, x: u32, y: u32, size: u32, fill: &str, weight: &str, value: &str, anchor: Option<&str>)
    ensures
        final(body)@ == old(body)@ + text1_spec(
            x as nat,
            y as nat,
            size as nat,
            fill@,
            weight@,
            value@,
            match anchor {
                Some(a) => Some(a@),
                None => None,
            },
        ),
{
    let head = text1_opening(x, y, anchor);
    let tail = text1_rest(size, fill, weight, value);
    push_str(body, head.as_str());
    push_str(body, tail.as_str());
}

/// The first card's avatar fallback: a circle with a `D`.
pub open spec fn fallback1_spec() -> Seq<char> {
    "<circle cx=\"100\" cy=\"77\" r=\"46\" fill=\"#252a43\"/>"@ + text1_spec(100, 86, 26, "#c6ccee"@, "800"@, "D"@, Some("middle"@))
}

fn push_fallback1(body: &mut String)
    ensures
        final(body)@ == old(body)@ + fallback1_spec(),
{
    let ghost start = body@;
    push_str(body, "<circle cx=\"100\" cy=\"77\" r=\"46\" fill=\"#252a43\"/>");
    push_text1(body, 100, 86, 26, "#c6ccee", "800", "D", Some("middle"));
    proof {
        assert(body@ =~= start + fallback1_spec());
    }
}

/// The characters a tag is measured by: its length, or four where the length does not
/// fit in a `u32`.
pub open spec fn tag_units1(tag: Seq<char>) -> int {
    if tag.len() <= u32::MAX {
        tag.len() as int
    } else {
        4
    }
}

/// The width of the guild pill.
pub open spec fn guild_pill_width(tag: Seq<char>) -> int {
    74 + tag_units1(tag) * 11
}

/// The width of a badge pill.
pub open spec fn badge_pill_width(label: Seq<char>) -> int {
    38 + label.len() as int * 9
}

/// `a + b`, at most `u32::MAX`.
pub open spec fn sat_u32(a: int, b: int) -> int {
    if a + b > u32::MAX {
        u32::MAX as int
    } else {
        a + b
    }
}

/// Where the badges start: after the guild pill, or at 690 without one.
pub open spec fn badges_x(guild: Option<GuildModel>) -> int {
    match guild {
        Some(g) => sat_u32(690, guild_pill_width(g.tag) + 12),
        None => 690,
    }
}

/// The guild pill: its frame, the embedded badge image where there is one, and the tag.
pub open spec fn guild1_spec(g: GuildModel, embedded: EmbeddedArtworkBatch) -> Seq<char> {
    "<rect x=\"690\" y=\"47\" width=\""@ + decimal_spec(guild_pill_width(g.tag) as nat)
        + "\" height=\"42\" rx=\"14\" fill=\"#181a2a\" stroke=\"#8875d6\" stroke-opacity=\".7\"/>"@ + (match g.badge_url {
        Some(u) => match embedded.image(u) {
            Some(uri) => "<image x=\"702\" y=\"57\" width=\"22\" height=\"22\" href=\""@ + escape_spec(uri)
                + "\" preserveAspectRatio=\"xMidYMid meet\"/>"@,
            None => Seq::empty(),
        },
        None => Seq::empty(),
    }) + text1_spec(732, 75, 18, "#f0eaff"@, "700"@, g.tag, None)
}

/// One badge pill at `x`.
pub open spec fn pill_spec(x: int, label: Seq<char>) -> Seq<char> {
    "<rect x=\""@ + decimal_spec(x as nat) + "\" y=\"51\" width=\""@ + decimal_spec(badge_pill_width(label) as nat)
        + "\" height=\"34\" rx=\"12\" fill=\"#20243a\" stroke=\"#6e769d\" stroke-opacity=\".5\"/>"@ + text1_spec(
        (x + badge_pill_width(label) / 2) as nat,
        73,
        12,
        "#c9d0ea"@,
        "700"@,
        label,
        Some("middle"@),
    )
}

/// The first two badges of the flags.
pub open spec fn shown_badges1(flags: u64) -> Seq<Seq<char>> {
    let b = badges_spec(flags);
    if b.len() > 2 {
        b.take(2)
    } else {
        b
    }
}

/// The badge pills from `x`, each next one ten units after the previous (saturating).
pub open spec fn pills_spec(x: int, labels: Seq<Seq<char>>) -> Seq<char> {
    if labels.len() == 0 {
        Seq::empty()
    } else if labels.len() == 1 {
        pill_spec(x, labels[0])
    } else {
        pill_spec(x, labels[0]) + pill_spec(sat_u32(x, badge_pill_width(labels[0]) + 10), labels[1])
    }
}

/// Whether the badge pills' centres fit in a `u32`.
pub open spec fn pills_fit(x: int, labels: Seq<Seq<char>>) -> bool {
    &&& labels.len() >= 1 ==> x + badge_pill_width(labels[0]) / 2 <= u32::MAX
    &&& labels.len() >= 2 ==> sat_u32(x, badge_pill_width(labels[0]) + 10) + badge_pill_width(labels[1]) / 2
        <= u32::MAX
}

/// The identity part of the header.
pub open spec fn identity1_spec(d: IdentityModel, embedded: EmbeddedArtworkBatch) -> Seq<char> {
    (match embedded.image(d.avatar_url) {
        Some(uri) => "<image x=\"54\" y=\"31\" width=\"92\" height=\"92\" href=\""@ + escape_spec(uri)
            + "\" preserveAspectRatio=\"xMidYMid slice\" clip-path=\"url(#avatar-clip)\"/>"@,
        None => fallback1_spec(),
    }) + (match d.avatar_decoration_url {
        Some(u) => match embedded.image(u) {
            Some(uri) => "<image x=\"42\" y=\"19\" width=\"116\" height=\"116\" href=\""@ + escape_spec(uri)
                + "\" preserveAspectRatio=\"xMidYMid meet\"/>"@,
            None => Seq::empty(),
        },
        None => Seq::empty(),
    }) + text1_spec(174, 70, 31, "#f7f7ff"@, "800"@, truncate_spec(d.display_name, 24), None) + text1_spec(
        174,
        105,
        16,
        "#9ba4c6"@,
        "500"@,
        "@"@ + truncate_spec(d.username, 30),
        None,
    ) + (match d.primary_guild {
        Some(g) => guild1_spec(g, embedded),
        None => Seq::empty(),
    }) + pills_spec(badges_x(d.primary_guild), shown_badges1(d.public_flags))
}

/// The status part of the header: the status dot and label, and the custom status.
pub open spec fn status1_spec(m: RuntimeModel) -> Seq<char> {
    let (label, color) = status_visual_spec(m);
    "<circle cx=\"134\" cy=\"116\" r=\"14\" fill=\"#0e1220\"/><circle cx=\"134\" cy=\"116\" r=\"10\" fill=\""@ + color
        + "\"/>"@ + text1_spec(1148, 105, 16, color, "700"@, label, Some("end"@)) + (match custom_status_spec(m) {
        Some(c) => text1_spec(174, 132, 14, "#7f89aa"@, "500"@, truncate_spec(c, 72), None),
        None => Seq::empty(),
    })
}

/// The header of the first card: the avatar clip, the identity (or a fallback while it
/// loads) and the status.
pub open spec fn header1_spec(m: RuntimeModel, identity: Option<IdentitySnapshotModel>, embedded: EmbeddedArtworkBatch) -> Seq<char> {
    "<defs><clipPath id=\"avatar-clip\"><circle cx=\"100\" cy=\"77\" r=\"46\"/></clipPath></defs>"@
        + identity_or_loading1(identity, embedded) + status1_spec(m)
}

/// Whether the header's coordinates fit in a `u32`: the guild pill's width and the
/// centres of the badge pills after it.
pub open spec fn header1_fits(identity: Option<IdentitySnapshotModel>) -> bool {
    match identity {
        Some(i) => {
            &&& match i.data.primary_guild {
                Some(g) => guild_pill_width(g.tag) + 12 <= u32::MAX,
                None => true,
            }
            &&& pills_fit(badges_x(i.data.primary_guild), shown_badges1(i.data.public_flags))
        },
        None => true,
    }
}

/// Labels of at most ten characters.
pub open spec fn all_short(s: Seq<Seq<char>>) -> bool {
    forall|i: int| 0 <= i < s.len() ==> #[trigger] s[i].len() <= 10
}

proof fn lemma_concat_short(a: Seq<Seq<char>>, b: Seq<Seq<char>>)
    requires
        all_short(a),
        all_short(b),
    ensures
        all_short(a + b),
{
    assert forall|i: int| 0 <= i < (a + b).len() implies #[trigger] (a + b)[i].len() <= 10 by {
        if i < a.len() {
            assert((a + b)[i] == a[i]);
        } else {
            assert((a + b)[i] == b[i - a.len()]);
        }
    }
}

proof fn lemma_badge_if_short(flags: u64, bit: u64, label: Seq<char>)
    requires
        label.len() <= 10,
    ensures
        all_short(crate::presence_card::badge_if(flags, bit, label)),
{
}

proof fn lemma_badge_lengths(flags: u64)
    ensures
        all_short(badges_spec(flags)),
{
    reveal_strlit("STAFF");
    reveal_strlit("PARTNER");
    reveal_strlit("BUG II");
    reveal_strlit("MOD");
    reveal_strlit("DEV");
    reveal_strlit("EARLY");
    reveal_strlit("BUG");
    reveal_strlit("HS");
    reveal_strlit("BRAVERY");
    reveal_strlit("BRILLIANCE");
    reveal_strlit("BALANCE");
    lemma_badge_if_short(flags, 0, "STAFF"@);
    lemma_badge_if_short(flags, 1, "PARTNER"@);
    lemma_badge_if_short(flags, 14, "BUG II"@);
    lemma_badge_if_short(flags, 18, "MOD"@);
    lemma_badge_if_short(flags, 17, "DEV"@);
    lemma_badge_if_short(flags, 9, "EARLY"@);
    lemma_badge_if_short(flags, 3, "BUG"@);
    lemma_badge_if_short(flags, 2, "HS"@);
    lemma_badge_if_short(flags, 6, "BRAVERY"@);
    lemma_badge_if_short(flags, 7, "BRILLIANCE"@);
    lemma_badge_if_short(flags, 8, "BALANCE"@);
    lemma_concat_short(crate::presence_card::badge_if(flags, 0, "STAFF"@), crate::presence_card::badge_if(flags, 1, "PARTNER"@));
    lemma_concat_short(crate::presence_card::badge_if(flags, 0, "STAFF"@) + crate::presence_card::badge_if(flags, 1, "PARTNER"@), crate::presence_card::badge_if(flags, 14, "BUG II"@));
    lemma_concat_short(crate::presence_card::badge_if(flags, 0, "STAFF"@) + crate::presence_card::badge_if(flags, 1, "PARTNER"@) + crate::presence_card::badge_if(flags, 14, "BUG II"@), crate::presence_card::badge_if(flags, 18, "MOD"@));
    lemma_concat_short(crate::presence_card::badge_if(flags, 0, "STAFF"@) + crate::presence_card::badge_if(flags, 1, "PARTNER"@) + crate::presence_card::badge_if(flags, 14, "BUG II"@) + crate::presence_card::badge_if(flags, 18, "MOD"@), crate::presence_card::badge_if(flags, 17, "DEV"@));
    lemma_concat_short(crate::presence_card::badge_if(flags, 0, "STAFF"@) + crate::presence_card::badge_if(flags, 1, "PARTNER"@) + crate::presence_card::badge_if(flags, 14, "BUG II"@) + crate::presence_card::badge_if(flags, 18, "MOD"@) + crate::presence_card::badge_if(flags, 17, "DEV"@), crate::presence_card::badge_if(flags, 9, "EARLY"@));
    lemma_concat_short(crate::presence_card::badge_if(flags, 0, "STAFF"@) + crate::presence_card::badge_if(flags, 1, "PARTNER"@) + crate::presence_card::badge_if(flags, 14, "BUG II"@) + crate::presence_card::badge_if(flags, 18, "MOD"@) + crate::presence_card::badge_if(flags, 17, "DEV"@) + crate::presence_card::badge_if(flags, 9, "EARLY"@), crate::presence_card::badge_if(flags, 3, "BUG"@));
    lemma_concat_short(crate::presence_card::badge_if(flags, 0, "STAFF"@) + crate::presence_card::badge_if(flags, 1, "PARTNER"@) + crate::presence_card::badge_if(flags, 14, "BUG II"@) + crate::presence_card::badge_if(flags, 18, "MOD"@) + crate::presence_card::badge_if(flags, 17, "DEV"@) + crate::presence_card::badge_if(flags, 9, "EARLY"@) + crate::presence_card::badge_if(flags, 3, "BUG"@), crate::presence_card::badge_if(flags, 2, "HS"@));
    lemma_concat_short(crate::presence_card::badge_if(flags, 0, "STAFF"@) + crate::presence_card::badge_if(flags, 1, "PARTNER"@) + crate::presence_card::badge_if(flags, 14, "BUG II"@) + crate::presence_card::badge_if(flags, 18, "MOD"@) + crate::presence_card::badge_if(flags, 17, "DEV"@) + crate::presence_card::badge_if(flags, 9, "EARLY"@) + crate::presence_card::badge_if(flags, 3, "BUG"@) + crate::presence_card::badge_if(flags, 2, "HS"@), crate::presence_card::badge_if(flags, 6, "BRAVERY"@));
    lemma_concat_short(crate::presence_card::badge_if(flags, 0, "STAFF"@) + crate::presence_card::badge_if(flags, 1, "PARTNER"@) + crate::presence_card::badge_if(flags, 14, "BUG II"@) + crate::presence_card::badge_if(flags, 18, "MOD"@) + crate::presence_card::badge_if(flags, 17, "DEV"@) + crate::presence_card::badge_if(flags, 9, "EARLY"@) + crate::presence_card::badge_if(flags, 3, "BUG"@) + crate::presence_card::badge_if(flags, 2, "HS"@) + crate::presence_card::badge_if(flags, 6, "BRAVERY"@), crate::presence_card::badge_if(flags, 7, "BRILLIANCE"@));
    lemma_concat_short(crate::presence_card::badge_if(flags, 0, "STAFF"@) + crate::presence_card::badge_if(flags, 1, "PARTNER"@) + crate::presence_card::badge_if(flags, 14, "BUG II"@) + crate::presence_card::badge_if(flags, 18, "MOD"@) + crate::presence_card::badge_if(flags, 17, "DEV"@) + crate::presence_card::badge_if(flags, 9, "EARLY"@) + crate::presence_card::badge_if(flags, 3, "BUG"@) + crate::presence_card::badge_if(flags, 2, "HS"@) + crate::presence_card::badge_if(flags, 6, "BRAVERY"@) + crate::presence_card::badge_if(flags, 7, "BRILLIANCE"@), crate::presence_card::badge_if(flags, 8, "BALANCE"@));
}

fn guild1(g: &PrimaryGuildIdentity, embedded: &EmbeddedArtworkBatch) -> (r: String)
    requires
        guild_pill_width(g.tag@) + 12 <= u32::MAX,
    ensures
        r@ == guild1_spec(g.deep_view(), *embedded),
{
    let count = chars_of(g.tag.as_str()).len();
    let units: u32 = if count <= 0xffff_ffff {
        count as u32
    } else {
        4
    };
    let width = 74 + units * 11;
    let mut t = owned("<rect x=\"690\" y=\"47\" width=\"");
    push_decimal(&mut t, width as u64);
    push_str(&mut t, "\" height=\"42\" rx=\"14\" fill=\"#181a2a\" stroke=\"#8875d6\" stroke-opacity=\".7\"/>");
    let ghost head = t@;
    let image = match &g.badge_url {
        Some(u) => embedded.href(u.as_str()),
        None => None,
    };
    match &image {
        Some(uri) => {
            push_str(&mut t, "<image x=\"702\" y=\"57\" width=\"22\" height=\"22\" href=\"");
            push_escaped(&mut t, uri.as_str());
            push_str(&mut t, "\" preserveAspectRatio=\"xMidYMid meet\"/>");
        },
        None => {},
    }
    let ghost mid = t@;
    proof {
        let part = match g.deep_view().badge_url {
            Some(u) => match embedded.image(u) {
                Some(uri) => "<image x=\"702\" y=\"57\" width=\"22\" height=\"22\" href=\""@ + escape_spec(uri)
                    + "\" preserveAspectRatio=\"xMidYMid meet\"/>"@,
                None => Seq::empty(),
            },
            None => Seq::empty(),
        };
        assert(mid =~= head + part);
    }
    push_text1(&mut t, 732, 75, 18, "#f0eaff", "700", g.tag.as_str(), None);
    proof {
        assert(t@ =~= guild1_spec(g.deep_view(), *embedded));
    }
    t
}

fn pill(body: &mut String, x: u32, label: &str)
    requires
        label@.len() <= 10,
        x + badge_pill_width(label@) / 2 <= u32::MAX,
    ensures
        final(body)@ == old(body)@ + pill_spec(x as int, label@),
{
    let ghost start = body@;
    let width = 38 + (chars_of(label).len() as u32) * 9;
    push_str(body, "<rect x=\"");
    push_decimal(body, x as u64);
    push_str(body, "\" y=\"51\" width=\"");
    push_decimal(body, width as u64);
    push_str(body, "\" height=\"34\" rx=\"12\" fill=\"#20243a\" stroke=\"#6e769d\" stroke-opacity=\".5\"/>");
    push_text1(body, x + width / 2, 73, 12, "#c9d0ea", "700", label, Some("middle"));
    proof {
        assert(body@ =~= start + pill_spec(x as int, label@));
    }
}

fn pills(x: u32, badges: &Vec<&'static str>) -> (r: String)
    requires
        all_short(badges@.map_values(|b: &'static str| b@)),
        pills_fit(x as int, badges@.map_values(|b: &'static str| b@)),
        badges@.len() <= 2,
    ensures
        r@ == pills_spec(x as int, badges@.map_values(|b: &'static str| b@)),
{
    let ghost labels = badges@.map_values(|b: &'static str| b@);
    let mut t = String::new();
    if badges.len() >= 1 {
        proof {
            assert(labels[0] == badges@[0]@);
        }
        pill(&mut t, x, badges[0]);
        if badges.len() >= 2 {
            proof {
                assert(labels[1] == badges@[1]@);
            }
            let first = 38 + (chars_of(badges[0]).len() as u32) * 9;
            let next = x.saturating_add(first + 10);
            pill(&mut t, next, badges[1]);
        }
    }
    proof {
        assert(t@ =~= pills_spec(x as int, labels));
    }
    t
}

fn identity1(data: &DiscordIdentityData, embedded: &EmbeddedArtworkBatch) -> (r: String)
    requires
        match data.deep_view().primary_guild {
            Some(g) => guild_pill_width(g.tag) + 12 <= u32::MAX,
            None => true,
        },
        pills_fit(badges_x(data.deep_view().primary_guild), shown_badges1(data.public_flags)),
    ensures
        r@ == identity1_spec(data.deep_view(), *embedded),
{
    let mut t = String::new();
    match embedded.href(data.avatar_url.as_str()) {
        Some(uri) => {
            push_str(&mut t, "<image x=\"54\" y=\"31\" width=\"92\" height=\"92\" href=\"");
            push_escaped(&mut t, uri.as_str());
            push_str(&mut t, "\" preserveAspectRatio=\"xMidYMid slice\" clip-path=\"url(#avatar-clip)\"/>");
        },
        None => push_fallback1(&mut t),
    }
    let ghost avatar = t@;
    let decoration = match &data.avatar_decoration_url {
        Some(u) => embedded.href(u.as_str()),
        None => None,
    };
    match &decoration {
        Some(uri) => {
            push_str(&mut t, "<image x=\"42\" y=\"19\" width=\"116\" height=\"116\" href=\"");
            push_escaped(&mut t, uri.as_str());
            push_str(&mut t, "\" preserveAspectRatio=\"xMidYMid meet\"/>");
        },
        None => {},
    }
    let ghost decorated = t@;
    let name = truncate_chars(data.display_name.as_str(), 24);
    push_text1(&mut t, 174, 70, 31, "#f7f7ff", "800", name.as_str(), None);
    let mut handle = owned("@");
    let user = truncate_chars(data.username.as_str(), 30);
    push_str(&mut handle, user.as_str());
    push_text1(&mut t, 174, 105, 16, "#9ba4c6", "500", handle.as_str(), None);
    let ghost named = t@;
    let x: u32 = match &data.primary_guild {
        Some(g) => {
            let part = guild1(g, embedded);
            push_str(&mut t, part.as_str());
            let count = chars_of(g.tag.as_str()).len();
            let units: u32 = if count <= 0xffff_ffff {
                count as u32
            } else {
                4
            };
            690u32.saturating_add(74 + units * 11 + 12)
        },
        None => 690,
    };
    let ghost guilded = t@;
    let all = public_badges(data.public_flags);
    let mut shown: Vec<&'static str> = Vec::new();
    if all.len() > 0 {
        shown.push(all[0]);
    }
    if all.len() > 1 {
        shown.push(all[1]);
    }
    proof {
        let b = badges_spec(data.public_flags);
        assert(all@.map_values(|x: &'static str| x@) == b);
        assert(shown@.map_values(|x: &'static str| x@) =~= shown_badges1(data.public_flags));
        lemma_badge_lengths(data.public_flags);
        assert(all_short(shown_badges1(data.public_flags)));
    }
    let row = pills(x, &shown);
    push_str(&mut t, row.as_str());
    proof {
        let d = data.deep_view();
        assert(decorated =~= avatar + (match d.avatar_decoration_url {
            Some(u) => match embedded.image(u) {
                Some(uri) => "<image x=\"42\" y=\"19\" width=\"116\" height=\"116\" href=\""@ + escape_spec(uri)
                    + "\" preserveAspectRatio=\"xMidYMid meet\"/>"@,
                None => Seq::empty(),
            },
            None => Seq::empty(),
        }));
        assert(guilded =~= named + (match d.primary_guild {
            Some(g) => guild1_spec(g, *embedded),
            None => Seq::empty(),
        }));
        assert(t@ =~= identity1_spec(d, *embedded));
    }
    t
}

fn status1(runtime: &RuntimeState) -> (r: String)
    ensures
        r@ == status1_spec(runtime.deep_view()),
{
    let (label, color) = status_visual(runtime);
    let mut t = owned("<circle cx=\"134\" cy=\"116\" r=\"14\" fill=\"#0e1220\"/><circle cx=\"134\" cy=\"116\" r=\"10\" fill=\"");
    push_str(&mut t, color);
    push_str(&mut t, "\"/>");
    push_text1(&mut t, 1148, 105, 16, color, "700", label, Some("end"));
    let ghost before = t@;
    match custom_status(runtime) {
        Some(c) => {
            let cut = truncate_chars(c.as_str(), 72);
            push_text1(&mut t, 174, 132, 14, "#7f89aa", "500", cut.as_str(), None);
        },
        None => {
            proof {
                assert(t@ =~= before + Seq::<char>::empty());
            }
        },
    }
    proof {
        assert(t@ =~= status1_spec(runtime.deep_view()));
    }
    t
}

/// The identity part of the header, or the fallback while the identity loads.
pub open spec fn identity_or_loading1(identity: Option<IdentitySnapshotModel>, embedded: EmbeddedArtworkBatch) -> Seq<char> {
    match identity {
        Some(i) => identity1_spec(i.data, embedded),
        None => fallback1_spec() + text1_spec(174, 72, 29, "#f7f7ff"@, "800"@, "Discord profile"@, None)
            + text1_spec(174, 105, 16, "#9ba4c6"@, "500"@, "Loading profile identity"@, None),
    }
}

fn identity_or_loading(identity: Option<&DiscordIdentitySnapshot>, embedded: &EmbeddedArtworkBatch) -> (r: String)
    requires
        header1_fits(
            match identity {
                Some(i) => Some(i.deep_view()),
                None => None,
            },
        ),
    ensures
        r@ == identity_or_loading1(
            match identity {
                Some(i) => Some(i.deep_view()),
                None => None,
            },
            *embedded,
        ),
{
    match identity {
        Some(i) => identity1(&i.data, embedded),
        None => {
            let mut t = String::new();
            push_fallback1(&mut t);
            push_text1(&mut t, 174, 72, 29, "#f7f7ff", "800", "Discord profile", None);
            push_text1(&mut t, 174, 105, 16, "#9ba4c6", "500", "Loading profile identity", None);
            proof {
                assert(t@ =~= identity_or_loading1(None, *embedded));
            }
            t
        },
    }
}

/// Writes the first card's header: the avatar clip, the identity or, while it loads, a
/// fallback avatar and a generic title, then the status dot, label and custom status.
pub fn render_identity_header(
    body: &mut String,
    runtime: &RuntimeState,
    identity: Option<&DiscordIdentitySnapshot>,
    embedded: &EmbeddedArtworkBatch,
)
    requires
        header1_fits(
            match identity {
                Some(i) => Some(i.deep_view()),
                None => None,
            },
        ),
    ensures
        final(body)@ == old(body)@ + header1_spec(
            runtime.deep_view(),
            match identity {
                Some(i) => Some(i.deep_view()),
                None => None,
            },
            *embedded,
        ),
{
    let ghost start = body@;
    let part = identity_or_loading(identity, embedded);
    let status = status1(runtime);
    push_str(body, "<defs><clipPath id=\"avatar-clip\"><circle cx=\"100\" cy=\"77\" r=\"46\"/></clipPath></defs>");
    push_str(body, part.as_str());
    push_str(body, status.as_str());
    proof {
        let iv = match identity {
            Some(i) => Some(i.deep_view()),
            None => None,
        };
        assert(body@ =~= start + header1_spec(runtime.deep_view(), iv, *embedded));
    }
}

} // verus!
