//! The body of the first presence card: the activity panels with their artwork, texts,
//! metadata and progress bar, the grid they are laid out in, and the whole card. Which
//! artwork URLs an activity shows is given by the caller.
use vstd::prelude::*;

use crate::activity::{is_spotify_activity, is_spotify_spec};
use crate::artwork::EmbeddedArtworkBatch;
use crate::presence_card::{
    activity_kind_color, activity_kind_name, activity_time, activity_time_spec, client_platform, fallback_label,
    fallback_label_spec, kind_color_spec, kind_name_spec, platform_label_spec,
};
use crate::identity::{DiscordIdentitySnapshot, IdentitySnapshotModel};
use crate::presence_card::{visible_activities, visible_spec};
use crate::presence_header::{header1_fits, header1_spec, push_text1, render_identity_header, sat_u32, text1_spec};
use crate::svg::{svg_open, svg_open_spec};
use crate::second_card::{progress_fill, progress_fill_spec};
use crate::presence_card_v2::{PresenceCardCacheKey, TIME_BUCKET_MS};
use crate::state::PresenceState;
use crate::state::{ActivityModel, ActivitySnapshot, PresenceFreshness, PresenceStateModel, RuntimeModel, RuntimeState};
use crate::text::{
    decimal_spec, escape_spec, non_empty, non_empty_spec, owned, push_decimal, push_escaped, push_str, trim,
    trim_spec, truncate_chars, truncate_spec, upper, upper_spec,
};

verus! {

/// Where a panel stands on the card.
#[derive(Clone, Copy, Debug, PartialEq, Eq, Structural)]
pub struct PanelGeometry {
    pub x: u32,
    pub y: u32,
    pub width: u32,
    pub height: u32,
}

/// The artwork URLs an activity shows: its large image and its small badge image.
pub struct PanelArtwork {
    pub large_url: Option<String>,
    pub small_url: Option<String>,
}

/// The value of a `PanelArtwork`.
pub struct PanelArtworkModel {
    pub large_url: Option<Seq<char>>,
    pub small_url: Option<Seq<char>>,
}

impl DeepView for PanelArtwork {
    type V = PanelArtworkModel;

    open spec fn deep_view(&self) -> PanelArtworkModel {
        PanelArtworkModel { large_url: self.large_url.deep_view(), small_url: self.small_url.deep_view() }
    }
}

/// The embedded image of an optional URL.
pub open spec fn embedded_image(url: Option<Seq<char>>, embedded: EmbeddedArtworkBatch) -> Option<Seq<char>> {
    match url {
        Some(u) => embedded.image(u),
        None => None,
    }
}

fn embedded_href(url: &Option<String>, embedded: &EmbeddedArtworkBatch) -> (r: Option<String>)
    ensures
        r.deep_view() == embedded_image(url.deep_view(), *embedded),
{
    match url {
        Some(u) => embedded.href(u.as_str()),
        None => None,
    }
}

pub open spec fn dec(n: int) -> Seq<char> {
    decimal_spec(n as nat)
}

/// The side of a panel's artwork: larger on wide panels.
pub open spec fn art_size(p: PanelGeometry) -> int {
    if p.width > 800 {
        220
    } else {
        148
    }
}

pub open spec fn art_x(p: PanelGeometry) -> int {
    p.x + 20
}

pub open spec fn art_y(p: PanelGeometry) -> int {
    p.y + (if p.height > art_size(p) {
        p.height - art_size(p)
    } else {
        0
    }) / 2
}

pub open spec fn text_x(p: PanelGeometry) -> int {
    art_x(p) + art_size(p) + 34
}

/// Whether a panel's coordinates fit in a `u32`.
pub open spec fn panel_fits(p: PanelGeometry) -> bool {
    &&& p.x + 1000 <= u32::MAX
    &&& p.y + p.height + 1000 <= u32::MAX
    &&& p.y + p.height >= 28
}

/// The rectangle attributes of a panel.
pub open spec fn rect_attrs(p: PanelGeometry) -> Seq<char> {
    "x=\""@ + dec(p.x as int) + "\" y=\""@ + dec(p.y as int) + "\" width=\""@ + dec(p.width as int) + "\" height=\""@
        + dec(p.height as int) + "\""@
}

fn push_rect_attrs(body: &mut String, p: PanelGeometry)
    ensures
        final(body)@ == old(body)@ + rect_attrs(p),
{
    let ghost start = body@;
    push_str(body, "x=\"");
    push_decimal(body, p.x as u64);
    push_str(body, "\" y=\"");
    push_decimal(body, p.y as u64);
    push_str(body, "\" width=\"");
    push_decimal(body, p.width as u64);
    push_str(body, "\" height=\"");
    push_decimal(body, p.height as u64);
    push_str(body, "\"");
    proof {
        assert(body@ =~= start + rect_attrs(p));
    }
}

/// The panel's clip paths, its background, the blurred backdrop of an embedded large
/// image, and its border.
#[verifier::opaque]
pub open spec fn panel_frame_spec(p: PanelGeometry, index: nat, backdrop: Option<Seq<char>>) -> Seq<char> {
    "<defs><clipPath id=\"panel-clip-"@ + decimal_spec(index) + "\"><rect "@ + rect_attrs(p)
        + " rx=\"24\"/></clipPath><clipPath id=\"art-clip-"@ + decimal_spec(index) + "\"><rect x=\""@ + dec(art_x(p))
        + "\" y=\""@ + dec(art_y(p)) + "\" width=\""@ + dec(art_size(p)) + "\" height=\""@ + dec(art_size(p))
        + "\" rx=\"20\"/></clipPath></defs>"@ + "<rect "@ + rect_attrs(p)
        + " rx=\"24\" fill=\"url(#panel-bg)\" filter=\"url(#soft-shadow)\"/>"@ + (match backdrop {
        Some(d) => "<image "@ + rect_attrs(p) + " href=\""@ + escape_spec(d)
            + "\" preserveAspectRatio=\"xMidYMid slice\" filter=\"url(#art-blur)\" opacity=\".22\" clip-path=\"url(#panel-clip-"@
            + decimal_spec(index) + ")\"/><rect "@ + rect_attrs(p) + " rx=\"24\" fill=\"#0a0e1a\" fill-opacity=\".72\"/>"@,
        None => Seq::empty(),
    }) + "<rect "@ + rect_attrs(p) + " rx=\"24\" fill=\"none\" stroke=\"#7c75a9\" stroke-opacity=\".35\"/>"@
}

fn panel_frame(p: PanelGeometry, index: u64, backdrop: &Option<String>) -> (r: String)
    requires
        panel_fits(p),
    ensures
        r@ == panel_frame_spec(p, index as nat, backdrop.deep_view()),
{
    proof {
        reveal(panel_frame_spec);
    }
    let size: u32 = if p.width > 800 {
        220
    } else {
        148
    };
    let ax = p.x + 20;
    let ay = p.y + (if p.height > size {
        p.height - size
    } else {
        0
    }) / 2;
    let mut t = owned("<defs><clipPath id=\"panel-clip-");
    push_decimal(&mut t, index);
    push_str(&mut t, "\"><rect ");
    push_rect_attrs(&mut t, p);
    push_str(&mut t, " rx=\"24\"/></clipPath><clipPath id=\"art-clip-");
    push_decimal(&mut t, index);
    push_str(&mut t, "\"><rect x=\"");
    push_decimal(&mut t, ax as u64);
    push_str(&mut t, "\" y=\"");
    push_decimal(&mut t, ay as u64);
    push_str(&mut t, "\" width=\"");
    push_decimal(&mut t, size as u64);
    push_str(&mut t, "\" height=\"");
    push_decimal(&mut t, size as u64);
    push_str(&mut t, "\" rx=\"20\"/></clipPath></defs>");
    push_str(&mut t, "<rect ");
    push_rect_attrs(&mut t, p);
    push_str(&mut t, " rx=\"24\" fill=\"url(#panel-bg)\" filter=\"url(#soft-shadow)\"/>");
    let ghost before = t@;
    match backdrop {
        Some(d) => {
            push_str(&mut t, "<image ");
            push_rect_attrs(&mut t, p);
            push_str(&mut t, " href=\"");
            push_escaped(&mut t, d.as_str());
            push_str(
                &mut t,
                "\" preserveAspectRatio=\"xMidYMid slice\" filter=\"url(#art-blur)\" opacity=\".22\" clip-path=\"url(#panel-clip-",
            );
            push_decimal(&mut t, index);
            push_str(&mut t, ")\"/><rect ");
            push_rect_attrs(&mut t, p);
            push_str(&mut t, " rx=\"24\" fill=\"#0a0e1a\" fill-opacity=\".72\"/>");
        },
        None => {},
    }
    let ghost after = t@;
    proof {
        match backdrop.deep_view() {
            Some(d) => {
                assert(after =~= before + ("<image "@ + rect_attrs(p) + " href=\""@ + escape_spec(d)
                    + "\" preserveAspectRatio=\"xMidYMid slice\" filter=\"url(#art-blur)\" opacity=\".22\" clip-path=\"url(#panel-clip-"@
                    + decimal_spec(index as nat) + ")\"/><rect "@ + rect_attrs(p)
                    + " rx=\"24\" fill=\"#0a0e1a\" fill-opacity=\".72\"/>"@));
            },
            None => {
                assert(after =~= before + Seq::<char>::empty());
            },
        }
    }
    push_str(&mut t, "<rect ");
    push_rect_attrs(&mut t, p);
    push_str(&mut t, " rx=\"24\" fill=\"none\" stroke=\"#7c75a9\" stroke-opacity=\".35\"/>");
    proof {
        assert(t@ =~= panel_frame_spec(p, index as nat, backdrop.deep_view()));
    }
    t
}

/// The panel's large artwork: the embedded image, or a fallback tile with the
/// activity's initials.
#[verifier::opaque]
pub open spec fn large_art_spec(p: PanelGeometry, index: nat, name: Seq<char>, image: Option<Seq<char>>) -> Seq<char> {
    let s = art_size(p);
    match image {
        Some(d) => "<image x=\""@ + dec(art_x(p)) + "\" y=\""@ + dec(art_y(p)) + "\" width=\""@ + dec(s) + "\" height=\""@
            + dec(s) + "\" href=\""@ + escape_spec(d) + "\" preserveAspectRatio=\"xMidYMid slice\" clip-path=\"url(#art-clip-"@
            + decimal_spec(index) + ")\"/>"@,
        None => "<rect x=\""@ + dec(art_x(p)) + "\" y=\""@ + dec(art_y(p)) + "\" width=\""@ + dec(s) + "\" height=\""@
            + dec(s) + "\" rx=\"20\" fill=\"url(#fallback-art)\"/>"@ + text1_spec(
            (art_x(p) + s / 2) as nat,
            (art_y(p) + s / 2 + 12) as nat,
            if s > 180 {
                42
            } else {
                30
            },
            "#c9c5f2"@,
            "800"@,
            fallback_label_spec(name),
            Some("middle"@),
        ),
    }
}

fn large_art(p: PanelGeometry, index: u64, name: &str, image: &Option<String>) -> (r: String)
    requires
        panel_fits(p),
    ensures
        r@ == large_art_spec(p, index as nat, name@, image.deep_view()),
{
    proof {
        reveal(large_art_spec);
    }
    let size: u32 = if p.width > 800 {
        220
    } else {
        148
    };
    let ax = p.x + 20;
    let ay = p.y + (if p.height > size {
        p.height - size
    } else {
        0
    }) / 2;
    let mut t = String::new();
    match image {
        Some(d) => {
            push_str(&mut t, "<image x=\"");
            push_decimal(&mut t, ax as u64);
            push_str(&mut t, "\" y=\"");
            push_decimal(&mut t, ay as u64);
            push_str(&mut t, "\" width=\"");
            push_decimal(&mut t, size as u64);
            push_str(&mut t, "\" height=\"");
            push_decimal(&mut t, size as u64);
            push_str(&mut t, "\" href=\"");
            push_escaped(&mut t, d.as_str());
            push_str(&mut t, "\" preserveAspectRatio=\"xMidYMid slice\" clip-path=\"url(#art-clip-");
            push_decimal(&mut t, index);
            push_str(&mut t, ")\"/>");
        },
        None => {
            push_str(&mut t, "<rect x=\"");
            push_decimal(&mut t, ax as u64);
            push_str(&mut t, "\" y=\"");
            push_decimal(&mut t, ay as u64);
            push_str(&mut t, "\" width=\"");
            push_decimal(&mut t, size as u64);
            push_str(&mut t, "\" height=\"");
            push_decimal(&mut t, size as u64);
            push_str(&mut t, "\" rx=\"20\" fill=\"url(#fallback-art)\"/>");
            let label = fallback_label(name);
            push_text1(
                &mut t,
                ax + size / 2,
                ay + size / 2 + 12,
                if size > 180 {
                    42
                } else {
                    30
                },
                "#c9c5f2",
                "800",
                label.as_str(),
                Some("middle"),
            );
        },
    }
    proof {
        assert(t@ =~= large_art_spec(p, index as nat, name@, image.deep_view()));
    }
    t
}

/// The panel's small artwork, a round badge at the large artwork's corner, where it
/// was embedded.
#[verifier::opaque]
pub open spec fn small_art_spec(p: PanelGeometry, index: nat, image: Option<Seq<char>>) -> Seq<char> {
    let s = art_size(p);
    let size: int = if s > 180 {
        58
    } else {
        46
    };
    let x = art_x(p) + s - size + 8;
    let y = art_y(p) + s - size + 8;
    match image {
        Some(d) => "<defs><clipPath id=\"small-art-clip-"@ + decimal_spec(index) + "\"><circle cx=\""@ + dec(x + size / 2)
            + "\" cy=\""@ + dec(y + size / 2) + "\" r=\""@ + dec(size / 2 - 3) + "\"/></clipPath></defs><circle cx=\""@
            + dec(x + size / 2) + "\" cy=\""@ + dec(y + size / 2) + "\" r=\""@ + dec(size / 2)
            + "\" fill=\"#0d1120\" stroke=\"#8e7ce8\" stroke-width=\"2\"/><image x=\""@ + dec(x) + "\" y=\""@ + dec(y)
            + "\" width=\""@ + dec(size) + "\" height=\""@ + dec(size) + "\" href=\""@ + escape_spec(d)
            + "\" preserveAspectRatio=\"xMidYMid slice\" clip-path=\"url(#small-art-clip-"@ + decimal_spec(index)
            + ")\"/>"@,
        None => Seq::empty(),
    }
}

fn small_art(p: PanelGeometry, index: u64, image: &Option<String>) -> (r: String)
    requires
        panel_fits(p),
    ensures
        r@ == small_art_spec(p, index as nat, image.deep_view()),
{
    proof {
        reveal(small_art_spec);
    }
    let s: u32 = if p.width > 800 {
        220
    } else {
        148
    };
    let size: u32 = if s > 180 {
        58
    } else {
        46
    };
    let x = p.x + 20 + s - size + 8;
    let y = p.y + (if p.height > s {
        p.height - s
    } else {
        0
    }) / 2 + s - size + 8;
    let mut t = String::new();
    match image {
        Some(d) => {
            push_str(&mut t, "<defs><clipPath id=\"small-art-clip-");
            push_decimal(&mut t, index);
            push_str(&mut t, "\"><circle cx=\"");
            push_decimal(&mut t, (x + size / 2) as u64);
            push_str(&mut t, "\" cy=\"");
            push_decimal(&mut t, (y + size / 2) as u64);
            push_str(&mut t, "\" r=\"");
            push_decimal(&mut t, (size / 2 - 3) as u64);
            push_str(&mut t, "\"/></clipPath></defs><circle cx=\"");
            push_decimal(&mut t, (x + size / 2) as u64);
            push_str(&mut t, "\" cy=\"");
            push_decimal(&mut t, (y + size / 2) as u64);
            push_str(&mut t, "\" r=\"");
            push_decimal(&mut t, (size / 2) as u64);
            push_str(&mut t, "\" fill=\"#0d1120\" stroke=\"#8e7ce8\" stroke-width=\"2\"/><image x=\"");
            push_decimal(&mut t, x as u64);
            push_str(&mut t, "\" y=\"");
            push_decimal(&mut t, y as u64);
            push_str(&mut t, "\" width=\"");
            push_decimal(&mut t, size as u64);
            push_str(&mut t, "\" height=\"");
            push_decimal(&mut t, size as u64);
            push_str(&mut t, "\" href=\"");
            push_escaped(&mut t, d.as_str());
            push_str(&mut t, "\" preserveAspectRatio=\"xMidYMid slice\" clip-path=\"url(#small-art-clip-");
            push_decimal(&mut t, index);
            push_str(&mut t, ")\"/>");
            proof {
                assert(t@ =~= small_art_spec(p, index as nat, image.deep_view()));
            }
        },
        None => {
            proof {
                assert(t@ =~= small_art_spec(p, index as nat, image.deep_view()));
            }
        },
    }
    t
}

pub open spec fn compact(p: PanelGeometry) -> bool {
    p.width <= 600
}

/// The kind of the activity, upper-case in its color, and its name.
#[verifier::opaque]
pub open spec fn heading_spec(p: PanelGeometry, a: ActivityModel) -> Seq<char> {
    let c = compact(p);
    text1_spec(
        text_x(p) as nat,
        (p.y + 48) as nat,
        if c {
            14
        } else {
            16
        },
        kind_color_spec(a.kind),
        "800"@,
        upper_spec(kind_name_spec(a.kind)),
        None,
    ) + text1_spec(
        text_x(p) as nat,
        (p.y + 88) as nat,
        if c {
            25
        } else {
            31
        },
        "#f8f8ff"@,
        "800"@,
        truncate_spec(trim_spec(a.name), if c {
            22
        } else {
            32
        }),
        None,
    )
}

fn heading(p: PanelGeometry, activity: &ActivitySnapshot) -> (r: String)
    requires
        panel_fits(p),
    ensures
        r@ == heading_spec(p, activity.deep_view()),
{
    proof {
        reveal(heading_spec);
    }
    let c = p.width <= 600;
    let size: u32 = if p.width > 800 {
        220
    } else {
        148
    };
    let tx = p.x + 20 + size + 34;
    let mut t = String::new();
    let kind = upper(activity_kind_name(activity.kind));
    push_text1(
        &mut t,
        tx,
        p.y + 48,
        if c {
            14
        } else {
            16
        },
        activity_kind_color(activity.kind),
        "800",
        kind.as_str(),
        None,
    );
    let trimmed = trim(activity.name.as_str());
    let name = truncate_chars(
        trimmed.as_str(),
        if c {
            22
        } else {
            32
        },
    );
    push_text1(
        &mut t,
        tx,
        p.y + 88,
        if c {
            25
        } else {
            31
        },
        "#f8f8ff",
        "800",
        name.as_str(),
        None,
    );
    t
}

/// The album of a Spotify activity, where it names one.
pub open spec fn album_spec(a: ActivityModel) -> Option<Seq<char>> {
    if is_spotify_spec(a) {
        match a.assets {
            Some(assets) => non_empty_spec(assets.large_text),
            None => None,
        }
    } else {
        None
    }
}

/// The lines under the name: details, then a state that differs from them, then a
/// Spotify album, each line 30 or 28 units below the last.
#[verifier::opaque]
pub open spec fn lines_spec(p: PanelGeometry, a: ActivityModel) -> Seq<char> {
    let c = compact(p);
    let tx = text_x(p) as nat;
    let d = non_empty_spec(a.details);
    let st = non_empty_spec(a.state);
    let y1 = p.y + 126;
    let dpart = match d {
        Some(v) => text1_spec(tx, y1 as nat, if c {
            16
        } else {
            18
        }, "#cbd2ec"@, "500"@, truncate_spec(v, if c {
            28
        } else {
            52
        }), None),
        None => Seq::empty(),
    };
    let y2 = if d is Some {
        y1 + 30
    } else {
        y1
    };
    let show_state = st is Some && st != d;
    let spart = if show_state {
        text1_spec(tx, y2 as nat, if c {
            15
        } else {
            17
        }, "#aeb7d8"@, "500"@, truncate_spec(st->0, if c {
            30
        } else {
            56
        }), None)
    } else {
        Seq::empty()
    };
    let y3 = if show_state {
        y2 + 28
    } else {
        y2
    };
    let apart = match album_spec(a) {
        Some(v) => text1_spec(tx, y3 as nat, 13, "#8994b8"@, "500"@, truncate_spec(v, if c {
            32
        } else {
            56
        }), None),
        None => Seq::empty(),
    };
    dpart + spart + apart
}

fn opt_eq(a: &Option<String>, b: &Option<String>) -> (r: bool)
    ensures
        r == (a.deep_view() == b.deep_view()),
{
    crate::state::same_opt_string(a, b)
}

fn lines(p: PanelGeometry, activity: &ActivitySnapshot) -> (r: String)
    requires
        panel_fits(p),
    ensures
        r@ == lines_spec(p, activity.deep_view()),
{
    proof {
        reveal(lines_spec);
    }
    let c = p.width <= 600;
    let size: u32 = if p.width > 800 {
        220
    } else {
        148
    };
    let tx = p.x + 20 + size + 34;
    let mut t = String::new();
    let mut y = p.y + 126;
    let details = non_empty(&activity.details);
    let state = non_empty(&activity.state);
    match &details {
        Some(v) => {
            let cut = truncate_chars(
                v.as_str(),
                if c {
                    28
                } else {
                    52
                },
            );
            push_text1(
                &mut t,
                tx,
                y,
                if c {
                    16
                } else {
                    18
                },
                "#cbd2ec",
                "500",
                cut.as_str(),
                None,
            );
            y = y + 30;
        },
        None => {},
    }
    let ghost after_details = t@;
    let show_state = state.is_some() && !opt_eq(&state, &details);
    if show_state {
        match &state {
            Some(v) => {
                let cut = truncate_chars(
                    v.as_str(),
                    if c {
                        30
                    } else {
                        56
                    },
                );
                push_text1(
                    &mut t,
                    tx,
                    y,
                    if c {
                        15
                    } else {
                        17
                    },
                    "#aeb7d8",
                    "500",
                    cut.as_str(),
                    None,
                );
                y = y + 28;
            },
            None => {},
        }
    }
    let ghost after_state = t@;
    let album = if is_spotify_activity(activity) {
        match &activity.assets {
            Some(assets) => non_empty(&assets.large_text),
            None => None,
        }
    } else {
        None
    };
    match &album {
        Some(v) => {
            let cut = truncate_chars(
                v.as_str(),
                if c {
                    32
                } else {
                    56
                },
            );
            push_text1(&mut t, tx, y, 13, "#8994b8", "500", cut.as_str(), None);
        },
        None => {},
    }
    proof {
        let a = activity.deep_view();
        assert(album.deep_view() == album_spec(a));
        assert(t@ =~= lines_spec(p, a));
    }
    t
}

/// The platform label of an available presence.
pub open spec fn platform_spec(m: RuntimeModel) -> Option<Seq<char>> {
    match m.presence {
        PresenceStateModel::Known(s) => if m.freshness == PresenceFreshness::Unavailable {
            None
        } else {
            platform_label_spec(s.data.client_status)
        },
        PresenceStateModel::Unknown => None,
    }
}

pub open spec fn meta_y(p: PanelGeometry) -> int {
    p.y + p.height - 28
}

/// The metadata row: the activity's time, its party size and the presence's platforms,
/// each after the previous one.
#[verifier::opaque]
pub open spec fn meta_spec(p: PanelGeometry, a: ActivityModel, m: RuntimeModel, now: u64) -> Seq<char> {
    let c = compact(p);
    let my = meta_y(p) as nat;
    let x0 = text_x(p);
    let time = activity_time_spec(a, now);
    let tpart = match time {
        Some(t) => text1_spec(x0 as nat, my, 14, "#c7cee8"@, "600"@, "◷ "@ + t, None),
        None => Seq::empty(),
    };
    let x1 = if time is Some {
        sat_u32(x0, if c {
            160
        } else {
            190
        })
    } else {
        x0
    };
    let ppart = match a.party {
        Some(pt) => text1_spec(x1 as nat, my, 14, "#b7c0df"@, "600"@, "Party "@ + dec(pt.current_size as int) + " / "@
            + dec(pt.max_size as int), None),
        None => Seq::empty(),
    };
    let x2 = if a.party is Some {
        sat_u32(x1, if c {
            100
        } else {
            130
        })
    } else {
        x1
    };
    let lpart = match platform_spec(m) {
        Some(pl) => text1_spec(x2 as nat, my, 14, "#9ca6c9"@, "600"@, "▣ "@ + pl, None),
        None => Seq::empty(),
    };
    tpart + ppart + lpart
}

fn meta(p: PanelGeometry, activity: &ActivitySnapshot, runtime: &RuntimeState, now_unix_ms: u64) -> (r: String)
    requires
        panel_fits(p),
    ensures
        r@ == meta_spec(p, activity.deep_view(), runtime.deep_view(), now_unix_ms),
{
    proof {
        reveal(meta_spec);
    }
    let c = p.width <= 600;
    let size: u32 = if p.width > 800 {
        220
    } else {
        148
    };
    let my = p.y + p.height - 28;
    let mut x = p.x + 20 + size + 34;
    let mut t = String::new();
    match activity_time(activity, now_unix_ms) {
        Some(time) => {
            let mut label = owned("◷ ");
            push_str(&mut label, time.as_str());
            push_text1(&mut t, x, my, 14, "#c7cee8", "600", label.as_str(), None);
            x = x.saturating_add(
                if c {
                    160
                } else {
                    190
                },
            );
        },
        None => {},
    }
    let ghost timed = t@;
    match &activity.party {
        Some(party) => {
            let mut label = owned("Party ");
            push_decimal(&mut label, party.current_size);
            push_str(&mut label, " / ");
            push_decimal(&mut label, party.max_size);
            push_text1(&mut t, x, my, 14, "#b7c0df", "600", label.as_str(), None);
            x = x.saturating_add(
                if c {
                    100
                } else {
                    130
                },
            );
        },
        None => {},
    }
    let ghost partied = t@;
    match client_platform(runtime) {
        Some(platform) => {
            let mut label = owned("▣ ");
            push_str(&mut label, platform.as_str());
            push_text1(&mut t, x, my, 14, "#9ca6c9", "600", label.as_str(), None);
        },
        None => {},
    }
    proof {
        assert(t@ =~= meta_spec(p, activity.deep_view(), runtime.deep_view(), now_unix_ms));
    }
    t
}

pub open spec fn elapsed_of(span: Option<(u64, u64)>) -> u64 {
    match span {
        Some((elapsed, _)) => elapsed,
        None => 0,
    }
}

pub open spec fn total_of(span: Option<(u64, u64)>) -> u64 {
    match span {
        Some((_, total)) => total,
        None => 0,
    }
}

/// The progress bar of a Spotify activity with a known progress: a track and, over it,
/// the played part, its length the bar's times the elapsed share of the span, in the
/// activity's color.
#[verifier::opaque]
pub open spec fn progress_spec(p: PanelGeometry, a: ActivityModel, now: u64) -> Seq<char> {
    let bar_width: int = if compact(p) {
        230
    } else {
        390
    };
    let by = if meta_y(p) >= 24 {
        meta_y(p) - 24
    } else {
        0
    };
    let span = progress_span_spec(a, now);
    if is_spotify_spec(a) && span is Some {
        "<rect x=\""@ + dec(text_x(p)) + "\" y=\""@ + dec(by) + "\" width=\""@ + dec(bar_width)
            + "\" height=\"5\" rx=\"3\" fill=\"#555d7a\" fill-opacity=\".55\"/><rect x=\""@ + dec(text_x(p)) + "\" y=\""@
            + dec(by) + "\" width=\""@ + decimal_spec(progress_fill_spec(bar_width as nat, elapsed_of(span) as nat, total_of(span) as nat)) + "\" height=\"5\" rx=\"3\" fill=\""@
            + kind_color_spec(a.kind) + "\"/>"@
    } else {
        Seq::empty()
    }
}

fn progress_bar(p: PanelGeometry, activity: &ActivitySnapshot, now_unix_ms: u64) -> (r: String)
    requires
        panel_fits(p),
    ensures
        r@ == progress_spec(p, activity.deep_view(), now_unix_ms),
{
    proof {
        reveal(progress_spec);
    }
    let mut t = String::new();
    if is_spotify_activity(activity) {
        match progress_span(activity, now_unix_ms) {
            Some((elapsed, total)) => {
                let size: u32 = if p.width > 800 {
                    220
                } else {
                    148
                };
                let tx = p.x + 20 + size + 34;
                let my = p.y + p.height - 28;
                let by = my.saturating_sub(24);
                let bar_width: u32 = if p.width <= 600 {
                    230
                } else {
                    390
                };
                push_str(&mut t, "<rect x=\"");
                push_decimal(&mut t, tx as u64);
                push_str(&mut t, "\" y=\"");
                push_decimal(&mut t, by as u64);
                push_str(&mut t, "\" width=\"");
                push_decimal(&mut t, bar_width as u64);
                push_str(&mut t, "\" height=\"5\" rx=\"3\" fill=\"#555d7a\" fill-opacity=\".55\"/><rect x=\"");
                push_decimal(&mut t, tx as u64);
                push_str(&mut t, "\" y=\"");
                push_decimal(&mut t, by as u64);
                push_str(&mut t, "\" width=\"");
                let w = progress_fill(bar_width, elapsed, total);
                push_decimal(&mut t, w as u64);
                push_str(&mut t, "\" height=\"5\" rx=\"3\" fill=\"");
                push_str(&mut t, activity_kind_color(activity.kind));
                push_str(&mut t, "\"/>");
                proof {
                    assert(t@ =~= progress_spec(p, activity.deep_view(), now_unix_ms));
                }
            },
            None => {},
        }
    }
    t
}

/// The elapsed and total time of an activity with a start and a later end, for its
/// progress bar: the elapsed time is counted from the start, at most the total.
pub open spec fn progress_span_spec(a: ActivityModel, now: u64) -> Option<(u64, u64)> {
    match a.timestamps {
        Some(t) => match (t.start, t.end) {
            (Some(start), Some(end)) => if end > start {
                let total = (end - start) as u64;
                let elapsed = if now > start {
                    (now - start) as u64
                } else {
                    0u64
                };
                Some((if elapsed < total {
                    elapsed
                } else {
                    total
                }, total))
            } else {
                None
            },
            _ => None,
        },
        None => None,
    }
}

/// The elapsed and total time of an activity's progress, from which the played part of
/// its bar is measured.
pub fn progress_span(activity: &ActivitySnapshot, now_unix_ms: u64) -> (r: Option<(u64, u64)>)
    ensures
        r == progress_span_spec(activity.deep_view(), now_unix_ms),
{
    match &activity.timestamps {
        Some(t) => match (t.start, t.end) {
            (Some(start), Some(end)) => if end > start {
                let total = end - start;
                let elapsed = now_unix_ms.saturating_sub(start);
                Some((
                    if elapsed < total {
                        elapsed
                    } else {
                        total
                    },
                    total,
                ))
            } else {
                None
            },
            _ => None,
        },
        None => None,
    }
}

/// One activity panel.
pub open spec fn panel_spec(
    p: PanelGeometry,
    index: nat,
    a: ActivityModel,
    art: PanelArtworkModel,
    m: RuntimeModel,
    now: u64,
    embedded: EmbeddedArtworkBatch,
) -> Seq<char> {
    let large = embedded_image(art.large_url, embedded);
    panel_frame_spec(p, index, large) + large_art_spec(p, index, a.name, large) + small_art_spec(
        p,
        index,
        embedded_image(art.small_url, embedded),
    ) + heading_spec(p, a) + lines_spec(p, a) + meta_spec(p, a, m, now) + progress_spec(p, a, now)
}

/// Writes one activity panel: its frame and backdrop, its large and small artwork (the
/// initials where the large image was not embedded), the kind and name, the detail
/// lines, the metadata row and, for Spotify, the progress bar.
pub fn render_activity_panel(
    body: &mut String,
    runtime: &RuntimeState,
    activity: &ActivitySnapshot,
    artwork: &PanelArtwork,
    panel: PanelGeometry,
    index: u64,
    now_unix_ms: u64,
    embedded: &EmbeddedArtworkBatch,
)
    requires
        panel_fits(panel),
    ensures
        final(body)@ == old(body)@ + panel_spec(
            panel,
            index as nat,
            activity.deep_view(),
            artwork.deep_view(),
            runtime.deep_view(),
            now_unix_ms,
            *embedded,
        ),
{
    let ghost start = body@;
    let large = embedded_href(&artwork.large_url, embedded);
    let small = embedded_href(&artwork.small_url, embedded);
    let frame = panel_frame(panel, index, &large);
    push_str(body, frame.as_str());
    let big = large_art(panel, index, activity.name.as_str(), &large);
    push_str(body, big.as_str());
    let badge = small_art(panel, index, &small);
    push_str(body, badge.as_str());
    let head = heading(panel, activity);
    push_str(body, head.as_str());
    let text = lines(panel, activity);
    push_str(body, text.as_str());
    let row = meta(panel, activity, runtime, now_unix_ms);
    push_str(body, row.as_str());
    let bar = progress_bar(panel, activity, now_unix_ms);
    push_str(body, bar.as_str());
    proof {
        assert(body@ =~= start + panel_spec(
            panel,
            index as nat,
            activity.deep_view(),
            artwork.deep_view(),
            runtime.deep_view(),
            now_unix_ms,
            *embedded,
        ));
    }
}

/// How many activity panels the card shows at most.
pub const MAX_SHOWN_ACTIVITIES: usize = 4;

/// Where the `i`-th of `count` panels stands: one wide panel, two side by side, or a
/// grid of two columns.
pub open spec fn grid_geometry(count: nat, i: nat) -> PanelGeometry {
    if count == 1 {
        PanelGeometry { x: 40, y: 180, width: 1120, height: 300 }
    } else if count == 2 {
        PanelGeometry { x: (40 + i * 570) as u32, y: 180, width: 550, height: 280 }
    } else {
        PanelGeometry { x: (40 + (i % 2) * 570) as u32, y: (180 + (i / 2) * 270) as u32, width: 550, height: 250 }
    }
}

/// The artwork given for the `i`-th panel, or none.
pub open spec fn art_at(arts: Seq<PanelArtworkModel>, i: int) -> PanelArtworkModel {
    if 0 <= i < arts.len() {
        arts[i]
    } else {
        PanelArtworkModel { large_url: None, small_url: None }
    }
}

/// The first `k` of `count` panels.
pub open spec fn grid_spec(
    count: nat,
    k: nat,
    acts: Seq<ActivityModel>,
    arts: Seq<PanelArtworkModel>,
    m: RuntimeModel,
    now: u64,
    embedded: EmbeddedArtworkBatch,
) -> Seq<char>
    decreases k,
{
    if k == 0 {
        Seq::empty()
    } else {
        let i = (k - 1) as nat;
        grid_spec(count, i, acts, arts, m, now, embedded) + panel_spec(
            grid_geometry(count, i),
            i,
            acts[i as int],
            art_at(arts, i as int),
            m,
            now,
            embedded,
        )
    }
}

fn artwork_at(artworks: &Vec<PanelArtwork>, i: usize) -> (r: PanelArtwork)
    ensures
        r.deep_view() == art_at(artworks.deep_view(), i as int),
{
    if i < artworks.len() {
        PanelArtwork {
            large_url: crate::state::clone_opt_string(&artworks[i].large_url),
            small_url: crate::state::clone_opt_string(&artworks[i].small_url),
        }
    } else {
        PanelArtwork { large_url: None, small_url: None }
    }
}

fn push_grid(
    body: &mut String,
    runtime: &RuntimeState,
    acts: &Vec<ActivitySnapshot>,
    count: usize,
    now_unix_ms: u64,
    embedded: &EmbeddedArtworkBatch,
    artworks: &Vec<PanelArtwork>,
)
    requires
        1 <= count <= MAX_SHOWN_ACTIVITIES,
        count <= acts@.len(),
    ensures
        final(body)@ == old(body)@ + grid_spec(
            count as nat,
            count as nat,
            acts.deep_view(),
            artworks.deep_view(),
            runtime.deep_view(),
            now_unix_ms,
            *embedded,
        ),
{
    let ghost start = body@;
    let mut i: usize = 0;
    while i < count
        invariant
            i <= count <= MAX_SHOWN_ACTIVITIES,
            count <= acts@.len(),
            body@ == start + grid_spec(
                count as nat,
                i as nat,
                acts.deep_view(),
                artworks.deep_view(),
                runtime.deep_view(),
                now_unix_ms,
                *embedded,
            ),
        decreases count - i,
    {
        let geometry = if count == 1 {
            PanelGeometry { x: 40, y: 180, width: 1120, height: 300 }
        } else if count == 2 {
            PanelGeometry { x: 40 + (i as u32) * 570, y: 180, width: 550, height: 280 }
        } else {
            PanelGeometry { x: 40 + ((i % 2) as u32) * 570, y: 180 + ((i / 2) as u32) * 270, width: 550, height: 250 }
        };
        proof {
            assert(geometry == grid_geometry(count as nat, i as nat));
        }
        let art = artwork_at(artworks, i);
        proof {
            assert(acts.deep_view()[i as int] == acts@[i as int].deep_view());
        }
        render_activity_panel(body, runtime, &acts[i], &art, geometry, i as u64, now_unix_ms, embedded);
        i = i + 1;
    }
}

/// The note shown in place of panels.
pub open spec fn empty_state_spec(height: int, message: Seq<char>) -> Seq<char> {
    "<rect x=\"40\" y=\"180\" width=\"1120\" height=\""@ + dec(if height > 220 {
        height - 220
    } else {
        0
    }) + "\" rx=\"24\" fill=\"#12182a\" fill-opacity=\".75\" stroke=\"#6f789b\" stroke-opacity=\".25\"/>"@ + text1_spec(
        600,
        235,
        18,
        "#9ba5c7"@,
        "600"@,
        message,
        Some("middle"@),
    )
}

fn push_empty_state(body: &mut String, height: u32, message: &str)
    ensures
        final(body)@ == old(body)@ + empty_state_spec(height as int, message@),
{
    let ghost start = body@;
    push_str(body, "<rect x=\"40\" y=\"180\" width=\"1120\" height=\"");
    push_decimal(body, height.saturating_sub(220) as u64);
    push_str(body, "\" rx=\"24\" fill=\"#12182a\" fill-opacity=\".75\" stroke=\"#6f789b\" stroke-opacity=\".25\"/>");
    push_text1(body, 600, 235, 18, "#9ba5c7", "600", message, Some("middle"));
    proof {
        assert(body@ =~= start + empty_state_spec(height as int, message@));
    }
}

/// The card's height by the number of panels shown.
pub open spec fn card_height(shown: nat) -> int {
    if shown == 0 {
        300
    } else if shown == 1 {
        520
    } else if shown == 2 {
        500
    } else {
        760
    }
}

/// The number of panels shown: at most four.
pub open spec fn shown_count(n: nat) -> nat {
    if n < MAX_SHOWN_ACTIVITIES {
        n
    } else {
        MAX_SHOWN_ACTIVITIES as nat
    }
}

/// The card's frame and shared drawing definitions.
pub open spec fn card_frame_spec(h: int) -> Seq<char> {
    svg_open_spec(1200, h, "ItzHerzchen Discord status"@) + "<defs>\n<linearGradient id=\"card-bg\" x1=\"0\" x2=\"1\" y1=\"0\" y2=\"1\"><stop offset=\"0\" stop-color=\"#0e1220\"/><stop offset=\"1\" stop-color=\"#12172a\"/></linearGradient>\n<linearGradient id=\"panel-bg\" x1=\"0\" x2=\"1\"><stop offset=\"0\" stop-color=\"#11182a\" stop-opacity=\".98\"/><stop offset=\"1\" stop-color=\"#151a2a\" stop-opacity=\".92\"/></linearGradient>\n<linearGradient id=\"fallback-art\" x1=\"0\" x2=\"1\" y1=\"0\" y2=\"1\"><stop offset=\"0\" stop-color=\"#262044\"/><stop offset=\"1\" stop-color=\"#121a31\"/></linearGradient>\n<filter id=\"soft-shadow\" x=\"-20%\" y=\"-20%\" width=\"140%\" height=\"140%\"><feGaussianBlur in=\"SourceAlpha\" stdDeviation=\"10\" result=\"blur\"/><feOffset dy=\"5\" result=\"offset\"/><feColorMatrix in=\"offset\" values=\"0 0 0 0 0.02 0 0 0 0 0.01 0 0 0 0 0.08 0 0 0 .65 0\"/><feMerge><feMergeNode/><feMergeNode in=\"SourceGraphic\"/></feMerge></filter>\n<filter id=\"art-blur\" x=\"-20%\" y=\"-20%\" width=\"140%\" height=\"140%\"><feGaussianBlur stdDeviation=\"20\"/></filter>\n</defs>"@
        + "<rect width=\"1200\" height=\""@ + dec(h) + "\" rx=\"34\" fill=\"url(#card-bg)\"/><rect x=\"1\" y=\"1\" width=\"1198\" height=\""@
        + dec(h - 2) + "\" rx=\"33\" fill=\"none\" stroke=\"#7c6fc5\" stroke-opacity=\".5\" stroke-width=\"2\"/>"@
}

/// What the card shows below its header: the panels of an available presence (marked
/// as last known where stale, with a count of the activities not shown), a note that
/// there is no activity, that the presence is unavailable, or that it is awaited.
pub open spec fn card_content_spec(
    m: RuntimeModel,
    now: u64,
    embedded: EmbeddedArtworkBatch,
    arts: Seq<PanelArtworkModel>,
) -> Seq<char> {
    let sel = visible_spec(m);
    let shown = shown_count(sel.len());
    let h = card_height(shown);
    match m.presence {
        PresenceStateModel::Known(_) => if m.freshness == PresenceFreshness::Unavailable {
            empty_state_spec(h, "Live presence is temporarily unavailable"@)
        } else {
            (if m.freshness == PresenceFreshness::Stale {
                text1_spec(1148, 42, 13, "#d8b46b"@, "700"@, "LAST KNOWN"@, Some("end"@))
            } else {
                Seq::empty()
            }) + (if shown == 0 {
                empty_state_spec(h, "No current activity"@)
            } else {
                grid_spec(shown, shown, sel, arts, m, now, embedded) + (if sel.len() > MAX_SHOWN_ACTIVITIES {
                    text1_spec(
                        1148,
                        (h - 18) as nat,
                        13,
                        "#8e96b7"@,
                        "600"@,
                        "+"@ + dec(sel.len() - MAX_SHOWN_ACTIVITIES) + " more"@,
                        Some("end"@),
                    )
                } else {
                    Seq::empty()
                })
            })
        },
        PresenceStateModel::Unknown => empty_state_spec(h, "Waiting for Discord presence"@),
    }
}

/// The first presence card.
pub open spec fn presence_card1_spec(
    m: RuntimeModel,
    identity: Option<IdentitySnapshotModel>,
    now: u64,
    embedded: EmbeddedArtworkBatch,
    arts: Seq<PanelArtworkModel>,
) -> Seq<char> {
    let h = card_height(shown_count(visible_spec(m).len()));
    card_frame_spec(h) + header1_spec(m, identity, embedded)
        + "<line x1=\"40\" y1=\"155\" x2=\"1160\" y2=\"155\" stroke=\"#8d93b5\" stroke-opacity=\".24\"/>"@
        + card_content_spec(m, now, embedded, arts) + "</svg>"@
}

fn content(
    runtime: &RuntimeState,
    selected: &Vec<ActivitySnapshot>,
    now_unix_ms: u64,
    embedded: &EmbeddedArtworkBatch,
    artworks: &Vec<PanelArtwork>,
) -> (r: String)
    requires
        selected.deep_view() == visible_spec(runtime.deep_view()),
    ensures
        r@ == card_content_spec(runtime.deep_view(), now_unix_ms, *embedded, artworks.deep_view()),
{
    let shown = if selected.len() < MAX_SHOWN_ACTIVITIES {
        selected.len()
    } else {
        MAX_SHOWN_ACTIVITIES
    };
    let height: u32 = if shown == 0 {
        300
    } else if shown == 1 {
        520
    } else if shown == 2 {
        500
    } else {
        760
    };
    let mut t = String::new();
    match &runtime.presence {
        PresenceState::Known(_) => if runtime.freshness == PresenceFreshness::Unavailable {
            push_empty_state(&mut t, height, "Live presence is temporarily unavailable");
        } else {
            if runtime.freshness == PresenceFreshness::Stale {
                push_text1(&mut t, 1148, 42, 13, "#d8b46b", "700", "LAST KNOWN", Some("end"));
            }
            let ghost marked = t@;
            if shown == 0 {
                push_empty_state(&mut t, height, "No current activity");
            } else {
                push_grid(&mut t, runtime, selected, shown, now_unix_ms, embedded, artworks);
                let ghost gridded = t@;
                if selected.len() > MAX_SHOWN_ACTIVITIES {
                    let mut more = owned("+");
                    push_decimal(&mut more, (selected.len() - MAX_SHOWN_ACTIVITIES) as u64);
                    push_str(&mut more, " more");
                    push_text1(&mut t, 1148, height - 18, 13, "#8e96b7", "600", more.as_str(), Some("end"));
                }
            }
        },
        PresenceState::Unknown => {
            push_empty_state(&mut t, height, "Waiting for Discord presence");
        },
    }
    proof {
        assert(t@ =~= card_content_spec(runtime.deep_view(), now_unix_ms, *embedded, artworks.deep_view()));
    }
    t
}

/// Renders the first presence card: frame, header, and the panels of the shown
/// activities. `artworks[i]` holds the artwork URLs of the `i`-th shown activity.
pub fn render_presence_card(
    runtime: &RuntimeState,
    identity: Option<&DiscordIdentitySnapshot>,
    now_unix_ms: u64,
    embedded: &EmbeddedArtworkBatch,
    artworks: &Vec<PanelArtwork>,
) -> (r: String)
    requires
        header1_fits(
            match identity {
                Some(i) => Some(i.deep_view()),
                None => None,
            },
        ),
    ensures
        r@ == presence_card1_spec(
            runtime.deep_view(),
            match identity {
                Some(i) => Some(i.deep_view()),
                None => None,
            },
            now_unix_ms,
            *embedded,
            artworks.deep_view(),
        ),
{
    let selected = visible_activities(runtime);
    let shown = if selected.len() < MAX_SHOWN_ACTIVITIES {
        selected.len()
    } else {
        MAX_SHOWN_ACTIVITIES
    };
    let height: u32 = if shown == 0 {
        300
    } else if shown == 1 {
        520
    } else if shown == 2 {
        500
    } else {
        760
    };
    let mut body = svg_open(1200, height, "ItzHerzchen Discord status");
    push_str(&mut body, "<defs>\n<linearGradient id=\"card-bg\" x1=\"0\" x2=\"1\" y1=\"0\" y2=\"1\"><stop offset=\"0\" stop-color=\"#0e1220\"/><stop offset=\"1\" stop-color=\"#12172a\"/></linearGradient>\n<linearGradient id=\"panel-bg\" x1=\"0\" x2=\"1\"><stop offset=\"0\" stop-color=\"#11182a\" stop-opacity=\".98\"/><stop offset=\"1\" stop-color=\"#151a2a\" stop-opacity=\".92\"/></linearGradient>\n<linearGradient id=\"fallback-art\" x1=\"0\" x2=\"1\" y1=\"0\" y2=\"1\"><stop offset=\"0\" stop-color=\"#262044\"/><stop offset=\"1\" stop-color=\"#121a31\"/></linearGradient>\n<filter id=\"soft-shadow\" x=\"-20%\" y=\"-20%\" width=\"140%\" height=\"140%\"><feGaussianBlur in=\"SourceAlpha\" stdDeviation=\"10\" result=\"blur\"/><feOffset dy=\"5\" result=\"offset\"/><feColorMatrix in=\"offset\" values=\"0 0 0 0 0.02 0 0 0 0 0.01 0 0 0 0 0.08 0 0 0 .65 0\"/><feMerge><feMergeNode/><feMergeNode in=\"SourceGraphic\"/></feMerge></filter>\n<filter id=\"art-blur\" x=\"-20%\" y=\"-20%\" width=\"140%\" height=\"140%\"><feGaussianBlur stdDeviation=\"20\"/></filter>\n</defs>");
    push_str(&mut body, "<rect width=\"1200\" height=\"");
    push_decimal(&mut body, height as u64);
    push_str(&mut body, "\" rx=\"34\" fill=\"url(#card-bg)\"/><rect x=\"1\" y=\"1\" width=\"1198\" height=\"");
    push_decimal(&mut body, (height - 2) as u64);
    push_str(&mut body, "\" rx=\"33\" fill=\"none\" stroke=\"#7c6fc5\" stroke-opacity=\".5\" stroke-width=\"2\"/>");
    let ghost framed = body@;
    proof {
        assert(framed =~= card_frame_spec(height as int));
    }
    render_identity_header(&mut body, runtime, identity, embedded);
    push_str(&mut body, "<line x1=\"40\" y1=\"155\" x2=\"1160\" y2=\"155\" stroke=\"#8d93b5\" stroke-opacity=\".24\"/>");
    let rest = content(runtime, &selected, now_unix_ms, embedded, artworks);
    push_str(&mut body, rest.as_str());
    push_str(&mut body, "</svg>");
    proof {
        let iv = match identity {
            Some(i) => Some(i.deep_view()),
            None => None,
        };
        assert(body@ =~= presence_card1_spec(
            runtime.deep_view(),
            iv,
            now_unix_ms,
            *embedded,
            artworks.deep_view(),
        ));
    }
    body
}

/// The revision of the first card's drawing.
pub const CARD1_REVISION: u64 = 1;

/// Whether a shown activity of the first card has timestamps.
pub open spec fn card1_timed(m: RuntimeModel) -> bool {
    exists|k: int| 0 <= k < visible_spec(m).len() && (#[trigger] visible_spec(m)[k]).timestamps is Some
}

/// The first card's key: identity revision (0 without an identity), stream revision,
/// and the 15-second period while a shown activity has timestamps.
pub open spec fn card1_key_spec(m: RuntimeModel, identity_revision: Option<u64>, now: u64) -> PresenceCardCacheKey {
    PresenceCardCacheKey {
        identity_revision: match identity_revision {
            Some(r) => r,
            None => 0,
        },
        stream_revision: m.stream_revision,
        time_bucket: if card1_timed(m) {
            (now / TIME_BUCKET_MS) as u64
        } else {
            0
        },
    }
}

pub fn card1_key(runtime: &RuntimeState, identity: Option<&DiscordIdentitySnapshot>, now_unix_ms: u64) -> (r:
    PresenceCardCacheKey)
    ensures
        r == card1_key_spec(
            runtime.deep_view(),
            match identity {
                Some(i) => Some(i.revision),
                None => None,
            },
            now_unix_ms,
        ),
{
    let shown = visible_activities(runtime);
    let ghost v = visible_spec(runtime.deep_view());
    let mut timed = false;
    let mut i: usize = 0;
    while i < shown.len()
        invariant
            i <= shown@.len(),
            shown.deep_view() == v,
            timed == exists|k: int| 0 <= k < i && (#[trigger] v[k]).timestamps is Some,
        decreases shown.len() - i,
    {
        proof {
            assert(v[i as int] == shown@[i as int].deep_view());
        }
        if shown[i].timestamps.is_some() {
            timed = true;
        }
        i = i + 1;
    }
    PresenceCardCacheKey {
        identity_revision: match identity {
            Some(i) => i.revision,
            None => 0,
        },
        stream_revision: runtime.stream_revision,
        time_bucket: if timed {
            now_unix_ms / TIME_BUCKET_MS
        } else {
            0
        },
    }
}

/// The first card's entity tag: revision, key, and whether all artwork was embedded.
pub open spec fn card1_etag_spec(key: PresenceCardCacheKey, complete: bool) -> Seq<char> {
    "\"profile-presence-card-v"@ + decimal_spec(CARD1_REVISION as nat) + "-"@ + decimal_spec(key.stream_revision as nat)
        + "-"@ + decimal_spec(key.identity_revision as nat) + "-"@ + decimal_spec(key.time_bucket as nat) + "-"@
        + (if complete {
        "full"@
    } else {
        "partial"@
    }) + "\""@
}

pub fn card1_etag(key: PresenceCardCacheKey, complete: bool) -> (r: String)
    ensures
        r@ == card1_etag_spec(key, complete),
{
    let mut etag = owned("\"profile-presence-card-v");
    push_decimal(&mut etag, CARD1_REVISION);
    push_str(&mut etag, "-");
    push_decimal(&mut etag, key.stream_revision);
    push_str(&mut etag, "-");
    push_decimal(&mut etag, key.identity_revision);
    push_str(&mut etag, "-");
    push_decimal(&mut etag, key.time_bucket);
    push_str(&mut etag, "-");
    push_str(
        &mut etag,
        if complete {
            "full"
        } else {
            "partial"
        },
    );
    push_str(&mut etag, "\"");
    etag
}

} // verus!
