//! The body of the large presence card: fitted texts, the activity title, the metadata
//! rows with their icons, the media progress bar, the artwork, the activity panels, the
//! grid they are laid out in, and the whole card. Which artwork URLs an activity shows
//! is given by the caller.
use vstd::prelude::*;

use crate::activity::{is_spotify_activity, is_spotify_spec};
use crate::artwork::EmbeddedArtworkBatch;
use crate::first_card::{embedded_image, PanelArtwork, PanelArtworkModel, PanelGeometry};
use crate::identity::{DiscordIdentitySnapshot, IdentitySnapshotModel};
use crate::presence_card_v2::{
    accent_for_spec, activity_accent, activity_time, activity_time_spec, activity_title_style, fallback_label,
    fallback_label_spec, format_clock, format_duration_spec, header_fits, identity_dynamic_spec, identity_static_spec,
    render_identity_header, spotify_activity_expired, spotify_expired_spec, text, text_spec, title_style_spec,
    truncate_chars, truncate_within_spec, visible_activities, visible_presence, visible_presence_spec, visible_spec,
    VisiblePresence, MAX_VISIBLE_ACTIVITIES,
};
use crate::state::{ActivityKind, ActivityModel, ActivitySnapshot, RuntimeModel, RuntimeState};
use crate::text::{
    chars_of, decimal_spec, escape_spec, non_empty, non_empty_spec, owned, push_decimal, push_escaped, push_str, trim,
    trim_spec,
};

verus! {

pub open spec fn dec(n: int) -> Seq<char> {
    decimal_spec(n as nat)
}

/// Whether a text of `count` characters at font size `size`, estimated at 0.56 em per
/// character, is wider than `max_width`.
pub open spec fn needs_fitting(count: nat, size: nat, max_width: nat) -> bool {
    count * size * 14 > max_width * 25
}

/// A text element squeezed to `max_width` where its estimated width exceeds it.
pub open spec fn fitted_spec(
    x: u32,
    y: u32,
    size: u32,
    fill: Seq<char>,
    weight: Seq<char>,
    value: Seq<char>,
    max_width: u32,
    anchor: Option<Seq<char>>,
) -> Seq<char> {
    "<text x=\""@ + dec(x as int) + "\" y=\""@ + dec(y as int) + "\" fill=\""@ + fill
        + "\" font-family=\"Inter,Segoe UI,Arial,sans-serif\" font-size=\""@ + dec(size as int)
        + "\" font-weight=\""@ + weight + "\" text-anchor=\""@ + (match anchor {
        Some(a) => a,
        None => "start"@,
    }) + "\""@ + (if needs_fitting(value.len(), size as nat, max_width as nat) {
        " textLength=\""@ + dec(max_width as int) + "\" lengthAdjust=\"spacingAndGlyphs\""@
    } else {
        Seq::empty()
    }) + ">"@ + escape_spec(value) + "</text>"@
}

/// Writes a text element, squeezed to `max_width` where its estimated width exceeds it;
/// the text itself is kept whole.
pub fn fitted_text(
    body: &mut String,
    x: u32,
    y: u32,
    size: u32,
    fill: &str,
    weight: &str,
    value: &str,
    max_width: u32,
    anchor: Option<&str>,
)
    ensures
        final(body)@ == old(body)@ + fitted_spec(
            x,
            y,
            size,
            fill@,
            weight@,
            value@,
            max_width,
            match anchor {
                Some(a) => Some(a@),
                None => None,
            },
        ),
{
    let ghost start = body@;
    let count = chars_of(value).len() as u128;
    proof {
        assert(count * (size as u128) <= 0xffff_ffff_ffff_ffffu128 * 0xffff_ffffu128) by (nonlinear_arith)
            requires
                count <= 0xffff_ffff_ffff_ffffu128,
                size <= 0xffff_ffffu32,
        ;
    }
    let fit = count * (size as u128) * 14 > (max_width as u128) * 25;
    let mut t = owned("<text x=\"");
    push_decimal(&mut t, x as u64);
    push_str(&mut t, "\" y=\"");
    push_decimal(&mut t, y as u64);
    push_str(&mut t, "\" fill=\"");
    push_str(&mut t, fill);
    push_str(&mut t, "\" font-family=\"Inter,Segoe UI,Arial,sans-serif\" font-size=\"");
    push_decimal(&mut t, size as u64);
    push_str(&mut t, "\" font-weight=\"");
    push_str(&mut t, weight);
    push_str(&mut t, "\" text-anchor=\"");
    push_str(
        &mut t,
        match anchor {
            Some(a) => a,
            None => "start",
        },
    );
    push_str(&mut t, "\"");
    let ghost before = t@;
    if fit {
        push_str(&mut t, " textLength=\"");
        push_decimal(&mut t, max_width as u64);
        push_str(&mut t, "\" lengthAdjust=\"spacingAndGlyphs\"");
    }
    proof {
        if fit {
            assert(t@ =~= before + (" textLength=\""@ + dec(max_width as int) + "\" lengthAdjust=\"spacingAndGlyphs\""@));
        } else {
            assert(t@ =~= before + Seq::<char>::empty());
        }
    }
    push_str(&mut t, ">");
    push_escaped(&mut t, value);
    push_str(&mut t, "</text>");
    push_str(body, t.as_str());
    proof {
        let am = match anchor {
            Some(a) => Some(a@),
            None => None,
        };
        assert(body@ =~= start + fitted_spec(x, y, size, fill@, weight@, value@, max_width, am));
    }
}

/// Fitting never shortens a text: a fitted text element ends with the whole value,
/// escaped, and the closing tag.
pub proof fn law_fitted_text_keeps_the_whole_value(
    x: u32,
    y: u32,
    size: u32,
    fill: Seq<char>,
    weight: Seq<char>,
    value: Seq<char>,
    max_width: u32,
    anchor: Option<Seq<char>>,
)
    ensures
        ({
            let t = fitted_spec(x, y, size, fill, weight, value, max_width, anchor);
            let tail = escape_spec(value) + "</text>"@;
            t.len() >= tail.len() && t.subrange(t.len() - tail.len(), t.len() as int) == tail
        }),
{
    let t = fitted_spec(x, y, size, fill, weight, value, max_width, anchor);
    let tail = escape_spec(value) + "</text>"@;
    let head = "<text x=\""@ + dec(x as int) + "\" y=\""@ + dec(y as int) + "\" fill=\""@ + fill
        + "\" font-family=\"Inter,Segoe UI,Arial,sans-serif\" font-size=\""@ + dec(size as int)
        + "\" font-weight=\""@ + weight + "\" text-anchor=\""@ + (match anchor {
        Some(a) => a,
        None => "start"@,
    }) + "\""@ + (if needs_fitting(value.len(), size as nat, max_width as nat) {
        " textLength=\""@ + dec(max_width as int) + "\" lengthAdjust=\"spacingAndGlyphs\""@
    } else {
        Seq::empty()
    }) + ">"@;
    assert(t =~= head + tail);
    assert((head + tail).subrange(head.len() as int, (head + tail).len() as int) =~= tail);
}

/// The media progress of an activity with a start and a later end: the start, the end,
/// the elapsed time (counted from the start, at most the duration) and the duration.
pub open spec fn media_progress_spec(a: ActivityModel, now: u64) -> Option<(u64, u64, u64, u64)> {
    match a.timestamps {
        Some(t) => match (t.start, t.end) {
            (Some(start), Some(end)) => if end > start {
                let duration = (end - start) as u64;
                let elapsed: u64 = if now > start {
                    (now - start) as u64
                } else {
                    0
                };
                Some((start, end, if elapsed < duration {
                    elapsed
                } else {
                    duration
                }, duration))
            } else {
                None
            },
            _ => None,
        },
        None => None,
    }
}

pub fn media_progress(activity: &ActivitySnapshot, now: u64) -> (r: Option<(u64, u64, u64, u64)>)
    ensures
        r == media_progress_spec(activity.deep_view(), now),
{
    match &activity.timestamps {
        Some(t) => match (t.start, t.end) {
            (Some(start), Some(end)) => if end > start {
                let duration = end - start;
                let elapsed = now.saturating_sub(start);
                Some((
                    start,
                    end,
                    if elapsed < duration {
                        elapsed
                    } else {
                        duration
                    },
                    duration,
                ))
            } else {
                None
            },
            _ => None,
        },
        None => None,
    }
}

/// The played part of a bar `width` long: `width * elapsed / duration`, rounded to the
/// nearest whole unit, halves up.
pub open spec fn progress_fill_spec(width: nat, elapsed: nat, duration: nat) -> nat {
    (2 * width * elapsed + duration) / (2 * duration)
}

pub fn progress_fill(width: u32, elapsed: u64, duration: u64) -> (r: u32)
    requires
        duration > 0,
        elapsed <= duration,
    ensures
        r as nat == progress_fill_spec(width as nat, elapsed as nat, duration as nat),
{
    let w = width as u128;
    let e = elapsed as u128;
    let d = duration as u128;
    proof {
        assert(w * e <= w * d) by (nonlinear_arith)
            requires
                e <= d,
        ;
        assert(w * d <= 0xffff_ffffu128 * 0xffff_ffff_ffff_ffffu128) by (nonlinear_arith)
            requires
                w <= 0xffff_ffffu128,
                d <= 0xffff_ffff_ffff_ffffu128,
        ;
        assert(2 * w * e + d <= 2 * w * d + d) by (nonlinear_arith)
            requires
                e <= d,
        ;
        assert((2 * w * e + d) / (2 * d) <= w) by (nonlinear_arith)
            requires
                e <= d,
                d > 0,
        ;
    }
    let we = w * e;
    let r = (2 * we + d) / (2 * d);
    proof {
        assert(2 * we + d == 2 * w * e + d) by (nonlinear_arith)
            requires
                we == w * e,
        ;
    }
    r as u32
}

/// `a - b`, or zero where `b` is larger.
pub open spec fn sub0(a: int, b: int) -> int {
    if a > b {
        a - b
    } else {
        0
    }
}

/// The room a text starting at `x` has before the panel's right padding: at least one.
pub open spec fn room_spec(p: PanelGeometry, x: u32) -> u32 {
    let right = if p.x + p.width > u32::MAX {
        u32::MAX as int
    } else {
        p.x + p.width
    };
    let room = sub0(sub0(right, 26), x as int);
    (if room > 1 {
        room
    } else {
        1
    }) as u32
}

fn room(p: PanelGeometry, x: u32) -> (r: u32)
    ensures
        r == room_spec(p, x),
{
    let room = p.x.saturating_add(p.width).saturating_sub(26).saturating_sub(x);
    if room > 1 {
        room
    } else {
        1
    }
}

/// The title of a panel: for listening, the verb and the name in one line; otherwise
/// the verb above the name, the name fitted to the panel.
#[verifier::opaque]
pub open spec fn app_title_spec(a: ActivityModel, x: u32, y: u32, p: PanelGeometry) -> Seq<char> {
    let style = title_style_spec(a);
    let name = truncate_within_spec(trim_spec(a.name), if p.width > 1000 {
        38
    } else {
        28
    });
    if a.kind != ActivityKind::Listening {
        let c = p.width <= 1000;
        text_spec(x, (y + if c {
            15int
        } else {
            17
        }) as u32, if c {
            16
        } else {
            18
        }, style.1, "700"@, style.0, None) + fitted_spec(x, (y + if c {
            55int
        } else {
            66
        }) as u32, if c {
            34
        } else {
            42
        }, style.2, "800"@, name, room_spec(p, x), None)
    } else {
        "<text x=\""@ + dec(x as int) + "\" y=\""@ + dec(y + 29) + "\" font-family=\"Inter,Segoe UI,Arial,sans-serif\" font-size=\""@
            + dec(if p.width > 1000 {
            31
        } else {
            28
        }) + "\" font-weight=\"800\"><tspan fill=\""@ + style.1 + "\">"@ + escape_spec(style.0) + "</tspan><tspan fill=\""@
            + style.2 + "\"> "@ + escape_spec(name) + "</tspan></text>"@
    }
}

/// Writes the title of an activity panel at `x`, `y`.
pub fn render_app_title(body: &mut String, activity: &ActivitySnapshot, x: u32, y: u32, panel: PanelGeometry)
    requires
        y + 66 <= u32::MAX,
    ensures
        final(body)@ == old(body)@ + app_title_spec(activity.deep_view(), x, y, panel),
{
    proof {
        reveal(app_title_spec);
    }
    let ghost start = body@;
    let (verb, verb_color, name_color) = activity_title_style(activity);
    let trimmed = trim(activity.name.as_str());
    let name = truncate_chars(
        trimmed.as_str(),
        if panel.width > 1000 {
            38
        } else {
            28
        },
    );
    if activity.kind != ActivityKind::Listening {
        let compact = panel.width <= 1000;
        text(
            body,
            x,
            y + if compact {
                15
            } else {
                17
            },
            if compact {
                16
            } else {
                18
            },
            verb_color,
            "700",
            verb,
            None,
        );
        let max_width = room(panel, x);
        fitted_text(
            body,
            x,
            y + if compact {
                55
            } else {
                66
            },
            if compact {
                34
            } else {
                42
            },
            name_color,
            "800",
            name.as_str(),
            max_width,
            None,
        );
        proof {
            assert(body@ =~= start + app_title_spec(activity.deep_view(), x, y, panel));
        }
        return;
    }
    let mut t = owned("<text x=\"");
    push_decimal(&mut t, x as u64);
    push_str(&mut t, "\" y=\"");
    push_decimal(&mut t, (y + 29) as u64);
    push_str(&mut t, "\" font-family=\"Inter,Segoe UI,Arial,sans-serif\" font-size=\"");
    push_decimal(
        &mut t,
        if panel.width > 1000 {
            31
        } else {
            28
        },
    );
    push_str(&mut t, "\" font-weight=\"800\"><tspan fill=\"");
    push_str(&mut t, verb_color);
    push_str(&mut t, "\">");
    push_escaped(&mut t, verb);
    push_str(&mut t, "</tspan><tspan fill=\"");
    push_str(&mut t, name_color);
    push_str(&mut t, "\"> ");
    push_escaped(&mut t, name.as_str());
    push_str(&mut t, "</tspan></text>");
    push_str(body, t.as_str());
    proof {
        assert(body@ =~= start + app_title_spec(activity.deep_view(), x, y, panel));
    }
}

/// The icon in front of a metadata row.
#[derive(Clone, Copy, Debug, PartialEq, Eq, Structural)]
pub enum MetaIcon {
    Clock,
    Gamepad,
    Music,
    Party,
}

/// The drawing of a metadata icon at `x`, centred a little above `baseline`.
#[verifier::opaque]
pub open spec fn meta_icon_spec(icon: MetaIcon, x: u32, baseline: u32, color: Seq<char>, prominent: bool) -> Seq<char> {
    let x = x as int;
    let cy = sub0(baseline as int, if prominent {
        7
    } else {
        6
    });
    match icon {
        MetaIcon::Clock => {
            let sw = if prominent {
                "2.4"@
            } else {
                "2"@
            };
            "<circle cx=\""@ + dec(x + 12) + "\" cy=\""@ + dec(cy) + "\" r=\""@ + dec(if prominent {
                11
            } else {
                9
            }) + "\" fill=\"none\" stroke=\""@ + color + "\" stroke-width=\""@ + sw + "\"/><path d=\"M "@ + dec(x + 12) + " "@
                + dec(cy) + " V "@ + dec(sub0(cy, if prominent {
                6
            } else {
                5
            })) + " M "@ + dec(x + 12) + " "@ + dec(cy) + " L "@ + dec(x + 12 + if prominent {
                5int
            } else {
                4
            }) + " "@ + dec(cy + 2) + "\" fill=\"none\" stroke=\""@ + color + "\" stroke-width=\""@ + sw
                + "\" stroke-linecap=\"round\"/>"@
        },
        MetaIcon::Gamepad => "<svg x=\""@ + dec(x) + "\" y=\""@ + dec(sub0(cy, if prominent {
            15
        } else {
            12
        })) + "\" width=\""@ + dec(if prominent {
            30
        } else {
            24
        }) + "\" height=\""@ + dec(if prominent {
            25
        } else {
            20
        }) + "\" viewBox=\"0 0 24 24\" overflow=\"visible\"><path d=\"M21.58 16.09 20.49 8.43A5.02 5.02 0 0 0 15.54 4H8.46A5.02 5.02 0 0 0 3.51 8.43l-1.09 7.66A3 3 0 0 0 7.51 18.12L9.63 16h4.74l2.12 2.12a3 3 0 0 0 5.09-2.03ZM10 11H8v2H6v-2H4V9h2V7h2v2h2v2Zm5.5 2a1.5 1.5 0 1 1 0-3 1.5 1.5 0 0 1 0 3Zm3-3a1.5 1.5 0 1 1 0-3 1.5 1.5 0 0 1 0 3Z\" fill=\""@
            + color + "\"/></svg>"@,
        MetaIcon::Music => "<path d=\"M "@ + dec(x + 10) + " "@ + dec(cy + 3) + " V "@ + dec(sub0(cy, 7)) + " L "@ + dec(x + 21)
            + " "@ + dec(sub0(cy, 10)) + " V "@ + dec(cy) + "\" fill=\"none\" stroke=\""@ + color
            + "\" stroke-width=\"2.4\" stroke-linecap=\"round\" stroke-linejoin=\"round\"/><circle cx=\""@ + dec(x + 7)
            + "\" cy=\""@ + dec(cy + 5) + "\" r=\"3.2\" fill=\""@ + color + "\"/><circle cx=\""@ + dec(x + 18) + "\" cy=\""@
            + dec(cy + 2) + "\" r=\"3.2\" fill=\""@ + color + "\"/>"@,
        MetaIcon::Party => "<circle cx=\""@ + dec(x + 8) + "\" cy=\""@ + dec(sub0(cy, 5)) + "\" r=\"4\" fill=\"none\" stroke=\""@
            + color + "\" stroke-width=\"2\"/><circle cx=\""@ + dec(x + 18) + "\" cy=\""@ + dec(sub0(cy, 4))
            + "\" r=\"3.5\" fill=\"none\" stroke=\""@ + color + "\" stroke-width=\"2\"/><path d=\"M "@ + dec(x + 1) + " "@
            + dec(cy + 7) + " Q "@ + dec(x + 8) + " "@ + dec(cy) + ", "@ + dec(x + 15) + " "@ + dec(cy + 7) + " M "@ + dec(
            x + 11,
        ) + " "@ + dec(cy + 7) + " Q "@ + dec(x + 18) + " "@ + dec(cy + 1) + ", "@ + dec(x + 24) + " "@ + dec(cy + 7)
            + "\" fill=\"none\" stroke=\""@ + color + "\" stroke-width=\"2\" stroke-linecap=\"round\"/>"@,
    }
}

fn meta_icon(icon: MetaIcon, x: u32, baseline: u32, color: &str, prominent: bool) -> (r: String)
    requires
        x + 30 <= u32::MAX,
        baseline + 10 <= u32::MAX,
    ensures
        r@ == meta_icon_spec(icon, x, baseline, color@, prominent),
{
    proof {
        reveal(meta_icon_spec);
    }
    let cy: u64 = baseline.saturating_sub(
        if prominent {
            7
        } else {
            6
        },
    ) as u64;
    let x: u64 = x as u64;
    let mut t = String::new();
    match icon {
        MetaIcon::Clock => {
            let sw = if prominent {
                "2.4"
            } else {
                "2"
            };
            push_str(&mut t, "<circle cx=\"");
            push_decimal(&mut t, x + 12);
            push_str(&mut t, "\" cy=\"");
            push_decimal(&mut t, cy);
            push_str(&mut t, "\" r=\"");
            push_decimal(
                &mut t,
                if prominent {
                    11
                } else {
                    9
                },
            );
            push_str(&mut t, "\" fill=\"none\" stroke=\"");
            push_str(&mut t, color);
            push_str(&mut t, "\" stroke-width=\"");
            push_str(&mut t, sw);
            push_str(&mut t, "\"/><path d=\"M ");
            push_decimal(&mut t, x + 12);
            push_str(&mut t, " ");
            push_decimal(&mut t, cy);
            push_str(&mut t, " V ");
            push_decimal(
                &mut t,
                cy.saturating_sub(
                    if prominent {
                        6
                    } else {
                        5
                    },
                ),
            );
            push_str(&mut t, " M ");
            push_decimal(&mut t, x + 12);
            push_str(&mut t, " ");
            push_decimal(&mut t, cy);
            push_str(&mut t, " L ");
            push_decimal(
                &mut t,
                x + 12 + if prominent {
                    5
                } else {
                    4
                },
            );
            push_str(&mut t, " ");
            push_decimal(&mut t, cy + 2);
            push_str(&mut t, "\" fill=\"none\" stroke=\"");
            push_str(&mut t, color);
            push_str(&mut t, "\" stroke-width=\"");
            push_str(&mut t, sw);
            push_str(&mut t, "\" stroke-linecap=\"round\"/>");
        },
        MetaIcon::Gamepad => {
            push_str(&mut t, "<svg x=\"");
            push_decimal(&mut t, x);
            push_str(&mut t, "\" y=\"");
            push_decimal(
                &mut t,
                cy.saturating_sub(
                    if prominent {
                        15
                    } else {
                        12
                    },
                ),
            );
            push_str(&mut t, "\" width=\"");
            push_decimal(
                &mut t,
                if prominent {
                    30
                } else {
                    24
                },
            );
            push_str(&mut t, "\" height=\"");
            push_decimal(
                &mut t,
                if prominent {
                    25
                } else {
                    20
                },
            );
            push_str(
                &mut t,
                "\" viewBox=\"0 0 24 24\" overflow=\"visible\"><path d=\"M21.58 16.09 20.49 8.43A5.02 5.02 0 0 0 15.54 4H8.46A5.02 5.02 0 0 0 3.51 8.43l-1.09 7.66A3 3 0 0 0 7.51 18.12L9.63 16h4.74l2.12 2.12a3 3 0 0 0 5.09-2.03ZM10 11H8v2H6v-2H4V9h2V7h2v2h2v2Zm5.5 2a1.5 1.5 0 1 1 0-3 1.5 1.5 0 0 1 0 3Zm3-3a1.5 1.5 0 1 1 0-3 1.5 1.5 0 0 1 0 3Z\" fill=\"",
            );
            push_str(&mut t, color);
            push_str(&mut t, "\"/></svg>");
        },
        MetaIcon::Music => {
            push_str(&mut t, "<path d=\"M ");
            push_decimal(&mut t, x + 10);
            push_str(&mut t, " ");
            push_decimal(&mut t, cy + 3);
            push_str(&mut t, " V ");
            push_decimal(&mut t, cy.saturating_sub(7));
            push_str(&mut t, " L ");
            push_decimal(&mut t, x + 21);
            push_str(&mut t, " ");
            push_decimal(&mut t, cy.saturating_sub(10));
            push_str(&mut t, " V ");
            push_decimal(&mut t, cy);
            push_str(&mut t, "\" fill=\"none\" stroke=\"");
            push_str(&mut t, color);
            push_str(&mut t, "\" stroke-width=\"2.4\" stroke-linecap=\"round\" stroke-linejoin=\"round\"/><circle cx=\"");
            push_decimal(&mut t, x + 7);
            push_str(&mut t, "\" cy=\"");
            push_decimal(&mut t, cy + 5);
            push_str(&mut t, "\" r=\"3.2\" fill=\"");
            push_str(&mut t, color);
            push_str(&mut t, "\"/><circle cx=\"");
            push_decimal(&mut t, x + 18);
            push_str(&mut t, "\" cy=\"");
            push_decimal(&mut t, cy + 2);
            push_str(&mut t, "\" r=\"3.2\" fill=\"");
            push_str(&mut t, color);
            push_str(&mut t, "\"/>");
        },
        MetaIcon::Party => {
            push_str(&mut t, "<circle cx=\"");
            push_decimal(&mut t, x + 8);
            push_str(&mut t, "\" cy=\"");
            push_decimal(&mut t, cy.saturating_sub(5));
            push_str(&mut t, "\" r=\"4\" fill=\"none\" stroke=\"");
            push_str(&mut t, color);
            push_str(&mut t, "\" stroke-width=\"2\"/><circle cx=\"");
            push_decimal(&mut t, x + 18);
            push_str(&mut t, "\" cy=\"");
            push_decimal(&mut t, cy.saturating_sub(4));
            push_str(&mut t, "\" r=\"3.5\" fill=\"none\" stroke=\"");
            push_str(&mut t, color);
            push_str(&mut t, "\" stroke-width=\"2\"/><path d=\"M ");
            push_decimal(&mut t, x + 1);
            push_str(&mut t, " ");
            push_decimal(&mut t, cy + 7);
            push_str(&mut t, " Q ");
            push_decimal(&mut t, x + 8);
            push_str(&mut t, " ");
            push_decimal(&mut t, cy);
            push_str(&mut t, ", ");
            push_decimal(&mut t, x + 15);
            push_str(&mut t, " ");
            push_decimal(&mut t, cy + 7);
            push_str(&mut t, " M ");
            push_decimal(&mut t, x + 11);
            push_str(&mut t, " ");
            push_decimal(&mut t, cy + 7);
            push_str(&mut t, " Q ");
            push_decimal(&mut t, x + 18);
            push_str(&mut t, " ");
            push_decimal(&mut t, cy + 1);
            push_str(&mut t, ", ");
            push_decimal(&mut t, x + 24);
            push_str(&mut t, " ");
            push_decimal(&mut t, cy + 7);
            push_str(&mut t, "\" fill=\"none\" stroke=\"");
            push_str(&mut t, color);
            push_str(&mut t, "\" stroke-width=\"2\" stroke-linecap=\"round\"/>");
        },
    }
    proof {
        assert(t@ =~= meta_icon_spec(icon, x as u32, baseline, color@, prominent));
    }
    t
}

/// A time text that the page keeps counting: its kind and the moment it counts from
/// travel as data attributes.
pub open spec fn time_text_spec(
    x: u32,
    y: u32,
    index: nat,
    kind: Seq<char>,
    anchor_ms: u64,
    value: Seq<char>,
    color: Seq<char>,
    size: nat,
    weight: Seq<char>,
) -> Seq<char> {
    "<text id=\"activity-time-"@ + decimal_spec(index) + "\" data-time-kind=\""@ + kind + "\" data-anchor-ms=\""@
        + decimal_spec(anchor_ms as nat) + "\" x=\""@ + dec(x as int) + "\" y=\""@ + dec(y as int) + "\" fill=\""@ + color
        + "\" font-family=\"Inter,Segoe UI,Arial,sans-serif\" font-size=\""@ + decimal_spec(size) + "\" font-weight=\""@
        + weight + "\">"@ + escape_spec(value) + "</text>"@
}

fn time_text(
    x: u32,
    y: u32,
    index: u64,
    kind: &str,
    anchor_ms: u64,
    value: &str,
    color: &str,
    size: u64,
    weight: &str,
) -> (r: String)
    ensures
        r@ == time_text_spec(x, y, index as nat, kind@, anchor_ms, value@, color@, size as nat, weight@),
{
    let mut t = owned("<text id=\"activity-time-");
    push_decimal(&mut t, index);
    push_str(&mut t, "\" data-time-kind=\"");
    push_str(&mut t, kind);
    push_str(&mut t, "\" data-anchor-ms=\"");
    push_decimal(&mut t, anchor_ms);
    push_str(&mut t, "\" x=\"");
    push_decimal(&mut t, x as u64);
    push_str(&mut t, "\" y=\"");
    push_decimal(&mut t, y as u64);
    push_str(&mut t, "\" fill=\"");
    push_str(&mut t, color);
    push_str(&mut t, "\" font-family=\"Inter,Segoe UI,Arial,sans-serif\" font-size=\"");
    push_decimal(&mut t, size);
    push_str(&mut t, "\" font-weight=\"");
    push_str(&mut t, weight);
    push_str(&mut t, "\">");
    push_escaped(&mut t, value);
    push_str(&mut t, "</text>");
    t
}

/// The icon and color of a time row: a note in the accent for elapsed listening, a
/// gamepad for other elapsed time, a clock for remaining time.
pub open spec fn time_icon_spec(a: ActivityModel, kind: Seq<char>) -> (MetaIcon, Seq<char>) {
    if kind == "elapsed"@ && a.kind == ActivityKind::Listening {
        (MetaIcon::Music, accent_for_spec(a.name, a.kind))
    } else if kind == "elapsed"@ {
        (MetaIcon::Gamepad, "#43c987"@)
    } else {
        (MetaIcon::Clock, "#f3bf4f"@)
    }
}

/// The metadata rows of a panel without media progress: the time row, then the party
/// row, the last of them 30 units above the panel's bottom.
#[verifier::opaque]
pub open spec fn standard_meta_spec(a: ActivityModel, p: PanelGeometry, text_x: u32, index: nat, now: u64) -> Seq<
    char,
> {
    let time = activity_time_spec(a, now);
    let rows: int = (if time is Some {
        1int
    } else {
        0
    }) + (if a.party is Some {
        1int
    } else {
        0
    });
    if rows == 0 {
        Seq::empty()
    } else {
        let prominent = a.kind != ActivityKind::Listening;
        let gap: int = if prominent {
            38
        } else {
            31
        };
        let first = sub0(p.y + p.height - 30, (rows - 1) * gap);
        let time_part = match time {
            Some(t) => {
                let style = time_icon_spec(a, t.1);
                meta_icon_spec(style.0, text_x, first as u32, style.1, prominent) + time_text_spec(
                    (text_x + if prominent {
                        38int
                    } else {
                        30
                    }) as u32,
                    first as u32,
                    index,
                    t.1,
                    t.2,
                    t.0,
                    style.1,
                    if prominent {
                        25
                    } else {
                        17
                    },
                    if prominent {
                        "700"@
                    } else {
                        "600"@
                    },
                )
            },
            None => Seq::empty(),
        };
        let second = if time is Some {
            first + gap
        } else {
            first
        };
        let party_part = match a.party {
            Some(party) => meta_icon_spec(MetaIcon::Party, text_x, second as u32, "#c0c8e2"@, prominent) + text_spec(
                (text_x + if prominent {
                    38int
                } else {
                    32
                }) as u32,
                second as u32,
                if prominent {
                    20
                } else {
                    18
                },
                "#c0c8e2"@,
                "500"@,
                "Party "@ + decimal_spec(party.current_size as nat) + " / "@ + decimal_spec(party.max_size as nat),
                None,
            ),
            None => Seq::empty(),
        };
        time_part + party_part
    }
}

fn standard_meta(activity: &ActivitySnapshot, p: PanelGeometry, text_x: u32, index: u64, now_unix_ms: u64) -> (r:
    String)
    requires
        text_x + 40 <= u32::MAX,
        p.y + p.height + 50 <= u32::MAX,
        p.y + p.height >= 30,
    ensures
        r@ == standard_meta_spec(activity.deep_view(), p, text_x, index as nat, now_unix_ms),
{
    proof {
        reveal(standard_meta_spec);
    }
    let ghost a = activity.deep_view();
    let time = activity_time(activity, now_unix_ms);
    let rows: u32 = (if time.is_some() {
        1
    } else {
        0
    }) + (if activity.party.is_some() {
        1
    } else {
        0
    });
    let mut t = String::new();
    if rows == 0 {
        proof {
            assert(t@ =~= standard_meta_spec(a, p, text_x, index as nat, now_unix_ms));
        }
        return t;
    }
    let prominent = activity.kind != ActivityKind::Listening;
    let gap: u32 = if prominent {
        38
    } else {
        31
    };
    let first = (p.y + p.height - 30).saturating_sub((rows - 1) * gap);
    let mut baseline = first;
    let ghost time_part: Seq<char> = Seq::empty();
    match &time {
        Some((value, kind, anchor)) => {
            let elapsed = crate::text::equals(kind, "elapsed");
            let (icon, color) = if elapsed && activity.kind == ActivityKind::Listening {
                (MetaIcon::Music, activity_accent(activity))
            } else if elapsed {
                (MetaIcon::Gamepad, "#43c987")
            } else {
                (MetaIcon::Clock, "#f3bf4f")
            };
            let i = meta_icon(icon, text_x, baseline, color, prominent);
            push_str(&mut t, i.as_str());
            let tt = time_text(
                text_x + if prominent {
                    38
                } else {
                    30
                },
                baseline,
                index,
                kind,
                *anchor,
                value.as_str(),
                color,
                if prominent {
                    25
                } else {
                    17
                },
                if prominent {
                    "700"
                } else {
                    "600"
                },
            );
            push_str(&mut t, tt.as_str());
            baseline = baseline + gap;
        },
        None => {},
    }
    let ghost after_time = t@;
    match &activity.party {
        Some(party) => {
            let i = meta_icon(MetaIcon::Party, text_x, baseline, "#c0c8e2", prominent);
            push_str(&mut t, i.as_str());
            let mut label = owned("Party ");
            push_decimal(&mut label, party.current_size);
            push_str(&mut label, " / ");
            push_decimal(&mut label, party.max_size);
            text(
                &mut t,
                text_x + if prominent {
                    38
                } else {
                    32
                },
                baseline,
                if prominent {
                    20
                } else {
                    18
                },
                "#c0c8e2",
                "500",
                label.as_str(),
                None,
            );
        },
        None => {},
    }
    proof {
        assert(t@ =~= standard_meta_spec(a, p, text_x, index as nat, now_unix_ms));
    }
    t
}

/// The media progress bar under a panel, with the elapsed time at its left and the
/// duration at its right; nothing without media progress.
#[verifier::opaque]
pub open spec fn media_bar_spec(a: ActivityModel, p: PanelGeometry, index: nat, now: u64, accent: Seq<char>) -> Seq<
    char,
> {
    match media_progress_spec(a, now) {
        Some(m) => {
            let bar_x = p.x + 26;
            let bw = sub0(p.width as int, 52);
            let bar_y = p.y + p.height - 62;
            let label_y = bar_y + 35;
            "<rect x=\""@ + dec(bar_x) + "\" y=\""@ + dec(bar_y) + "\" width=\""@ + dec(bw)
                + "\" height=\"9\" rx=\"5\" fill=\"#626881\" fill-opacity=\".55\"/><rect id=\"activity-progress-"@
                + decimal_spec(index) + "\" data-max-width=\""@ + dec(bw) + "\" x=\""@ + dec(bar_x) + "\" y=\""@ + dec(bar_y)
                + "\" width=\""@ + decimal_spec(progress_fill_spec(bw as nat, m.2 as nat, m.3 as nat))
                + "\" height=\"9\" rx=\"5\" fill=\""@ + accent + "\"/>"@ + "<text id=\"activity-time-"@ + decimal_spec(index)
                + "\" data-time-kind=\"media-current\" data-start-ms=\""@ + decimal_spec(m.0 as nat) + "\" data-end-ms=\""@
                + decimal_spec(m.1 as nat) + "\" data-progress-id=\"activity-progress-"@ + decimal_spec(index) + "\" x=\""@
                + dec(bar_x) + "\" y=\""@ + dec(label_y)
                + "\" fill=\"#c8cee7\" font-family=\"Inter,Segoe UI,Arial,sans-serif\" font-size=\"17\" font-weight=\"600\">"@
                + escape_spec(format_duration_spec(m.2)) + "</text>"@ + text_spec(
                (p.x + p.width - 26) as u32,
                label_y as u32,
                17,
                "#c8cee7"@,
                "600"@,
                format_duration_spec(m.3),
                Some("end"@),
            )
        },
        None => Seq::empty(),
    }
}

fn media_bar(activity: &ActivitySnapshot, p: PanelGeometry, index: u64, now_unix_ms: u64, accent: &str) -> (r:
    String)
    requires
        p.x + p.width + 50 <= u32::MAX,
        p.x + p.width >= 26,
        p.y + p.height + 50 <= u32::MAX,
        p.height >= 62,
    ensures
        r@ == media_bar_spec(activity.deep_view(), p, index as nat, now_unix_ms, accent@),
{
    proof {
        reveal(media_bar_spec);
    }
    let mut t = String::new();
    let (start, end, elapsed, duration) = match media_progress(activity, now_unix_ms) {
        Some(m) => m,
        None => {
            return t;
        },
    };
    let bar_x = p.x + 26;
    let bw = p.width.saturating_sub(52);
    let bar_y = p.y + p.height - 62;
    let label_y = bar_y + 35;
    push_str(&mut t, "<rect x=\"");
    push_decimal(&mut t, bar_x as u64);
    push_str(&mut t, "\" y=\"");
    push_decimal(&mut t, bar_y as u64);
    push_str(&mut t, "\" width=\"");
    push_decimal(&mut t, bw as u64);
    push_str(&mut t, "\" height=\"9\" rx=\"5\" fill=\"#626881\" fill-opacity=\".55\"/><rect id=\"activity-progress-");
    push_decimal(&mut t, index);
    push_str(&mut t, "\" data-max-width=\"");
    push_decimal(&mut t, bw as u64);
    push_str(&mut t, "\" x=\"");
    push_decimal(&mut t, bar_x as u64);
    push_str(&mut t, "\" y=\"");
    push_decimal(&mut t, bar_y as u64);
    push_str(&mut t, "\" width=\"");
    let fill = progress_fill(bw, elapsed, duration);
    push_decimal(&mut t, fill as u64);
    push_str(&mut t, "\" height=\"9\" rx=\"5\" fill=\"");
    push_str(&mut t, accent);
    push_str(&mut t, "\"/>");
    push_str(&mut t, "<text id=\"activity-time-");
    push_decimal(&mut t, index);
    push_str(&mut t, "\" data-time-kind=\"media-current\" data-start-ms=\"");
    push_decimal(&mut t, start);
    push_str(&mut t, "\" data-end-ms=\"");
    push_decimal(&mut t, end);
    push_str(&mut t, "\" data-progress-id=\"activity-progress-");
    push_decimal(&mut t, index);
    push_str(&mut t, "\" x=\"");
    push_decimal(&mut t, bar_x as u64);
    push_str(&mut t, "\" y=\"");
    push_decimal(&mut t, label_y as u64);
    push_str(
        &mut t,
        "\" fill=\"#c8cee7\" font-family=\"Inter,Segoe UI,Arial,sans-serif\" font-size=\"17\" font-weight=\"600\">",
    );
    let played = format_clock(elapsed);
    push_escaped(&mut t, played.as_str());
    push_str(&mut t, "</text>");
    let total = format_clock(duration);
    text(&mut t, p.x + p.width - 26, label_y, 17, "#c8cee7", "600", total.as_str(), Some("end"));
    proof {
        assert(t@ =~= media_bar_spec(activity.deep_view(), p, index as nat, now_unix_ms, accent@));
    }
    t
}

/// The side of a panel's artwork: smaller for listening, larger on wide panels.
pub open spec fn art_side(p: PanelGeometry, a: ActivityModel) -> int {
    if a.kind == ActivityKind::Listening {
        if p.width > 1000 {
            188
        } else {
            150
        }
    } else if p.width > 1000 {
        228
    } else {
        230
    }
}

pub open spec fn art_left(p: PanelGeometry) -> int {
    p.x + 26
}

pub open spec fn art_top(p: PanelGeometry, a: ActivityModel) -> int {
    if a.kind == ActivityKind::Listening {
        p.y + 24
    } else {
        p.y + (p.height - art_side(p, a)) / 2
    }
}

pub open spec fn text_left(p: PanelGeometry, a: ActivityModel) -> int {
    art_left(p) + art_side(p, a) + if a.kind == ActivityKind::Listening {
        24int
    } else {
        31
    }
}

/// Whether a panel's coordinates fit in a `u32`, and the panel is tall enough for its
/// artwork and its progress bar.
pub open spec fn panel2_fits(p: PanelGeometry, a: ActivityModel) -> bool {
    &&& p.x + p.width + 400 <= u32::MAX
    &&& p.y + p.height + 400 <= u32::MAX
    &&& p.height >= 62
    &&& p.x + p.width >= 26
    &&& a.kind != ActivityKind::Listening ==> p.height >= art_side(p, a)
}

fn art_geometry(p: PanelGeometry, activity: &ActivitySnapshot) -> (r: (u32, u32, u32, u32))
    requires
        panel2_fits(p, activity.deep_view()),
    ensures
        r.0 == art_left(p),
        r.1 == art_top(p, activity.deep_view()),
        r.2 == art_side(p, activity.deep_view()),
        r.3 == text_left(p, activity.deep_view()),
{
    let listening = activity.kind == ActivityKind::Listening;
    let size: u32 = if listening {
        if p.width > 1000 {
            188
        } else {
            150
        }
    } else if p.width > 1000 {
        228
    } else {
        230
    };
    let x = p.x + 26;
    let y = if listening {
        p.y + 24
    } else {
        p.y + (p.height - size) / 2
    };
    let tx = x + size + if listening {
        24
    } else {
        31
    };
    (x, y, size, tx)
}

/// The trim cut off each side of the large artwork: a fortieth of its side, between 3
/// and 6.
pub open spec fn crop_of(size: int) -> int {
    let c = size / 40;
    if c < 3 {
        3
    } else if c > 6 {
        6
    } else {
        c
    }
}

pub open spec fn art_clip(index: nat) -> Seq<char> {
    "clip-path=\"url(#art-clip-"@ + decimal_spec(index) + ")\"/>"@
}

pub open spec fn square_attrs(x: int, y: int, size: int) -> Seq<char> {
    "x=\""@ + dec(x) + "\" y=\""@ + dec(y) + "\" width=\""@ + dec(size) + "\" height=\""@ + dec(size) + "\""@
}

fn square(x: u64, y: u64, size: u64) -> (r: String)
    ensures
        r@ == square_attrs(x as int, y as int, size as int),
{
    let mut t = owned("x=\"");
    push_decimal(&mut t, x);
    push_str(&mut t, "\" y=\"");
    push_decimal(&mut t, y);
    push_str(&mut t, "\" width=\"");
    push_decimal(&mut t, size);
    push_str(&mut t, "\" height=\"");
    push_decimal(&mut t, size);
    push_str(&mut t, "\"");
    t
}

/// The embedded image slightly enlarged, or the activity's initials on a tile.
pub open spec fn large2_middle(
    x: int,
    y: int,
    size: int,
    index: nat,
    name: Seq<char>,
    image: Option<Seq<char>>,
) -> Seq<char> {
    let crop = crop_of(size);
    match image {
        Some(d) => "<image "@ + square_attrs(sub0(x, crop), sub0(y, crop), size + 2 * crop) + " href=\""@ + escape_spec(d)
            + "\" preserveAspectRatio=\"xMidYMid slice\" "@ + art_clip(index),
        None => "<rect "@ + square_attrs(x, y, size) + " rx=\"17\" fill=\"url(#fallback-art)\" "@ + art_clip(index)
            + text_spec(
            (x + size / 2) as u32,
            (y + size / 2 + 12) as u32,
            36,
            "#cbc7f3"@,
            "800"@,
            fallback_label_spec(name),
            Some("middle"@),
        ),
    }
}

/// The large artwork: a tinted tile, then the embedded image or the initials, then a
/// border.
#[verifier::opaque]
pub open spec fn large2_spec(
    x: int,
    y: int,
    size: int,
    index: nat,
    accent: Seq<char>,
    name: Seq<char>,
    image: Option<Seq<char>>,
) -> Seq<char> {
    "<rect "@ + square_attrs(x, y, size) + " rx=\"17\" fill=\""@ + accent + "\" fill-opacity=\".18\" "@ + art_clip(index)
        + large2_middle(x, y, size, index, name, image) + "<rect "@ + square_attrs(x + 1, y + 1, size - 2)
        + " rx=\"16\" fill=\"none\" stroke=\""@ + accent + "\" stroke-opacity=\".66\" stroke-width=\"1.5\" "@ + art_clip(
        index,
    )
}

fn large2_inner(x: u32, y: u32, size: u32, index: u64, name: &str, image: &Option<String>, clip: &str) -> (r: String)
    requires
        size >= 40,
        x + size + 20 <= u32::MAX,
        y + size + 20 <= u32::MAX,
        clip@ == art_clip(index as nat),
    ensures
        r@ == large2_middle(x as int, y as int, size as int, index as nat, name@, image.deep_view()),
{
    let c = size / 40;
    let crop: u32 = if c < 3 {
        3
    } else if c > 6 {
        6
    } else {
        c
    };
    let mut t = String::new();
    match image {
        Some(d) => {
            push_str(&mut t, "<image ");
            let sq = square(x.saturating_sub(crop) as u64, y.saturating_sub(crop) as u64, (size + 2 * crop) as u64);
            push_str(&mut t, sq.as_str());
            push_str(&mut t, " href=\"");
            push_escaped(&mut t, d.as_str());
            push_str(&mut t, "\" preserveAspectRatio=\"xMidYMid slice\" ");
            push_str(&mut t, clip);
        },
        None => {
            push_str(&mut t, "<rect ");
            let sq = square(x as u64, y as u64, size as u64);
            push_str(&mut t, sq.as_str());
            push_str(&mut t, " rx=\"17\" fill=\"url(#fallback-art)\" ");
            push_str(&mut t, clip);
            let label = fallback_label(name);
            text(&mut t, x + size / 2, y + size / 2 + 12, 36, "#cbc7f3", "800", label.as_str(), Some("middle"));
        },
    }
    proof {
        assert(t@ =~= large2_middle(x as int, y as int, size as int, index as nat, name@, image.deep_view()));
    }
    t
}

fn large2(x: u32, y: u32, size: u32, index: u64, accent: &str, name: &str, image: &Option<String>) -> (r: String)
    requires
        size >= 40,
        x + size + 20 <= u32::MAX,
        y + size + 20 <= u32::MAX,
    ensures
        r@ == large2_spec(x as int, y as int, size as int, index as nat, accent@, name@, image.deep_view()),
{
    proof {
        reveal(large2_spec);
    }
    let mut clip = owned("clip-path=\"url(#art-clip-");
    push_decimal(&mut clip, index);
    push_str(&mut clip, ")\"/>");
    let mut t = owned("<rect ");
    let sq = square(x as u64, y as u64, size as u64);
    push_str(&mut t, sq.as_str());
    push_str(&mut t, " rx=\"17\" fill=\"");
    push_str(&mut t, accent);
    push_str(&mut t, "\" fill-opacity=\".18\" ");
    push_str(&mut t, clip.as_str());
    let inner = large2_inner(x, y, size, index, name, image, clip.as_str());
    push_str(&mut t, inner.as_str());
    push_str(&mut t, "<rect ");
    let border = square((x + 1) as u64, (y + 1) as u64, (size - 2) as u64);
    push_str(&mut t, border.as_str());
    push_str(&mut t, " rx=\"16\" fill=\"none\" stroke=\"");
    push_str(&mut t, accent);
    push_str(&mut t, "\" stroke-opacity=\".66\" stroke-width=\"1.5\" ");
    push_str(&mut t, clip.as_str());
    proof {
        assert(t@ =~= large2_spec(x as int, y as int, size as int, index as nat, accent@, name@, image.deep_view()));
    }
    t
}

/// The small artwork: a rounded badge at the large artwork's corner, where it was
/// embedded.
#[verifier::opaque]
pub open spec fn small2_spec(x: int, y: int, size: int, index: nat, accent: Seq<char>, image: Option<Seq<char>>) -> Seq<
    char,
> {
    match image {
        Some(d) => {
            let at = "x=\""@ + dec(x + size - 65) + "\" y=\""@ + dec(y + size - 65) + "\" width=\"72\" height=\"72\""@;
            "<defs><clipPath id=\"small-clip-"@ + decimal_spec(index) + "\"><rect "@ + at
                + " rx=\"17\"/></clipPath></defs><rect "@ + at + " rx=\"17\" fill=\"#0b0f1a\" stroke=\""@ + accent
                + "\" stroke-width=\"1.4\"/><image "@ + at + " href=\""@ + escape_spec(d)
                + "\" preserveAspectRatio=\"xMidYMid slice\" clip-path=\"url(#small-clip-"@ + decimal_spec(index) + ")\"/>"@
        },
        None => Seq::empty(),
    }
}

fn small2(x: u32, y: u32, size: u32, index: u64, accent: &str, image: &Option<String>) -> (r: String)
    requires
        size >= 72,
        x + size + 20 <= u32::MAX,
        y + size + 20 <= u32::MAX,
    ensures
        r@ == small2_spec(x as int, y as int, size as int, index as nat, accent@, image.deep_view()),
{
    proof {
        reveal(small2_spec);
    }
    let mut t = String::new();
    match image {
        Some(d) => {
            let mut at = owned("x=\"");
            push_decimal(&mut at, (x + size - 65) as u64);
            push_str(&mut at, "\" y=\"");
            push_decimal(&mut at, (y + size - 65) as u64);
            push_str(&mut at, "\" width=\"72\" height=\"72\"");
            push_str(&mut t, "<defs><clipPath id=\"small-clip-");
            push_decimal(&mut t, index);
            push_str(&mut t, "\"><rect ");
            push_str(&mut t, at.as_str());
            push_str(&mut t, " rx=\"17\"/></clipPath></defs><rect ");
            push_str(&mut t, at.as_str());
            push_str(&mut t, " rx=\"17\" fill=\"#0b0f1a\" stroke=\"");
            push_str(&mut t, accent);
            push_str(&mut t, "\" stroke-width=\"1.4\"/><image ");
            push_str(&mut t, at.as_str());
            push_str(&mut t, " href=\"");
            push_escaped(&mut t, d.as_str());
            push_str(&mut t, "\" preserveAspectRatio=\"xMidYMid slice\" clip-path=\"url(#small-clip-");
            push_decimal(&mut t, index);
            push_str(&mut t, ")\"/>");
        },
        None => {},
    }
    proof {
        assert(t@ =~= small2_spec(x as int, y as int, size as int, index as nat, accent@, image.deep_view()));
    }
    t
}

pub open spec fn rect2_attrs(p: PanelGeometry) -> Seq<char> {
    "x=\""@ + dec(p.x as int) + "\" y=\""@ + dec(p.y as int) + "\" width=\""@ + dec(p.width as int) + "\" height=\""@
        + dec(p.height as int) + "\""@
}

fn rect2(p: PanelGeometry) -> (r: String)
    ensures
        r@ == rect2_attrs(p),
{
    let mut t = owned("x=\"");
    push_decimal(&mut t, p.x as u64);
    push_str(&mut t, "\" y=\"");
    push_decimal(&mut t, p.y as u64);
    push_str(&mut t, "\" width=\"");
    push_decimal(&mut t, p.width as u64);
    push_str(&mut t, "\" height=\"");
    push_decimal(&mut t, p.height as u64);
    push_str(&mut t, "\"");
    t
}

/// The opening of a panel: its group, clip paths and tint, the blurred backdrop of an
/// embedded large image (stronger where the activity is not listening), the tint and
/// the border.
#[verifier::opaque]
pub open spec fn panel2_open_spec(
    p: PanelGeometry,
    a: ActivityModel,
    index: nat,
    accent: Seq<char>,
    backdrop: Option<Seq<char>>,
) -> Seq<char> {
    let focus = a.kind != ActivityKind::Listening;
    let i = decimal_spec(index);
    "<g id=\"activity-panel-"@ + i + "\"><defs><clipPath id=\"panel-clip-"@ + i + "\"><rect "@ + rect2_attrs(p)
        + " rx=\"21\"/></clipPath><clipPath id=\"art-clip-"@ + i + "\"><rect "@ + square_attrs(
        art_left(p),
        art_top(p, a),
        art_side(p, a),
    ) + " rx=\"17\"/></clipPath><linearGradient id=\"panel-tint-"@ + i
        + "\" x1=\"0\" y1=\"0\" x2=\"1\" y2=\"0\"><stop offset=\"0\" stop-color=\""@ + accent
        + "\" stop-opacity=\".13\"/><stop offset=\".43\" stop-color=\"#0b101a\" stop-opacity=\""@ + (if focus {
        ".64"@
    } else {
        ".70"@
    }) + "\"/><stop offset=\"1\" stop-color=\"#090e18\" stop-opacity=\""@ + (if focus {
        ".72"@
    } else {
        ".82"@
    }) + "\"/></linearGradient></defs>"@ + (match backdrop {
        Some(d) => "<image "@ + rect2_attrs(p) + " href=\""@ + escape_spec(d)
            + "\" preserveAspectRatio=\"xMidYMid slice\" filter=\"url(#"@ + (if focus {
            "art-blur-single"@
        } else {
            "art-blur"@
        }) + ")\" opacity=\""@ + (if focus {
            ".74"@
        } else {
            ".66"@
        }) + "\" clip-path=\"url(#panel-clip-"@ + i + ")\"/>"@,
        None => Seq::empty(),
    }) + "<rect "@ + rect2_attrs(p) + " rx=\"21\" fill=\"url(#panel-tint-"@ + i + ")\"/><rect "@ + rect2_attrs(p)
        + " rx=\"21\" fill=\"none\" stroke=\""@ + accent + "\" stroke-opacity=\".38\" stroke-width=\"1.4\"/>"@
}

#[verifier::rlimit(40)]
fn panel2_open(p: PanelGeometry, activity: &ActivitySnapshot, index: u64, accent: &str, backdrop: &Option<String>) -> (r:
    String)
    requires
        panel2_fits(p, activity.deep_view()),
    ensures
        r@ == panel2_open_spec(p, activity.deep_view(), index as nat, accent@, backdrop.deep_view()),
{
    proof {
        reveal(panel2_open_spec);
    }
    let focus = activity.kind != ActivityKind::Listening;
    let (ax, ay, size, _tx) = art_geometry(p, activity);
    let r = rect2(p);
    let mut t = owned("<g id=\"activity-panel-");
    push_decimal(&mut t, index);
    push_str(&mut t, "\"><defs><clipPath id=\"panel-clip-");
    push_decimal(&mut t, index);
    push_str(&mut t, "\"><rect ");
    push_str(&mut t, r.as_str());
    push_str(&mut t, " rx=\"21\"/></clipPath><clipPath id=\"art-clip-");
    push_decimal(&mut t, index);
    push_str(&mut t, "\"><rect ");
    let sq = square(ax as u64, ay as u64, size as u64);
    push_str(&mut t, sq.as_str());
    push_str(&mut t, " rx=\"17\"/></clipPath><linearGradient id=\"panel-tint-");
    push_decimal(&mut t, index);
    push_str(&mut t, "\" x1=\"0\" y1=\"0\" x2=\"1\" y2=\"0\"><stop offset=\"0\" stop-color=\"");
    push_str(&mut t, accent);
    push_str(&mut t, "\" stop-opacity=\".13\"/><stop offset=\".43\" stop-color=\"#0b101a\" stop-opacity=\"");
    push_str(
        &mut t,
        if focus {
            ".64"
        } else {
            ".70"
        },
    );
    push_str(&mut t, "\"/><stop offset=\"1\" stop-color=\"#090e18\" stop-opacity=\"");
    push_str(
        &mut t,
        if focus {
            ".72"
        } else {
            ".82"
        },
    );
    push_str(&mut t, "\"/></linearGradient></defs>");
    let ghost head = t@;
    match backdrop {
        Some(d) => {
            push_str(&mut t, "<image ");
            push_str(&mut t, r.as_str());
            push_str(&mut t, " href=\"");
            push_escaped(&mut t, d.as_str());
            push_str(&mut t, "\" preserveAspectRatio=\"xMidYMid slice\" filter=\"url(#");
            push_str(
                &mut t,
                if focus {
                    "art-blur-single"
                } else {
                    "art-blur"
                },
            );
            push_str(&mut t, ")\" opacity=\"");
            push_str(
                &mut t,
                if focus {
                    ".74"
                } else {
                    ".66"
                },
            );
            push_str(&mut t, "\" clip-path=\"url(#panel-clip-");
            push_decimal(&mut t, index);
            push_str(&mut t, ")\"/>");
        },
        None => {},
    }
    let ghost mid = t@;
    proof {
        let i = decimal_spec(index as nat);
        match backdrop.deep_view() {
            Some(d) => {
                assert(mid =~= head + ("<image "@ + rect2_attrs(p) + " href=\""@ + escape_spec(d)
                    + "\" preserveAspectRatio=\"xMidYMid slice\" filter=\"url(#"@ + (if focus {
                    "art-blur-single"@
                } else {
                    "art-blur"@
                }) + ")\" opacity=\""@ + (if focus {
                    ".74"@
                } else {
                    ".66"@
                }) + "\" clip-path=\"url(#panel-clip-"@ + i + ")\"/>"@));
            },
            None => {
                assert(mid =~= head + Seq::<char>::empty());
            },
        }
    }
    push_str(&mut t, "<rect ");
    push_str(&mut t, r.as_str());
    push_str(&mut t, " rx=\"21\" fill=\"url(#panel-tint-");
    push_decimal(&mut t, index);
    push_str(&mut t, ")\"/><rect ");
    push_str(&mut t, r.as_str());
    push_str(&mut t, " rx=\"21\" fill=\"none\" stroke=\"");
    push_str(&mut t, accent);
    push_str(&mut t, "\" stroke-opacity=\".38\" stroke-width=\"1.4\"/>");
    proof {
        assert(t@ =~= panel2_open_spec(p, activity.deep_view(), index as nat, accent@, backdrop.deep_view()));
    }
    t
}

/// A state that is shown: present, and other than the details.
pub open spec fn shown_state(a: ActivityModel) -> Option<Seq<char>> {
    let st = non_empty_spec(a.state);
    if st is Some && st != non_empty_spec(a.details) {
        st
    } else {
        None
    }
}

fn state_shown(activity: &ActivitySnapshot) -> (r: Option<String>)
    ensures
        r.deep_view() == shown_state(activity.deep_view()),
{
    let st = non_empty(&activity.state);
    let details = non_empty(&activity.details);
    let same = match (&st, &details) {
        (Some(a), Some(b)) => crate::text::equals(a.as_str(), b.as_str()),
        _ => false,
    };
    if st.is_some() && !same {
        st
    } else {
        None
    }
}

/// The album of an activity, where its large image names one.
pub open spec fn album2_spec(a: ActivityModel) -> Option<Seq<char>> {
    match a.assets {
        Some(assets) => non_empty_spec(assets.large_text),
        None => None,
    }
}

/// The texts of a Spotify panel: track, artist and album, each fitted to the panel.
#[verifier::opaque]
pub open spec fn spotify_texts_spec(a: ActivityModel, p: PanelGeometry, text_x: u32) -> Seq<char> {
    let wide = p.width > 1000;
    let tw = (if sub0(p.x + p.width - 26, text_x as int) > 1 {
        sub0(p.x + p.width - 26, text_x as int)
    } else {
        1
    }) as u32;
    (match non_empty_spec(a.details) {
        Some(d) => fitted_spec(text_x, (p.y + 96) as u32, if wide {
            22
        } else {
            20
        }, "#dce2f6"@, "700"@, d, tw, None),
        None => Seq::empty(),
    }) + (match shown_state(a) {
        Some(st) => fitted_spec(text_x, (p.y + 128) as u32, if wide {
            20
        } else {
            18
        }, "#b9c1dd"@, "500"@, st, tw, None),
        None => Seq::empty(),
    }) + (match album2_spec(a) {
        Some(al) => fitted_spec(text_x, (p.y + 158) as u32, if wide {
            18
        } else {
            16
        }, "#9fa8c8"@, "500"@, "Album \u{b7} "@ + al, tw, None),
        None => Seq::empty(),
    })
}

fn spotify_texts(activity: &ActivitySnapshot, p: PanelGeometry, text_x: u32) -> (r: String)
    requires
        p.x + p.width >= 26,
        p.x + p.width <= u32::MAX,
        p.y + 200 <= u32::MAX,
    ensures
        r@ == spotify_texts_spec(activity.deep_view(), p, text_x),
{
    proof {
        reveal(spotify_texts_spec);
    }
    let wide = p.width > 1000;
    let right = p.x + p.width - 26;
    let room = right.saturating_sub(text_x);
    let tw = if room > 1 {
        room
    } else {
        1
    };
    let mut t = String::new();
    match non_empty(&activity.details) {
        Some(d) => fitted_text(
            &mut t,
            text_x,
            p.y + 96,
            if wide {
                22
            } else {
                20
            },
            "#dce2f6",
            "700",
            d.as_str(),
            tw,
            None,
        ),
        None => {},
    }
    let ghost one = t@;
    match state_shown(activity) {
        Some(st) => fitted_text(
            &mut t,
            text_x,
            p.y + 128,
            if wide {
                20
            } else {
                18
            },
            "#b9c1dd",
            "500",
            st.as_str(),
            tw,
            None,
        ),
        None => {},
    }
    let ghost two = t@;
    let album = match &activity.assets {
        Some(assets) => non_empty(&assets.large_text),
        None => None,
    };
    match album {
        Some(al) => {
            let mut label = owned("Album \u{b7} ");
            push_str(&mut label, al.as_str());
            fitted_text(
                &mut t,
                text_x,
                p.y + 158,
                if wide {
                    18
                } else {
                    16
                },
                "#9fa8c8",
                "500",
                label.as_str(),
                tw,
                None,
            );
        },
        None => {},
    }
    proof {
        let a = activity.deep_view();
        let wide = p.width > 1000;
        assert(one =~= match non_empty_spec(a.details) {
            Some(d) => fitted_spec(text_x, (p.y + 96) as u32, if wide {
                22
            } else {
                20
            }, "#dce2f6"@, "700"@, d, tw, None),
            None => Seq::empty(),
        });
        assert(t@ =~= spotify_texts_spec(a, p, text_x));
    }
    t
}

/// The texts of another panel: details and state, fitted for listening and truncated
/// otherwise, lower on panels that show a game.
#[verifier::opaque]
pub open spec fn other_texts_spec(a: ActivityModel, p: PanelGeometry, text_x: u32) -> Seq<char> {
    let listening = a.kind == ActivityKind::Listening;
    let wide = p.width > 1000;
    let y0: int = if wide && !listening {
        p.y + 150
    } else if !listening {
        p.y + 126
    } else {
        p.y + 111
    };
    let cw = room_spec(p, text_x);
    let d = non_empty_spec(a.details);
    let y1: int = if d is Some {
        y0 + 31
    } else {
        y0
    };
    (match d {
        Some(v) => if listening {
            fitted_spec(text_x, y0 as u32, 21, "#d4d9ed"@, "500"@, v, cw, None)
        } else {
            text_spec(text_x, y0 as u32, 21, "#d4d9ed"@, "500"@, truncate_within_spec(v, if wide {
                60
            } else {
                34
            }), None)
        },
        None => Seq::empty(),
    }) + (match shown_state(a) {
        Some(v) => if listening {
            fitted_spec(text_x, y1 as u32, 20, "#b9c1dd"@, "500"@, v, cw, None)
        } else {
            text_spec(text_x, y1 as u32, 20, "#b9c1dd"@, "500"@, truncate_within_spec(v, if wide {
                64
            } else {
                36
            }), None)
        },
        None => Seq::empty(),
    })
}

fn other_texts(activity: &ActivitySnapshot, p: PanelGeometry, text_x: u32) -> (r: String)
    requires
        p.y + 200 <= u32::MAX,
    ensures
        r@ == other_texts_spec(activity.deep_view(), p, text_x),
{
    proof {
        reveal(other_texts_spec);
    }
    let listening = activity.kind == ActivityKind::Listening;
    let wide = p.width > 1000;
    let mut y: u32 = if wide && !listening {
        p.y + 150
    } else if !listening {
        p.y + 126
    } else {
        p.y + 111
    };
    let cw = room(p, text_x);
    let mut t = String::new();
    match non_empty(&activity.details) {
        Some(v) => {
            if listening {
                fitted_text(&mut t, text_x, y, 21, "#d4d9ed", "500", v.as_str(), cw, None);
            } else {
                let cut = truncate_chars(
                    v.as_str(),
                    if wide {
                        60
                    } else {
                        34
                    },
                );
                text(&mut t, text_x, y, 21, "#d4d9ed", "500", cut.as_str(), None);
            }
            y = y + 31;
        },
        None => {},
    }
    let ghost one = t@;
    match state_shown(activity) {
        Some(v) => {
            if listening {
                fitted_text(&mut t, text_x, y, 20, "#b9c1dd", "500", v.as_str(), cw, None);
            } else {
                let cut = truncate_chars(
                    v.as_str(),
                    if wide {
                        64
                    } else {
                        36
                    },
                );
                text(&mut t, text_x, y, 20, "#b9c1dd", "500", cut.as_str(), None);
            }
        },
        None => {},
    }
    proof {
        let a = activity.deep_view();
        assert(t@ =~= other_texts_spec(a, p, text_x));
    }
    t
}

/// One panel of the large card.
pub open spec fn panel2_spec(
    p: PanelGeometry,
    index: nat,
    a: ActivityModel,
    art: PanelArtworkModel,
    now: u64,
    embedded: EmbeddedArtworkBatch,
) -> Seq<char> {
    let accent = accent_for_spec(a.name, a.kind);
    let large = embedded_image(art.large_url, embedded);
    let spotify = is_spotify_spec(a);
    let tx = text_left(p, a) as u32;
    panel2_open_spec(p, a, index, accent, large) + large2_spec(
        art_left(p),
        art_top(p, a),
        art_side(p, a),
        index,
        accent,
        a.name,
        large,
    ) + (if spotify {
        Seq::empty()
    } else {
        small2_spec(art_left(p), art_top(p, a), art_side(p, a), index, accent, embedded_image(art.small_url, embedded))
    }) + app_title_spec(a, tx, (p.y + 31) as u32, p) + (if spotify {
        spotify_texts_spec(a, p, tx) + media_bar_spec(a, p, index, now, accent)
    } else {
        other_texts_spec(a, p, tx) + (if a.kind == ActivityKind::Listening && media_progress_spec(a, now) is Some {
            media_bar_spec(a, p, index, now, accent)
        } else {
            standard_meta_spec(a, p, tx, index, now)
        })
    }) + "</g>"@
}

/// Writes one panel of the large card: backdrop, artwork (the initials where the large
/// image was not embedded), the small badge but for Spotify, the title, and then for
/// Spotify its texts and progress, for listening with a known span its texts and
/// progress, and otherwise its texts and metadata rows.
pub fn render_activity_panel(
    body: &mut String,
    _runtime: &RuntimeState,
    activity: &ActivitySnapshot,
    artwork: &PanelArtwork,
    panel: PanelGeometry,
    index: u64,
    now_unix_ms: u64,
    embedded: &EmbeddedArtworkBatch,
)
    requires
        panel2_fits(panel, activity.deep_view()),
    ensures
        final(body)@ == old(body)@ + panel2_spec(
            panel,
            index as nat,
            activity.deep_view(),
            artwork.deep_view(),
            now_unix_ms,
            *embedded,
        ),
{
    let ghost start = body@;
    let accent = activity_accent(activity);
    let large = match &artwork.large_url {
        Some(u) => embedded.href(u.as_str()),
        None => None,
    };
    let small = match &artwork.small_url {
        Some(u) => embedded.href(u.as_str()),
        None => None,
    };
    let spotify = is_spotify_activity(activity);
    let (ax, ay, size, tx) = art_geometry(panel, activity);
    let open = panel2_open(panel, activity, index, accent, &large);
    push_str(body, open.as_str());
    let big = large2(ax, ay, size, index, accent, activity.name.as_str(), &large);
    push_str(body, big.as_str());
    let ghost after_large = body@;
    if !spotify {
        let badge = small2(ax, ay, size, index, accent, &small);
        push_str(body, badge.as_str());
    }
    let ghost after_small = body@;
    render_app_title(body, activity, tx, panel.y + 31, panel);
    let ghost after_title = body@;
    if spotify {
        let texts = spotify_texts(activity, panel, tx);
        push_str(body, texts.as_str());
        let bar = media_bar(activity, panel, index, now_unix_ms, accent);
        push_str(body, bar.as_str());
    } else {
        let texts = other_texts(activity, panel, tx);
        push_str(body, texts.as_str());
        let progress = media_progress(activity, now_unix_ms);
        if activity.kind == ActivityKind::Listening && progress.is_some() {
            let bar = media_bar(activity, panel, index, now_unix_ms, accent);
            push_str(body, bar.as_str());
        } else {
            let rows = standard_meta(activity, panel, tx, index, now_unix_ms);
            push_str(body, rows.as_str());
        }
    }
    push_str(body, "</g>");
    proof {
        let a = activity.deep_view();
        if spotify {
            assert(after_small =~= after_large + Seq::<char>::empty());
        }
        assert(body@ =~= start + panel2_spec(panel, index as nat, a, artwork.deep_view(), now_unix_ms, *embedded));
    }
}

/// The activities the large card shows: the visible ones, but for Spotify activities
/// past their end.
pub open spec fn live_prefix(acts: Seq<ActivityModel>, now: u64, k: nat) -> Seq<ActivityModel>
    decreases k,
{
    if k == 0 {
        Seq::empty()
    } else {
        let before = live_prefix(acts, now, (k - 1) as nat);
        if spotify_expired_spec(acts[k - 1], now) {
            before
        } else {
            before.push(acts[k - 1])
        }
    }
}

proof fn lemma_live_prefix_unexpired(acts: Seq<ActivityModel>, now: u64, k: nat)
    requires
        k <= acts.len(),
    ensures
        forall|i: int|
            0 <= i < live_prefix(acts, now, k).len() ==> !spotify_expired_spec(#[trigger] live_prefix(acts, now, k)[i], now),
    decreases k,
{
    if k > 0 {
        let before = live_prefix(acts, now, (k - 1) as nat);
        lemma_live_prefix_unexpired(acts, now, (k - 1) as nat);
        if !spotify_expired_spec(acts[k - 1], now) {
            let after = before.push(acts[k - 1]);
            assert(live_prefix(acts, now, k) == after);
            assert forall|i: int| 0 <= i < after.len() implies !spotify_expired_spec(#[trigger] after[i], now) by {
                if i < before.len() {
                    assert(after[i] == before[i]);
                }
            }
        }
    }
}

pub open spec fn live_spec(m: RuntimeModel, now: u64) -> Seq<ActivityModel> {
    let v = visible_spec(m);
    live_prefix(v, now, v.len())
}

/// The large card never shows a Spotify activity past its end and grace period.
pub proof fn law_large_card_leaves_out_ended_spotify(m: RuntimeModel, now: u64)
    ensures
        forall|i: int| 0 <= i < live_spec(m, now).len() ==> !spotify_expired_spec(#[trigger] live_spec(m, now)[i], now),
{
    lemma_live_prefix_unexpired(visible_spec(m), now, visible_spec(m).len());
}

pub fn live_activities(runtime: &RuntimeState, now_unix_ms: u64) -> (r: Vec<ActivitySnapshot>)
    ensures
        r.deep_view() == live_spec(runtime.deep_view(), now_unix_ms),
{
    let visible = visible_activities(runtime);
    let ghost v = visible_spec(runtime.deep_view());
    let mut out: Vec<ActivitySnapshot> = Vec::new();
    let mut i: usize = 0;
    while i < visible.len()
        invariant
            i <= visible@.len(),
            visible.deep_view() == v,
            out.deep_view() == live_prefix(v, now_unix_ms, i as nat),
        decreases visible.len() - i,
    {
        proof {
            assert(v[i as int] == visible@[i as int].deep_view());
        }
        if !spotify_activity_expired(&visible[i], now_unix_ms) {
            let ghost before = out.deep_view();
            out.push(visible[i].clone());
            proof {
                assert(out.deep_view() =~= before.push(v[i as int]));
            }
        }
        i = i + 1;
    }
    proof {
        assert(v.len() == visible@.len());
    }
    out
}

/// The height of the large card for a number of shown panels.
pub open spec fn card2_height(shown: nat) -> int {
    if shown == 0 {
        420
    } else if shown <= 2 {
        590
    } else {
        887
    }
}

/// Where the `i`-th of `count` panels of the large card stands.
pub open spec fn grid2_geometry(count: nat, i: nat) -> PanelGeometry {
    if count == 1 {
        PanelGeometry { x: 62, y: 228, width: 1650, height: 300 }
    } else if count == 2 {
        PanelGeometry { x: (62 + i * 835) as u32, y: 228, width: 815, height: 300 }
    } else {
        PanelGeometry { x: (62 + (i % 2) * 835) as u32, y: (228 + (i / 2) * 300) as u32, width: 815, height: 280 }
    }
}

pub open spec fn art2_at(arts: Seq<PanelArtworkModel>, i: int) -> PanelArtworkModel {
    if 0 <= i < arts.len() {
        arts[i]
    } else {
        PanelArtworkModel { large_url: None, small_url: None }
    }
}

/// The first `k` of `count` panels of the large card.
pub open spec fn grid2_spec(
    count: nat,
    k: nat,
    acts: Seq<ActivityModel>,
    arts: Seq<PanelArtworkModel>,
    now: u64,
    embedded: EmbeddedArtworkBatch,
) -> Seq<char>
    decreases k,
{
    if k == 0 {
        Seq::empty()
    } else {
        let i = (k - 1) as nat;
        grid2_spec(count, i, acts, arts, now, embedded) + panel2_spec(
            grid2_geometry(count, i),
            i,
            acts[i as int],
            art2_at(arts, i as int),
            now,
            embedded,
        )
    }
}

fn artwork2_at(artworks: &Vec<PanelArtwork>, i: usize) -> (r: PanelArtwork)
    ensures
        r.deep_view() == art2_at(artworks.deep_view(), i as int),
{
    if i < artworks.len() {
        PanelArtwork {
            large_url: crate::state::clone_opt_string(&artworks[i].large_url),
            small_url: crate::state::clone_opt_string(&artworks[i].small_url),
        }
    } else {
        PanelArtwork { large_url: None, small_url: None }
    }
}

fn push_grid2(
    body: &mut String,
    runtime: &RuntimeState,
    acts: &Vec<ActivitySnapshot>,
    count: usize,
    now_unix_ms: u64,
    embedded: &EmbeddedArtworkBatch,
    artworks: &Vec<PanelArtwork>,
)
    requires
        1 <= count <= MAX_VISIBLE_ACTIVITIES,
        count <= acts@.len(),
    ensures
        final(body)@ == old(body)@ + grid2_spec(
            count as nat,
            count as nat,
            acts.deep_view(),
            artworks.deep_view(),
            now_unix_ms,
            *embedded,
        ),
{
    let ghost start = body@;
    let mut i: usize = 0;
    while i < count
        invariant
            i <= count <= MAX_VISIBLE_ACTIVITIES,
            count <= acts@.len(),
            body@ == start + grid2_spec(count as nat, i as nat, acts.deep_view(), artworks.deep_view(), now_unix_ms, *embedded),
        decreases count - i,
    {
        let geometry = if count == 1 {
            PanelGeometry { x: 62, y: 228, width: 1650, height: 300 }
        } else if count == 2 {
            PanelGeometry { x: 62 + (i as u32) * 835, y: 228, width: 815, height: 300 }
        } else {
            PanelGeometry { x: 62 + ((i % 2) as u32) * 835, y: 228 + ((i / 2) as u32) * 300, width: 815, height: 280 }
        };
        proof {
            assert(geometry == grid2_geometry(count as nat, i as nat));
        }
        let art = artwork2_at(artworks, i);
        proof {
            assert(acts.deep_view()[i as int] == acts@[i as int].deep_view());
        }
        render_activity_panel(body, runtime, &acts[i], &art, geometry, i as u64, now_unix_ms, embedded);
        i = i + 1;
    }
}

/// The message of the large card where it shows no panel.
pub open spec fn empty2_spec(height: int, message: Seq<char>) -> Seq<char> {
    text_spec(887, (height / 2 + 50) as u32, 28, "#a8b0ce"@, "600"@, message, Some("middle"@))
}

/// What the large card shows below its header.
pub open spec fn content2_spec(m: RuntimeModel, now: u64, embedded: EmbeddedArtworkBatch, arts: Seq<PanelArtworkModel>) -> Seq<
    char,
> {
    let sel = live_spec(m, now);
    let shown: nat = if sel.len() < MAX_VISIBLE_ACTIVITIES {
        sel.len()
    } else {
        MAX_VISIBLE_ACTIVITIES as nat
    };
    let h = card2_height(shown);
    match visible_presence_spec(m) {
        VisiblePresence::Known => if shown == 0 {
            empty2_spec(h, "No current activity"@)
        } else {
            grid2_spec(shown, shown, sel, arts, now, embedded) + (if sel.len() > MAX_VISIBLE_ACTIVITIES {
                text_spec(
                    1690,
                    (h - 55) as u32,
                    18,
                    "#8d94b8"@,
                    "600"@,
                    "+"@ + dec(sel.len() - MAX_VISIBLE_ACTIVITIES) + " more"@,
                    Some("end"@),
                )
            } else {
                Seq::empty()
            })
        },
        VisiblePresence::Unavailable => empty2_spec(h, "Live presence is temporarily unavailable"@),
        VisiblePresence::Unknown => empty2_spec(h, "Waiting for Discord presence"@),
    }
}

fn content2(
    runtime: &RuntimeState,
    selected: &Vec<ActivitySnapshot>,
    now_unix_ms: u64,
    embedded: &EmbeddedArtworkBatch,
    artworks: &Vec<PanelArtwork>,
) -> (r: String)
    requires
        selected.deep_view() == live_spec(runtime.deep_view(), now_unix_ms),
    ensures
        r@ == content2_spec(runtime.deep_view(), now_unix_ms, *embedded, artworks.deep_view()),
{
    proof {
        assert(selected.deep_view().len() == selected@.len());
    }
    let shown = if selected.len() < MAX_VISIBLE_ACTIVITIES {
        selected.len()
    } else {
        MAX_VISIBLE_ACTIVITIES
    };
    let height: u32 = if shown == 0 {
        420
    } else if shown <= 2 {
        590
    } else {
        887
    };
    let mut t = String::new();
    match visible_presence(runtime) {
        VisiblePresence::Known => {
            if shown == 0 {
                text(&mut t, 887, height / 2 + 50, 28, "#a8b0ce", "600", "No current activity", Some("middle"));
            } else {
                push_grid2(&mut t, runtime, selected, shown, now_unix_ms, embedded, artworks);
                let ghost gridded = t@;
                if selected.len() > MAX_VISIBLE_ACTIVITIES {
                    let mut more = owned("+");
                    push_decimal(&mut more, (selected.len() - MAX_VISIBLE_ACTIVITIES) as u64);
                    push_str(&mut more, " more");
                    text(&mut t, 1690, height - 55, 18, "#8d94b8", "600", more.as_str(), Some("end"));
                } else {
                    proof {
                        assert(t@ =~= gridded + Seq::<char>::empty());
                    }
                }
            }
        },
        VisiblePresence::Unavailable => {
            text(
                &mut t,
                887,
                height / 2 + 50,
                28,
                "#a8b0ce",
                "600",
                "Live presence is temporarily unavailable",
                Some("middle"),
            );
        },
        VisiblePresence::Unknown => {
            text(&mut t, 887, height / 2 + 50, 28, "#a8b0ce", "600", "Waiting for Discord presence", Some("middle"));
        },
    }
    proof {
        assert(t@ =~= content2_spec(runtime.deep_view(), now_unix_ms, *embedded, artworks.deep_view()));
    }
    t
}

pub open spec fn card2_defs_spec() -> Seq<char> {
    "\n<linearGradient id=\"canvas-bg\" x1=\"0\" y1=\"0\" x2=\"1\" y2=\"1\"><stop offset=\"0\" stop-color=\"#0f1320\"/><stop offset=\".52\" stop-color=\"#15182a\"/><stop offset=\"1\" stop-color=\"#101522\"/></linearGradient>\n<linearGradient id=\"root-bg\" x1=\"0\" y1=\"0\" x2=\"1\" y2=\"1\"><stop offset=\"0\" stop-color=\"#0b101d\"/><stop offset=\".54\" stop-color=\"#101528\"/><stop offset=\"1\" stop-color=\"#090e19\"/></linearGradient>\n<linearGradient id=\"fallback-art\" x1=\"0\" y1=\"0\" x2=\"1\" y2=\"1\"><stop offset=\"0\" stop-color=\"#262044\"/><stop offset=\"1\" stop-color=\"#111729\"/></linearGradient>\n<filter id=\"shadow\" x=\"-20%\" y=\"-30%\" width=\"140%\" height=\"160%\"><feDropShadow dx=\"0\" dy=\"7\" stdDeviation=\"14\" flood-color=\"#03050b\" flood-opacity=\".38\"/></filter>\n<filter id=\"art-blur\" x=\"-20%\" y=\"-20%\" width=\"140%\" height=\"140%\"><feGaussianBlur stdDeviation=\"26\"/></filter>\n<filter id=\"art-blur-single\" x=\"-20%\" y=\"-20%\" width=\"140%\" height=\"140%\"><feGaussianBlur stdDeviation=\"18\"/></filter>\n<clipPath id=\"avatar-clip\"><circle cx=\"153\" cy=\"134\" r=\"63\"/></clipPath>\n"@
}

/// The opening of the large card: its size, its gradients, filters and avatar clip, and
/// the shell around its content.
pub open spec fn card2_frame_spec(h: int) -> Seq<char> {
    "<svg xmlns=\"http://www.w3.org/2000/svg\" width=\"1774\" height=\""@ + dec(h) + "\" viewBox=\"0 0 1774 "@ + dec(h)
        + "\" role=\"img\" aria-label=\"ItzHerzchen Discord activity\"><defs>"@ + card2_defs_spec() + "</defs>"@
        + "<g id=\"layout-shell\"><rect x=\"0\" y=\"0\" width=\"1774\" height=\""@ + dec(h)
        + "\" fill=\"url(#canvas-bg)\"/><rect x=\"42\" y=\"42\" width=\"1690\" height=\""@ + dec(h - 84)
        + "\" rx=\"24\" fill=\"url(#root-bg)\" stroke=\"#6556bc\" stroke-opacity=\".64\" stroke-width=\"1.5\" filter=\"url(#shadow)\"/><line x1=\"62\" y1=\"208\" x2=\"1712\" y2=\"208\" stroke=\"#8c91b1\" stroke-opacity=\".24\"/></g>"@
}

fn card2_frame(h: u32) -> (r: String)
    requires
        h >= 84,
    ensures
        r@ == card2_frame_spec(h as int),
{
    let mut t = owned("<svg xmlns=\"http://www.w3.org/2000/svg\" width=\"1774\" height=\"");
    push_decimal(&mut t, h as u64);
    push_str(&mut t, "\" viewBox=\"0 0 1774 ");
    push_decimal(&mut t, h as u64);
    push_str(&mut t, "\" role=\"img\" aria-label=\"ItzHerzchen Discord activity\"><defs>");
    push_str(&mut t, "\n<linearGradient id=\"canvas-bg\" x1=\"0\" y1=\"0\" x2=\"1\" y2=\"1\"><stop offset=\"0\" stop-color=\"#0f1320\"/><stop offset=\".52\" stop-color=\"#15182a\"/><stop offset=\"1\" stop-color=\"#101522\"/></linearGradient>\n<linearGradient id=\"root-bg\" x1=\"0\" y1=\"0\" x2=\"1\" y2=\"1\"><stop offset=\"0\" stop-color=\"#0b101d\"/><stop offset=\".54\" stop-color=\"#101528\"/><stop offset=\"1\" stop-color=\"#090e19\"/></linearGradient>\n<linearGradient id=\"fallback-art\" x1=\"0\" y1=\"0\" x2=\"1\" y2=\"1\"><stop offset=\"0\" stop-color=\"#262044\"/><stop offset=\"1\" stop-color=\"#111729\"/></linearGradient>\n<filter id=\"shadow\" x=\"-20%\" y=\"-30%\" width=\"140%\" height=\"160%\"><feDropShadow dx=\"0\" dy=\"7\" stdDeviation=\"14\" flood-color=\"#03050b\" flood-opacity=\".38\"/></filter>\n<filter id=\"art-blur\" x=\"-20%\" y=\"-20%\" width=\"140%\" height=\"140%\"><feGaussianBlur stdDeviation=\"26\"/></filter>\n<filter id=\"art-blur-single\" x=\"-20%\" y=\"-20%\" width=\"140%\" height=\"140%\"><feGaussianBlur stdDeviation=\"18\"/></filter>\n<clipPath id=\"avatar-clip\"><circle cx=\"153\" cy=\"134\" r=\"63\"/></clipPath>\n");
    push_str(&mut t, "</defs>");
    push_str(&mut t, "<g id=\"layout-shell\"><rect x=\"0\" y=\"0\" width=\"1774\" height=\"");
    push_decimal(&mut t, h as u64);
    push_str(&mut t, "\" fill=\"url(#canvas-bg)\"/><rect x=\"42\" y=\"42\" width=\"1690\" height=\"");
    push_decimal(&mut t, (h - 84) as u64);
    push_str(
        &mut t,
        "\" rx=\"24\" fill=\"url(#root-bg)\" stroke=\"#6556bc\" stroke-opacity=\".64\" stroke-width=\"1.5\" filter=\"url(#shadow)\"/><line x1=\"62\" y1=\"208\" x2=\"1712\" y2=\"208\" stroke=\"#8c91b1\" stroke-opacity=\".24\"/></g>",
    );
    t
}

/// The large presence card.
pub open spec fn presence_card2_spec(
    m: RuntimeModel,
    identity: Option<IdentitySnapshotModel>,
    now: u64,
    embedded: EmbeddedArtworkBatch,
    arts: Seq<PanelArtworkModel>,
) -> Seq<char> {
    let sel = live_spec(m, now);
    let shown: nat = if sel.len() < MAX_VISIBLE_ACTIVITIES {
        sel.len()
    } else {
        MAX_VISIBLE_ACTIVITIES as nat
    };
    card2_frame_spec(card2_height(shown)) + identity_static_spec(identity, embedded) + identity_dynamic_spec(m)
        + "<g id=\"activity-grid\">"@ + content2_spec(m, now, embedded, arts) + "</g></svg>"@
}

/// Renders the large presence card: shell, header, and the panels of the shown
/// activities, Spotify activities past their end left out. `artworks[i]` holds the
/// artwork URLs of the `i`-th shown activity.
pub fn render_presence_card(
    runtime: &RuntimeState,
    identity: Option<&DiscordIdentitySnapshot>,
    now_unix_ms: u64,
    embedded: &EmbeddedArtworkBatch,
    artworks: &Vec<PanelArtwork>,
) -> (r: String)
    requires
        header_fits(
            match identity {
                Some(i) => Some(i.deep_view()),
                None => None,
            },
            *embedded,
        ),
    ensures
        r@ == presence_card2_spec(
            runtime.deep_view(),
            match identity {
                Some(i) => Some(i.deep_view()),
                None => None,
            },
            now_unix_ms,
            *embedded,
            artworks.deep_view(),
        ),
{
    let selected = live_activities(runtime, now_unix_ms);
    let shown = if selected.len() < MAX_VISIBLE_ACTIVITIES {
        selected.len()
    } else {
        MAX_VISIBLE_ACTIVITIES
    };
    let height: u32 = if shown == 0 {
        420
    } else if shown <= 2 {
        590
    } else {
        887
    };
    let mut body = card2_frame(height);
    render_identity_header(&mut body, runtime, identity, embedded);
    push_str(&mut body, "<g id=\"activity-grid\">");
    let rest = content2(runtime, &selected, now_unix_ms, embedded, artworks);
    push_str(&mut body, rest.as_str());
    push_str(&mut body, "</g></svg>");
    proof {
        let iv = match identity {
            Some(i) => Some(i.deep_view()),
            None => None,
        };
        assert(body@ =~= presence_card2_spec(runtime.deep_view(), iv, now_unix_ms, *embedded, artworks.deep_view()));
    }
    body
}

} // verus!
