//! The documents of the GitHub cards: which card is which, and the entity tags that
//! tie a rendered card to the snapshot revision and freshness it shows.
use vstd::prelude::*;

use crate::svg::DocumentModel;
use crate::numbers::{parse_i32_in, parse_i32_spec, parse_u32_in, parse_u32_spec};
use crate::text::{
    chars_of, decimal, decimal_spec, escape_spec, owned, push_char, push_decimal, push_escaped, push_str,
    split_bounds, split_spec,
};

verus! {

/// The revision of the language and streak cards' drawing.
pub const CARD_SVG_REVISION: u64 = 12;

/// The revision of the statistics card's drawing.
pub const STATS_REVISION: u64 = 6;

/// The revision of the combined GitHub card's drawing.
pub const GITHUB_SVG_REVISION: u64 = 2;

/// The GitHub cards.
#[derive(Clone, Copy, Debug, PartialEq, Eq, Structural)]
pub enum GitHubCardKind {
    Stats,
    Languages,
    Streak,
}

pub open spec fn kind_key_spec(kind: GitHubCardKind) -> Seq<char> {
    match kind {
        GitHubCardKind::Stats => "stats"@,
        GitHubCardKind::Languages => "languages"@,
        GitHubCardKind::Streak => "streak"@,
    }
}

pub open spec fn dimensions_spec(kind: GitHubCardKind) -> (u32, u32) {
    match kind {
        GitHubCardKind::Stats => (437, 195),
        GitHubCardKind::Languages => (300, 340),
        GitHubCardKind::Streak => (835, 370),
    }
}

impl GitHubCardKind {
    /// The card's name in entity tags.
    pub fn key(self) -> (r: &'static str)
        ensures
            r@ == kind_key_spec(self),
    {
        match self {
            GitHubCardKind::Stats => "stats",
            GitHubCardKind::Languages => "languages",
            GitHubCardKind::Streak => "streak",
        }
    }

    /// The card's width and height.
    pub fn dimensions(self) -> (r: (u32, u32))
        ensures
            r == dimensions_spec(self),
    {
        match self {
            GitHubCardKind::Stats => (437, 195),
            GitHubCardKind::Languages => (300, 340),
            GitHubCardKind::Streak => (835, 370),
        }
    }
}

pub open spec fn fresh_word(stale: bool) -> Seq<char> {
    if stale {
        "stale"@
    } else {
        "fresh"@
    }
}

/// The entity tag of a card: for the statistics card its own revision, the snapshot
/// revision (0 without a snapshot) and the freshness; for the other cards the card's
/// name, then the snapshot revision and the freshness, or `unavailable`.
pub open spec fn card_etag_spec(kind: GitHubCardKind, revision: Option<u64>, stale: bool) -> Seq<char> {
    match kind {
        GitHubCardKind::Stats => "\"profile-github-stats-v"@ + decimal_spec(STATS_REVISION as nat) + "-"@
            + decimal_spec(
            match revision {
                Some(r) => r as nat,
                None => 0,
            },
        ) + "-"@ + (match revision {
            Some(_) => fresh_word(stale),
            None => "unavailable"@,
        }) + "\""@,
        _ => "\"profile-github-card-v"@ + decimal_spec(CARD_SVG_REVISION as nat) + "-"@ + kind_key_spec(kind)
            + (match revision {
            Some(r) => "-"@ + decimal_spec(r as nat) + "-"@ + fresh_word(stale),
            None => "-unavailable"@,
        }) + "\""@,
    }
}

pub fn card_etag(kind: GitHubCardKind, revision: Option<u64>, stale: bool) -> (r: String)
    ensures
        r@ == card_etag_spec(kind, revision, stale),
{
    match kind {
        GitHubCardKind::Stats => {
            let mut etag = owned("\"profile-github-stats-v");
            push_decimal(&mut etag, STATS_REVISION);
            push_str(&mut etag, "-");
            push_decimal(
                &mut etag,
                match revision {
                    Some(r) => r,
                    None => 0,
                },
            );
            push_str(&mut etag, "-");
            push_str(
                &mut etag,
                match revision {
                    Some(_) => if stale {
                        "stale"
                    } else {
                        "fresh"
                    },
                    None => "unavailable",
                },
            );
            push_str(&mut etag, "\"");
            etag
        },
        _ => {
            let mut etag = owned("\"profile-github-card-v");
            push_decimal(&mut etag, CARD_SVG_REVISION);
            push_str(&mut etag, "-");
            push_str(&mut etag, kind.key());
            let ghost head = etag@;
            match revision {
                Some(r) => {
                    push_str(&mut etag, "-");
                    push_decimal(&mut etag, r);
                    push_str(&mut etag, "-");
                    push_str(
                        &mut etag,
                        if stale {
                            "stale"
                        } else {
                            "fresh"
                        },
                    );
                    proof {
                        assert(etag@ =~= head + ("-"@ + decimal_spec(r as nat) + "-"@ + fresh_word(stale)));
                    }
                },
                None => {
                    push_str(&mut etag, "-unavailable");
                },
            }
            push_str(&mut etag, "\"");
            etag
        },
    }
}

/// A rendered GitHub card.
pub struct GitHubCardDocument {
    body: String,
    etag: String,
    revision: u64,
}

impl GitHubCardDocument {
    pub closed spec fn model(&self) -> DocumentModel {
        DocumentModel { body: self.body@, etag: self.etag@, stream_revision: self.revision }
    }

    /// The document of a rendered card body: `revision` is the snapshot's revision, or
    /// nothing where no snapshot was available.
    pub fn new(kind: GitHubCardKind, body: String, revision: Option<u64>, stale: bool) -> (r: Self)
        ensures
            r.model() == (DocumentModel {
                body: body@,
                etag: card_etag_spec(kind, revision, stale),
                stream_revision: match revision {
                    Some(v) => v,
                    None => 0,
                },
            }),
    {
        let etag = card_etag(kind, revision, stale);
        GitHubCardDocument {
            body,
            etag,
            revision: match revision {
                Some(v) => v,
                None => 0,
            },
        }
    }

    pub fn body(&self) -> (r: &str)
        ensures
            r@ == self.model().body,
    {
        self.body.as_str()
    }

    pub fn etag(&self) -> (r: &str)
        ensures
            r@ == self.model().etag,
    {
        self.etag.as_str()
    }

    pub fn revision(&self) -> (r: u64)
        ensures
            r == self.model().stream_revision,
    {
        self.revision
    }
}

/// The entity tag of the combined GitHub card.
pub open spec fn svg_etag_spec(revision: Option<u64>, stale: bool) -> Seq<char> {
    "\"profile-github-v"@ + decimal_spec(GITHUB_SVG_REVISION as nat) + (match revision {
        Some(r) => "-"@ + decimal_spec(r as nat) + "-"@ + fresh_word(stale),
        None => "-unavailable"@,
    }) + "\""@
}

pub fn svg_etag(revision: Option<u64>, stale: bool) -> (r: String)
    ensures
        r@ == svg_etag_spec(revision, stale),
{
    let mut etag = owned("\"profile-github-v");
    push_decimal(&mut etag, GITHUB_SVG_REVISION);
    let ghost head = etag@;
    match revision {
        Some(r) => {
            push_str(&mut etag, "-");
            push_decimal(&mut etag, r);
            push_str(&mut etag, "-");
            push_str(
                &mut etag,
                if stale {
                    "stale"
                } else {
                    "fresh"
                },
            );
            proof {
                assert(etag@ =~= head + ("-"@ + decimal_spec(r as nat) + "-"@ + fresh_word(stale)));
            }
        },
        None => {
            push_str(&mut etag, "-unavailable");
        },
    }
    push_str(&mut etag, "\"");
    etag
}

/// The rendered combined GitHub card.
pub struct GitHubSvgDocument {
    body: String,
    etag: String,
    revision: u64,
}

impl GitHubSvgDocument {
    pub closed spec fn model(&self) -> DocumentModel {
        DocumentModel { body: self.body@, etag: self.etag@, stream_revision: self.revision }
    }

    /// The document of a rendered body: `revision` is the snapshot's revision, or nothing
    /// where no snapshot was available.
    pub fn new(body: String, revision: Option<u64>, stale: bool) -> (r: Self)
        ensures
            r.model() == (DocumentModel {
                body: body@,
                etag: svg_etag_spec(revision, stale),
                stream_revision: match revision {
                    Some(v) => v,
                    None => 0,
                },
            }),
    {
        let etag = svg_etag(revision, stale);
        GitHubSvgDocument {
            body,
            etag,
            revision: match revision {
                Some(v) => v,
                None => 0,
            },
        }
    }

    pub fn body(&self) -> (r: &str)
        ensures
            r@ == self.model().body,
    {
        self.body.as_str()
    }

    pub fn etag(&self) -> (r: &str)
        ensures
            r@ == self.model().etag,
    {
        self.etag.as_str()
    }

    pub fn revision(&self) -> (r: u64)
        ensures
            r == self.model().stream_revision,
    {
        self.revision
    }
}

/// A statistic as plain decimal digits, without thousands separators.
pub fn format_stat_number(value: u64) -> (r: String)
    ensures
        r@ == decimal_spec(value as nat),
{
    decimal(value)
}

/// The short English name of a month, months past December naming December.
pub open spec fn month_name_spec(month: u32) -> Seq<char> {
    let i = if month == 0 {
        0
    } else if month - 1 > 11 {
        11
    } else {
        month - 1
    };
    seq!["Jan"@, "Feb"@, "Mar"@, "Apr"@, "May"@, "Jun"@, "Jul"@, "Aug"@, "Sep"@, "Oct"@, "Nov"@, "Dec"@][i]
}

pub fn month_name(month: u32) -> (r: &'static str)
    ensures
        r@ == month_name_spec(month),
{
    let i = if month == 0 {
        0
    } else if month - 1 > 11 {
        11
    } else {
        month - 1
    };
    proof {
        let names = seq!["Jan"@, "Feb"@, "Mar"@, "Apr"@, "May"@, "Jun"@, "Jul"@, "Aug"@, "Sep"@, "Oct"@, "Nov"@, "Dec"@];
        assert(month_name_spec(month) == names[i as int]);
    }
    if i == 0 {
        "Jan"
    } else if i == 1 {
        "Feb"
    } else if i == 2 {
        "Mar"
    } else if i == 3 {
        "Apr"
    } else if i == 4 {
        "May"
    } else if i == 5 {
        "Jun"
    } else if i == 6 {
        "Jul"
    } else if i == 7 {
        "Aug"
    } else if i == 8 {
        "Sep"
    } else if i == 9 {
        "Oct"
    } else if i == 10 {
        "Nov"
    } else {
        "Dec"
    }
}

/// The year, month and day of a `YYYY-MM-DD` date with a month from 1 to 12 and a day
/// from 1 to 31.
pub open spec fn iso_date_spec(value: Seq<char>) -> Option<(i32, u32, u32)> {
    let parts = split_spec(value, '-');
    if parts.len() == 3 {
        match (parse_i32_spec(parts[0]), parse_u32_spec(parts[1]), parse_u32_spec(parts[2])) {
            (Some(y), Some(m), Some(d)) => if 1 <= m <= 12 && 1 <= d <= 31 {
                Some((y, m, d))
            } else {
                None
            },
            _ => None,
        }
    } else {
        None
    }
}

pub fn parse_iso_date(value: &str) -> (r: Option<(i32, u32, u32)>)
    ensures
        r == iso_date_spec(value@),
{
    let chars = chars_of(value);
    let parts = split_bounds(&chars, '-');
    if parts.len() != 3 {
        return None;
    }
    let (y0, y1) = parts[0];
    let (m0, m1) = parts[1];
    let (d0, d1) = parts[2];
    let year = match parse_i32_in(&chars, y0, y1) {
        Some(v) => v,
        None => return None,
    };
    let month = match parse_u32_in(&chars, m0, m1) {
        Some(v) => v,
        None => return None,
    };
    let day = match parse_u32_in(&chars, d0, d1) {
        Some(v) => v,
        None => return None,
    };
    if month < 1 || month > 12 || day < 1 || day > 31 {
        return None;
    }
    Some((year, month, day))
}

pub open spec fn int_text(n: i32) -> Seq<char> {
    if n < 0 {
        seq!['-'] + decimal_spec((-(n as int)) as nat)
    } else {
        decimal_spec(n as nat)
    }
}

fn push_i32(s: &mut String, n: i32)
    ensures
        final(s)@ == old(s)@ + int_text(n),
{
    if n < 0 {
        push_char(s, '-');
        let magnitude: u64 = if n == i32::MIN {
            2_147_483_648
        } else {
            (-n) as u64
        };
        let ghost mid = s@;
        push_decimal(s, magnitude);
        proof {
            assert(s@ =~= old(s)@ + int_text(n));
        }
    } else {
        push_decimal(s, n as u64);
    }
}

/// A date as `Mon D`, followed by `, YYYY` where the year is included.
pub open spec fn date_parts_spec(date: (i32, u32, u32), include_year: bool) -> Seq<char> {
    month_name_spec(date.1) + " "@ + decimal_spec(date.2 as nat) + (if include_year {
        ", "@ + int_text(date.0)
    } else {
        ""@
    })
}

pub fn format_date_parts(date: (i32, u32, u32), include_year: bool) -> (r: String)
    ensures
        r@ == date_parts_spec(date, include_year),
{
    let mut r = owned(month_name(date.1));
    push_str(&mut r, " ");
    push_decimal(&mut r, date.2 as u64);
    let ghost head = r@;
    if include_year {
        push_str(&mut r, ", ");
        push_i32(&mut r, date.0);
    } else {
        push_str(&mut r, "");
    }
    proof {
        assert(r@ =~= date_parts_spec(date, include_year));
    }
    r
}

/// A date range for the streak card: one date where both ends agree; within one year
/// the years are left out unless asked for; within one month the month is named once.
pub open spec fn date_range_spec(start: Option<Seq<char>>, end: Option<Seq<char>>, always_year: bool) -> Seq<char> {
    let s = match start {
        Some(v) => iso_date_spec(v),
        None => None,
    };
    let e = match end {
        Some(v) => iso_date_spec(v),
        None => None,
    };
    match (s, e) {
        (Some(a), Some(b)) => if a == b {
            date_parts_spec(a, true)
        } else {
            let include_year = always_year || a.0 != b.0;
            if !include_year && a.1 == b.1 {
                month_name_spec(a.1) + " "@ + decimal_spec(a.2 as nat) + " \u{2013} "@ + decimal_spec(b.2 as nat)
            } else {
                date_parts_spec(a, include_year) + " \u{2013} "@ + date_parts_spec(b, include_year)
            }
        },
        _ => "range unavailable"@,
    }
}

pub fn format_date_range(start: Option<&str>, end: Option<&str>, always_year: bool) -> (r: String)
    ensures
        r@ == date_range_spec(
            match start {
                Some(v) => Some(v@),
                None => None,
            },
            match end {
                Some(v) => Some(v@),
                None => None,
            },
            always_year,
        ),
{
    let s = match start {
        Some(v) => parse_iso_date(v),
        None => None,
    };
    let e = match end {
        Some(v) => parse_iso_date(v),
        None => None,
    };
    match (s, e) {
        (Some(a), Some(b)) => {
            if a.0 == b.0 && a.1 == b.1 && a.2 == b.2 {
                return format_date_parts(a, true);
            }
            let include_year = always_year || a.0 != b.0;
            if !include_year && a.1 == b.1 {
                let mut r = owned(month_name(a.1));
                push_str(&mut r, " ");
                push_decimal(&mut r, a.2 as u64);
                push_str(&mut r, " \u{2013} ");
                push_decimal(&mut r, b.2 as u64);
                return r;
            }
            let mut r = format_date_parts(a, include_year);
            push_str(&mut r, " \u{2013} ");
            let tail = format_date_parts(b, include_year);
            push_str(&mut r, tail.as_str());
            r
        },
        _ => owned("range unavailable"),
    }
}

/// The state of the streak card's campfire.
#[derive(Clone, Copy, Debug, PartialEq, Eq, Structural)]
pub enum CampfireState {
    Lit,
    Out,
    Unknown,
}

/// Lit where there are contributions today, out where today has none, and unknown for a
/// stale snapshot or an unknown day.
pub fn campfire_state(today_contributions: Option<u64>, stale: bool) -> (r: CampfireState)
    ensures
        r == if stale {
            CampfireState::Unknown
        } else {
            match today_contributions {
                Some(count) => if count > 0 {
                    CampfireState::Lit
                } else {
                    CampfireState::Out
                },
                None => CampfireState::Unknown,
            }
        },
{
    if stale {
        return CampfireState::Unknown;
    }
    match today_contributions {
        Some(count) => if count > 0 {
            CampfireState::Lit
        } else {
            CampfireState::Out
        },
        None => CampfireState::Unknown,
    }
}

/// The body of the combined GitHub card while no snapshot is available: a fixed
/// panel that says the statistics are temporarily unavailable.
pub open spec fn unavailable_svg_spec() -> Seq<char> {
    "<svg xmlns=\"http://www.w3.org/2000/svg\" width=\"760\" height=\"150\" viewBox=\"0 0 760 150\" role=\"img\" aria-label=\"GitHub stats unavailable\">"@
        + "<rect width=\"760\" height=\"150\" rx=\"20\" fill=\"#0b1020\"/>"@
        + "<rect x=\"1\" y=\"1\" width=\"758\" height=\"148\" rx=\"19\" fill=\"none\" stroke=\"#293659\"/>"@
        + "<text x=\"28\" y=\"54\" fill=\"#f4f7ff\" font-family=\"ui-monospace, SFMono-Regular, Consolas, monospace\" font-size=\"23\" font-weight=\"700\">GitHub stats</text>"@
        + "<text x=\"28\" y=\"93\" fill=\"#9fb0d9\" font-family=\"ui-monospace, SFMono-Regular, Consolas, monospace\" font-size=\"15\">Stats are temporarily unavailable.</text>"@
        + "</svg>"@
}

/// The combined GitHub card's body without a snapshot.
pub fn render_unavailable_svg() -> (r: String)
    ensures
        r@ == unavailable_svg_spec(),
{
    let mut body = owned("<svg xmlns=\"http://www.w3.org/2000/svg\" width=\"760\" height=\"150\" viewBox=\"0 0 760 150\" role=\"img\" aria-label=\"GitHub stats unavailable\">");
    push_str(&mut body, "<rect width=\"760\" height=\"150\" rx=\"20\" fill=\"#0b1020\"/>");
    push_str(&mut body, "<rect x=\"1\" y=\"1\" width=\"758\" height=\"148\" rx=\"19\" fill=\"none\" stroke=\"#293659\"/>");
    push_str(&mut body, "<text x=\"28\" y=\"54\" fill=\"#f4f7ff\" font-family=\"ui-monospace, SFMono-Regular, Consolas, monospace\" font-size=\"23\" font-weight=\"700\">GitHub stats</text>");
    push_str(&mut body, "<text x=\"28\" y=\"93\" fill=\"#9fb0d9\" font-family=\"ui-monospace, SFMono-Regular, Consolas, monospace\" font-size=\"15\">Stats are temporarily unavailable.</text>");
    push_str(&mut body, "</svg>");
    body
}

/// The combined GitHub card without a snapshot: the unavailable panel, tagged as
/// unavailable, at revision 0.
pub fn unavailable_svg_document() -> (r: GitHubSvgDocument)
    ensures
        r.model() == (DocumentModel {
            body: unavailable_svg_spec(),
            etag: svg_etag_spec(None, false),
            stream_revision: 0,
        }),
{
    GitHubSvgDocument::new(render_unavailable_svg(), None, false)
}

/// The shared style of the language and streak cards.
pub open spec fn card_style_spec() -> Seq<char> {
    "<style>\n        .header{font:600 18px 'Segoe UI',Ubuntu,'Helvetica Neue',Sans-Serif;fill:#70A5FD;opacity:0;animation:fade .8s ease-in-out forwards}\n        .stat{font:600 14px 'Segoe UI',Ubuntu,'Helvetica Neue',Sans-Serif;fill:#38BDAE}\n        .stat-value{font-weight:700}\n        .stat-icon{font:700 15px 'Segoe UI Symbol','Segoe UI',Sans-Serif;fill:#BF91F3}\n        .lang{font:400 11px 'Segoe UI',Ubuntu,'Helvetica Neue',Sans-Serif;fill:#38BDAE}\n        .rank-rim{fill:none;stroke:#70A5FD;stroke-width:6;opacity:.2}\n        .rank-ring{fill:none;stroke:#70A5FD;stroke-width:6;stroke-linecap:round;opacity:.8;transform:rotate(-90deg);transform-origin:center}\n        .rank-level{font:800 24px 'Segoe UI',Ubuntu,Sans-Serif;fill:#38BDAE}\n        .rank-percent{font:600 10px 'Segoe UI',Ubuntu,Sans-Serif;fill:#A8A8A8}\n        .stale{font:400 10px 'Segoe UI',Ubuntu,Sans-Serif;fill:#A8A8A8}\n        .stagger{opacity:0;animation:fade .3s ease-in-out forwards}\n        @keyframes fade{from{opacity:0}to{opacity:1}}\n        </style>"@
}

/// The opening of a language or streak card: its size, and its label for assistive
/// technology.
pub open spec fn card_open_spec(width: u32, height: u32, label: Seq<char>) -> Seq<char> {
    "<svg xmlns=\"http://www.w3.org/2000/svg\" width=\""@ + decimal_spec(width as nat) + "\" height=\""@
        + decimal_spec(height as nat) + "\" viewBox=\"0 0 "@ + decimal_spec(width as nat) + " "@
        + decimal_spec(height as nat) + "\" role=\"img\" aria-label=\""@ + escape_spec(label) + "\">"@
}

pub(crate) fn push_card_open(body: &mut String, width: u32, height: u32, label: &str)
    ensures
        final(body)@ == old(body)@ + card_open_spec(width, height, label@),
{
    let ghost start = body@;
    push_str(body, "<svg xmlns=\"http://www.w3.org/2000/svg\" width=\"");
    push_decimal(body, width as u64);
    push_str(body, "\" height=\"");
    push_decimal(body, height as u64);
    push_str(body, "\" viewBox=\"0 0 ");
    push_decimal(body, width as u64);
    push_str(body, " ");
    push_decimal(body, height as u64);
    push_str(body, "\" role=\"img\" aria-label=\"");
    push_escaped(body, label);
    push_str(body, "\">");
    proof {
        assert(body@ =~= start + card_open_spec(width, height, label@));
    }
}

/// The corner radius of a card's background: rounder for the streak card.
pub open spec fn card_radius(kind: GitHubCardKind) -> nat {
    if kind == GitHubCardKind::Streak {
        24
    } else {
        5
    }
}

/// The drawing definitions and style of the statistics card.
pub open spec fn stats_defs_spec() -> Seq<char> {
    "<defs>\n<linearGradient id=\"stats-bg\" x1=\"0\" y1=\"0\" x2=\"1\" y2=\"1\"><stop offset=\"0\" stop-color=\"#080d19\"/><stop offset=\".48\" stop-color=\"#0d1428\"/><stop offset=\"1\" stop-color=\"#080d19\"/></linearGradient>\n<linearGradient id=\"rank-gradient\" x1=\"1\" y1=\"0\" x2=\"0\" y2=\"1\"><stop offset=\"0\" stop-color=\"#BF91F3\"/><stop offset=\".48\" stop-color=\"#927BFF\"/><stop offset=\"1\" stop-color=\"#58A6FF\"/></linearGradient>\n<linearGradient id=\"primary-wave-fill\" x1=\"0\" y1=\"0\" x2=\"0\" y2=\"1\"><stop offset=\"0\" stop-color=\"#3978ff\" stop-opacity=\".14\"/><stop offset=\"1\" stop-color=\"#3978ff\" stop-opacity=\".015\"/></linearGradient>\n<clipPath id=\"primary-clip\"><rect x=\"28\" y=\"84\" width=\"244\" height=\"180\" rx=\"18\"/></clipPath>\n<filter id=\"soft-glow\" x=\"-80%\" y=\"-80%\" width=\"260%\" height=\"260%\"><feGaussianBlur stdDeviation=\"2.5\" result=\"b\"/><feMerge><feMergeNode in=\"b\"/><feMergeNode in=\"SourceGraphic\"/></feMerge></filter>\n<filter id=\"wave-glow\" x=\"-20%\" y=\"-180%\" width=\"140%\" height=\"460%\"><feGaussianBlur stdDeviation=\"1.4\" result=\"b\"/><feMerge><feMergeNode in=\"b\"/><feMergeNode in=\"SourceGraphic\"/></feMerge></filter>\n</defs><style>\n.title{font:750 27px 'Segoe UI',Ubuntu,'Helvetica Neue',Arial,sans-serif;fill:#f1f5ff;letter-spacing:.1px}.rule{stroke:#6d82bd;stroke-opacity:.34}.primary-card,.metric-card,.rank-card,.empty-card{fill:#0f1830;stroke:#5473c7;stroke-opacity:.55;stroke-width:1.1}.primary-card{fill:#0d1730}.metric-card{fill:#10192f}.rank-card{fill:#0f172d}.primary-label{font:750 12px 'Segoe UI',Ubuntu,Arial,sans-serif;fill:#aeb9df;letter-spacing:1px}.primary-value{font:800 60px 'Segoe UI',Ubuntu,Arial,sans-serif;fill:#f5f7ff;letter-spacing:-1.8px}.metric-label{font:650 10.7px 'Segoe UI',Ubuntu,Arial,sans-serif;fill:#aab5d7}.metric-value{font:800 23px 'Segoe UI',Ubuntu,Arial,sans-serif;fill:#f0f4ff}.stat-icon{shape-rendering:geometricPrecision}.rank-rim{fill:none;stroke:#27324f;stroke-width:9}.rank-ring{fill:none;stroke:url(#rank-gradient);stroke-width:9;stroke-linecap:round;filter:url(#soft-glow)}.rank-level{font:800 35px 'Segoe UI',Ubuntu,Arial,sans-serif;fill:#f5f7ff}.rank-percent{font:800 14px 'Segoe UI',Ubuntu,Arial,sans-serif;fill:#c08ff8}.rank-label{font:700 9.5px 'Segoe UI',Ubuntu,Arial,sans-serif;fill:#8791b3;letter-spacing:1.3px}.stale{font:700 9.5px 'Segoe UI',Ubuntu,Arial,sans-serif;fill:#a07ad9;letter-spacing:1px}.empty-title{font:650 18px 'Segoe UI',Ubuntu,Arial,sans-serif;fill:#dfe7fb}.empty-copy{font:500 12px 'Segoe UI',Ubuntu,Arial,sans-serif;fill:#8792b2}.primary-wave-fill{fill:url(#primary-wave-fill)}.primary-wave-secondary{fill:none;stroke:#5c79df;stroke-opacity:.22;stroke-width:.85}.primary-wave{fill:none;stroke:#3d73e8;stroke-opacity:.74;stroke-width:1.25;filter:url(#wave-glow)}.canvas-wave{fill:none;stroke:#2947a1;stroke-opacity:.24;stroke-width:1}@keyframes enter{from{opacity:0;transform:translateY(3px)}to{opacity:1;transform:translateY(0)}}.metric-enter{opacity:0;animation:enter .26s ease-out forwards}@media (prefers-reduced-motion:reduce){.metric-enter{opacity:1;animation:none}}\n</style>"@
}

/// The frame of the statistics card: background, border, title and rule.
pub open spec fn stats_frame_spec() -> Seq<char> {
    "<rect width=\"835\" height=\"300\" rx=\"24\" fill=\"url(#stats-bg)\"/><rect x=\"1\" y=\"1\" width=\"833\" height=\"298\" rx=\"23\" fill=\"none\" stroke=\"#6558be\" stroke-opacity=\".68\" stroke-width=\"1.5\"/><text x=\"36\" y=\"48\" class=\"title\">GitHub Statistics</text><line x1=\"36\" y1=\"68\" x2=\"799\" y2=\"68\" class=\"rule\"/><path d=\"M650 297c38-21 74-25 104-17 21 6 37 2 52-10\" class=\"canvas-wave\"/>"@
}

/// The panel the statistics card shows in place of its figures.
pub open spec fn stats_empty_panel_spec() -> Seq<char> {
    "<rect x=\"28\" y=\"84\" width=\"779\" height=\"180\" rx=\"18\" class=\"empty-card\"/><text x=\"54\" y=\"155\" class=\"empty-title\">GitHub statistics are temporarily unavailable.</text><text x=\"54\" y=\"188\" class=\"empty-copy\">The service will keep the last known snapshot when one is available.</text>"@
}

/// The body of a card while no snapshot is available. The statistics card keeps its
/// frame and shows a panel that says the statistics are temporarily unavailable and
/// that the last known snapshot is kept when there is one; the language and streak
/// cards keep their frame and style and say the statistics are temporarily unavailable.
pub open spec fn unavailable_card_spec(kind: GitHubCardKind) -> Seq<char> {
    match kind {
        GitHubCardKind::Stats => card_open_spec(835, 300, "GitHub statistics"@) + stats_defs_spec()
            + stats_frame_spec() + stats_empty_panel_spec() + "</svg>"@,
        _ => {
            let (width, height) = dimensions_spec(kind);
            card_open_spec(width, height, "GitHub stats unavailable"@) + card_style_spec()
                + "<rect width=\""@ + decimal_spec(width as nat) + "\" height=\""@ + decimal_spec(
                height as nat,
            ) + "\" rx=\""@ + decimal_spec(card_radius(kind)) + "\" fill=\"#1A1B27\"/>"@
                + "<text x=\"25\" y=\"42\" class=\"header\">GitHub stats</text><text x=\"25\" y=\"76\" class=\"stat\">Stats are temporarily unavailable.</text>"@
                + "</svg>"@
        },
    }
}

/// The opening of the statistics card: its size and label, drawing definitions, style
/// and frame.
pub open spec fn stats_head_spec() -> Seq<char> {
    card_open_spec(835, 300, "GitHub statistics"@) + stats_defs_spec() + stats_frame_spec()
}

pub(crate) fn stats_head() -> (r: String)
    ensures
        r@ == stats_head_spec(),
{
    let mut body = String::new();
    push_card_open(&mut body, 835, 300, "GitHub statistics");
    push_str(&mut body, "<defs>\n<linearGradient id=\"stats-bg\" x1=\"0\" y1=\"0\" x2=\"1\" y2=\"1\"><stop offset=\"0\" stop-color=\"#080d19\"/><stop offset=\".48\" stop-color=\"#0d1428\"/><stop offset=\"1\" stop-color=\"#080d19\"/></linearGradient>\n<linearGradient id=\"rank-gradient\" x1=\"1\" y1=\"0\" x2=\"0\" y2=\"1\"><stop offset=\"0\" stop-color=\"#BF91F3\"/><stop offset=\".48\" stop-color=\"#927BFF\"/><stop offset=\"1\" stop-color=\"#58A6FF\"/></linearGradient>\n<linearGradient id=\"primary-wave-fill\" x1=\"0\" y1=\"0\" x2=\"0\" y2=\"1\"><stop offset=\"0\" stop-color=\"#3978ff\" stop-opacity=\".14\"/><stop offset=\"1\" stop-color=\"#3978ff\" stop-opacity=\".015\"/></linearGradient>\n<clipPath id=\"primary-clip\"><rect x=\"28\" y=\"84\" width=\"244\" height=\"180\" rx=\"18\"/></clipPath>\n<filter id=\"soft-glow\" x=\"-80%\" y=\"-80%\" width=\"260%\" height=\"260%\"><feGaussianBlur stdDeviation=\"2.5\" result=\"b\"/><feMerge><feMergeNode in=\"b\"/><feMergeNode in=\"SourceGraphic\"/></feMerge></filter>\n<filter id=\"wave-glow\" x=\"-20%\" y=\"-180%\" width=\"140%\" height=\"460%\"><feGaussianBlur stdDeviation=\"1.4\" result=\"b\"/><feMerge><feMergeNode in=\"b\"/><feMergeNode in=\"SourceGraphic\"/></feMerge></filter>\n</defs><style>\n.title{font:750 27px 'Segoe UI',Ubuntu,'Helvetica Neue',Arial,sans-serif;fill:#f1f5ff;letter-spacing:.1px}.rule{stroke:#6d82bd;stroke-opacity:.34}.primary-card,.metric-card,.rank-card,.empty-card{fill:#0f1830;stroke:#5473c7;stroke-opacity:.55;stroke-width:1.1}.primary-card{fill:#0d1730}.metric-card{fill:#10192f}.rank-card{fill:#0f172d}.primary-label{font:750 12px 'Segoe UI',Ubuntu,Arial,sans-serif;fill:#aeb9df;letter-spacing:1px}.primary-value{font:800 60px 'Segoe UI',Ubuntu,Arial,sans-serif;fill:#f5f7ff;letter-spacing:-1.8px}.metric-label{font:650 10.7px 'Segoe UI',Ubuntu,Arial,sans-serif;fill:#aab5d7}.metric-value{font:800 23px 'Segoe UI',Ubuntu,Arial,sans-serif;fill:#f0f4ff}.stat-icon{shape-rendering:geometricPrecision}.rank-rim{fill:none;stroke:#27324f;stroke-width:9}.rank-ring{fill:none;stroke:url(#rank-gradient);stroke-width:9;stroke-linecap:round;filter:url(#soft-glow)}.rank-level{font:800 35px 'Segoe UI',Ubuntu,Arial,sans-serif;fill:#f5f7ff}.rank-percent{font:800 14px 'Segoe UI',Ubuntu,Arial,sans-serif;fill:#c08ff8}.rank-label{font:700 9.5px 'Segoe UI',Ubuntu,Arial,sans-serif;fill:#8791b3;letter-spacing:1.3px}.stale{font:700 9.5px 'Segoe UI',Ubuntu,Arial,sans-serif;fill:#a07ad9;letter-spacing:1px}.empty-title{font:650 18px 'Segoe UI',Ubuntu,Arial,sans-serif;fill:#dfe7fb}.empty-copy{font:500 12px 'Segoe UI',Ubuntu,Arial,sans-serif;fill:#8792b2}.primary-wave-fill{fill:url(#primary-wave-fill)}.primary-wave-secondary{fill:none;stroke:#5c79df;stroke-opacity:.22;stroke-width:.85}.primary-wave{fill:none;stroke:#3d73e8;stroke-opacity:.74;stroke-width:1.25;filter:url(#wave-glow)}.canvas-wave{fill:none;stroke:#2947a1;stroke-opacity:.24;stroke-width:1}@keyframes enter{from{opacity:0;transform:translateY(3px)}to{opacity:1;transform:translateY(0)}}.metric-enter{opacity:0;animation:enter .26s ease-out forwards}@media (prefers-reduced-motion:reduce){.metric-enter{opacity:1;animation:none}}\n</style>");
    push_str(&mut body, "<rect width=\"835\" height=\"300\" rx=\"24\" fill=\"url(#stats-bg)\"/><rect x=\"1\" y=\"1\" width=\"833\" height=\"298\" rx=\"23\" fill=\"none\" stroke=\"#6558be\" stroke-opacity=\".68\" stroke-width=\"1.5\"/><text x=\"36\" y=\"48\" class=\"title\">GitHub Statistics</text><line x1=\"36\" y1=\"68\" x2=\"799\" y2=\"68\" class=\"rule\"/><path d=\"M650 297c38-21 74-25 104-17 21 6 37 2 52-10\" class=\"canvas-wave\"/>");
    body
}

fn render_unavailable_stats() -> (r: String)
    ensures
        r@ == unavailable_card_spec(GitHubCardKind::Stats),
{
    let mut body = stats_head();
    push_str(&mut body, "<rect x=\"28\" y=\"84\" width=\"779\" height=\"180\" rx=\"18\" class=\"empty-card\"/><text x=\"54\" y=\"155\" class=\"empty-title\">GitHub statistics are temporarily unavailable.</text><text x=\"54\" y=\"188\" class=\"empty-copy\">The service will keep the last known snapshot when one is available.</text>");
    push_str(&mut body, "</svg>");
    body
}

pub(crate) fn push_card_style(body: &mut String)
    ensures
        final(body)@ == old(body)@ + card_style_spec(),
{
    push_str(body, "<style>\n        .header{font:600 18px 'Segoe UI',Ubuntu,'Helvetica Neue',Sans-Serif;fill:#70A5FD;opacity:0;animation:fade .8s ease-in-out forwards}\n        .stat{font:600 14px 'Segoe UI',Ubuntu,'Helvetica Neue',Sans-Serif;fill:#38BDAE}\n        .stat-value{font-weight:700}\n        .stat-icon{font:700 15px 'Segoe UI Symbol','Segoe UI',Sans-Serif;fill:#BF91F3}\n        .lang{font:400 11px 'Segoe UI',Ubuntu,'Helvetica Neue',Sans-Serif;fill:#38BDAE}\n        .rank-rim{fill:none;stroke:#70A5FD;stroke-width:6;opacity:.2}\n        .rank-ring{fill:none;stroke:#70A5FD;stroke-width:6;stroke-linecap:round;opacity:.8;transform:rotate(-90deg);transform-origin:center}\n        .rank-level{font:800 24px 'Segoe UI',Ubuntu,Sans-Serif;fill:#38BDAE}\n        .rank-percent{font:600 10px 'Segoe UI',Ubuntu,Sans-Serif;fill:#A8A8A8}\n        .stale{font:400 10px 'Segoe UI',Ubuntu,Sans-Serif;fill:#A8A8A8}\n        .stagger{opacity:0;animation:fade .3s ease-in-out forwards}\n        @keyframes fade{from{opacity:0}to{opacity:1}}\n        </style>");
}

fn render_unavailable_frame(kind: GitHubCardKind) -> (r: String)
    requires
        kind != GitHubCardKind::Stats,
    ensures
        r@ == unavailable_card_spec(kind),
{
    let (width, height) = kind.dimensions();
    let mut body = String::new();
    push_card_open(&mut body, width, height, "GitHub stats unavailable");
    push_str(&mut body, "<style>\n        .header{font:600 18px 'Segoe UI',Ubuntu,'Helvetica Neue',Sans-Serif;fill:#70A5FD;opacity:0;animation:fade .8s ease-in-out forwards}\n        .stat{font:600 14px 'Segoe UI',Ubuntu,'Helvetica Neue',Sans-Serif;fill:#38BDAE}\n        .stat-value{font-weight:700}\n        .stat-icon{font:700 15px 'Segoe UI Symbol','Segoe UI',Sans-Serif;fill:#BF91F3}\n        .lang{font:400 11px 'Segoe UI',Ubuntu,'Helvetica Neue',Sans-Serif;fill:#38BDAE}\n        .rank-rim{fill:none;stroke:#70A5FD;stroke-width:6;opacity:.2}\n        .rank-ring{fill:none;stroke:#70A5FD;stroke-width:6;stroke-linecap:round;opacity:.8;transform:rotate(-90deg);transform-origin:center}\n        .rank-level{font:800 24px 'Segoe UI',Ubuntu,Sans-Serif;fill:#38BDAE}\n        .rank-percent{font:600 10px 'Segoe UI',Ubuntu,Sans-Serif;fill:#A8A8A8}\n        .stale{font:400 10px 'Segoe UI',Ubuntu,Sans-Serif;fill:#A8A8A8}\n        .stagger{opacity:0;animation:fade .3s ease-in-out forwards}\n        @keyframes fade{from{opacity:0}to{opacity:1}}\n        </style>");
    push_str(&mut body, "<rect width=\"");
    push_decimal(&mut body, width as u64);
    push_str(&mut body, "\" height=\"");
    push_decimal(&mut body, height as u64);
    push_str(&mut body, "\" rx=\"");
    push_decimal(
        &mut body,
        if kind == GitHubCardKind::Streak {
            24
        } else {
            5
        },
    );
    push_str(&mut body, "\" fill=\"#1A1B27\"/>");
    push_str(&mut body, "<text x=\"25\" y=\"42\" class=\"header\">GitHub stats</text><text x=\"25\" y=\"76\" class=\"stat\">Stats are temporarily unavailable.</text>");
    push_str(&mut body, "</svg>");
    proof {
        assert(body@ =~= unavailable_card_spec(kind));
    }
    body
}

/// A card's body without a snapshot.
pub fn render_unavailable_card(kind: GitHubCardKind) -> (r: String)
    ensures
        r@ == unavailable_card_spec(kind),
{
    match kind {
        GitHubCardKind::Stats => render_unavailable_stats(),
        _ => render_unavailable_frame(kind),
    }
}

/// A card without a snapshot: the unavailable body, tagged as unavailable, at
/// revision 0.
pub fn unavailable_card_document(kind: GitHubCardKind) -> (r: GitHubCardDocument)
    ensures
        r.model() == (DocumentModel {
            body: unavailable_card_spec(kind),
            etag: card_etag_spec(kind, None, false),
            stream_revision: 0,
        }),
{
    GitHubCardDocument::new(kind, render_unavailable_card(kind), None, false)
}

} // verus!
