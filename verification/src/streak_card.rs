//! The contribution-streak card: total contributions, the longest and the current
//! streak with their date ranges, the mascot and the campfire.
use vstd::prelude::*;

use crate::cards::{card_open_spec, date_range_spec, format_date_range, push_card_open, CampfireState, campfire_state};
use crate::cards::{card_etag_spec, unavailable_card_document, unavailable_card_spec, GitHubCardDocument, GitHubCardKind};
use crate::github::is_stale;
use crate::github_card::stale_at;
use crate::github_store::GitHubSnapshot;
use crate::svg::DocumentModel;
use crate::hero::{base64_standard, encode_base64};
use crate::text::{decimal_spec, escape_spec, owned, push_decimal, push_escaped, push_str};
use crate::text::{contains_seq, lemma_contains_after, lemma_contains_before, lemma_contains_between};

verus! {

/// What the streak card shows: the contribution counts, the date ranges as `YYYY-MM-DD`
/// texts where known, and today's contributions where known.
pub struct StreakFacts {
    pub total: u64,
    pub current_streak_days: u64,
    pub longest_streak_days: u64,
    pub calendar_start: Option<String>,
    pub calendar_end: Option<String>,
    pub current_streak_start: Option<String>,
    pub current_streak_end: Option<String>,
    pub longest_streak_start: Option<String>,
    pub longest_streak_end: Option<String>,
    pub today_contributions: Option<u64>,
}

/// The value of `StreakFacts`.
pub struct StreakModel {
    pub total: u64,
    pub current_streak_days: u64,
    pub longest_streak_days: u64,
    pub calendar_start: Option<Seq<char>>,
    pub calendar_end: Option<Seq<char>>,
    pub current_streak_start: Option<Seq<char>>,
    pub current_streak_end: Option<Seq<char>>,
    pub longest_streak_start: Option<Seq<char>>,
    pub longest_streak_end: Option<Seq<char>>,
    pub today_contributions: Option<u64>,
}

impl DeepView for StreakFacts {
    type V = StreakModel;

    open spec fn deep_view(&self) -> StreakModel {
        StreakModel {
            total: self.total,
            current_streak_days: self.current_streak_days,
            longest_streak_days: self.longest_streak_days,
            calendar_start: self.calendar_start.deep_view(),
            calendar_end: self.calendar_end.deep_view(),
            current_streak_start: self.current_streak_start.deep_view(),
            current_streak_end: self.current_streak_end.deep_view(),
            longest_streak_start: self.longest_streak_start.deep_view(),
            longest_streak_end: self.longest_streak_end.deep_view(),
            today_contributions: self.today_contributions,
        }
    }
}

/// The campfire state of the card.
pub open spec fn campfire_spec(today: Option<u64>, stale: bool) -> CampfireState {
    if stale {
        CampfireState::Unknown
    } else {
        match today {
            Some(count) => if count > 0 {
                CampfireState::Lit
            } else {
                CampfireState::Out
            },
            None => CampfireState::Unknown,
        }
    }
}

/// The campfire drawing of a state.
pub open spec fn campfire_drawing(state: CampfireState) -> Seq<char> {
    "<g transform=\"translate(515 238)\"><ellipse cx=\"0\" cy=\"29\" rx=\"58\" ry=\"17\" fill=\"#060810\" opacity=\".72\"/><ellipse cx=\"-31\" cy=\"23\" rx=\"19\" ry=\"9\" fill=\"#343545\"/><ellipse cx=\"31\" cy=\"23\" rx=\"19\" ry=\"9\" fill=\"#343545\"/><ellipse cx=\"-50\" cy=\"27\" rx=\"16\" ry=\"8\" fill=\"#292b38\"/><ellipse cx=\"50\" cy=\"27\" rx=\"16\" ry=\"8\" fill=\"#292b38\"/><rect x=\"-41\" y=\"14\" width=\"83\" height=\"12\" rx=\"6\" fill=\"#5a352b\" transform=\"rotate(16)\"/><rect x=\"-41\" y=\"14\" width=\"83\" height=\"12\" rx=\"6\" fill=\"#6a3f2e\" transform=\"rotate(-16)\"/>"@ + (match state {
        CampfireState::Lit => "<g id=\"campfire-lit\"><ellipse class=\"fire-glow-motion\" cx=\"0\" cy=\"0\" rx=\"64\" ry=\"45\" fill=\"#ff7b4d\" opacity=\".42\" filter=\"url(#fire-glow)\"/><g class=\"fire-ignite\"><g transform=\"scale(1.22 1)\"><g class=\"flame-motion\"><g class=\"flame-outer-motion\"><path d=\"M0 19C-26 12-31-10-18-29C-10-41-8-52-7-65C7-55 16-43 15-29C25-23 31-11 26 2C22 13 12 19 0 19Z\" fill=\"url(#flame-outer)\"/></g><g class=\"flame-inner-motion\"><path d=\"M1 16C-13 10-16-3-9-14C-3-23-2-30 0-39C10-30 15-20 11-11C18-6 18 5 13 11C10 14 6 16 1 16Z\" fill=\"url(#flame-inner)\"/></g></g></g></g><circle class=\"ember\" cx=\"-18\" cy=\"-19\" r=\"3\" fill=\"#ffcf66\"/><circle class=\"ember ember-2\" cx=\"14\" cy=\"-14\" r=\"2.5\" fill=\"#ff8b4b\"/><circle class=\"ember ember-3\" cx=\"-4\" cy=\"-24\" r=\"2\" fill=\"#ffd979\"/><circle class=\"ember ember-4\" cx=\"22\" cy=\"-9\" r=\"2\" fill=\"#f7a5ff\"/></g>"@,
        CampfireState::Out => "<g id=\"campfire-out\"><ellipse cx=\"0\" cy=\"4\" rx=\"31\" ry=\"12\" fill=\"#424550\" opacity=\".46\"/><path id=\"smoke-plume-main\" d=\"M-7 3C-16-8-14-19-4-27C5-35 7-43 2-51C-4-60-1-69 8-76C5-65 15-59 14-48C13-36 2-32 1-22C0-13 8-7 7 3Z\" fill=\"url(#smoke-plume)\" filter=\"url(#smoke-soft)\"/><path id=\"smoke-plume-side\" d=\"M13 5C6-5 7-14 14-22C21-30 22-38 17-45C13-51 15-58 21-63C19-54 27-49 25-40C23-31 15-28 15-20C15-11 20-4 19 5Z\" fill=\"url(#smoke-wisp)\" filter=\"url(#smoke-soft)\"/><circle cx=\"-6\" cy=\"-1\" r=\"3\" fill=\"#777b86\" opacity=\".5\"/></g>"@,
        CampfireState::Unknown => "<g id=\"campfire-unknown\"><ellipse cx=\"0\" cy=\"3\" rx=\"34\" ry=\"13\" fill=\"#4d4962\" opacity=\".34\"/><path id=\"smoke-plume-main-unknown\" d=\"M-6 3C-14-7-13-17-4-25C4-32 6-40 2-47C-3-55-1-63 7-69C4-60 13-54 12-44C11-34 2-29 1-20C0-12 7-6 6 3Z\" fill=\"url(#smoke-plume)\" opacity=\".62\" filter=\"url(#smoke-soft)\"/><path d=\"M12 5C7-4 8-13 14-20C19-27 20-34 17-40C14-46 15-52 20-57C18-49 24-45 23-37C21-29 15-26 15-18C15-10 19-4 18 5Z\" fill=\"url(#smoke-wisp)\" opacity=\".46\" filter=\"url(#smoke-soft)\"/></g>"@,
    }) + "</g>"@
}

fn push_campfire(body: &mut String, state: CampfireState)
    ensures
        final(body)@ == old(body)@ + campfire_drawing(state),
{
    let ghost start = body@;
    push_str(body, "<g transform=\"translate(515 238)\"><ellipse cx=\"0\" cy=\"29\" rx=\"58\" ry=\"17\" fill=\"#060810\" opacity=\".72\"/><ellipse cx=\"-31\" cy=\"23\" rx=\"19\" ry=\"9\" fill=\"#343545\"/><ellipse cx=\"31\" cy=\"23\" rx=\"19\" ry=\"9\" fill=\"#343545\"/><ellipse cx=\"-50\" cy=\"27\" rx=\"16\" ry=\"8\" fill=\"#292b38\"/><ellipse cx=\"50\" cy=\"27\" rx=\"16\" ry=\"8\" fill=\"#292b38\"/><rect x=\"-41\" y=\"14\" width=\"83\" height=\"12\" rx=\"6\" fill=\"#5a352b\" transform=\"rotate(16)\"/><rect x=\"-41\" y=\"14\" width=\"83\" height=\"12\" rx=\"6\" fill=\"#6a3f2e\" transform=\"rotate(-16)\"/>");
    match state {
        CampfireState::Lit => push_str(body, "<g id=\"campfire-lit\"><ellipse class=\"fire-glow-motion\" cx=\"0\" cy=\"0\" rx=\"64\" ry=\"45\" fill=\"#ff7b4d\" opacity=\".42\" filter=\"url(#fire-glow)\"/><g class=\"fire-ignite\"><g transform=\"scale(1.22 1)\"><g class=\"flame-motion\"><g class=\"flame-outer-motion\"><path d=\"M0 19C-26 12-31-10-18-29C-10-41-8-52-7-65C7-55 16-43 15-29C25-23 31-11 26 2C22 13 12 19 0 19Z\" fill=\"url(#flame-outer)\"/></g><g class=\"flame-inner-motion\"><path d=\"M1 16C-13 10-16-3-9-14C-3-23-2-30 0-39C10-30 15-20 11-11C18-6 18 5 13 11C10 14 6 16 1 16Z\" fill=\"url(#flame-inner)\"/></g></g></g></g><circle class=\"ember\" cx=\"-18\" cy=\"-19\" r=\"3\" fill=\"#ffcf66\"/><circle class=\"ember ember-2\" cx=\"14\" cy=\"-14\" r=\"2.5\" fill=\"#ff8b4b\"/><circle class=\"ember ember-3\" cx=\"-4\" cy=\"-24\" r=\"2\" fill=\"#ffd979\"/><circle class=\"ember ember-4\" cx=\"22\" cy=\"-9\" r=\"2\" fill=\"#f7a5ff\"/></g>"),
        CampfireState::Out => push_str(body, "<g id=\"campfire-out\"><ellipse cx=\"0\" cy=\"4\" rx=\"31\" ry=\"12\" fill=\"#424550\" opacity=\".46\"/><path id=\"smoke-plume-main\" d=\"M-7 3C-16-8-14-19-4-27C5-35 7-43 2-51C-4-60-1-69 8-76C5-65 15-59 14-48C13-36 2-32 1-22C0-13 8-7 7 3Z\" fill=\"url(#smoke-plume)\" filter=\"url(#smoke-soft)\"/><path id=\"smoke-plume-side\" d=\"M13 5C6-5 7-14 14-22C21-30 22-38 17-45C13-51 15-58 21-63C19-54 27-49 25-40C23-31 15-28 15-20C15-11 20-4 19 5Z\" fill=\"url(#smoke-wisp)\" filter=\"url(#smoke-soft)\"/><circle cx=\"-6\" cy=\"-1\" r=\"3\" fill=\"#777b86\" opacity=\".5\"/></g>"),
        CampfireState::Unknown => push_str(body, "<g id=\"campfire-unknown\"><ellipse cx=\"0\" cy=\"3\" rx=\"34\" ry=\"13\" fill=\"#4d4962\" opacity=\".34\"/><path id=\"smoke-plume-main-unknown\" d=\"M-6 3C-14-7-13-17-4-25C4-32 6-40 2-47C-3-55-1-63 7-69C4-60 13-54 12-44C11-34 2-29 1-20C0-12 7-6 6 3Z\" fill=\"url(#smoke-plume)\" opacity=\".62\" filter=\"url(#smoke-soft)\"/><path d=\"M12 5C7-4 8-13 14-20C19-27 20-34 17-40C14-46 15-52 20-57C18-49 24-45 23-37C21-29 15-26 15-18C15-10 19-4 18 5Z\" fill=\"url(#smoke-wisp)\" opacity=\".46\" filter=\"url(#smoke-soft)\"/></g>"),
    }
    push_str(body, "</g>");
    proof {
        assert(body@ =~= start + campfire_drawing(state));
    }
}

/// The drawing definitions and style of the streak card.
pub open spec fn streak_defs_spec() -> Seq<char> {
    "<defs>\n<linearGradient id=\"streak-bg\" x1=\"0\" y1=\"0\" x2=\"1\" y2=\"1\"><stop offset=\"0\" stop-color=\"#090d18\"/><stop offset=\".5\" stop-color=\"#101225\"/><stop offset=\"1\" stop-color=\"#090d18\"/></linearGradient>\n<radialGradient id=\"center-ambient\"><stop offset=\"0\" stop-color=\"#432b72\" stop-opacity=\".42\"/><stop offset=\".56\" stop-color=\"#2a2254\" stop-opacity=\".16\"/><stop offset=\"1\" stop-color=\"#0b0f1d\" stop-opacity=\"0\"/></radialGradient>\n<linearGradient id=\"divider-left\" x1=\"0\" y1=\"0\" x2=\"0\" y2=\"1\"><stop offset=\"0\" stop-color=\"#8c91b1\" stop-opacity=\"0\"/><stop offset=\".22\" stop-color=\"#8c91b1\" stop-opacity=\".36\"/><stop offset=\".78\" stop-color=\"#8c91b1\" stop-opacity=\".36\"/><stop offset=\"1\" stop-color=\"#8c91b1\" stop-opacity=\"0\"/></linearGradient>\n<linearGradient id=\"divider-right\" x1=\"0\" y1=\"0\" x2=\"0\" y2=\"1\"><stop offset=\"0\" stop-color=\"#8c91b1\" stop-opacity=\"0\"/><stop offset=\".22\" stop-color=\"#8c91b1\" stop-opacity=\".36\"/><stop offset=\".78\" stop-color=\"#8c91b1\" stop-opacity=\".36\"/><stop offset=\"1\" stop-color=\"#8c91b1\" stop-opacity=\"0\"/></linearGradient>\n<linearGradient id=\"flame-outer\" x1=\"0\" y1=\"1\" x2=\"0\" y2=\"0\"><stop offset=\"0\" stop-color=\"#ff6b3d\"/><stop offset=\".52\" stop-color=\"#ff9f43\"/><stop offset=\"1\" stop-color=\"#ffd66b\"/></linearGradient>\n<linearGradient id=\"flame-inner\" x1=\"0\" y1=\"1\" x2=\"0\" y2=\"0\"><stop offset=\"0\" stop-color=\"#8e5cff\"/><stop offset=\".54\" stop-color=\"#ff7f50\"/><stop offset=\"1\" stop-color=\"#fff0a7\"/></linearGradient>\n<linearGradient id=\"number-gradient\" x1=\"0\" y1=\"0\" x2=\"1\" y2=\"0\"><stop offset=\"0\" stop-color=\"#b68cff\"/><stop offset=\".55\" stop-color=\"#d48cff\"/><stop offset=\"1\" stop-color=\"#ffbd68\"/></linearGradient>\n<linearGradient id=\"smoke-plume\" x1=\"0\" y1=\"6\" x2=\"0\" y2=\"-78\" gradientUnits=\"userSpaceOnUse\"><stop offset=\"0\" stop-color=\"#777d91\" stop-opacity=\".34\"/><stop offset=\".48\" stop-color=\"#9299b1\" stop-opacity=\".22\"/><stop offset=\"1\" stop-color=\"#c0c6db\" stop-opacity=\"0\"/></linearGradient>\n<linearGradient id=\"smoke-wisp\" x1=\"0\" y1=\"5\" x2=\"0\" y2=\"-66\" gradientUnits=\"userSpaceOnUse\"><stop offset=\"0\" stop-color=\"#6f758a\" stop-opacity=\".26\"/><stop offset=\".5\" stop-color=\"#9ba2ba\" stop-opacity=\".16\"/><stop offset=\"1\" stop-color=\"#c4cadc\" stop-opacity=\"0\"/></linearGradient>\n<filter id=\"fire-glow\" x=\"-80%\" y=\"-80%\" width=\"260%\" height=\"260%\"><feGaussianBlur stdDeviation=\"10\"/></filter>\n<filter id=\"number-glow\" x=\"-30%\" y=\"-70%\" width=\"160%\" height=\"240%\"><feDropShadow dx=\"0\" dy=\"0\" stdDeviation=\"6\" flood-color=\"#ff9b55\" flood-opacity=\".42\"/></filter>\n<filter id=\"smoke-soft\" x=\"-40%\" y=\"-30%\" width=\"180%\" height=\"170%\"><feGaussianBlur stdDeviation=\"1.35\"/></filter>\n</defs>\n<style>\n.streak-title{font:700 19px 'Segoe UI',Ubuntu,Sans-Serif;fill:#eef0ff;letter-spacing:.2px}\n.side-number{font:700 39px 'Segoe UI',Ubuntu,Sans-Serif;fill:#76a7ff}\n.side-label{font:600 17px 'Segoe UI',Ubuntu,Sans-Serif;fill:#76a7ff}\n.current-number{font:800 48px 'Segoe UI',Ubuntu,Sans-Serif}\n.current-number-lit{fill:url(#number-gradient);filter:url(#number-glow)}\n.current-number-muted{fill:#8d93a8}\n.current-label{font:700 18px 'Segoe UI',Ubuntu,Sans-Serif;fill:#c38cff}\n.range{font:500 12px 'Segoe UI',Ubuntu,Sans-Serif;fill:#46d4cc}\n.current-range{font-size:13px}\n.stale-note{font:500 10px 'Segoe UI',Ubuntu,Sans-Serif;fill:#8d94b8}\n.star{fill:#aa92ff;opacity:.62}\n.fade{opacity:0;animation:fade-in .48s ease-out forwards}\n.fire-ignite{transform-box:fill-box;transform-origin:center bottom;animation:ignite .78s cubic-bezier(.18,.78,.25,1) both}\n.flame-motion{transform-box:fill-box;transform-origin:center bottom;animation:flame-body 2.8s .78s ease-in-out infinite}\n.flame-outer-motion{transform-box:fill-box;transform-origin:center bottom;animation:flame-outer 2.8s .78s ease-in-out infinite}\n.flame-inner-motion{transform-box:fill-box;transform-origin:center bottom;animation:flame-inner 2.8s .78s ease-in-out infinite}\n.fire-glow-motion{transform-box:fill-box;transform-origin:center;animation:glow-pulse 2.8s .78s ease-in-out infinite}\n.ember{opacity:0;animation:ember-rise 2.2s ease-out infinite}.ember-2{animation-delay:.55s}.ember-3{animation-delay:1.15s}.ember-4{animation-delay:1.6s}\n@keyframes fade-in{from{opacity:0}to{opacity:1}}\n@keyframes ignite{0%{opacity:.12;transform:translateY(6px) scale(.68,.58)}55%{opacity:1;transform:translateY(-2px) scale(1.06,1.1)}100%{opacity:1;transform:translateY(0) scale(1)}}\n@keyframes flame-body{0%{transform:translateY(0) rotate(-.7deg) scale(1)}45%{transform:translateY(-1.5px) rotate(.8deg) scale(1.015,1.025)}75%{transform:translateY(-.5px) rotate(.15deg) scale(1.008,1.012)}100%{transform:translateY(0) rotate(-.7deg) scale(1)}}\n@keyframes flame-outer{0%{opacity:.97;transform:scale(1)}45%{opacity:1;transform:scale(1.015,1.03)}75%{opacity:.99;transform:scale(1.008,1.015)}100%{opacity:.97;transform:scale(1)}}\n@keyframes flame-inner{0%{opacity:.92;transform:scale(1)}45%{opacity:1;transform:scale(1.01,1.045)}75%{opacity:.96;transform:scale(1.005,1.02)}100%{opacity:.92;transform:scale(1)}}\n@keyframes glow-pulse{0%{opacity:.34;transform:scale(.96,.94)}45%{opacity:.52;transform:scale(1.05,1.02)}75%{opacity:.42;transform:scale(1,.98)}100%{opacity:.34;transform:scale(.96,.94)}}\n@keyframes ember-rise{0%{opacity:0;transform:translate(0,0)}18%{opacity:.95}100%{opacity:0;transform:translate(8px,-58px)}}\n</style>"@
}

/// The frame, dividers, title and stars of the streak card.
pub open spec fn streak_frame_spec() -> Seq<char> {
    "<rect width=\"835\" height=\"370\" rx=\"24\" fill=\"url(#streak-bg)\"/><rect x=\"1\" y=\"1\" width=\"833\" height=\"368\" rx=\"23\" fill=\"none\" stroke=\"#6d5ed0\" stroke-opacity=\".58\" stroke-width=\"1.5\"/><ellipse cx=\"505\" cy=\"225\" rx=\"168\" ry=\"120\" fill=\"url(#center-ambient)\" opacity=\".72\"/><line x1=\"210\" y1=\"78\" x2=\"210\" y2=\"318\" stroke=\"url(#divider-left)\"/><line x1=\"625\" y1=\"78\" x2=\"625\" y2=\"318\" stroke=\"url(#divider-right)\"/><line x1=\"245\" y1=\"33\" x2=\"337\" y2=\"33\" stroke=\"#685ac1\" stroke-opacity=\".42\"/><line x1=\"498\" y1=\"33\" x2=\"590\" y2=\"33\" stroke=\"#685ac1\" stroke-opacity=\".42\"/><text x=\"417.5\" y=\"40\" text-anchor=\"middle\" class=\"streak-title\">Contribution Streak</text><circle cx=\"82\" cy=\"52\" r=\"1.5\" class=\"star\"/><circle cx=\"183\" cy=\"301\" r=\"1.2\" class=\"star\"/><circle cx=\"652\" cy=\"68\" r=\"1.4\" class=\"star\"/><circle cx=\"780\" cy=\"292\" r=\"1.3\" class=\"star\"/>"@
}

/// The side columns: total contributions with the calendar's range (always with years),
/// and the longest streak with its range.
pub open spec fn streak_sides_spec(f: StreakModel) -> Seq<char> {
    "<g class=\"fade\"><text x=\"105\" y=\"151\" text-anchor=\"middle\" class=\"side-number\">"@ + decimal_spec(
        f.total as nat,
    ) + "</text><text x=\"105\" y=\"187\" text-anchor=\"middle\" class=\"side-label\">Total Contributions</text><text x=\"105\" y=\"216\" text-anchor=\"middle\" class=\"range\">"@
        + escape_spec(date_range_spec(f.calendar_start, f.calendar_end, true)) + "</text></g>"@
        + "<g class=\"fade\" style=\"animation-delay:180ms\"><text x=\"730\" y=\"151\" text-anchor=\"middle\" class=\"side-number\">"@
        + decimal_spec(f.longest_streak_days as nat)
        + "</text><text x=\"730\" y=\"187\" text-anchor=\"middle\" class=\"side-label\">Longest Streak</text><text x=\"730\" y=\"216\" text-anchor=\"middle\" class=\"range\">"@
        + escape_spec(date_range_spec(f.longest_streak_start, f.longest_streak_end, false)) + "</text></g>"@
}

/// The mascot image: lit where the campfire is lit, out otherwise.
pub open spec fn mascot_spec(lit: bool, uri: Seq<char>) -> Seq<char> {
    "<image data-mascot-state=\""@ + (if lit {
        "lit"@
    } else {
        "out"@
    }) + "\" x=\"222\" y=\"55\" width=\"292\" height=\"292\" href=\""@ + escape_spec(uri)
        + "\" preserveAspectRatio=\"xMidYMid meet\" opacity=\".98\"/>"@
}

/// The current streak with its range, highlighted where the campfire is lit.
pub open spec fn current_streak_spec(f: StreakModel, lit: bool) -> Seq<char> {
    "<text x=\"515\" y=\"128\" text-anchor=\"middle\" class=\""@ + (if lit {
        "current-number current-number-lit"@
    } else {
        "current-number current-number-muted"@
    }) + "\">"@ + decimal_spec(f.current_streak_days as nat)
        + "</text><text x=\"515\" y=\"309\" text-anchor=\"middle\" class=\"current-label\">Current Streak</text><text x=\"515\" y=\"336\" text-anchor=\"middle\" class=\"range current-range\">"@
        + escape_spec(date_range_spec(f.current_streak_start, f.current_streak_end, false)) + "</text>"@
}

/// The streak card.
pub open spec fn streak_svg_spec(f: StreakModel, stale: bool, lit_uri: Seq<char>, out_uri: Seq<char>) -> Seq<char> {
    let state = campfire_spec(f.today_contributions, stale);
    let lit = state == CampfireState::Lit;
    card_open_spec(835, 370, "GitHub contribution streak"@) + streak_defs_spec() + streak_frame_spec()
        + streak_sides_spec(f) + mascot_spec(lit, if lit {
        lit_uri
    } else {
        out_uri
    }) + campfire_drawing(state) + current_streak_spec(f, lit) + (if stale {
        "<text x=\"817\" y=\"352\" text-anchor=\"end\" class=\"stale-note\">last known</text>"@
    } else {
        Seq::empty()
    }) + "</svg>"@
}

/// The left column: the total contributions above their label.
pub open spec fn total_column(total: u64) -> Seq<char> {
    "<g class=\"fade\"><text x=\"105\" y=\"151\" text-anchor=\"middle\" class=\"side-number\">"@ + decimal_spec(total as nat)
        + "</text><text x=\"105\" y=\"187\" text-anchor=\"middle\" class=\"side-label\">Total Contributions</text><text x=\"105\" y=\"216\" text-anchor=\"middle\" class=\"range\">"@
}

/// The right column: the longest streak above its label.
pub open spec fn longest_column(days: u64) -> Seq<char> {
    "<g class=\"fade\" style=\"animation-delay:180ms\"><text x=\"730\" y=\"151\" text-anchor=\"middle\" class=\"side-number\">"@
        + decimal_spec(days as nat)
        + "</text><text x=\"730\" y=\"187\" text-anchor=\"middle\" class=\"side-label\">Longest Streak</text><text x=\"730\" y=\"216\" text-anchor=\"middle\" class=\"range\">"@
}

/// The middle: the current streak above its label.
pub open spec fn current_column(days: u64) -> Seq<char> {
    "\">"@ + decimal_spec(days as nat)
        + "</text><text x=\"515\" y=\"309\" text-anchor=\"middle\" class=\"current-label\">Current Streak</text><text x=\"515\" y=\"336\" text-anchor=\"middle\" class=\"range current-range\">"@
}

proof fn lemma_columns(f: StreakModel, lit: bool)
    ensures
        contains_seq(streak_sides_spec(f), total_column(f.total)),
        contains_seq(streak_sides_spec(f), longest_column(f.longest_streak_days)),
        contains_seq(current_streak_spec(f, lit), current_column(f.current_streak_days)),
{
    let r1 = escape_spec(date_range_spec(f.calendar_start, f.calendar_end, true)) + "</text></g>"@;
    let r2 = escape_spec(date_range_spec(f.longest_streak_start, f.longest_streak_end, false)) + "</text></g>"@;
    let t = total_column(f.total);
    let l = longest_column(f.longest_streak_days);
    assert(streak_sides_spec(f) =~= Seq::empty() + t + (r1 + l + r2));
    lemma_contains_between(Seq::empty(), t, r1 + l + r2);
    assert(streak_sides_spec(f) =~= (t + r1) + l + r2);
    lemma_contains_between(t + r1, l, r2);
    let c = current_column(f.current_streak_days);
    let lead = "<text x=\"515\" y=\"128\" text-anchor=\"middle\" class=\""@ + (if lit {
        "current-number current-number-lit"@
    } else {
        "current-number current-number-muted"@
    });
    let range = escape_spec(date_range_spec(f.current_streak_start, f.current_streak_end, false)) + "</text>"@;
    assert(current_streak_spec(f, lit) =~= lead + c + range);
    lemma_contains_between(lead, c, range);
}

/// The streak card writes each figure above the label that names it: the total
/// contributions above "Total Contributions", the longest streak above "Longest
/// Streak", and the current streak above "Current Streak".
pub proof fn law_streak_figures_stand_above_their_labels(
    f: StreakModel,
    stale: bool,
    lit_uri: Seq<char>,
    out_uri: Seq<char>,
)
    ensures
        contains_seq(streak_svg_spec(f, stale, lit_uri, out_uri), total_column(f.total)),
        contains_seq(streak_svg_spec(f, stale, lit_uri, out_uri), longest_column(f.longest_streak_days)),
        contains_seq(streak_svg_spec(f, stale, lit_uri, out_uri), current_column(f.current_streak_days)),
{
    let state = campfire_spec(f.today_contributions, stale);
    let lit = state == CampfireState::Lit;
    lemma_columns(f, lit);
    let head = card_open_spec(835, 370, "GitHub contribution streak"@) + streak_defs_spec() + streak_frame_spec();
    let mascot = mascot_spec(lit, if lit {
        lit_uri
    } else {
        out_uri
    });
    let fire = campfire_drawing(state);
    let cur = current_streak_spec(f, lit);
    let mark = if stale {
        "<text x=\"817\" y=\"352\" text-anchor=\"end\" class=\"stale-note\">last known</text>"@
    } else {
        Seq::empty()
    };
    let sides = streak_sides_spec(f);
    let end = "</svg>"@;
    let t = total_column(f.total);
    lemma_contains_after(head, sides, t);
    lemma_contains_before(head + sides, mascot, t);
    lemma_contains_before(head + sides + mascot, fire, t);
    lemma_contains_before(head + sides + mascot + fire, cur, t);
    lemma_contains_before(head + sides + mascot + fire + cur, mark, t);
    lemma_contains_before(head + sides + mascot + fire + cur + mark, end, t);
    let l = longest_column(f.longest_streak_days);
    lemma_contains_after(head, sides, l);
    lemma_contains_before(head + sides, mascot, l);
    lemma_contains_before(head + sides + mascot, fire, l);
    lemma_contains_before(head + sides + mascot + fire, cur, l);
    lemma_contains_before(head + sides + mascot + fire + cur, mark, l);
    lemma_contains_before(head + sides + mascot + fire + cur + mark, end, l);
    let c = current_column(f.current_streak_days);
    lemma_contains_after(head + sides + mascot + fire, cur, c);
    lemma_contains_before(head + sides + mascot + fire + cur, mark, c);
    lemma_contains_before(head + sides + mascot + fire + cur + mark, end, c);
}

/// The streak card shows the lit mascot exactly when the snapshot is fresh and has
/// contributions today, and the extinguished one otherwise; a stale snapshot is marked
/// as last known.
pub proof fn law_mascot_follows_today(f: StreakModel, stale: bool, lit_uri: Seq<char>, out_uri: Seq<char>)
    ensures
        ({
            let svg = streak_svg_spec(f, stale, lit_uri, out_uri);
            let today = f.today_contributions;
            let lit = !stale && today is Some && today->0 > 0;
            &&& lit ==> contains_seq(svg, mascot_spec(true, lit_uri))
            &&& !lit ==> contains_seq(svg, mascot_spec(false, out_uri))
            &&& stale ==> contains_seq(
                svg,
                "<text x=\"817\" y=\"352\" text-anchor=\"end\" class=\"stale-note\">last known</text>"@,
            )
        }),
{
    let state = campfire_spec(f.today_contributions, stale);
    let lit = state == CampfireState::Lit;
    let head = card_open_spec(835, 370, "GitHub contribution streak"@) + streak_defs_spec() + streak_frame_spec()
        + streak_sides_spec(f);
    let mascot = mascot_spec(lit, if lit {
        lit_uri
    } else {
        out_uri
    });
    let rest = campfire_drawing(state) + current_streak_spec(f, lit);
    let mark = if stale {
        "<text x=\"817\" y=\"352\" text-anchor=\"end\" class=\"stale-note\">last known</text>"@
    } else {
        Seq::empty()
    };
    let end = "</svg>"@;
    let svg = streak_svg_spec(f, stale, lit_uri, out_uri);
    assert(svg =~= head + mascot + (rest + mark + end));
    lemma_contains_between(head, mascot, rest + mark + end);
    assert(svg =~= (head + mascot + rest) + mark + end);
    lemma_contains_between(head + mascot + rest, mark, end);
}

fn opt_str(o: &Option<String>) -> (r: Option<&str>)
    ensures
        match r {
            Some(s) => o.deep_view() == Some(s@),
            None => o is None,
        },
{
    match o {
        Some(s) => Some(s.as_str()),
        None => None,
    }
}

#[verifier::rlimit(40)]
fn push_sides(body: &mut String, f: &StreakFacts)
    ensures
        final(body)@ == old(body)@ + streak_sides_spec(f.deep_view()),
{
    let ghost start = body@;
    let total_range = format_date_range(opt_str(&f.calendar_start), opt_str(&f.calendar_end), true);
    let longest_range = format_date_range(opt_str(&f.longest_streak_start), opt_str(&f.longest_streak_end), false);
    push_str(body, "<g class=\"fade\"><text x=\"105\" y=\"151\" text-anchor=\"middle\" class=\"side-number\">");
    push_decimal(body, f.total);
    push_str(body, "</text><text x=\"105\" y=\"187\" text-anchor=\"middle\" class=\"side-label\">Total Contributions</text><text x=\"105\" y=\"216\" text-anchor=\"middle\" class=\"range\">");
    push_escaped(body, total_range.as_str());
    push_str(body, "</text></g>");
    push_str(body, "<g class=\"fade\" style=\"animation-delay:180ms\"><text x=\"730\" y=\"151\" text-anchor=\"middle\" class=\"side-number\">");
    push_decimal(body, f.longest_streak_days);
    push_str(body, "</text><text x=\"730\" y=\"187\" text-anchor=\"middle\" class=\"side-label\">Longest Streak</text><text x=\"730\" y=\"216\" text-anchor=\"middle\" class=\"range\">");
    push_escaped(body, longest_range.as_str());
    push_str(body, "</text></g>");
    proof {
        assert(body@ =~= start + streak_sides_spec(f.deep_view()));
    }
}

fn push_mascot(body: &mut String, lit: bool, uri: &str)
    ensures
        final(body)@ == old(body)@ + mascot_spec(lit, uri@),
{
    let ghost start = body@;
    push_str(body, "<image data-mascot-state=\"");
    push_str(
        body,
        if lit {
            "lit"
        } else {
            "out"
        },
    );
    push_str(body, "\" x=\"222\" y=\"55\" width=\"292\" height=\"292\" href=\"");
    push_escaped(body, uri);
    push_str(body, "\" preserveAspectRatio=\"xMidYMid meet\" opacity=\".98\"/>");
    proof {
        assert(body@ =~= start + mascot_spec(lit, uri@));
    }
}

fn push_current(body: &mut String, f: &StreakFacts, lit: bool)
    ensures
        final(body)@ == old(body)@ + current_streak_spec(f.deep_view(), lit),
{
    let ghost start = body@;
    let range = format_date_range(opt_str(&f.current_streak_start), opt_str(&f.current_streak_end), false);
    push_str(body, "<text x=\"515\" y=\"128\" text-anchor=\"middle\" class=\"");
    push_str(
        body,
        if lit {
            "current-number current-number-lit"
        } else {
            "current-number current-number-muted"
        },
    );
    push_str(body, "\">");
    push_decimal(body, f.current_streak_days);
    push_str(body, "</text><text x=\"515\" y=\"309\" text-anchor=\"middle\" class=\"current-label\">Current Streak</text><text x=\"515\" y=\"336\" text-anchor=\"middle\" class=\"range current-range\">");
    push_escaped(body, range.as_str());
    push_str(body, "</text>");
    proof {
        assert(body@ =~= start + current_streak_spec(f.deep_view(), lit));
    }
}

/// The data URI of a mascot image.
pub open spec fn mascot_uri_spec(webp: Seq<u8>) -> Seq<char> {
    "data:image/webp;base64,"@ + base64_standard(webp)
}

/// The streak card's document: for a snapshot, the card marked stale once the snapshot
/// is older than `stale_after_ms`, tagged with the snapshot's revision and freshness;
/// without one, the unavailable card.
pub open spec fn streak_document_spec(
    snapshot: Option<GitHubSnapshot>,
    f: StreakModel,
    now_unix_ms: u64,
    stale_after_ms: u64,
    lit_uri: Seq<char>,
    out_uri: Seq<char>,
) -> DocumentModel {
    match snapshot {
        Some(s) => {
            let stale = stale_at(s.collected_at_unix_ms, now_unix_ms, stale_after_ms);
            DocumentModel {
                body: streak_svg_spec(f, stale, lit_uri, out_uri),
                etag: card_etag_spec(GitHubCardKind::Streak, Some(s.revision), stale),
                stream_revision: s.revision,
            }
        },
        None => DocumentModel {
            body: unavailable_card_spec(GitHubCardKind::Streak),
            etag: card_etag_spec(GitHubCardKind::Streak, None, false),
            stream_revision: 0,
        },
    }
}

/// Renders the streak card with the two mascot images, kept as data URIs.
pub struct StreakRenderer {
    lit_uri: String,
    out_uri: String,
}

impl StreakRenderer {
    pub closed spec fn lit_view(&self) -> Seq<char> {
        self.lit_uri@
    }

    pub closed spec fn out_view(&self) -> Seq<char> {
        self.out_uri@
    }

    /// A renderer for the lit and the extinguished mascot (WebP images).
    pub fn new(lit_webp: &[u8], out_webp: &[u8]) -> (r: Self)
        requires
            lit_webp@.len() <= usize::MAX / 4 * 3,
            out_webp@.len() <= usize::MAX / 4 * 3,
        ensures
            r.lit_view() == mascot_uri_spec(lit_webp@),
            r.out_view() == mascot_uri_spec(out_webp@),
    {
        let mut lit_uri = owned("data:image/webp;base64,");
        let lit = encode_base64(lit_webp);
        push_str(&mut lit_uri, lit.as_str());
        let mut out_uri = owned("data:image/webp;base64,");
        let out = encode_base64(out_webp);
        push_str(&mut out_uri, out.as_str());
        StreakRenderer { lit_uri, out_uri }
    }

    /// The streak card: the campfire is lit where there are contributions today, out
    /// where today has none, and unknown for a stale snapshot or an unknown day; a stale
    /// snapshot is marked as last known.
    pub fn render(&self, facts: &StreakFacts, stale: bool) -> (r: String)
        ensures
            r@ == streak_svg_spec(facts.deep_view(), stale, self.lit_view(), self.out_view()),
    {
        let mut body = String::new();
        push_card_open(&mut body, 835, 370, "GitHub contribution streak");
        push_str(&mut body, "<defs>\n<linearGradient id=\"streak-bg\" x1=\"0\" y1=\"0\" x2=\"1\" y2=\"1\"><stop offset=\"0\" stop-color=\"#090d18\"/><stop offset=\".5\" stop-color=\"#101225\"/><stop offset=\"1\" stop-color=\"#090d18\"/></linearGradient>\n<radialGradient id=\"center-ambient\"><stop offset=\"0\" stop-color=\"#432b72\" stop-opacity=\".42\"/><stop offset=\".56\" stop-color=\"#2a2254\" stop-opacity=\".16\"/><stop offset=\"1\" stop-color=\"#0b0f1d\" stop-opacity=\"0\"/></radialGradient>\n<linearGradient id=\"divider-left\" x1=\"0\" y1=\"0\" x2=\"0\" y2=\"1\"><stop offset=\"0\" stop-color=\"#8c91b1\" stop-opacity=\"0\"/><stop offset=\".22\" stop-color=\"#8c91b1\" stop-opacity=\".36\"/><stop offset=\".78\" stop-color=\"#8c91b1\" stop-opacity=\".36\"/><stop offset=\"1\" stop-color=\"#8c91b1\" stop-opacity=\"0\"/></linearGradient>\n<linearGradient id=\"divider-right\" x1=\"0\" y1=\"0\" x2=\"0\" y2=\"1\"><stop offset=\"0\" stop-color=\"#8c91b1\" stop-opacity=\"0\"/><stop offset=\".22\" stop-color=\"#8c91b1\" stop-opacity=\".36\"/><stop offset=\".78\" stop-color=\"#8c91b1\" stop-opacity=\".36\"/><stop offset=\"1\" stop-color=\"#8c91b1\" stop-opacity=\"0\"/></linearGradient>\n<linearGradient id=\"flame-outer\" x1=\"0\" y1=\"1\" x2=\"0\" y2=\"0\"><stop offset=\"0\" stop-color=\"#ff6b3d\"/><stop offset=\".52\" stop-color=\"#ff9f43\"/><stop offset=\"1\" stop-color=\"#ffd66b\"/></linearGradient>\n<linearGradient id=\"flame-inner\" x1=\"0\" y1=\"1\" x2=\"0\" y2=\"0\"><stop offset=\"0\" stop-color=\"#8e5cff\"/><stop offset=\".54\" stop-color=\"#ff7f50\"/><stop offset=\"1\" stop-color=\"#fff0a7\"/></linearGradient>\n<linearGradient id=\"number-gradient\" x1=\"0\" y1=\"0\" x2=\"1\" y2=\"0\"><stop offset=\"0\" stop-color=\"#b68cff\"/><stop offset=\".55\" stop-color=\"#d48cff\"/><stop offset=\"1\" stop-color=\"#ffbd68\"/></linearGradient>\n<linearGradient id=\"smoke-plume\" x1=\"0\" y1=\"6\" x2=\"0\" y2=\"-78\" gradientUnits=\"userSpaceOnUse\"><stop offset=\"0\" stop-color=\"#777d91\" stop-opacity=\".34\"/><stop offset=\".48\" stop-color=\"#9299b1\" stop-opacity=\".22\"/><stop offset=\"1\" stop-color=\"#c0c6db\" stop-opacity=\"0\"/></linearGradient>\n<linearGradient id=\"smoke-wisp\" x1=\"0\" y1=\"5\" x2=\"0\" y2=\"-66\" gradientUnits=\"userSpaceOnUse\"><stop offset=\"0\" stop-color=\"#6f758a\" stop-opacity=\".26\"/><stop offset=\".5\" stop-color=\"#9ba2ba\" stop-opacity=\".16\"/><stop offset=\"1\" stop-color=\"#c4cadc\" stop-opacity=\"0\"/></linearGradient>\n<filter id=\"fire-glow\" x=\"-80%\" y=\"-80%\" width=\"260%\" height=\"260%\"><feGaussianBlur stdDeviation=\"10\"/></filter>\n<filter id=\"number-glow\" x=\"-30%\" y=\"-70%\" width=\"160%\" height=\"240%\"><feDropShadow dx=\"0\" dy=\"0\" stdDeviation=\"6\" flood-color=\"#ff9b55\" flood-opacity=\".42\"/></filter>\n<filter id=\"smoke-soft\" x=\"-40%\" y=\"-30%\" width=\"180%\" height=\"170%\"><feGaussianBlur stdDeviation=\"1.35\"/></filter>\n</defs>\n<style>\n.streak-title{font:700 19px 'Segoe UI',Ubuntu,Sans-Serif;fill:#eef0ff;letter-spacing:.2px}\n.side-number{font:700 39px 'Segoe UI',Ubuntu,Sans-Serif;fill:#76a7ff}\n.side-label{font:600 17px 'Segoe UI',Ubuntu,Sans-Serif;fill:#76a7ff}\n.current-number{font:800 48px 'Segoe UI',Ubuntu,Sans-Serif}\n.current-number-lit{fill:url(#number-gradient);filter:url(#number-glow)}\n.current-number-muted{fill:#8d93a8}\n.current-label{font:700 18px 'Segoe UI',Ubuntu,Sans-Serif;fill:#c38cff}\n.range{font:500 12px 'Segoe UI',Ubuntu,Sans-Serif;fill:#46d4cc}\n.current-range{font-size:13px}\n.stale-note{font:500 10px 'Segoe UI',Ubuntu,Sans-Serif;fill:#8d94b8}\n.star{fill:#aa92ff;opacity:.62}\n.fade{opacity:0;animation:fade-in .48s ease-out forwards}\n.fire-ignite{transform-box:fill-box;transform-origin:center bottom;animation:ignite .78s cubic-bezier(.18,.78,.25,1) both}\n.flame-motion{transform-box:fill-box;transform-origin:center bottom;animation:flame-body 2.8s .78s ease-in-out infinite}\n.flame-outer-motion{transform-box:fill-box;transform-origin:center bottom;animation:flame-outer 2.8s .78s ease-in-out infinite}\n.flame-inner-motion{transform-box:fill-box;transform-origin:center bottom;animation:flame-inner 2.8s .78s ease-in-out infinite}\n.fire-glow-motion{transform-box:fill-box;transform-origin:center;animation:glow-pulse 2.8s .78s ease-in-out infinite}\n.ember{opacity:0;animation:ember-rise 2.2s ease-out infinite}.ember-2{animation-delay:.55s}.ember-3{animation-delay:1.15s}.ember-4{animation-delay:1.6s}\n@keyframes fade-in{from{opacity:0}to{opacity:1}}\n@keyframes ignite{0%{opacity:.12;transform:translateY(6px) scale(.68,.58)}55%{opacity:1;transform:translateY(-2px) scale(1.06,1.1)}100%{opacity:1;transform:translateY(0) scale(1)}}\n@keyframes flame-body{0%{transform:translateY(0) rotate(-.7deg) scale(1)}45%{transform:translateY(-1.5px) rotate(.8deg) scale(1.015,1.025)}75%{transform:translateY(-.5px) rotate(.15deg) scale(1.008,1.012)}100%{transform:translateY(0) rotate(-.7deg) scale(1)}}\n@keyframes flame-outer{0%{opacity:.97;transform:scale(1)}45%{opacity:1;transform:scale(1.015,1.03)}75%{opacity:.99;transform:scale(1.008,1.015)}100%{opacity:.97;transform:scale(1)}}\n@keyframes flame-inner{0%{opacity:.92;transform:scale(1)}45%{opacity:1;transform:scale(1.01,1.045)}75%{opacity:.96;transform:scale(1.005,1.02)}100%{opacity:.92;transform:scale(1)}}\n@keyframes glow-pulse{0%{opacity:.34;transform:scale(.96,.94)}45%{opacity:.52;transform:scale(1.05,1.02)}75%{opacity:.42;transform:scale(1,.98)}100%{opacity:.34;transform:scale(.96,.94)}}\n@keyframes ember-rise{0%{opacity:0;transform:translate(0,0)}18%{opacity:.95}100%{opacity:0;transform:translate(8px,-58px)}}\n</style>");
        push_str(&mut body, "<rect width=\"835\" height=\"370\" rx=\"24\" fill=\"url(#streak-bg)\"/><rect x=\"1\" y=\"1\" width=\"833\" height=\"368\" rx=\"23\" fill=\"none\" stroke=\"#6d5ed0\" stroke-opacity=\".58\" stroke-width=\"1.5\"/><ellipse cx=\"505\" cy=\"225\" rx=\"168\" ry=\"120\" fill=\"url(#center-ambient)\" opacity=\".72\"/><line x1=\"210\" y1=\"78\" x2=\"210\" y2=\"318\" stroke=\"url(#divider-left)\"/><line x1=\"625\" y1=\"78\" x2=\"625\" y2=\"318\" stroke=\"url(#divider-right)\"/><line x1=\"245\" y1=\"33\" x2=\"337\" y2=\"33\" stroke=\"#685ac1\" stroke-opacity=\".42\"/><line x1=\"498\" y1=\"33\" x2=\"590\" y2=\"33\" stroke=\"#685ac1\" stroke-opacity=\".42\"/><text x=\"417.5\" y=\"40\" text-anchor=\"middle\" class=\"streak-title\">Contribution Streak</text><circle cx=\"82\" cy=\"52\" r=\"1.5\" class=\"star\"/><circle cx=\"183\" cy=\"301\" r=\"1.2\" class=\"star\"/><circle cx=\"652\" cy=\"68\" r=\"1.4\" class=\"star\"/><circle cx=\"780\" cy=\"292\" r=\"1.3\" class=\"star\"/>");
        let ghost framed = body@;
        push_sides(&mut body, facts);
        let state = campfire_state(facts.today_contributions, stale);
        let lit = state == CampfireState::Lit;
        push_mascot(
            &mut body,
            lit,
            if lit {
                self.lit_uri.as_str()
            } else {
                self.out_uri.as_str()
            },
        );
        push_campfire(&mut body, state);
        push_current(&mut body, facts, lit);
        if stale {
            push_str(&mut body, "<text x=\"817\" y=\"352\" text-anchor=\"end\" class=\"stale-note\">last known</text>");
        }
        push_str(&mut body, "</svg>");
        proof {
            assert(body@ =~= streak_svg_spec(facts.deep_view(), stale, self.lit_view(), self.out_view()));
        }
        body
    }

    /// The streak card's document for the kept snapshot, if any; `facts` are the
    /// snapshot's streak figures.
    pub fn document(
        &self,
        snapshot: Option<&GitHubSnapshot>,
        facts: &StreakFacts,
        now_unix_ms: u64,
        stale_after_ms: u64,
    ) -> (r: GitHubCardDocument)
        ensures
            r.model() == streak_document_spec(
                match snapshot {
                    Some(s) => Some(*s),
                    None => None,
                },
                facts.deep_view(),
                now_unix_ms,
                stale_after_ms,
                self.lit_view(),
                self.out_view(),
            ),
    {
        match snapshot {
            Some(s) => {
                let stale = is_stale(s.collected_at_unix_ms, now_unix_ms, stale_after_ms);
                let body = self.render(facts, stale);
                GitHubCardDocument::new(GitHubCardKind::Streak, body, Some(s.revision), stale)
            },
            None => unavailable_card_document(GitHubCardKind::Streak),
        }
    }
}

} // verus!
