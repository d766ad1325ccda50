//! The languages card of a GitHub snapshot: a stacked bar of the language shares and a
//! two-column list of the languages with their percentages. The shares are
//! floating-point figures; the card takes each language's percentage and bar segment
//! in hundredths.
use vstd::prelude::*;

use crate::cards::{card_open_spec, card_style_spec, push_card_open, push_card_style};
use crate::cards::{card_etag_spec, unavailable_card_document, unavailable_card_spec, GitHubCardDocument, GitHubCardKind};
use crate::github::is_stale;
use crate::github_card::stale_at;
use crate::svg::DocumentModel;
use crate::github_store::{GitHubSnapshot, LanguageShare, LanguageShareModel};
use crate::text::{decimal_spec, escape_spec, pad2_spec, push_decimal, push_escaped, push_pad2, push_str};

verus! {

/// How many languages the card lists at most.
pub const MAX_LANGUAGE_ROWS: usize = 20;

/// The figures of one language on the card, in hundredths: its percentage, and the
/// width of its segment of the 250-unit bar.
#[derive(Clone, Copy, Debug, PartialEq, Eq, Structural)]
pub struct LanguageFigures {
    pub percent_hundredths: u64,
    pub segment_hundredths: u64,
}

/// A figure in hundredths, written with two decimals.
pub open spec fn hundredths_spec(n: nat) -> Seq<char> {
    decimal_spec(n / 100) + "."@ + pad2_spec(n % 100)
}

fn push_hundredths(body: &mut String, n: u64)
    ensures
        final(body)@ == old(body)@ + hundredths_spec(n as nat),
{
    let ghost start = body@;
    push_decimal(body, n / 100);
    push_str(body, ".");
    push_pad2(body, n % 100);
    proof {
        assert(body@ =~= start + hundredths_spec(n as nat));
    }
}

/// The figures given for the `i`-th language, or zeros.
pub open spec fn figures_at(figures: Seq<LanguageFigures>, i: int) -> LanguageFigures {
    if 0 <= i < figures.len() {
        figures[i]
    } else {
        LanguageFigures { percent_hundredths: 0, segment_hundredths: 0 }
    }
}

fn figures_of(figures: &Vec<LanguageFigures>, i: usize) -> (r: LanguageFigures)
    ensures
        r == figures_at(figures@, i as int),
{
    if i < figures.len() {
        figures[i]
    } else {
        LanguageFigures { percent_hundredths: 0, segment_hundredths: 0 }
    }
}

/// The `i`-th segment's width, at most the whole bar.
pub open spec fn segment_at(figures: Seq<LanguageFigures>, i: int) -> nat {
    let s = figures_at(figures, i).segment_hundredths;
    if s > 25000 {
        25000
    } else {
        s as nat
    }
}

/// A language's color, grey where it has none.
pub open spec fn color_spec(l: LanguageShareModel) -> Seq<char> {
    match l.color {
        Some(c) => c,
        None => "#858585"@,
    }
}

fn color_of(l: &LanguageShare) -> (r: &str)
    ensures
        r@ == color_spec(l.deep_view()),
{
    match &l.color {
        Some(c) => c.as_str(),
        None => "#858585",
    }
}

/// Where the segment of the `k`-th language starts, in hundredths: the bar's left edge
/// and the segments before it.
pub open spec fn bar_start(figures: Seq<LanguageFigures>, k: nat) -> nat
    decreases k,
{
    if k == 0 {
        2500
    } else {
        bar_start(figures, (k - 1) as nat) + segment_at(figures, k - 1)
    }
}

proof fn lemma_bar_start_bound(figures: Seq<LanguageFigures>, k: nat)
    ensures
        bar_start(figures, k) <= 2500 + 25000 * k,
    decreases k,
{
    if k > 0 {
        lemma_bar_start_bound(figures, (k - 1) as nat);
    }
}

/// One segment of the bar, where it has a width.
pub open spec fn bar_spec(x: nat, seg: nat, color: Seq<char>) -> Seq<char> {
    if seg > 0 {
        "<rect clip-path=\"url(#lang-bar)\" x=\""@ + hundredths_spec(x) + "\" y=\"54\" width=\""@ + hundredths_spec(seg)
            + "\" height=\"8\" fill=\""@ + escape_spec(color) + "\"/>"@
    } else {
        Seq::empty()
    }
}

fn push_bar(body: &mut String, x: u64, seg: u64, color: &str)
    ensures
        final(body)@ == old(body)@ + bar_spec(x as nat, seg as nat, color@),
{
    let ghost start = body@;
    if seg > 0 {
        push_str(body, "<rect clip-path=\"url(#lang-bar)\" x=\"");
        push_hundredths(body, x);
        push_str(body, "\" y=\"54\" width=\"");
        push_hundredths(body, seg);
        push_str(body, "\" height=\"8\" fill=\"");
        push_escaped(body, color);
        push_str(body, "\"/>");
    }
    proof {
        assert(body@ =~= start + bar_spec(x as nat, seg as nat, color@));
    }
}

/// The segments of the first `k` languages, those of zero width left out.
pub open spec fn bars_spec(langs: Seq<LanguageShareModel>, figures: Seq<LanguageFigures>, k: nat) -> Seq<char>
    decreases k,
{
    if k == 0 {
        Seq::empty()
    } else {
        let i = k - 1;
        let seg = segment_at(figures, i);
        bars_spec(langs, figures, (k - 1) as nat) + bar_spec(bar_start(figures, (k - 1) as nat), seg, color_spec(langs[i]))
    }
}

/// The column of the `i`-th of `rows` listed languages: the first half on the left,
/// the rest on the right.
pub open spec fn row_x(i: nat, rows: nat) -> nat {
    if i >= (rows + 1) / 2 {
        165
    } else {
        25
    }
}

/// The baseline of the `i`-th of `rows` listed languages.
pub open spec fn row_y(i: nat, rows: nat) -> nat {
    let split = (rows + 1) / 2;
    92 + (if i >= split {
        (i - split) as nat
    } else {
        i
    }) * 25
}

/// A list entry at `x`, `y`: the color dot, the name and the percentage.
pub open spec fn row_entry_spec(l: LanguageShareModel, f: LanguageFigures, i: nat, x: nat, y: nat) -> Seq<char> {
    "<g class=\"stagger\" style=\"animation-delay:"@ + decimal_spec(450 + i * 100) + "ms\"><circle cx=\""@ + decimal_spec(x)
        + "\" cy=\""@ + decimal_spec((y - 4) as nat) + "\" r=\"5\" fill=\""@ + escape_spec(color_spec(l))
        + "\"/><text x=\""@ + decimal_spec(x + 15) + "\" y=\""@ + decimal_spec(y) + "\" class=\"lang\">"@ + escape_spec(
        l.name,
    ) + " "@ + hundredths_spec(f.percent_hundredths as nat) + "%</text></g>"@
}

/// The list entry of the `i`-th of `rows` languages, entering `450 + 100 * i`
/// milliseconds after the card.
pub open spec fn row_spec(l: LanguageShareModel, f: LanguageFigures, i: nat, rows: nat) -> Seq<char> {
    row_entry_spec(l, f, i, row_x(i, rows), row_y(i, rows))
}

pub open spec fn rows_spec(langs: Seq<LanguageShareModel>, figures: Seq<LanguageFigures>, rows: nat, k: nat) -> Seq<char>
    decreases k,
{
    if k == 0 {
        Seq::empty()
    } else {
        rows_spec(langs, figures, rows, (k - 1) as nat) + row_spec(
            langs[k - 1],
            figures_at(figures, k - 1),
            (k - 1) as nat,
            rows,
        )
    }
}

pub open spec fn row_count(n: nat) -> nat {
    if n < MAX_LANGUAGE_ROWS {
        n
    } else {
        MAX_LANGUAGE_ROWS as nat
    }
}

pub open spec fn languages_height(rows: nat) -> nat {
    90 + (rows + 1) / 2 * 25
}

/// The languages card of a snapshot.
pub open spec fn languages_svg_spec(s: GitHubSnapshot, stale: bool, figures: Seq<LanguageFigures>) -> Seq<char> {
    let langs = s.languages.deep_view();
    let rows = row_count(langs.len());
    let h = languages_height(rows);
    card_open_spec(300, h as u32, "Most used languages"@) + card_style_spec() + "<rect width=\"300\" height=\""@
        + decimal_spec(h) + "\" rx=\"4.5\" fill=\"#1A1B27\"/>"@
        + "<text x=\"25\" y=\"35\" class=\"header\">Most Used Languages</text><defs><clipPath id=\"lang-bar\"><rect x=\"25\" y=\"54\" width=\"250\" height=\"8\" rx=\"4\"/></clipPath></defs>"@
        + bars_spec(langs, figures, rows) + (if rows == 0 {
        "<text x=\"25\" y=\"95\" class=\"lang\">Language data is unavailable.</text>"@
    } else {
        rows_spec(langs, figures, rows, rows)
    }) + (if stale {
        "<text x=\"288\" y=\""@ + decimal_spec((h - 8) as nat)
            + "\" text-anchor=\"end\" class=\"stale\">last known</text>"@
    } else {
        Seq::empty()
    }) + "</svg>"@
}

fn push_bars(body: &mut String, langs: &Vec<LanguageShare>, figures: &Vec<LanguageFigures>, rows: usize)
    requires
        rows <= MAX_LANGUAGE_ROWS,
        rows <= langs@.len(),
    ensures
        final(body)@ == old(body)@ + bars_spec(langs.deep_view(), figures@, rows as nat),
{
    let ghost start = body@;
    let mut x: u64 = 2500;
    let mut i: usize = 0;
    while i < rows
        invariant
            i <= rows <= MAX_LANGUAGE_ROWS,
            rows <= langs@.len(),
            x == bar_start(figures@, i as nat),
            body@ == start + bars_spec(langs.deep_view(), figures@, i as nat),
        decreases rows - i,
    {
        proof {
            lemma_bar_start_bound(figures@, i as nat);
            assert(langs.deep_view()[i as int] == langs@[i as int].deep_view());
        }
        let f = figures_of(figures, i);
        let seg: u64 = if f.segment_hundredths > 25000 {
            25000
        } else {
            f.segment_hundredths
        };
        push_bar(body, x, seg, color_of(&langs[i]));
        x = x + seg;
        i = i + 1;
    }
}

fn push_row_entry(body: &mut String, l: &LanguageShare, f: LanguageFigures, i: u64, x: u64, y: u64)
    requires
        i <= 100,
        x <= 1000,
        4 <= y <= 1000,
    ensures
        final(body)@ == old(body)@ + row_entry_spec(l.deep_view(), f, i as nat, x as nat, y as nat),
{
    let ghost start = body@;
    push_str(body, "<g class=\"stagger\" style=\"animation-delay:");
    push_decimal(body, 450 + i * 100);
    push_str(body, "ms\"><circle cx=\"");
    push_decimal(body, x);
    push_str(body, "\" cy=\"");
    push_decimal(body, y - 4);
    push_str(body, "\" r=\"5\" fill=\"");
    push_escaped(body, color_of(l));
    push_str(body, "\"/><text x=\"");
    push_decimal(body, x + 15);
    push_str(body, "\" y=\"");
    push_decimal(body, y);
    push_str(body, "\" class=\"lang\">");
    push_escaped(body, l.name.as_str());
    push_str(body, " ");
    push_hundredths(body, f.percent_hundredths);
    push_str(body, "%</text></g>");
    proof {
        assert(body@ =~= start + row_entry_spec(l.deep_view(), f, i as nat, x as nat, y as nat));
    }
}

fn push_row(body: &mut String, l: &LanguageShare, f: LanguageFigures, i: usize, rows: usize)
    requires
        i < rows <= MAX_LANGUAGE_ROWS,
    ensures
        final(body)@ == old(body)@ + row_spec(l.deep_view(), f, i as nat, rows as nat),
{
    let split = (rows + 1) / 2;
    let second = i >= split;
    let row: u64 = if second {
        (i - split) as u64
    } else {
        i as u64
    };
    let x: u64 = if second {
        165
    } else {
        25
    };
    proof {
        assert(row <= 20);
        assert(row * 25 <= 500) by (nonlinear_arith)
            requires
                row <= 20,
        ;
    }
    let y = 92 + row * 25;
    proof {
        assert(x == row_x(i as nat, rows as nat));
        assert(y == row_y(i as nat, rows as nat));
    }
    push_row_entry(body, l, f, i as u64, x, y);
}

fn push_rows(body: &mut String, langs: &Vec<LanguageShare>, figures: &Vec<LanguageFigures>, rows: usize)
    requires
        rows <= MAX_LANGUAGE_ROWS,
        rows <= langs@.len(),
    ensures
        final(body)@ == old(body)@ + rows_spec(langs.deep_view(), figures@, rows as nat, rows as nat),
{
    let ghost start = body@;
    let mut i: usize = 0;
    while i < rows
        invariant
            i <= rows <= MAX_LANGUAGE_ROWS,
            rows <= langs@.len(),
            body@ == start + rows_spec(langs.deep_view(), figures@, rows as nat, i as nat),
        decreases rows - i,
    {
        proof {
            assert(langs.deep_view()[i as int] == langs@[i as int].deep_view());
        }
        let f = figures_of(figures, i);
        push_row(body, &langs[i], f, i, rows);
        i = i + 1;
    }
}

/// Renders the languages card of a snapshot: `figures[i]` holds the percentage and the
/// bar segment of the `i`-th language in hundredths (a segment counted as at most the
/// whole bar; zeros where no figures are given).
#[verifier::rlimit(50)]
pub fn render_languages_card(snapshot: &GitHubSnapshot, stale: bool, figures: &Vec<LanguageFigures>) -> (r: String)
    ensures
        r@ == languages_svg_spec(*snapshot, stale, figures@),
{
    let langs = &snapshot.languages;
    proof {
        assert(langs.deep_view().len() == langs@.len());
    }
    let rows = if langs.len() < MAX_LANGUAGE_ROWS {
        langs.len()
    } else {
        MAX_LANGUAGE_ROWS
    };
    let height: u32 = 90 + ((rows as u32) + 1) / 2 * 25;
    let mut body = String::new();
    push_card_open(&mut body, 300, height, "Most used languages");
    push_card_style(&mut body);
    push_str(&mut body, "<rect width=\"300\" height=\"");
    push_decimal(&mut body, height as u64);
    push_str(&mut body, "\" rx=\"4.5\" fill=\"#1A1B27\"/>");
    push_str(
        &mut body,
        "<text x=\"25\" y=\"35\" class=\"header\">Most Used Languages</text><defs><clipPath id=\"lang-bar\"><rect x=\"25\" y=\"54\" width=\"250\" height=\"8\" rx=\"4\"/></clipPath></defs>",
    );
    push_bars(&mut body, langs, figures, rows);
    let ghost barred = body@;
    if rows == 0 {
        push_str(&mut body, "<text x=\"25\" y=\"95\" class=\"lang\">Language data is unavailable.</text>");
    } else {
        push_rows(&mut body, langs, figures, rows);
    }
    let ghost listed = body@;
    if stale {
        push_str(&mut body, "<text x=\"288\" y=\"");
        push_decimal(&mut body, (height - 8) as u64);
        push_str(&mut body, "\" text-anchor=\"end\" class=\"stale\">last known</text>");
    }
    proof {
        if !stale {
            assert(body@ =~= listed + Seq::<char>::empty());
        }
    }
    push_str(&mut body, "</svg>");
    proof {
        assert(body@ =~= languages_svg_spec(*snapshot, stale, figures@));
    }
    body
}

/// The languages card's document: for a snapshot, its card marked stale once the
/// snapshot is older than `stale_after_ms`, tagged with its revision and freshness;
/// without one, the unavailable card.
pub open spec fn languages_document_spec(
    snapshot: Option<GitHubSnapshot>,
    now_unix_ms: u64,
    stale_after_ms: u64,
    figures: Seq<LanguageFigures>,
) -> DocumentModel {
    match snapshot {
        Some(s) => {
            let stale = stale_at(s.collected_at_unix_ms, now_unix_ms, stale_after_ms);
            DocumentModel {
                body: languages_svg_spec(s, stale, figures),
                etag: card_etag_spec(GitHubCardKind::Languages, Some(s.revision), stale),
                stream_revision: s.revision,
            }
        },
        None => DocumentModel {
            body: unavailable_card_spec(GitHubCardKind::Languages),
            etag: card_etag_spec(GitHubCardKind::Languages, None, false),
            stream_revision: 0,
        },
    }
}

/// The languages card's document for the kept snapshot, if any.
pub fn languages_card_document(
    snapshot: Option<&GitHubSnapshot>,
    now_unix_ms: u64,
    stale_after_ms: u64,
    figures: &Vec<LanguageFigures>,
) -> (r: GitHubCardDocument)
    ensures
        r.model() == languages_document_spec(
            match snapshot {
                Some(s) => Some(*s),
                None => None,
            },
            now_unix_ms,
            stale_after_ms,
            figures@,
        ),
{
    match snapshot {
        Some(s) => {
            let stale = is_stale(s.collected_at_unix_ms, now_unix_ms, stale_after_ms);
            let body = render_languages_card(s, stale, figures);
            GitHubCardDocument::new(GitHubCardKind::Languages, body, Some(s.revision), stale)
        },
        None => unavailable_card_document(GitHubCardKind::Languages),
    }
}

} // verus!
