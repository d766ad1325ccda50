//! The GitHub card of each kind, chosen by kind.
use vstd::prelude::*;

use crate::cards::{GitHubCardDocument, GitHubCardKind};
use crate::github_store::GitHubSnapshot;
use crate::languages_card::{languages_card_document, languages_document_spec, LanguageFigures};
use crate::stats_card::{stats_card_document, stats_document_spec};
use crate::streak_card::{streak_document_spec, StreakFacts, StreakModel, StreakRenderer};
use crate::svg::DocumentModel;

verus! {

/// The document of a GitHub card of the given kind: the statistics card, the languages
/// card or the streak card of the kept snapshot, or the kind's unavailable card.
pub open spec fn card_document_spec(
    kind: GitHubCardKind,
    snapshot: Option<GitHubSnapshot>,
    now_unix_ms: u64,
    stale_after_ms: u64,
    percentile_tenths: u32,
    figures: Seq<LanguageFigures>,
    facts: StreakModel,
    lit_uri: Seq<char>,
    out_uri: Seq<char>,
) -> DocumentModel {
    match kind {
        GitHubCardKind::Stats => stats_document_spec(snapshot, now_unix_ms, stale_after_ms, percentile_tenths),
        GitHubCardKind::Languages => languages_document_spec(snapshot, now_unix_ms, stale_after_ms, figures),
        GitHubCardKind::Streak => streak_document_spec(snapshot, facts, now_unix_ms, stale_after_ms, lit_uri, out_uri),
    }
}

/// Renders the GitHub card of the given kind for the kept snapshot, if any. The rank's
/// percentile in tenths and the language figures in hundredths are those of the
/// snapshot; `facts` are its streak figures.
pub fn render_card(
    kind: GitHubCardKind,
    snapshot: Option<&GitHubSnapshot>,
    now_unix_ms: u64,
    stale_after_ms: u64,
    percentile_tenths: u32,
    figures: &Vec<LanguageFigures>,
    streak: &StreakRenderer,
    facts: &StreakFacts,
) -> (r: GitHubCardDocument)
    ensures
        r.model() == card_document_spec(
            kind,
            match snapshot {
                Some(s) => Some(*s),
                None => None,
            },
            now_unix_ms,
            stale_after_ms,
            percentile_tenths,
            figures@,
            facts.deep_view(),
            streak.lit_view(),
            streak.out_view(),
        ),
{
    match kind {
        GitHubCardKind::Stats => stats_card_document(snapshot, now_unix_ms, stale_after_ms, percentile_tenths),
        GitHubCardKind::Languages => languages_card_document(snapshot, now_unix_ms, stale_after_ms, figures),
        GitHubCardKind::Streak => streak.document(snapshot, facts, now_unix_ms, stale_after_ms),
    }
}

} // verus!
