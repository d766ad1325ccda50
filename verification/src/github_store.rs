//! The collected GitHub snapshot and the store that keeps the latest one: a snapshot
//! whose shown content is unchanged keeps its revision, while its collection time and
//! rate limit are refreshed.
use vstd::prelude::*;

use crate::github::{ContributionSummary, ProjectMetadata, ProjectModel, RateLimitSnapshot};
use crate::state::same_opt_string;

verus! {

/// The rank of a profile: its level and its percentile. The percentile is a float
/// computed outside the library; it is held by its IEEE-754 bit pattern (`f64::to_bits`).
pub struct RankSnapshot {
    pub level: String,
    pub percentile_bits: u64,
}

/// The overall counts of a profile and its rank.
pub struct OverallStats {
    pub total_commits: u64,
    pub total_pull_requests: u64,
    pub total_reviews: u64,
    pub total_issues: u64,
    pub total_stars: u64,
    pub contributed_to: u64,
    pub followers: u64,
    pub rank: RankSnapshot,
}

/// A language's share. The score and percentage are floats computed outside the
/// library, held by their bit patterns.
pub struct LanguageShare {
    pub name: String,
    pub color: Option<String>,
    pub bytes: u64,
    pub repository_count: u64,
    pub score_bits: u64,
    pub percent_bits: u64,
}

/// A collected snapshot of the profile.
pub struct GitHubSnapshot {
    pub revision: u64,
    pub collected_at_unix_ms: u64,
    pub login: String,
    pub url: String,
    pub contributions: ContributionSummary,
    pub overall: OverallStats,
    pub languages: Vec<LanguageShare>,
    pub projects: Vec<ProjectMetadata>,
    pub repository_count: u64,
    pub source_truncated: bool,
    pub rate_limit: RateLimitSnapshot,
}

/// The value of a `LanguageShare`.
pub struct LanguageShareModel {
    pub name: Seq<char>,
    pub color: Option<Seq<char>>,
    pub bytes: u64,
    pub repository_count: u64,
    pub score_bits: u64,
    pub percent_bits: u64,
}

impl DeepView for LanguageShare {
    type V = LanguageShareModel;

    open spec fn deep_view(&self) -> LanguageShareModel {
        LanguageShareModel {
            name: self.name@,
            color: self.color.deep_view(),
            bytes: self.bytes,
            repository_count: self.repository_count,
            score_bits: self.score_bits,
            percent_bits: self.percent_bits,
        }
    }
}

/// What the cards show of a snapshot: everything but its revision, collection time and
/// rate limit.
pub struct SemanticModel {
    pub login: Seq<char>,
    pub url: Seq<char>,
    pub contributions: ContributionSummary,
    pub counts: (u64, u64, u64, u64, u64, u64, u64),
    pub rank_level: Seq<char>,
    pub rank_percentile_bits: u64,
    pub languages: Seq<LanguageShareModel>,
    pub projects: Seq<ProjectModel>,
    pub repository_count: u64,
    pub source_truncated: bool,
}

/// The shown content of a snapshot.
pub open spec fn semantic_view(s: GitHubSnapshot) -> SemanticModel {
    SemanticModel {
        login: s.login@,
        url: s.url@,
        contributions: s.contributions,
        counts: (
            s.overall.total_commits,
            s.overall.total_pull_requests,
            s.overall.total_reviews,
            s.overall.total_issues,
            s.overall.total_stars,
            s.overall.contributed_to,
            s.overall.followers,
        ),
        rank_level: s.overall.rank.level@,
        rank_percentile_bits: s.overall.rank.percentile_bits,
        languages: s.languages.deep_view(),
        projects: s.projects.deep_view(),
        repository_count: s.repository_count,
        source_truncated: s.source_truncated,
    }
}

fn same_language(a: &LanguageShare, b: &LanguageShare) -> (r: bool)
    ensures
        r == (a.deep_view() == b.deep_view()),
{
    a.name == b.name && same_opt_string(&a.color, &b.color) && a.bytes == b.bytes && a.repository_count
        == b.repository_count && a.score_bits == b.score_bits && a.percent_bits == b.percent_bits
}

fn same_languages(a: &Vec<LanguageShare>, b: &Vec<LanguageShare>) -> (r: bool)
    ensures
        r == (a.deep_view() == b.deep_view()),
{
    if a.len() != b.len() {
        proof {
            assert(a.deep_view().len() != b.deep_view().len());
        }
        return false;
    }
    let mut i: usize = 0;
    while i < a.len()
        invariant
            i <= a@.len() == b@.len(),
            forall|k: int| 0 <= k < i ==> a.deep_view()[k] == b.deep_view()[k],
        decreases a.len() - i,
    {
        if !same_language(&a[i], &b[i]) {
            proof {
                assert(a.deep_view()[i as int] != b.deep_view()[i as int]);
            }
            return false;
        }
        i = i + 1;
    }
    proof {
        assert(a.deep_view() =~= b.deep_view());
    }
    true
}

fn same_project(a: &ProjectMetadata, b: &ProjectMetadata) -> (r: bool)
    ensures
        r == (a.deep_view() == b.deep_view()),
{
    a.name == b.name && a.name_with_owner == b.name_with_owner && a.url == b.url && same_opt_string(
        &a.description,
        &b.description,
    ) && a.stars == b.stars && a.forks == b.forks && same_opt_string(&a.pushed_at, &b.pushed_at)
        && same_opt_string(&a.primary_language, &b.primary_language)
}

fn same_projects(a: &Vec<ProjectMetadata>, b: &Vec<ProjectMetadata>) -> (r: bool)
    ensures
        r == (a.deep_view() == b.deep_view()),
{
    if a.len() != b.len() {
        proof {
            assert(a.deep_view().len() != b.deep_view().len());
        }
        return false;
    }
    let mut i: usize = 0;
    while i < a.len()
        invariant
            i <= a@.len() == b@.len(),
            forall|k: int| 0 <= k < i ==> a.deep_view()[k] == b.deep_view()[k],
        decreases a.len() - i,
    {
        if !same_project(&a[i], &b[i]) {
            proof {
                assert(a.deep_view()[i as int] != b.deep_view()[i as int]);
            }
            return false;
        }
        i = i + 1;
    }
    proof {
        assert(a.deep_view() =~= b.deep_view());
    }
    true
}

impl GitHubSnapshot {
    /// Whether two snapshots show the same content: all but their revision, collection
    /// time and rate limit are equal (the floats compared by their bit patterns).
    pub fn semantic_eq(&self, other: &Self) -> (r: bool)
        ensures
            r == (semantic_view(*self) == semantic_view(*other)),
    {
        let r = self.login == other.login && self.url == other.url && self.contributions == other.contributions
            && self.overall.total_commits == other.overall.total_commits && self.overall.total_pull_requests
            == other.overall.total_pull_requests && self.overall.total_reviews == other.overall.total_reviews
            && self.overall.total_issues == other.overall.total_issues && self.overall.total_stars
            == other.overall.total_stars && self.overall.contributed_to == other.overall.contributed_to
            && self.overall.followers == other.overall.followers && self.overall.rank.level
            == other.overall.rank.level && self.overall.rank.percentile_bits == other.overall.rank.percentile_bits
            && same_languages(&self.languages, &other.languages) && same_projects(&self.projects, &other.projects)
            && self.repository_count == other.repository_count && self.source_truncated == other.source_truncated;
        r
    }
}

/// The revision a published snapshot gets: that of the kept snapshot where the shown
/// content is unchanged, else the next one (saturating); 1 for the first snapshot.
pub open spec fn published_revision(previous: Option<GitHubSnapshot>, next: GitHubSnapshot) -> u64 {
    match previous {
        Some(p) => if semantic_view(p) == semantic_view(next) {
            p.revision
        } else if p.revision == u64::MAX {
            u64::MAX
        } else {
            (p.revision + 1) as u64
        },
        None => 1,
    }
}

/// The latest collected snapshot.
pub struct GitHubStore {
    snapshot: Option<GitHubSnapshot>,
}

impl GitHubStore {
    /// The kept snapshot.
    pub closed spec fn current(&self) -> Option<GitHubSnapshot> {
        self.snapshot
    }

    /// A store holding a restored snapshot, if any.
    pub fn new(restored: Option<GitHubSnapshot>) -> (r: Self)
        ensures
            r.current() == restored,
    {
        GitHubStore { snapshot: restored }
    }

    /// The kept snapshot.
    pub fn load(&self) -> (r: Option<&GitHubSnapshot>)
        ensures
            match r {
                Some(s) => self.current() == Some(*s),
                None => self.current() is None,
            },
    {
        self.snapshot.as_ref()
    }

    /// Keeps `next` with its revision set: the kept revision where the shown content is
    /// unchanged, else the next one. Everything else, collection time and rate limit
    /// included, is taken from `next`. Returns the revision.
    pub fn publish(&mut self, next: GitHubSnapshot) -> (r: u64)
        ensures
            r == published_revision(old(self).current(), next),
            final(self).current() == Some(GitHubSnapshot { revision: r, ..next }),
    {
        let mut next = next;
        let revision = match &self.snapshot {
            Some(previous) => if previous.semantic_eq(&next) {
                previous.revision
            } else {
                previous.revision.saturating_add(1)
            },
            None => 1,
        };
        next.revision = revision;
        self.snapshot = Some(next);
        revision
    }
}

/// A republished snapshot whose shown content is unchanged keeps the revision, and the
/// store then holds its new collection time and rate limit.
pub proof fn law_unchanged_snapshot_keeps_revision(previous: GitHubSnapshot, next: GitHubSnapshot)
    requires
        semantic_view(previous) == semantic_view(next),
    ensures
        published_revision(Some(previous), next) == previous.revision,
{
}

/// A snapshot whose shown content changed advances the revision, unless it is at its
/// largest value.
pub proof fn law_changed_snapshot_advances_revision(previous: GitHubSnapshot, next: GitHubSnapshot)
    requires
        semantic_view(previous) != semantic_view(next),
        previous.revision < u64::MAX,
    ensures
        published_revision(Some(previous), next) == previous.revision + 1,
{
}

} // verus!
