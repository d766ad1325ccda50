//! The combined GitHub card: the profile's counts, streaks, top languages and featured
//! projects in one panel. The language shares are measured elsewhere and come in as
//! labels.
use vstd::prelude::*;

use crate::cards::{
    card_open_spec, push_card_open, svg_etag_spec, unavailable_svg_document, unavailable_svg_spec, GitHubSvgDocument,
};
use crate::github::is_stale;
use crate::github_store::GitHubSnapshot;
use crate::state::clone_opt_string;
use crate::svg::DocumentModel;
use crate::github::{ContributionSummary, ProjectMetadata, ProjectModel};
use crate::text::{decimal_spec, escape_spec, owned, push_decimal, push_escaped, push_str, truncate_chars, truncate_spec};

verus! {

/// The most featured projects the card lists.
pub const MAX_CARD_PROJECTS: usize = 3;

/// The most language labels the card lists.
pub const MAX_CARD_LANGUAGES: usize = 4;

/// The overall counts of a profile.
#[derive(Clone, Copy, Debug, PartialEq, Eq, Structural)]
pub struct OverallCounts {
    pub total_commits: u64,
    pub total_pull_requests: u64,
    pub total_reviews: u64,
    pub total_issues: u64,
    pub total_stars: u64,
    pub contributed_to: u64,
    pub followers: u64,
}

/// What the card shows of a snapshot.
pub struct ReadyCard {
    pub login: String,
    pub contributions: ContributionSummary,
    pub overall: OverallCounts,
    pub rank_level: String,
    pub projects: Vec<ProjectMetadata>,
}

/// The value of a `ReadyCard`.
pub struct ReadyCardModel {
    pub login: Seq<char>,
    pub contributions: ContributionSummary,
    pub overall: OverallCounts,
    pub rank_level: Seq<char>,
    pub projects: Seq<ProjectModel>,
}

impl DeepView for ReadyCard {
    type V = ReadyCardModel;

    open spec fn deep_view(&self) -> ReadyCardModel {
        ReadyCardModel {
            login: self.login@,
            contributions: self.contributions,
            overall: self.overall,
            rank_level: self.rank_level@,
            projects: self.projects.deep_view(),
        }
    }
}

/// The number of projects the card lists.
pub open spec fn shown_projects(n: nat) -> nat {
    if n < MAX_CARD_PROJECTS {
        n
    } else {
        MAX_CARD_PROJECTS as nat
    }
}

/// The card's frame and title; it grows by 34 units per listed project.
pub open spec fn ready_head_spec(project_count: nat) -> Seq<char> {
    card_open_spec(760, (250 + shown_projects(project_count) * 34) as u32, "GitHub stats"@) + "<rect width=\"760\" height=\"100%\" rx=\"20\" fill=\"#0b1020\"/>"@
        + "<rect x=\"1\" y=\"1\" width=\"758\" height=\"100%\" rx=\"19\" fill=\"none\" stroke=\"#293659\"/>"@
        + "<text x=\"28\" y=\"42\" fill=\"#f4f7ff\" font-family=\"ui-monospace, SFMono-Regular, Consolas, monospace\" font-size=\"23\" font-weight=\"700\">GitHub stats</text>"@
}

/// The first line: login and contributions, marked where the snapshot is stale.
pub open spec fn counts_line1(c: ReadyCardModel, stale: bool) -> Seq<char> {
    "<text x=\"28\" y=\"68\" fill=\"#9fb0d9\" font-family=\"ui-monospace, SFMono-Regular, Consolas, monospace\" font-size=\"14\">@"@ + escape_spec(c.login) + " · "@ + decimal_spec(c.contributions.total as nat) + (if stale {
        " contributions · last known"@
    } else {
        " contributions"@
    }) + "</text>"@
}

/// The second line: commits, stars, pull requests and issues.
pub open spec fn counts_line2(c: ReadyCardModel) -> Seq<char> {
    "<text x=\"28\" y=\"102\" fill=\"#d7def2\" font-family=\"ui-monospace, SFMono-Regular, Consolas, monospace\" font-size=\"15\">commits "@ + decimal_spec(c.overall.total_commits as nat) + " · stars "@ + decimal_spec(c.overall.total_stars as nat)
        + " · PRs "@ + decimal_spec(c.overall.total_pull_requests as nat) + " · issues "@ + decimal_spec(
        c.overall.total_issues as nat,
    ) + "</text>"@
}

/// The third line: reviews, repositories contributed to, followers and rank.
pub open spec fn counts_line3(c: ReadyCardModel) -> Seq<char> {
    "<text x=\"28\" y=\"129\" fill=\"#9fb0d9\" font-family=\"ui-monospace, SFMono-Regular, Consolas, monospace\" font-size=\"14\">reviews "@ + decimal_spec(c.overall.total_reviews as nat) + " · contributed to "@ + decimal_spec(
        c.overall.contributed_to as nat,
    ) + " · followers "@ + decimal_spec(c.overall.followers as nat) + " · rank "@ + escape_spec(c.rank_level)
        + "</text>"@
}

/// The fourth line: current and longest streak, and active days.
pub open spec fn counts_line4(c: ReadyCardModel) -> Seq<char> {
    "<text x=\"28\" y=\"162\" fill=\"#d7def2\" font-family=\"ui-monospace, SFMono-Regular, Consolas, monospace\" font-size=\"15\">streak "@ + decimal_spec(c.contributions.current_streak_days as nat) + "d · longest "@ + decimal_spec(
        c.contributions.longest_streak_days as nat,
    ) + "d · active "@ + decimal_spec(c.contributions.active_days as nat) + "d</text>"@
}

/// The lines of counts.
pub open spec fn ready_counts_spec(c: ReadyCardModel, stale: bool) -> Seq<char> {
    counts_line1(c, stale) + counts_line2(c) + counts_line3(c) + counts_line4(c)
}

/// Labels joined with `" · "`.
pub open spec fn joined_labels(labels: Seq<Seq<char>>) -> Seq<char>
    decreases labels.len(),
{
    if labels.len() == 0 {
        Seq::empty()
    } else if labels.len() == 1 {
        labels[0]
    } else {
        joined_labels(labels.drop_last()) + " · "@ + labels.last()
    }
}

/// The language line: the first four labels joined, or a note that there are none.
pub open spec fn language_line_spec(labels: Seq<Seq<char>>) -> Seq<char> {
    if labels.len() == 0 {
        "languages unavailable"@
    } else if labels.len() <= MAX_CARD_LANGUAGES {
        joined_labels(labels)
    } else {
        joined_labels(labels.take(MAX_CARD_LANGUAGES as int))
    }
}

/// The language line, cut to 86 characters.
pub open spec fn ready_languages_spec(labels: Seq<Seq<char>>) -> Seq<char> {
    "<text x=\"28\" y=\"196\" fill=\"#d7def2\" font-family=\"ui-monospace, SFMono-Regular, Consolas, monospace\" font-size=\"14\">"@ + escape_spec(truncate_spec(language_line_spec(labels), 86))
        + "</text>"@
}

/// The two lines of a project at height `y`: its name, then its stars, forks and
/// language.
pub open spec fn project_lines_spec(p: ProjectModel, y: nat) -> Seq<char> {
    "<text x=\"28\" y=\""@ + decimal_spec(y) + "\" fill=\"#f4f7ff\" font-family=\"ui-monospace, SFMono-Regular, Consolas, monospace\" font-size=\"15\" font-weight=\"600\">"@
        + escape_spec(truncate_spec(p.name, 34)) + "</text>"@ + "<text x=\"310\" y=\""@ + decimal_spec(y)
        + "\" fill=\"#9fb0d9\" font-family=\"ui-monospace, SFMono-Regular, Consolas, monospace\" font-size=\"13\">★ "@ + decimal_spec(p.stars as nat) + " · forks "@
        + decimal_spec(p.forks as nat) + (match p.primary_language {
        Some(l) => " · "@ + escape_spec(l),
        None => Seq::empty(),
    }) + "</text>"@
}

/// The lines of the projects, the first at height 236 and each next 34 lower.
pub open spec fn projects_spec(ps: Seq<ProjectModel>) -> Seq<char>
    decreases ps.len(),
{
    if ps.len() == 0 {
        Seq::empty()
    } else {
        projects_spec(ps.drop_last()) + project_lines_spec(ps.last(), (236 + 34 * (ps.len() - 1)) as nat)
    }
}

/// The combined GitHub card of a snapshot: frame, counts, the language line and up to
/// three projects.
pub open spec fn ready_svg_spec(c: ReadyCardModel, stale: bool, labels: Seq<Seq<char>>) -> Seq<char> {
    ready_head_spec(c.projects.len()) + ready_counts_spec(c, stale) + ready_languages_spec(labels) + projects_spec(
        c.projects.take(shown_projects(c.projects.len()) as int),
    ) + "</svg>"@
}

fn push_counts_line1(body: &mut String, card: &ReadyCard, stale: bool)
    ensures
        final(body)@ == old(body)@ + counts_line1(card.deep_view(), stale),
{
    let ghost start = body@;
    push_str(body, "<text x=\"28\" y=\"68\" fill=\"#9fb0d9\" font-family=\"ui-monospace, SFMono-Regular, Consolas, monospace\" font-size=\"14\">@");
    push_escaped(body, card.login.as_str());
    push_str(body, " · ");
    push_decimal(body, card.contributions.total);
    push_str(
        body,
        if stale {
            " contributions · last known"
        } else {
            " contributions"
        },
    );
    push_str(body, "</text>");
    proof {
        assert(body@ =~= start + counts_line1(card.deep_view(), stale));
    }
}

fn push_counts_line2(body: &mut String, card: &ReadyCard)
    ensures
        final(body)@ == old(body)@ + counts_line2(card.deep_view()),
{
    let ghost start = body@;
    push_str(body, "<text x=\"28\" y=\"102\" fill=\"#d7def2\" font-family=\"ui-monospace, SFMono-Regular, Consolas, monospace\" font-size=\"15\">commits ");
    push_decimal(body, card.overall.total_commits);
    push_str(body, " · stars ");
    push_decimal(body, card.overall.total_stars);
    push_str(body, " · PRs ");
    push_decimal(body, card.overall.total_pull_requests);
    push_str(body, " · issues ");
    push_decimal(body, card.overall.total_issues);
    push_str(body, "</text>");
    proof {
        assert(body@ =~= start + counts_line2(card.deep_view()));
    }
}

fn push_counts_line3(body: &mut String, card: &ReadyCard)
    ensures
        final(body)@ == old(body)@ + counts_line3(card.deep_view()),
{
    let ghost start = body@;
    push_str(body, "<text x=\"28\" y=\"129\" fill=\"#9fb0d9\" font-family=\"ui-monospace, SFMono-Regular, Consolas, monospace\" font-size=\"14\">reviews ");
    push_decimal(body, card.overall.total_reviews);
    push_str(body, " · contributed to ");
    push_decimal(body, card.overall.contributed_to);
    push_str(body, " · followers ");
    push_decimal(body, card.overall.followers);
    push_str(body, " · rank ");
    push_escaped(body, card.rank_level.as_str());
    push_str(body, "</text>");
    proof {
        assert(body@ =~= start + counts_line3(card.deep_view()));
    }
}

fn push_counts_line4(body: &mut String, card: &ReadyCard)
    ensures
        final(body)@ == old(body)@ + counts_line4(card.deep_view()),
{
    let ghost start = body@;
    push_str(body, "<text x=\"28\" y=\"162\" fill=\"#d7def2\" font-family=\"ui-monospace, SFMono-Regular, Consolas, monospace\" font-size=\"15\">streak ");
    push_decimal(body, card.contributions.current_streak_days);
    push_str(body, "d · longest ");
    push_decimal(body, card.contributions.longest_streak_days);
    push_str(body, "d · active ");
    push_decimal(body, card.contributions.active_days);
    push_str(body, "d</text>");
    proof {
        assert(body@ =~= start + counts_line4(card.deep_view()));
    }
}

fn push_ready_counts(body: &mut String, card: &ReadyCard, stale: bool)
    ensures
        final(body)@ == old(body)@ + ready_counts_spec(card.deep_view(), stale),
{
    let ghost start = body@;
    push_counts_line1(body, card, stale);
    push_counts_line2(body, card);
    push_counts_line3(body, card);
    push_counts_line4(body, card);
    proof {
        assert(body@ =~= start + ready_counts_spec(card.deep_view(), stale));
    }
}

/// The language line of the card.
pub fn language_line(labels: &Vec<String>) -> (r: String)
    ensures
        r@ == language_line_spec(labels.deep_view()),
{
    if labels.len() == 0 {
        return owned("languages unavailable");
    }
    let ghost all = labels.deep_view();
    let n = if labels.len() < MAX_CARD_LANGUAGES {
        labels.len()
    } else {
        MAX_CARD_LANGUAGES
    };
    let mut joined = String::new();
    let mut i: usize = 0;
    while i < n
        invariant
            i <= n <= labels@.len(),
            n >= 1,
            all == labels.deep_view(),
            joined@ == joined_labels(all.take(i as int)),
        decreases n - i,
    {
        proof {
            assert(all.take(i + 1).drop_last() == all.take(i as int));
            assert(all.take(i + 1).last() == all[i as int]);
            if i == 0 {
                assert(all.take(1)[0] == all[0]);
            }
        }
        if i > 0 {
            push_str(&mut joined, " · ");
        }
        push_str(&mut joined, labels[i].as_str());
        proof {
            if i == 0 {
                assert(joined@ == all[0]);
            }
        }
        i = i + 1;
    }
    proof {
        if labels@.len() <= MAX_CARD_LANGUAGES {
            assert(all.take(n as int) == all);
        }
    }
    joined
}

fn push_project(body: &mut String, p: &ProjectMetadata, y: u64)
    ensures
        final(body)@ == old(body)@ + project_lines_spec(p.deep_view(), y as nat),
{
    let ghost start = body@;
    push_str(body, "<text x=\"28\" y=\"");
    push_decimal(body, y);
    push_str(body, "\" fill=\"#f4f7ff\" font-family=\"ui-monospace, SFMono-Regular, Consolas, monospace\" font-size=\"15\" font-weight=\"600\">");
    let name = truncate_chars(p.name.as_str(), 34);
    push_escaped(body, name.as_str());
    push_str(body, "</text>");
    push_str(body, "<text x=\"310\" y=\"");
    push_decimal(body, y);
    push_str(body, "\" fill=\"#9fb0d9\" font-family=\"ui-monospace, SFMono-Regular, Consolas, monospace\" font-size=\"13\">★ ");
    push_decimal(body, p.stars);
    push_str(body, " · forks ");
    push_decimal(body, p.forks);
    let ghost mid = body@;
    match &p.primary_language {
        Some(l) => {
            push_str(body, " · ");
            push_escaped(body, l.as_str());
            proof {
                assert(body@ =~= mid + (" · "@ + escape_spec(l@)));
            }
        },
        None => {
            proof {
                assert(body@ =~= mid + Seq::<char>::empty());
            }
        },
    }
    push_str(body, "</text>");
    proof {
        assert(body@ =~= start + project_lines_spec(p.deep_view(), y as nat));
    }
}

fn push_projects(body: &mut String, projects: &Vec<ProjectMetadata>, n: usize)
    requires
        n <= projects@.len(),
        n <= MAX_CARD_PROJECTS,
    ensures
        final(body)@ == old(body)@ + projects_spec(projects.deep_view().take(n as int)),
{
    let ghost start = body@;
    let ghost all = projects.deep_view();
    let mut k: usize = 0;
    let mut y: u64 = 236;
    while k < n
        invariant
            k <= n <= projects@.len(),
            n <= MAX_CARD_PROJECTS,
            y == 236 + 34 * k,
            all == projects.deep_view(),
            body@ == start + projects_spec(all.take(k as int)),
        decreases n - k,
    {
        let ghost before = body@;
        push_project(body, &projects[k], y);
        proof {
            assert(all[k as int] == projects@[k as int].deep_view());
            assert(all.take(k + 1).drop_last() == all.take(k as int));
            assert(all.take(k + 1).last() == all[k as int]);
            assert(body@ =~= start + projects_spec(all.take(k + 1)));
        }
        k = k + 1;
        y = y + 34;
    }
}

/// Renders the combined GitHub card of a snapshot. `language_labels` are the shares of
/// the top languages, each written as its name and its percentage.
pub fn render_ready_svg(card: &ReadyCard, stale: bool, language_labels: &Vec<String>) -> (r: String)
    ensures
        r@ == ready_svg_spec(card.deep_view(), stale, language_labels.deep_view()),
{
    let n = if card.projects.len() < MAX_CARD_PROJECTS {
        card.projects.len()
    } else {
        MAX_CARD_PROJECTS
    };
    let height: u32 = 250 + (n as u32) * 34;
    let mut body = String::new();
    push_card_open(&mut body, 760, height, "GitHub stats");
    push_str(&mut body, "<rect width=\"760\" height=\"100%\" rx=\"20\" fill=\"#0b1020\"/>");
    push_str(&mut body, "<rect x=\"1\" y=\"1\" width=\"758\" height=\"100%\" rx=\"19\" fill=\"none\" stroke=\"#293659\"/>");
    push_str(&mut body, "<text x=\"28\" y=\"42\" fill=\"#f4f7ff\" font-family=\"ui-monospace, SFMono-Regular, Consolas, monospace\" font-size=\"23\" font-weight=\"700\">GitHub stats</text>");
    let ghost head = body@;
    proof {
        assert(head =~= ready_head_spec(card.projects@.len()));
    }
    push_ready_counts(&mut body, card, stale);
    let ghost counted = body@;
    let line = language_line(language_labels);
    let cut = truncate_chars(line.as_str(), 86);
    push_str(&mut body, "<text x=\"28\" y=\"196\" fill=\"#d7def2\" font-family=\"ui-monospace, SFMono-Regular, Consolas, monospace\" font-size=\"14\">");
    push_escaped(&mut body, cut.as_str());
    push_str(&mut body, "</text>");
    proof {
        assert(body@ =~= counted + ready_languages_spec(language_labels.deep_view()));
    }
    let ghost languaged = body@;
    push_projects(&mut body, &card.projects, n);
    push_str(&mut body, "</svg>");
    proof {
        assert(body@ =~= ready_svg_spec(card.deep_view(), stale, language_labels.deep_view()));
    }
    body
}

/// The combined GitHub card of a snapshot at `revision`, tagged with the revision and
/// its freshness.
pub fn ready_svg_document(card: &ReadyCard, revision: u64, stale: bool, language_labels: &Vec<String>) -> (r:
    GitHubSvgDocument)
    ensures
        r.model() == (DocumentModel {
            body: ready_svg_spec(card.deep_view(), stale, language_labels.deep_view()),
            etag: svg_etag_spec(Some(revision), stale),
            stream_revision: revision,
        }),
{
    GitHubSvgDocument::new(render_ready_svg(card, stale, language_labels), Some(revision), stale)
}

fn clone_project(p: &ProjectMetadata) -> (r: ProjectMetadata)
    ensures
        r.deep_view() == p.deep_view(),
{
    ProjectMetadata {
        name: owned(p.name.as_str()),
        name_with_owner: owned(p.name_with_owner.as_str()),
        url: owned(p.url.as_str()),
        description: clone_opt_string(&p.description),
        stars: p.stars,
        forks: p.forks,
        pushed_at: clone_opt_string(&p.pushed_at),
        primary_language: clone_opt_string(&p.primary_language),
    }
}

fn clone_projects(v: &Vec<ProjectMetadata>) -> (r: Vec<ProjectMetadata>)
    ensures
        r.deep_view() == v.deep_view(),
{
    let mut r: Vec<ProjectMetadata> = Vec::new();
    let mut i: usize = 0;
    while i < v.len()
        invariant
            i <= v@.len(),
            r.deep_view() =~= v.deep_view().take(i as int),
        decreases v.len() - i,
    {
        let ghost before = r.deep_view();
        r.push(clone_project(&v[i]));
        proof {
            assert(r.deep_view() =~= before.push(v.deep_view()[i as int]));
            assert(v.deep_view().take(i + 1) =~= v.deep_view().take(i as int).push(v.deep_view()[i as int]));
        }
        i = i + 1;
    }
    proof {
        assert(v.deep_view().take(v@.len() as int) =~= v.deep_view());
    }
    r
}

/// What the combined card shows of a snapshot.
pub open spec fn ready_model_of(s: GitHubSnapshot) -> ReadyCardModel {
    ReadyCardModel {
        login: s.login@,
        contributions: s.contributions,
        overall: OverallCounts {
            total_commits: s.overall.total_commits,
            total_pull_requests: s.overall.total_pull_requests,
            total_reviews: s.overall.total_reviews,
            total_issues: s.overall.total_issues,
            total_stars: s.overall.total_stars,
            contributed_to: s.overall.contributed_to,
            followers: s.overall.followers,
        },
        rank_level: s.overall.rank.level@,
        projects: s.projects.deep_view(),
    }
}

/// What the combined card shows of a snapshot.
pub fn ready_card_of(s: &GitHubSnapshot) -> (r: ReadyCard)
    ensures
        r.deep_view() == ready_model_of(*s),
{
    ReadyCard {
        login: owned(s.login.as_str()),
        contributions: s.contributions,
        overall: OverallCounts {
            total_commits: s.overall.total_commits,
            total_pull_requests: s.overall.total_pull_requests,
            total_reviews: s.overall.total_reviews,
            total_issues: s.overall.total_issues,
            total_stars: s.overall.total_stars,
            contributed_to: s.overall.contributed_to,
            followers: s.overall.followers,
        },
        rank_level: owned(s.overall.rank.level.as_str()),
        projects: clone_projects(&s.projects),
    }
}

/// Whether a snapshot collected at `collected` is stale at `now`.
pub open spec fn stale_at(collected: u64, now: u64, stale_after_ms: u64) -> bool {
    (if now >= collected {
        now - collected
    } else {
        0
    }) >= stale_after_ms
}

/// The combined GitHub card's document: for a snapshot, its card marked stale once it
/// is older than `stale_after_ms` and tagged with its revision and freshness; without
/// one, the unavailable panel.
pub open spec fn github_svg_spec(snapshot: Option<GitHubSnapshot>, now_unix_ms: u64, stale_after_ms: u64, labels: Seq<Seq<char>>) -> DocumentModel {
    match snapshot {
        Some(s) => {
            let stale = stale_at(s.collected_at_unix_ms, now_unix_ms, stale_after_ms);
            DocumentModel {
                body: ready_svg_spec(ready_model_of(s), stale, labels),
                etag: svg_etag_spec(Some(s.revision), stale),
                stream_revision: s.revision,
            }
        },
        None => DocumentModel { body: unavailable_svg_spec(), etag: svg_etag_spec(None, false), stream_revision: 0 },
    }
}

/// Renders the combined GitHub card of the kept snapshot, if any.
pub fn github_svg_document(
    snapshot: Option<&GitHubSnapshot>,
    now_unix_ms: u64,
    stale_after_ms: u64,
    language_labels: &Vec<String>,
) -> (r: GitHubSvgDocument)
    ensures
        r.model() == github_svg_spec(
            match snapshot {
                Some(s) => Some(*s),
                None => None,
            },
            now_unix_ms,
            stale_after_ms,
            language_labels.deep_view(),
        ),
{
    match snapshot {
        Some(s) => {
            let stale = is_stale(s.collected_at_unix_ms, now_unix_ms, stale_after_ms);
            let card = ready_card_of(s);
            ready_svg_document(&card, s.revision, stale, language_labels)
        },
        None => unavailable_svg_document(),
    }
}

} // verus!
