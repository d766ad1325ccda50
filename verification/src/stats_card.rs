//! The statistics card of a GitHub snapshot: the total commits, six metrics with their
//! icons, the rank ring, and the mark of a stale snapshot. The rank's percentile is a
//! floating-point figure; the card takes it in tenths of a percent.
use vstd::prelude::*;

use crate::cards::{card_etag_spec, stats_head, stats_head_spec, unavailable_card_document, unavailable_card_spec};
use crate::cards::{GitHubCardDocument, GitHubCardKind};
use crate::github::is_stale;
use crate::github_card::stale_at;
use crate::github_store::{GitHubSnapshot, OverallStats};
use crate::svg::DocumentModel;
use crate::text::{contains_seq, decimal_spec, escape_spec, lemma_contains_after, lemma_contains_before, lemma_contains_between, lemma_contains_within, push_decimal, push_escaped, push_str};

verus! {

/// The icon of a statistic.
#[derive(Clone, Copy, Debug, PartialEq, Eq, Structural)]
pub enum StatIcon {
    Commit,
    PullRequest,
    Review,
    Issue,
    Star,
    Repository,
    Followers,
}

pub open spec fn icon_key_spec(icon: StatIcon) -> Seq<char> {
    match icon {
        StatIcon::Commit => "commit"@,
        StatIcon::PullRequest => "pull-request"@,
        StatIcon::Review => "review"@,
        StatIcon::Issue => "issue"@,
        StatIcon::Star => "star"@,
        StatIcon::Repository => "repository"@,
        StatIcon::Followers => "followers"@,
    }
}

pub open spec fn icon_color_spec(icon: StatIcon) -> Seq<char> {
    match icon {
        StatIcon::Commit => "#58A6FF"@,
        StatIcon::PullRequest => "#3FB950"@,
        StatIcon::Review => "#A371F7"@,
        StatIcon::Issue => "#F85149"@,
        StatIcon::Star => "#E3B341"@,
        StatIcon::Repository => "#39C5CF"@,
        StatIcon::Followers => "#DB61A2"@,
    }
}

pub open spec fn icon_path_spec(icon: StatIcon) -> Seq<char> {
    match icon {
        StatIcon::Commit => "<path d=\"M16.944 11h4.306a.75.75 0 0 1 0 1.5h-4.306a5.001 5.001 0 0 1-9.888 0H2.75a.75.75 0 0 1 0-1.5h4.306a5.001 5.001 0 0 1 9.888 0Zm-1.444.75a3.5 3.5 0 1 0-7 0 3.5 3.5 0 0 0 7 0Z\"/>"@,
        StatIcon::PullRequest => "<path d=\"M16 19.25a3.25 3.25 0 1 1 6.5 0 3.25 3.25 0 0 1-6.5 0Zm-14.5 0a3.25 3.25 0 1 1 6.5 0 3.25 3.25 0 0 1-6.5 0Zm0-14.5a3.25 3.25 0 1 1 6.5 0 3.25 3.25 0 0 1-6.5 0ZM4.75 3a1.75 1.75 0 1 0 .001 3.501A1.75 1.75 0 0 0 4.75 3Zm0 14.5a1.75 1.75 0 1 0 .001 3.501A1.75 1.75 0 0 0 4.75 17.5Zm14.5 0a1.75 1.75 0 1 0 .001 3.501 1.75 1.75 0 0 0-.001-3.501Z\"/><path d=\"M13.405 1.72a.75.75 0 0 1 0 1.06L12.185 4h4.065A3.75 3.75 0 0 1 20 7.75v8.75a.75.75 0 0 1-1.5 0V7.75a2.25 2.25 0 0 0-2.25-2.25h-4.064l1.22 1.22a.75.75 0 0 1-1.061 1.06l-2.5-2.5a.75.75 0 0 1 0-1.06l2.5-2.5a.75.75 0 0 1 1.06 0ZM4.75 7.25A.75.75 0 0 1 5.5 8v8A.75.75 0 0 1 4 16V8a.75.75 0 0 1 .75-.75Z\"/>"@,
        StatIcon::Review => "<path d=\"M10.3 6.74a.75.75 0 0 1-.04 1.06l-2.908 2.7 2.908 2.7a.75.75 0 1 1-1.02 1.1l-3.5-3.25a.75.75 0 0 1 0-1.1l3.5-3.25a.75.75 0 0 1 1.06.04Zm3.44 1.06a.75.75 0 1 1 1.02-1.1l3.5 3.25a.75.75 0 0 1 0 1.1l-3.5 3.25a.75.75 0 1 1-1.02-1.1l2.908-2.7-2.908-2.7Z\"/><path d=\"M1.5 4.25c0-.966.784-1.75 1.75-1.75h17.5c.966 0 1.75.784 1.75 1.75v12.5a1.75 1.75 0 0 1-1.75 1.75h-9.69l-3.573 3.573A1.458 1.458 0 0 1 5 21.043V18.5H3.25a1.75 1.75 0 0 1-1.75-1.75ZM3.25 4a.25.25 0 0 0-.25.25v12.5c0 .138.112.25.25.25h2.5a.75.75 0 0 1 .75.75v3.19l3.72-3.72a.749.749 0 0 1 .53-.22h10a.25.25 0 0 0 .25-.25V4.25a.25.25 0 0 0-.25-.25Z\"/>"@,
        StatIcon::Issue => "<path d=\"M12 1c6.075 0 11 4.925 11 11s-4.925 11-11 11S1 18.075 1 12 5.925 1 12 1ZM2.5 12a9.5 9.5 0 0 0 9.5 9.5 9.5 9.5 0 0 0 9.5-9.5A9.5 9.5 0 0 0 12 2.5 9.5 9.5 0 0 0 2.5 12Zm9.5 2a2 2 0 1 1-.001-3.999A2 2 0 0 1 12 14Z\"/>"@,
        StatIcon::Star => "<path d=\"M12 .25a.75.75 0 0 1 .673.418l3.058 6.197 6.839.994a.75.75 0 0 1 .415 1.279l-4.948 4.823 1.168 6.811a.751.751 0 0 1-1.088.791L12 18.347l-6.117 3.216a.75.75 0 0 1-1.088-.79l1.168-6.812-4.948-4.823a.75.75 0 0 1 .416-1.28l6.838-.993L11.328.668A.75.75 0 0 1 12 .25Zm0 2.445L9.44 7.882a.75.75 0 0 1-.565.41l-5.725.832 4.143 4.038a.748.748 0 0 1 .215.664l-.978 5.702 5.121-2.692a.75.75 0 0 1 .698 0l5.12 2.692-.977-5.702a.748.748 0 0 1 .215-.664l4.143-4.038-5.725-.831a.75.75 0 0 1-.565-.41L12 2.694Z\"/>"@,
        StatIcon::Repository => "<path d=\"M3 2.75A2.75 2.75 0 0 1 5.75 0h14.5a.75.75 0 0 1 .75.75v20.5a.75.75 0 0 1-.75.75h-6a.75.75 0 0 1 0-1.5h5.25v-4H6A1.5 1.5 0 0 0 4.5 18v.75c0 .716.43 1.334 1.05 1.605a.75.75 0 0 1-.6 1.374A3.251 3.251 0 0 1 3 18.75ZM19.5 1.5H5.75c-.69 0-1.25.56-1.25 1.25v12.651A2.989 2.989 0 0 1 6 15h13.5Z\"/><path d=\"M7 18.25a.25.25 0 0 1 .25-.25h5a.25.25 0 0 1 .25.25v5.01a.25.25 0 0 1-.397.201l-2.206-1.604a.25.25 0 0 0-.294 0L7.397 23.46a.25.25 0 0 1-.397-.2v-5.01Z\"/>"@,
        StatIcon::Followers => "<path d=\"M3.5 8a5.5 5.5 0 1 1 8.596 4.547 9.005 9.005 0 0 1 5.9 8.18.751.751 0 0 1-1.5.045 7.5 7.5 0 0 0-14.993 0 .75.75 0 0 1-1.499-.044 9.005 9.005 0 0 1 5.9-8.181A5.496 5.496 0 0 1 3.5 8ZM9 4a4 4 0 1 0 0 8 4 4 0 0 0 0-8Zm8.29 4c-.148 0-.292.01-.434.03a.75.75 0 1 1-.212-1.484 4.53 4.53 0 0 1 3.38 8.097 6.69 6.69 0 0 1 3.956 6.107.75.75 0 0 1-1.5 0 5.193 5.193 0 0 0-3.696-4.972l-.534-.16v-1.676l.41-.209A3.03 3.03 0 0 0 17.29 8Z\"/>"@,
    }
}

fn icon_key(icon: StatIcon) -> (r: &'static str)
    ensures
        r@ == icon_key_spec(icon),
{
    match icon {
        StatIcon::Commit => "commit",
        StatIcon::PullRequest => "pull-request",
        StatIcon::Review => "review",
        StatIcon::Issue => "issue",
        StatIcon::Star => "star",
        StatIcon::Repository => "repository",
        StatIcon::Followers => "followers",
    }
}

fn icon_color(icon: StatIcon) -> (r: &'static str)
    ensures
        r@ == icon_color_spec(icon),
{
    match icon {
        StatIcon::Commit => "#58A6FF",
        StatIcon::PullRequest => "#3FB950",
        StatIcon::Review => "#A371F7",
        StatIcon::Issue => "#F85149",
        StatIcon::Star => "#E3B341",
        StatIcon::Repository => "#39C5CF",
        StatIcon::Followers => "#DB61A2",
    }
}

fn icon_path(icon: StatIcon) -> (r: &'static str)
    ensures
        r@ == icon_path_spec(icon),
{
    match icon {
        StatIcon::Commit => "<path d=\"M16.944 11h4.306a.75.75 0 0 1 0 1.5h-4.306a5.001 5.001 0 0 1-9.888 0H2.75a.75.75 0 0 1 0-1.5h4.306a5.001 5.001 0 0 1 9.888 0Zm-1.444.75a3.5 3.5 0 1 0-7 0 3.5 3.5 0 0 0 7 0Z\"/>",
        StatIcon::PullRequest => "<path d=\"M16 19.25a3.25 3.25 0 1 1 6.5 0 3.25 3.25 0 0 1-6.5 0Zm-14.5 0a3.25 3.25 0 1 1 6.5 0 3.25 3.25 0 0 1-6.5 0Zm0-14.5a3.25 3.25 0 1 1 6.5 0 3.25 3.25 0 0 1-6.5 0ZM4.75 3a1.75 1.75 0 1 0 .001 3.501A1.75 1.75 0 0 0 4.75 3Zm0 14.5a1.75 1.75 0 1 0 .001 3.501A1.75 1.75 0 0 0 4.75 17.5Zm14.5 0a1.75 1.75 0 1 0 .001 3.501 1.75 1.75 0 0 0-.001-3.501Z\"/><path d=\"M13.405 1.72a.75.75 0 0 1 0 1.06L12.185 4h4.065A3.75 3.75 0 0 1 20 7.75v8.75a.75.75 0 0 1-1.5 0V7.75a2.25 2.25 0 0 0-2.25-2.25h-4.064l1.22 1.22a.75.75 0 0 1-1.061 1.06l-2.5-2.5a.75.75 0 0 1 0-1.06l2.5-2.5a.75.75 0 0 1 1.06 0ZM4.75 7.25A.75.75 0 0 1 5.5 8v8A.75.75 0 0 1 4 16V8a.75.75 0 0 1 .75-.75Z\"/>",
        StatIcon::Review => "<path d=\"M10.3 6.74a.75.75 0 0 1-.04 1.06l-2.908 2.7 2.908 2.7a.75.75 0 1 1-1.02 1.1l-3.5-3.25a.75.75 0 0 1 0-1.1l3.5-3.25a.75.75 0 0 1 1.06.04Zm3.44 1.06a.75.75 0 1 1 1.02-1.1l3.5 3.25a.75.75 0 0 1 0 1.1l-3.5 3.25a.75.75 0 1 1-1.02-1.1l2.908-2.7-2.908-2.7Z\"/><path d=\"M1.5 4.25c0-.966.784-1.75 1.75-1.75h17.5c.966 0 1.75.784 1.75 1.75v12.5a1.75 1.75 0 0 1-1.75 1.75h-9.69l-3.573 3.573A1.458 1.458 0 0 1 5 21.043V18.5H3.25a1.75 1.75 0 0 1-1.75-1.75ZM3.25 4a.25.25 0 0 0-.25.25v12.5c0 .138.112.25.25.25h2.5a.75.75 0 0 1 .75.75v3.19l3.72-3.72a.749.749 0 0 1 .53-.22h10a.25.25 0 0 0 .25-.25V4.25a.25.25 0 0 0-.25-.25Z\"/>",
        StatIcon::Issue => "<path d=\"M12 1c6.075 0 11 4.925 11 11s-4.925 11-11 11S1 18.075 1 12 5.925 1 12 1ZM2.5 12a9.5 9.5 0 0 0 9.5 9.5 9.5 9.5 0 0 0 9.5-9.5A9.5 9.5 0 0 0 12 2.5 9.5 9.5 0 0 0 2.5 12Zm9.5 2a2 2 0 1 1-.001-3.999A2 2 0 0 1 12 14Z\"/>",
        StatIcon::Star => "<path d=\"M12 .25a.75.75 0 0 1 .673.418l3.058 6.197 6.839.994a.75.75 0 0 1 .415 1.279l-4.948 4.823 1.168 6.811a.751.751 0 0 1-1.088.791L12 18.347l-6.117 3.216a.75.75 0 0 1-1.088-.79l1.168-6.812-4.948-4.823a.75.75 0 0 1 .416-1.28l6.838-.993L11.328.668A.75.75 0 0 1 12 .25Zm0 2.445L9.44 7.882a.75.75 0 0 1-.565.41l-5.725.832 4.143 4.038a.748.748 0 0 1 .215.664l-.978 5.702 5.121-2.692a.75.75 0 0 1 .698 0l5.12 2.692-.977-5.702a.748.748 0 0 1 .215-.664l4.143-4.038-5.725-.831a.75.75 0 0 1-.565-.41L12 2.694Z\"/>",
        StatIcon::Repository => "<path d=\"M3 2.75A2.75 2.75 0 0 1 5.75 0h14.5a.75.75 0 0 1 .75.75v20.5a.75.75 0 0 1-.75.75h-6a.75.75 0 0 1 0-1.5h5.25v-4H6A1.5 1.5 0 0 0 4.5 18v.75c0 .716.43 1.334 1.05 1.605a.75.75 0 0 1-.6 1.374A3.251 3.251 0 0 1 3 18.75ZM19.5 1.5H5.75c-.69 0-1.25.56-1.25 1.25v12.651A2.989 2.989 0 0 1 6 15h13.5Z\"/><path d=\"M7 18.25a.25.25 0 0 1 .25-.25h5a.25.25 0 0 1 .25.25v5.01a.25.25 0 0 1-.397.201l-2.206-1.604a.25.25 0 0 0-.294 0L7.397 23.46a.25.25 0 0 1-.397-.2v-5.01Z\"/>",
        StatIcon::Followers => "<path d=\"M3.5 8a5.5 5.5 0 1 1 8.596 4.547 9.005 9.005 0 0 1 5.9 8.18.751.751 0 0 1-1.5.045 7.5 7.5 0 0 0-14.993 0 .75.75 0 0 1-1.499-.044 9.005 9.005 0 0 1 5.9-8.181A5.496 5.496 0 0 1 3.5 8ZM9 4a4 4 0 1 0 0 8 4 4 0 0 0 0-8Zm8.29 4c-.148 0-.292.01-.434.03a.75.75 0 1 1-.212-1.484 4.53 4.53 0 0 1 3.38 8.097 6.69 6.69 0 0 1 3.956 6.107.75.75 0 0 1-1.5 0 5.193 5.193 0 0 0-3.696-4.972l-.534-.16v-1.676l.41-.209A3.03 3.03 0 0 0 17.29 8Z\"/>",
    }
}

/// A whole number written with one decimal, as the card writes its coordinates.
pub open spec fn one_decimal(n: int) -> Seq<char> {
    decimal_spec(n as nat) + ".0"@
}

fn push_one_decimal(body: &mut String, n: u64)
    ensures
        final(body)@ == old(body)@ + one_decimal(n as int),
{
    push_decimal(body, n);
    push_str(body, ".0");
}

/// A statistic's icon at `x`, `y`, `size` units wide and high, in its color.
#[verifier::opaque]
pub open spec fn stat_icon_spec(icon: StatIcon, x: int, y: int, size: int) -> Seq<char> {
    "<g data-stat-icon=\""@ + icon_key_spec(icon) + "\" data-icon-color=\""@ + icon_color_spec(icon) + "\"><svg x=\""@
        + one_decimal(x) + "\" y=\""@ + one_decimal(y) + "\" width=\""@ + one_decimal(size) + "\" height=\""@ + one_decimal(
        size,
    ) + "\" viewBox=\"0 0 24 24\" aria-hidden=\"true\" fill=\""@ + icon_color_spec(icon) + "\" class=\"stat-icon\">"@
        + icon_path_spec(icon) + "</svg></g>"@
}

fn push_stat_icon(body: &mut String, icon: StatIcon, x: u64, y: u64, size: u64)
    ensures
        final(body)@ == old(body)@ + stat_icon_spec(icon, x as int, y as int, size as int),
{
    proof {
        reveal(stat_icon_spec);
    }
    let ghost start = body@;
    let color = icon_color(icon);
    push_str(body, "<g data-stat-icon=\"");
    push_str(body, icon_key(icon));
    push_str(body, "\" data-icon-color=\"");
    push_str(body, color);
    push_str(body, "\"><svg x=\"");
    push_one_decimal(body, x);
    push_str(body, "\" y=\"");
    push_one_decimal(body, y);
    push_str(body, "\" width=\"");
    push_one_decimal(body, size);
    push_str(body, "\" height=\"");
    push_one_decimal(body, size);
    push_str(body, "\" viewBox=\"0 0 24 24\" aria-hidden=\"true\" fill=\"");
    push_str(body, color);
    push_str(body, "\" class=\"stat-icon\">");
    push_str(body, icon_path(icon));
    push_str(body, "</svg></g>");
    proof {
        assert(body@ =~= start + stat_icon_spec(icon, x as int, y as int, size as int));
    }
}

/// The panel of the total commits.
pub open spec fn primary_spec(total_commits: u64) -> Seq<char> {
    "<g data-stats-primary=\"commits\"><rect x=\"28\" y=\"84\" width=\"244\" height=\"180\" rx=\"18\" class=\"primary-card\"/><g clip-path=\"url(#primary-clip)\"><path d=\"M28 248C64 229 96 232 129 246C160 260 183 261 209 239C231 221 252 215 272 220V264H28Z\" class=\"primary-wave-fill\"/><path d=\"M28 257C66 242 97 241 128 252C160 264 191 257 216 244C240 232 256 230 272 233\" class=\"primary-wave-secondary\"/><path d=\"M28 248C64 229 96 232 129 246C160 260 183 261 209 239C231 221 252 215 272 220\" class=\"primary-wave\"/></g>"@ + stat_icon_spec(StatIcon::Commit, 51, 108, 21)
        + "<text x=\"82\" y=\"124\" class=\"primary-label\">TOTAL COMMITS</text><text x=\"47\" y=\"205\" class=\"primary-value\">"@
        + decimal_spec(total_commits as nat) + "</text></g>"@
}

fn push_primary(body: &mut String, total_commits: u64)
    ensures
        final(body)@ == old(body)@ + primary_spec(total_commits),
{
    let ghost start = body@;
    push_str(body, "<g data-stats-primary=\"commits\"><rect x=\"28\" y=\"84\" width=\"244\" height=\"180\" rx=\"18\" class=\"primary-card\"/><g clip-path=\"url(#primary-clip)\"><path d=\"M28 248C64 229 96 232 129 246C160 260 183 261 209 239C231 221 252 215 272 220V264H28Z\" class=\"primary-wave-fill\"/><path d=\"M28 257C66 242 97 241 128 252C160 264 191 257 216 244C240 232 256 230 272 233\" class=\"primary-wave-secondary\"/><path d=\"M28 248C64 229 96 232 129 246C160 260 183 261 209 239C231 221 252 215 272 220\" class=\"primary-wave\"/></g>");
    push_stat_icon(body, StatIcon::Commit, 51, 108, 21);
    push_str(
        body,
        "<text x=\"82\" y=\"124\" class=\"primary-label\">TOTAL COMMITS</text><text x=\"47\" y=\"205\" class=\"primary-value\">",
    );
    push_decimal(body, total_commits);
    push_str(body, "</text></g>");
    proof {
        assert(body@ =~= start + primary_spec(total_commits));
    }
}

/// One metric tile: its card, icon, label and value, entering `70 + 45 * index`
/// milliseconds after the card.
pub open spec fn metric_spec(index: nat, label: Seq<char>, value: u64, icon: StatIcon, x: int, y: int) -> Seq<char> {
    "<g class=\"metric-enter\" style=\"animation-delay:"@ + decimal_spec(70 + index * 45) + "ms\"><rect x=\""@
        + one_decimal(x) + "\" y=\""@ + one_decimal(y)
        + "\" width=\"169.0\" height=\"56.0\" rx=\"14\" class=\"metric-card\"/>"@ + stat_icon_spec(icon, x + 20, y + 17, 20)
        + "<text x=\""@ + one_decimal(x + 52) + "\" y=\""@ + one_decimal(y + 23) + "\" class=\"metric-label\">"@
        + escape_spec(label) + "</text><text x=\""@ + one_decimal(x + 52) + "\" y=\""@ + one_decimal(y + 47)
        + "\" class=\"metric-value\">"@ + decimal_spec(value as nat) + "</text></g>"@
}

fn push_metric(body: &mut String, index: u64, label: &str, value: u64, icon: StatIcon, x: u64, y: u64)
    requires
        index <= 10,
        x <= 1000,
        y <= 1000,
    ensures
        final(body)@ == old(body)@ + metric_spec(index as nat, label@, value, icon, x as int, y as int),
{
    let ghost start = body@;
    push_str(body, "<g class=\"metric-enter\" style=\"animation-delay:");
    push_decimal(body, 70 + index * 45);
    push_str(body, "ms\"><rect x=\"");
    push_one_decimal(body, x);
    push_str(body, "\" y=\"");
    push_one_decimal(body, y);
    push_str(body, "\" width=\"169.0\" height=\"56.0\" rx=\"14\" class=\"metric-card\"/>");
    push_stat_icon(body, icon, x + 20, y + 17, 20);
    push_str(body, "<text x=\"");
    push_one_decimal(body, x + 52);
    push_str(body, "\" y=\"");
    push_one_decimal(body, y + 23);
    push_str(body, "\" class=\"metric-label\">");
    push_escaped(body, label);
    push_str(body, "</text><text x=\"");
    push_one_decimal(body, x + 52);
    push_str(body, "\" y=\"");
    push_one_decimal(body, y + 47);
    push_str(body, "\" class=\"metric-value\">");
    push_decimal(body, value);
    push_str(body, "</text></g>");
    proof {
        assert(body@ =~= start + metric_spec(index as nat, label@, value, icon, x as int, y as int));
    }
}

/// The six metric tiles in two columns: pull requests, code reviews, issues, stars
/// received, repositories contributed to, and followers.
pub open spec fn metrics_spec(o: OverallStats) -> Seq<char> {
    metric_spec(0, "Pull Requests"@, o.total_pull_requests, StatIcon::PullRequest, 286, 84) + metric_spec(
        1,
        "Code Reviews"@,
        o.total_reviews,
        StatIcon::Review,
        465,
        84,
    ) + metric_spec(2, "Issues"@, o.total_issues, StatIcon::Issue, 286, 146) + metric_spec(
        3,
        "Stars Received"@,
        o.total_stars,
        StatIcon::Star,
        465,
        146,
    ) + metric_spec(4, "Contributed To"@, o.contributed_to, StatIcon::Repository, 286, 208) + metric_spec(
        5,
        "Followers"@,
        o.followers,
        StatIcon::Followers,
        465,
        208,
    )
}

fn push_metrics(body: &mut String, o: &OverallStats)
    ensures
        final(body)@ == old(body)@ + metrics_spec(*o),
{
    let ghost start = body@;
    push_metric(body, 0, "Pull Requests", o.total_pull_requests, StatIcon::PullRequest, 286, 84);
    push_metric(body, 1, "Code Reviews", o.total_reviews, StatIcon::Review, 465, 84);
    push_metric(body, 2, "Issues", o.total_issues, StatIcon::Issue, 286, 146);
    push_metric(body, 3, "Stars Received", o.total_stars, StatIcon::Star, 465, 146);
    push_metric(body, 4, "Contributed To", o.contributed_to, StatIcon::Repository, 286, 208);
    push_metric(body, 5, "Followers", o.followers, StatIcon::Followers, 465, 208);
    proof {
        assert(body@ =~= start + metrics_spec(*o));
    }
}

/// What a reader sees of a metric tile at `x`, `y`: its label, followed in the same tile
/// by its value.
pub open spec fn tile_text(label: Seq<char>, value: u64, x: int, y: int) -> Seq<char> {
    escape_spec(label) + "</text><text x=\""@ + one_decimal(x + 52) + "\" y=\""@ + one_decimal(y + 47)
        + "\" class=\"metric-value\">"@ + decimal_spec(value as nat) + "</text></g>"@
}

proof fn lemma_tile_text(index: nat, label: Seq<char>, value: u64, icon: StatIcon, x: int, y: int)
    ensures
        contains_seq(metric_spec(index, label, value, icon, x, y), tile_text(label, value, x, y)),
{
    let pre = "<g class=\"metric-enter\" style=\"animation-delay:"@ + decimal_spec(70 + index * 45) + "ms\"><rect x=\""@
        + one_decimal(x) + "\" y=\""@ + one_decimal(y)
        + "\" width=\"169.0\" height=\"56.0\" rx=\"14\" class=\"metric-card\"/>"@ + stat_icon_spec(icon, x + 20, y + 17, 20)
        + "<text x=\""@ + one_decimal(x + 52) + "\" y=\""@ + one_decimal(y + 23) + "\" class=\"metric-label\">"@;
    let t = tile_text(label, value, x, y);
    lemma_contains_between(pre, t, Seq::empty());
    assert(metric_spec(index, label, value, icon, x, y) =~= pre + t + Seq::empty());
}

/// The commit panel's label and figure.
pub open spec fn commits_text(total_commits: u64) -> Seq<char> {
    "<text x=\"82\" y=\"124\" class=\"primary-label\">TOTAL COMMITS</text><text x=\"47\" y=\"205\" class=\"primary-value\">"@
        + decimal_spec(total_commits as nat) + "</text></g>"@
}

proof fn lemma_metrics_show(o: OverallStats)
    ensures
        contains_seq(metrics_spec(o), tile_text("Pull Requests"@, o.total_pull_requests, 286, 84)),
        contains_seq(metrics_spec(o), tile_text("Code Reviews"@, o.total_reviews, 465, 84)),
        contains_seq(metrics_spec(o), tile_text("Issues"@, o.total_issues, 286, 146)),
        contains_seq(metrics_spec(o), tile_text("Stars Received"@, o.total_stars, 465, 146)),
        contains_seq(metrics_spec(o), tile_text("Contributed To"@, o.contributed_to, 286, 208)),
        contains_seq(metrics_spec(o), tile_text("Followers"@, o.followers, 465, 208)),
{
    let m0 = metric_spec(0, "Pull Requests"@, o.total_pull_requests, StatIcon::PullRequest, 286, 84);
    let m1 = metric_spec(1, "Code Reviews"@, o.total_reviews, StatIcon::Review, 465, 84);
    let m2 = metric_spec(2, "Issues"@, o.total_issues, StatIcon::Issue, 286, 146);
    let m3 = metric_spec(3, "Stars Received"@, o.total_stars, StatIcon::Star, 465, 146);
    let m4 = metric_spec(4, "Contributed To"@, o.contributed_to, StatIcon::Repository, 286, 208);
    let m5 = metric_spec(5, "Followers"@, o.followers, StatIcon::Followers, 465, 208);
    let t0 = tile_text("Pull Requests"@, o.total_pull_requests, 286, 84);
    let t1 = tile_text("Code Reviews"@, o.total_reviews, 465, 84);
    let t2 = tile_text("Issues"@, o.total_issues, 286, 146);
    let t3 = tile_text("Stars Received"@, o.total_stars, 465, 146);
    let t4 = tile_text("Contributed To"@, o.contributed_to, 286, 208);
    let t5 = tile_text("Followers"@, o.followers, 465, 208);
    lemma_tile_text(0, "Pull Requests"@, o.total_pull_requests, StatIcon::PullRequest, 286, 84);
    lemma_tile_text(1, "Code Reviews"@, o.total_reviews, StatIcon::Review, 465, 84);
    lemma_tile_text(2, "Issues"@, o.total_issues, StatIcon::Issue, 286, 146);
    lemma_tile_text(3, "Stars Received"@, o.total_stars, StatIcon::Star, 465, 146);
    lemma_tile_text(4, "Contributed To"@, o.contributed_to, StatIcon::Repository, 286, 208);
    lemma_tile_text(5, "Followers"@, o.followers, StatIcon::Followers, 465, 208);
    assert(metrics_spec(o) == m0 + m1 + m2 + m3 + m4 + m5);
    // the pull requests
    lemma_contains_before(m0, m1, t0);
    lemma_contains_before(m0 + m1, m2, t0);
    lemma_contains_before(m0 + m1 + m2, m3, t0);
    lemma_contains_before(m0 + m1 + m2 + m3, m4, t0);
    lemma_contains_before(m0 + m1 + m2 + m3 + m4, m5, t0);
    // the reviews
    lemma_contains_after(m0, m1, t1);
    lemma_contains_before(m0 + m1, m2, t1);
    lemma_contains_before(m0 + m1 + m2, m3, t1);
    lemma_contains_before(m0 + m1 + m2 + m3, m4, t1);
    lemma_contains_before(m0 + m1 + m2 + m3 + m4, m5, t1);
    // the issues
    lemma_contains_after(m0 + m1, m2, t2);
    lemma_contains_before(m0 + m1 + m2, m3, t2);
    lemma_contains_before(m0 + m1 + m2 + m3, m4, t2);
    lemma_contains_before(m0 + m1 + m2 + m3 + m4, m5, t2);
    // the stars
    lemma_contains_after(m0 + m1 + m2, m3, t3);
    lemma_contains_before(m0 + m1 + m2 + m3, m4, t3);
    lemma_contains_before(m0 + m1 + m2 + m3 + m4, m5, t3);
    // the repositories contributed to
    lemma_contains_after(m0 + m1 + m2 + m3, m4, t4);
    lemma_contains_before(m0 + m1 + m2 + m3 + m4, m5, t4);
    // the followers
    lemma_contains_after(m0 + m1 + m2 + m3 + m4, m5, t5);
}

proof fn lemma_whole_card_shows(s: GitHubSnapshot, stale: bool, percentile_tenths: u32, t: Seq<char>)
    requires
        contains_seq(metrics_spec(s.overall), t),
    ensures
        contains_seq(stats_svg_spec(s, stale, percentile_tenths), t),
{
    let head = stats_head_spec() + primary_spec(s.overall.total_commits);
    let rank = rank_spec(s.overall.rank.level@, clamp_tenths(percentile_tenths));
    let mark = if stale {
        "<text x=\"799\" y=\"48\" text-anchor=\"end\" class=\"stale\">LAST KNOWN</text>"@
    } else {
        Seq::empty()
    };
    lemma_contains_after(head, metrics_spec(s.overall), t);
    lemma_contains_before(head + metrics_spec(s.overall), rank, t);
    lemma_contains_before(head + metrics_spec(s.overall) + rank, mark, t);
    lemma_contains_before(head + metrics_spec(s.overall) + rank + mark, "</svg>"@, t);
}

proof fn lemma_primary_shows(total_commits: u64)
    ensures
        contains_seq(primary_spec(total_commits), commits_text(total_commits)),
{
    let c = commits_text(total_commits);
    let lead = "<g data-stats-primary=\"commits\"><rect x=\"28\" y=\"84\" width=\"244\" height=\"180\" rx=\"18\" class=\"primary-card\"/><g clip-path=\"url(#primary-clip)\"><path d=\"M28 248C64 229 96 232 129 246C160 260 183 261 209 239C231 221 252 215 272 220V264H28Z\" class=\"primary-wave-fill\"/><path d=\"M28 257C66 242 97 241 128 252C160 264 191 257 216 244C240 232 256 230 272 233\" class=\"primary-wave-secondary\"/><path d=\"M28 248C64 229 96 232 129 246C160 260 183 261 209 239C231 221 252 215 272 220\" class=\"primary-wave\"/></g>"@ + stat_icon_spec(StatIcon::Commit, 51, 108, 21);
    assert(primary_spec(total_commits) =~= lead + c + Seq::empty());
    lemma_contains_between(lead, c, Seq::empty());
}

/// Each metric tile shows the figure its label names: Pull Requests the pull requests,
/// Code Reviews the reviews, Issues the issues, Stars Received the stars, Contributed To
/// the repositories contributed to, Followers the followers; and the commit panel the
/// total commits.
pub proof fn law_tiles_show_the_figures_they_name(s: GitHubSnapshot, stale: bool, percentile_tenths: u32)
    ensures
        ({
            let svg = stats_svg_spec(s, stale, percentile_tenths);
            let o = s.overall;
            &&& contains_seq(svg, tile_text("Pull Requests"@, o.total_pull_requests, 286, 84))
            &&& contains_seq(svg, tile_text("Code Reviews"@, o.total_reviews, 465, 84))
            &&& contains_seq(svg, tile_text("Issues"@, o.total_issues, 286, 146))
            &&& contains_seq(svg, tile_text("Stars Received"@, o.total_stars, 465, 146))
            &&& contains_seq(svg, tile_text("Contributed To"@, o.contributed_to, 286, 208))
            &&& contains_seq(svg, tile_text("Followers"@, o.followers, 465, 208))
            &&& contains_seq(svg, commits_text(o.total_commits))
        }),
{
    let o = s.overall;
    lemma_metrics_show(o);
    lemma_whole_card_shows(s, stale, percentile_tenths, tile_text("Pull Requests"@, o.total_pull_requests, 286, 84));
    lemma_whole_card_shows(s, stale, percentile_tenths, tile_text("Code Reviews"@, o.total_reviews, 465, 84));
    lemma_whole_card_shows(s, stale, percentile_tenths, tile_text("Issues"@, o.total_issues, 286, 146));
    lemma_whole_card_shows(s, stale, percentile_tenths, tile_text("Stars Received"@, o.total_stars, 465, 146));
    lemma_whole_card_shows(s, stale, percentile_tenths, tile_text("Contributed To"@, o.contributed_to, 286, 208));
    lemma_whole_card_shows(s, stale, percentile_tenths, tile_text("Followers"@, o.followers, 465, 208));
    let c = commits_text(o.total_commits);
    lemma_primary_shows(o.total_commits);
    let rank = rank_spec(o.rank.level@, clamp_tenths(percentile_tenths));
    let mark = if stale {
        "<text x=\"799\" y=\"48\" text-anchor=\"end\" class=\"stale\">LAST KNOWN</text>"@
    } else {
        Seq::empty()
    };
    let head = stats_head_spec() + primary_spec(o.total_commits);
    lemma_contains_after(stats_head_spec(), primary_spec(o.total_commits), c);
    lemma_contains_before(head, metrics_spec(o), c);
    lemma_contains_before(head + metrics_spec(o), rank, c);
    lemma_contains_before(head + metrics_spec(o) + rank, mark, c);
    lemma_contains_before(head + metrics_spec(o) + rank + mark, "</svg>"@, c);
}

/// A figure in tenths, written with one decimal.
pub open spec fn tenths_spec(t: nat) -> Seq<char> {
    decimal_spec(t / 10) + "."@ + decimal_spec(t % 10)
}

fn push_tenths(body: &mut String, t: u64)
    ensures
        final(body)@ == old(body)@ + tenths_spec(t as nat),
{
    let ghost start = body@;
    push_decimal(body, t / 10);
    push_str(body, ".");
    push_decimal(body, t % 10);
    proof {
        assert(body@ =~= start + tenths_spec(t as nat));
    }
}

/// The rank tile: the ring filled to the share above the percentile, the level in
/// its middle, and the percentile under it. `percentile_tenths` is at most 1000.
pub open spec fn rank_spec(level: Seq<char>, percentile_tenths: nat) -> Seq<char> {
    let progress = tenths_spec((1000 - percentile_tenths) as nat);
    let percentile = tenths_spec(percentile_tenths);
    "<g data-stats-rank=\"true\" data-rank-progress=\""@ + progress
        + "\"><rect x=\"648\" y=\"84\" width=\"159\" height=\"180\" rx=\"18\" class=\"rank-card\"/><g transform=\"translate(727.5 142)\"><circle r=\"41\" class=\"rank-rim\"/><circle r=\"41\" class=\"rank-ring\" pathLength=\"100\" stroke-dasharray=\""@
        + progress + " "@ + percentile
        + "\" transform=\"rotate(-90)\"/><text x=\"0\" y=\"11\" text-anchor=\"middle\" class=\"rank-level\">"@ + escape_spec(
        level,
    ) + "</text></g><text x=\"727.5\" y=\"220\" text-anchor=\"middle\" class=\"rank-percent\">TOP "@ + percentile
        + "%</text><text x=\"727.5\" y=\"244\" text-anchor=\"middle\" class=\"rank-label\">GITHUB RANK</text></g>"@
}

fn push_rank(body: &mut String, level: &str, percentile_tenths: u64)
    requires
        percentile_tenths <= 1000,
    ensures
        final(body)@ == old(body)@ + rank_spec(level@, percentile_tenths as nat),
{
    let ghost start = body@;
    push_str(body, "<g data-stats-rank=\"true\" data-rank-progress=\"");
    push_tenths(body, 1000 - percentile_tenths);
    push_str(
        body,
        "\"><rect x=\"648\" y=\"84\" width=\"159\" height=\"180\" rx=\"18\" class=\"rank-card\"/><g transform=\"translate(727.5 142)\"><circle r=\"41\" class=\"rank-rim\"/><circle r=\"41\" class=\"rank-ring\" pathLength=\"100\" stroke-dasharray=\"",
    );
    push_tenths(body, 1000 - percentile_tenths);
    push_str(body, " ");
    push_tenths(body, percentile_tenths);
    push_str(body, "\" transform=\"rotate(-90)\"/><text x=\"0\" y=\"11\" text-anchor=\"middle\" class=\"rank-level\">");
    push_escaped(body, level);
    push_str(body, "</text></g><text x=\"727.5\" y=\"220\" text-anchor=\"middle\" class=\"rank-percent\">TOP ");
    push_tenths(body, percentile_tenths);
    push_str(body, "%</text><text x=\"727.5\" y=\"244\" text-anchor=\"middle\" class=\"rank-label\">GITHUB RANK</text></g>");
    proof {
        assert(body@ =~= start + rank_spec(level@, percentile_tenths as nat));
    }
}

/// The rank ring's dashes: the filled part, the share above the percentile, then the
/// rest, the percentile itself.
pub open spec fn ring_text(percentile_tenths: nat) -> Seq<char> {
    tenths_spec((1000 - percentile_tenths) as nat) + " "@ + tenths_spec(percentile_tenths)
        + "\" transform=\"rotate(-90)\"/><text x=\"0\" y=\"11\" text-anchor=\"middle\" class=\"rank-level\">"@
}

/// The rank's caption: "TOP", the percentile and a percent sign.
pub open spec fn top_text(percentile_tenths: nat) -> Seq<char> {
    "</text></g><text x=\"727.5\" y=\"220\" text-anchor=\"middle\" class=\"rank-percent\">TOP "@ + tenths_spec(
        percentile_tenths,
    ) + "%</text><text x=\"727.5\" y=\"244\" text-anchor=\"middle\" class=\"rank-label\">GITHUB RANK</text></g>"@
}

proof fn lemma_rank_shows(level: Seq<char>, p: nat)
    ensures
        contains_seq(rank_spec(level, p), ring_text(p)),
        contains_seq(rank_spec(level, p), top_text(p)),
{
    let progress = tenths_spec((1000 - p) as nat);
    let lead = "<g data-stats-rank=\"true\" data-rank-progress=\""@ + progress
        + "\"><rect x=\"648\" y=\"84\" width=\"159\" height=\"180\" rx=\"18\" class=\"rank-card\"/><g transform=\"translate(727.5 142)\"><circle r=\"41\" class=\"rank-rim\"/><circle r=\"41\" class=\"rank-ring\" pathLength=\"100\" stroke-dasharray=\""@;
    let ring = ring_text(p);
    let top = top_text(p);
    assert(rank_spec(level, p) =~= lead + ring + (escape_spec(level) + top));
    lemma_contains_between(lead, ring, escape_spec(level) + top);
    assert(rank_spec(level, p) =~= (lead + ring + escape_spec(level)) + top + Seq::empty());
    lemma_contains_between(lead + ring + escape_spec(level), top, Seq::empty());
}

/// The rank tile shows the percentile, capped at 100 percent, after "TOP", and its ring
/// is filled to the rest of 100 percent.
pub proof fn law_rank_shows_its_percentile(s: GitHubSnapshot, stale: bool, percentile_tenths: u32)
    ensures
        ({
            let p: nat = if percentile_tenths > 1000 {
                1000
            } else {
                percentile_tenths as nat
            };
            let svg = stats_svg_spec(s, stale, percentile_tenths);
            contains_seq(svg, top_text(p)) && contains_seq(svg, ring_text(p))
        }),
{
    let o = s.overall;
    let p = clamp_tenths(percentile_tenths);
    lemma_rank_shows(o.rank.level@, p);
    let rank = rank_spec(o.rank.level@, p);
    let mark = if stale {
        "<text x=\"799\" y=\"48\" text-anchor=\"end\" class=\"stale\">LAST KNOWN</text>"@
    } else {
        Seq::empty()
    };
    let head = stats_head_spec() + primary_spec(o.total_commits) + metrics_spec(o);
    lemma_contains_after(head, rank, top_text(p));
    lemma_contains_before(head + rank, mark, top_text(p));
    lemma_contains_before(head + rank + mark, "</svg>"@, top_text(p));
    lemma_contains_after(head, rank, ring_text(p));
    lemma_contains_before(head + rank, mark, ring_text(p));
    lemma_contains_before(head + rank + mark, "</svg>"@, ring_text(p));
}

/// The percentile in tenths, at most 100 percent.
pub open spec fn clamp_tenths(t: u32) -> nat {
    if t > 1000 {
        1000
    } else {
        t as nat
    }
}

/// The statistics card of a snapshot.
pub open spec fn stats_svg_spec(s: GitHubSnapshot, stale: bool, percentile_tenths: u32) -> Seq<char> {
    stats_head_spec() + primary_spec(s.overall.total_commits) + metrics_spec(s.overall) + rank_spec(
        s.overall.rank.level@,
        clamp_tenths(percentile_tenths),
    ) + (if stale {
        "<text x=\"799\" y=\"48\" text-anchor=\"end\" class=\"stale\">LAST KNOWN</text>"@
    } else {
        Seq::empty()
    }) + "</svg>"@
}

/// Renders the statistics card of a snapshot; `percentile_tenths` is the rank's
/// percentile in tenths of a percent (counted as 100 percent above that).
pub fn render_stats_card(snapshot: &GitHubSnapshot, stale: bool, percentile_tenths: u32) -> (r: String)
    ensures
        r@ == stats_svg_spec(*snapshot, stale, percentile_tenths),
{
    let mut body = stats_head();
    push_primary(&mut body, snapshot.overall.total_commits);
    push_metrics(&mut body, &snapshot.overall);
    let t: u64 = if percentile_tenths > 1000 {
        1000
    } else {
        percentile_tenths as u64
    };
    push_rank(&mut body, snapshot.overall.rank.level.as_str(), t);
    if stale {
        push_str(&mut body, "<text x=\"799\" y=\"48\" text-anchor=\"end\" class=\"stale\">LAST KNOWN</text>");
    }
    push_str(&mut body, "</svg>");
    proof {
        assert(body@ =~= stats_svg_spec(*snapshot, stale, percentile_tenths));
    }
    body
}

/// The statistics card's document: for a snapshot, its card marked stale once the
/// snapshot is older than `stale_after_ms`, tagged with its revision and freshness;
/// without one, the unavailable card.
pub open spec fn stats_document_spec(
    snapshot: Option<GitHubSnapshot>,
    now_unix_ms: u64,
    stale_after_ms: u64,
    percentile_tenths: u32,
) -> DocumentModel {
    match snapshot {
        Some(s) => {
            let stale = stale_at(s.collected_at_unix_ms, now_unix_ms, stale_after_ms);
            DocumentModel {
                body: stats_svg_spec(s, stale, percentile_tenths),
                etag: card_etag_spec(GitHubCardKind::Stats, Some(s.revision), stale),
                stream_revision: s.revision,
            }
        },
        None => DocumentModel {
            body: unavailable_card_spec(GitHubCardKind::Stats),
            etag: card_etag_spec(GitHubCardKind::Stats, None, false),
            stream_revision: 0,
        },
    }
}

/// The statistics card's document for the kept snapshot, if any.
pub fn stats_card_document(
    snapshot: Option<&GitHubSnapshot>,
    now_unix_ms: u64,
    stale_after_ms: u64,
    percentile_tenths: u32,
) -> (r: GitHubCardDocument)
    ensures
        r.model() == stats_document_spec(
            match snapshot {
                Some(s) => Some(*s),
                None => None,
            },
            now_unix_ms,
            stale_after_ms,
            percentile_tenths,
        ),
{
    match snapshot {
        Some(s) => {
            let stale = is_stale(s.collected_at_unix_ms, now_unix_ms, stale_after_ms);
            let body = render_stats_card(s, stale, percentile_tenths);
            GitHubCardDocument::new(GitHubCardKind::Stats, body, Some(s.revision), stale)
        },
        None => unavailable_card_document(GitHubCardKind::Stats),
    }
}

} // verus!
