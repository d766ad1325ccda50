//! Selection of the displayed activities: one entry per activity name, the preferred
//! duplicate winning, in the order in which the names first appear.
use vstd::prelude::*;

use crate::activity::{
    activity_preference_key, activity_richness, preference_greater, preference_gt,
    preference_spec, richness_greater, richness_gt, richness_spec,
};
use crate::state::{ActivityModel, ActivitySnapshot};
use crate::text::{
    equals, lower_spec, same_name, to_lowercase, trim, trim_spec, unicode_lower,
};

verus! {

/// Which of two activities with the same name is shown.
#[derive(Clone, Copy, Debug, PartialEq, Eq, Structural)]
pub enum DuplicateRule {
    /// The later start wins, then the richer entry.
    Newest,
    /// The richer entry wins.
    Richest,
}

/// How two activity names are compared.
#[derive(Clone, Copy, Debug, PartialEq, Eq, Structural)]
pub enum NameMatch {
    /// Trimmed, ignoring ASCII case.
    AsciiCase,
    /// Trimmed and in Unicode lower case.
    UnicodeLower,
}

/// The key under which names are compared.
pub open spec fn name_key(m: NameMatch, name: Seq<char>) -> Seq<char> {
    match m {
        NameMatch::AsciiCase => lower_spec(trim_spec(name)),
        NameMatch::UnicodeLower => unicode_lower(trim_spec(name)),
    }
}

/// Whether two names denote the same display entry.
pub open spec fn names_match(m: NameMatch, a: Seq<char>, b: Seq<char>) -> bool {
    name_key(m, a) == name_key(m, b)
}

fn same_display_name(m: NameMatch, a: &str, b: &str) -> (r: bool)
    ensures
        r == names_match(m, a@, b@),
{
    match m {
        NameMatch::AsciiCase => same_name(a, b),
        NameMatch::UnicodeLower => {
            let ka = to_lowercase(trim(a).as_str());
            let kb = to_lowercase(trim(b).as_str());
            equals(ka.as_str(), kb.as_str())
        },
    }
}

/// Whether `a` is preferred over `b` under `rule`.
pub open spec fn prefers(rule: DuplicateRule, a: ActivityModel, b: ActivityModel) -> bool {
    match rule {
        DuplicateRule::Newest => preference_gt(preference_spec(a), preference_spec(b)),
        DuplicateRule::Richest => richness_gt(richness_spec(a), richness_spec(b)),
    }
}

/// The first index at or after `j` whose entry has the same display name as `name`.
pub open spec fn first_same_name(m: NameMatch, sel: Seq<ActivityModel>, name: Seq<char>, j: int) -> Option<int>
    decreases sel.len() - j,
{
    if j < 0 || j >= sel.len() {
        None
    } else if names_match(m, sel[j].name, name) {
        Some(j)
    } else {
        first_same_name(m, sel, name, j + 1)
    }
}

/// The selection after the activities of `acts`, taken in order.
pub open spec fn select_spec(m: NameMatch, rule: DuplicateRule, acts: Seq<ActivityModel>) -> Seq<ActivityModel>
    decreases acts.len(),
{
    if acts.len() == 0 {
        Seq::empty()
    } else {
        let sel = select_spec(m, rule, acts.drop_last());
        let a = acts.last();
        match first_same_name(m, sel, a.name, 0) {
            Some(j) => if prefers(rule, a, sel[j]) {
                sel.update(j, a)
            } else {
                sel
            },
            None => sel.push(a),
        }
    }
}

fn prefer(rule: DuplicateRule, a: &ActivitySnapshot, b: &ActivitySnapshot) -> (r: bool)
    ensures
        r == prefers(rule, a.deep_view(), b.deep_view()),
{
    match rule {
        DuplicateRule::Newest => preference_greater(
            activity_preference_key(a),
            activity_preference_key(b),
        ),
        DuplicateRule::Richest => richness_greater(activity_richness(a), activity_richness(b)),
    }
}

proof fn lemma_first_same_name_found(nm: NameMatch, sel: Seq<ActivityModel>, name: Seq<char>, j: int)
    requires
        0 <= j,
    ensures
        first_same_name(nm, sel, name, j) matches Some(k) ==> j <= k < sel.len() && names_match(
            nm,
            sel[k].name,
            name,
        ) && forall|m: int| j <= m < k ==> !names_match(nm, #[trigger] sel[m].name, name),
        first_same_name(nm, sel, name, j) is None ==> forall|m: int|
            j <= m < sel.len() ==> !names_match(nm, #[trigger] sel[m].name, name),
    decreases sel.len() - j,
{
    if j < sel.len() && !names_match(nm, sel[j].name, name) {
        lemma_first_same_name_found(nm, sel, name, j + 1);
    }
}

/// `idx` holds, position by position, the indices into `acts` of the entries of `sel`.
pub open spec fn picks(acts: Seq<ActivityModel>, idx: Seq<usize>, sel: Seq<ActivityModel>) -> bool {
    &&& idx.len() == sel.len()
    &&& forall|k: int| 0 <= k < idx.len() ==> #[trigger] idx[k] < acts.len() && acts[idx[k] as int] == sel[k]
}

/// The indices into `activities` of the selected entries: one per display name (trimmed,
/// ASCII case-insensitive), at the position where the name first appears, holding the
/// duplicate that `rule` prefers (the earlier one on a tie).
pub fn select_activities(activities: &Vec<ActivitySnapshot>, m: NameMatch, rule: DuplicateRule) -> (r: Vec<usize>)
    ensures
        picks(activities.deep_view(), r@, select_spec(m, rule, activities.deep_view())),
{
    let ghost all = activities.deep_view();
    let mut selected: Vec<usize> = Vec::new();
    let mut i: usize = 0;
    while i < activities.len()
        invariant
            i <= activities@.len(),
            all == activities.deep_view(),
            picks(all, selected@, select_spec(m, rule, all.take(i as int))),
        decreases activities.len() - i,
    {
        let ghost sel = select_spec(m, rule, all.take(i as int));
        let ghost a = all[i as int];
        proof {
            assert(all.take(i + 1).drop_last() == all.take(i as int));
            assert(all.take(i + 1).last() == a);
        }
        let mut j: usize = 0;
        let mut found = false;
        while j < selected.len()
            invariant_except_break
                !found,
            invariant
                j <= selected@.len(),
                i < activities@.len(),
                all == activities.deep_view(),
                a == all[i as int],
                picks(all, selected@, sel),
                first_same_name(m, sel, a.name, 0) == first_same_name(m, sel, a.name, j as int),
            ensures
                j <= selected@.len(),
                found ==> j < selected@.len() && first_same_name(m, sel, a.name, 0) == Some(j as int),
                !found ==> first_same_name(m, sel, a.name, 0) is None,
            decreases selected.len() - j,
        {
            let idx = selected[j];
            proof {
                assert(selected@[j as int] < all.len());
            }
            if same_display_name(m, activities[idx].name.as_str(), activities[i].name.as_str()) {
                found = true;
                break;
            }
            j = j + 1;
        }
        let ghost before = selected@;
        if found {
            let idx = selected[j];
            proof {
                assert(selected@[j as int] < all.len());
            }
            if prefer(rule, &activities[i], &activities[idx]) {
                selected.set(j, i);
                proof {
                    assert(selected@ == before.update(j as int, i));
                }
            }
        } else {
            selected.push(i);
            proof {
                assert(selected@ == before.push(i));
            }
        }
        proof {
            let next = select_spec(m, rule, all.take(i + 1));
            assert forall|k: int| 0 <= k < selected@.len() implies #[trigger] selected@[k] < all.len()
                && all[selected@[k] as int] == next[k] by {
                if k < before.len() {
                    assert(before[k] < all.len());
                }
            }
        }
        i = i + 1;
    }
    proof {
        assert(all.take(activities@.len() as int) == all);
    }
    selected
}

/// Copies of the selected entries, in their order.
pub fn selected_activities(activities: &Vec<ActivitySnapshot>, m: NameMatch, rule: DuplicateRule) -> (r: Vec<
    ActivitySnapshot,
>)
    ensures
        r.deep_view() == select_spec(m, rule, activities.deep_view()),
{
    let ghost all = activities.deep_view();
    let indices = select_activities(activities, m, rule);
    let ghost sel = select_spec(m, rule, all);
    let mut r: Vec<ActivitySnapshot> = Vec::new();
    let mut k: usize = 0;
    while k < indices.len()
        invariant
            k <= indices@.len(),
            all == activities.deep_view(),
            picks(all, indices@, sel),
            r@.len() == k,
            forall|m: int| 0 <= m < k ==> (#[trigger] r@[m]).deep_view() == sel[m],
        decreases indices.len() - k,
    {
        let idx = indices[k];
        proof {
            assert(indices@[k as int] < all.len());
        }
        r.push(activities[idx].clone());
        k = k + 1;
    }
    proof {
        assert(r.deep_view() =~= sel);
    }
    r
}

/// No two selected entries share a display name.
pub open spec fn distinct_names(m: NameMatch, sel: Seq<ActivityModel>) -> bool {
    forall|i: int, j: int|
        0 <= i < j < sel.len() ==> !names_match(m, #[trigger] sel[i].name, #[trigger] sel[j].name)
}

/// Every selected entry is one of the activities.
pub open spec fn drawn_from(sel: Seq<ActivityModel>, acts: Seq<ActivityModel>) -> bool {
    forall|i: int| 0 <= i < sel.len() ==> #[trigger] acts.contains(sel[i])
}

/// Every activity has a selected entry with its display name, and none of those
/// activities is preferred over that entry.
pub open spec fn covered_and_preferred(
    nm: NameMatch,
    rule: DuplicateRule,
    sel: Seq<ActivityModel>,
    acts: Seq<ActivityModel>,
) -> bool {
    forall|m: int|
        0 <= m < acts.len() ==> exists|k: int|
            0 <= k < sel.len() && names_match(nm, #[trigger] sel[k].name, #[trigger] acts[m].name)
                && !prefers(rule, acts[m], sel[k])
}

proof fn lemma_prefers_transitive(rule: DuplicateRule, a: ActivityModel, b: ActivityModel, c: ActivityModel)
    requires
        prefers(rule, a, b),
        prefers(rule, b, c),
    ensures
        prefers(rule, a, c),
{
}

/// The selection has one entry per display name, drawn from the activities, and for every
/// activity the entry of its name is one that no duplicate is preferred over.
pub proof fn law_selection_is_distinct_and_preferred(nm: NameMatch, rule: DuplicateRule, acts: Seq<ActivityModel>)
    ensures
        distinct_names(nm, select_spec(nm, rule, acts)),
        drawn_from(select_spec(nm, rule, acts), acts),
        covered_and_preferred(nm, rule, select_spec(nm, rule, acts), acts),
    decreases acts.len(),
{
    if acts.len() > 0 {
        let prev = acts.drop_last();
        law_selection_is_distinct_and_preferred(nm, rule, prev);
        let sel = select_spec(nm, rule, prev);
        let a = acts.last();
        let next = select_spec(nm, rule, acts);
        lemma_first_same_name_found(nm, sel, a.name, 0);
        assert forall|i: int| 0 <= i < next.len() implies #[trigger] acts.contains(next[i]) by {
            if next[i] == a {
                assert(acts[acts.len() - 1] == a);
            } else {
                assert(prev.contains(next[i]));
                let w = choose|w: int| 0 <= w < prev.len() && prev[w] == next[i];
                assert(acts[w] == prev[w]);
            }
        }
        assert forall|m: int| 0 <= m < acts.len() implies exists|k: int|
            0 <= k < next.len() && names_match(nm, #[trigger] next[k].name, #[trigger] acts[m].name)
                && !prefers(rule, acts[m], next[k]) by {
            match first_same_name(nm, sel, a.name, 0) {
                Some(j) => {
                    if m == acts.len() - 1 {
                        assert(names_match(nm, next[j].name, acts[m].name));
                        if prefers(rule, a, sel[j]) {
                            assert(next[j] == a);
                        }
                    } else {
                        assert(acts[m] == prev[m]);
                        let k = choose|k: int|
                            0 <= k < sel.len() && names_match(
                                nm,
                                #[trigger] sel[k].name,
                                #[trigger] prev[m].name,
                            ) && !prefers(rule, prev[m], sel[k]);
                        if k == j && prefers(rule, a, sel[j]) {
                            assert(next[k] == a);
                            if prefers(rule, acts[m], a) {
                                lemma_prefers_transitive(rule, acts[m], a, sel[j]);
                            }
                        } else {
                            assert(next[k] == sel[k]);
                        }
                        assert(names_match(nm, next[k].name, acts[m].name));
                    }
                },
                None => {
                    if m == acts.len() - 1 {
                        let k = sel.len() as int;
                        assert(next[k] == a);
                        assert(names_match(nm, next[k].name, acts[m].name));
                        assert(!prefers(rule, a, a));
                    } else {
                        assert(acts[m] == prev[m]);
                        let k = choose|k: int|
                            0 <= k < sel.len() && names_match(
                                nm,
                                #[trigger] sel[k].name,
                                #[trigger] prev[m].name,
                            ) && !prefers(rule, prev[m], sel[k]);
                        assert(next[k] == sel[k]);
                        assert(names_match(nm, next[k].name, acts[m].name));
                    }
                },
            }
        }
    }
}

} // verus!
