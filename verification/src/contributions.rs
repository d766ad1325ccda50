//! The all-time contribution calendar, merged from yearly calendars: one entry per
//! date in date order, starting at the first day with contributions.
use vstd::prelude::*;

use crate::github::{DayModel, RawContributionCalendar, RawContributionDay, RawContributionWeek};
use crate::text::{chars_of, equals};

verus! {

/// The lexicographic order of strings by code point, which is the order of `str`.
pub open spec fn str_less(a: Seq<char>, b: Seq<char>) -> bool
    decreases a.len(),
{
    if a.len() == 0 {
        b.len() > 0
    } else if b.len() == 0 {
        false
    } else if a[0] != b[0] {
        (a[0] as u32) < (b[0] as u32)
    } else {
        str_less(a.skip(1), b.skip(1))
    }
}

/// Whether `a` sorts before `b` as strings.
pub fn less_than(a: &str, b: &str) -> (r: bool)
    ensures
        r == str_less(a@, b@),
{
    let ca = chars_of(a);
    let cb = chars_of(b);
    let mut i: usize = 0;
    proof {
        assert(a@.skip(0) == a@);
        assert(b@.skip(0) == b@);
    }
    while i < ca.len() && i < cb.len() && ca[i] == cb[i]
        invariant
            i <= ca@.len(),
            i <= cb@.len(),
            str_less(a@, b@) == str_less(a@.skip(i as int), b@.skip(i as int)),
            ca@ == a@,
            cb@ == b@,
        decreases ca.len() - i,
    {
        proof {
            assert(a@.skip(i as int).skip(1) == a@.skip(i + 1));
            assert(b@.skip(i as int).skip(1) == b@.skip(i + 1));
        }
        i = i + 1;
    }
    if i == ca.len() {
        i < cb.len()
    } else if i == cb.len() {
        false
    } else {
        (ca[i] as u32) < (cb[i] as u32)
    }
}

/// The first position at or after `k` whose date does not sort before `date`.
pub open spec fn first_date_not_before(sorted: Seq<DayModel>, date: Seq<char>, k: int) -> int
    decreases sorted.len() - k,
{
    if k < 0 || k >= sorted.len() {
        sorted.len() as int
    } else if !str_less(sorted[k].date, date) {
        k
    } else {
        first_date_not_before(sorted, date, k + 1)
    }
}

/// `sorted` with `x` inserted in date order, unless its date is already there.
pub open spec fn insert_by_date(sorted: Seq<DayModel>, x: DayModel) -> Seq<DayModel> {
    let pos = first_date_not_before(sorted, x.date, 0);
    if pos < sorted.len() && sorted[pos].date == x.date {
        sorted
    } else {
        sorted.insert(pos, x)
    }
}

/// The days in date order, one per date, the first report of a date winning.
pub open spec fn sort_by_date(days: Seq<DayModel>) -> Seq<DayModel>
    decreases days.len(),
{
    if days.len() == 0 {
        Seq::empty()
    } else {
        insert_by_date(sort_by_date(days.drop_last()), days.last())
    }
}

/// The position of the first day with contributions at or after `k`, if any.
pub open spec fn first_active_from(days: Seq<DayModel>, k: int) -> Option<int>
    decreases days.len() - k,
{
    if k < 0 || k >= days.len() {
        None
    } else if days[k].count > 0 {
        Some(k)
    } else {
        first_active_from(days, k + 1)
    }
}

/// The days from the first day with contributions on; the latest day alone where no
/// day has any.
pub open spec fn trim_inactive_start(days: Seq<DayModel>) -> Seq<DayModel> {
    match first_active_from(days, 0) {
        Some(k) => days.skip(k),
        None => if days.len() > 0 {
            seq![days.last()]
        } else {
            Seq::empty()
        },
    }
}

/// The sum of the counts, saturating at the greatest `u64`.
pub open spec fn saturating_total(days: Seq<DayModel>) -> u64
    decreases days.len(),
{
    if days.len() == 0 {
        0
    } else {
        let t = saturating_total(days.drop_last()) + days.last().count;
        if t > u64::MAX {
            u64::MAX
        } else {
            t as u64
        }
    }
}

/// The value of a calendar: its total and the days of each week.
pub struct CalendarModel {
    pub total: u64,
    pub weeks: Seq<Seq<DayModel>>,
}

impl DeepView for RawContributionWeek {
    type V = Seq<DayModel>;

    open spec fn deep_view(&self) -> Seq<DayModel> {
        self.contribution_days.deep_view()
    }
}

impl DeepView for RawContributionCalendar {
    type V = CalendarModel;

    open spec fn deep_view(&self) -> CalendarModel {
        CalendarModel { total: self.total_contributions, weeks: self.weeks.deep_view() }
    }
}

/// The calendar of the merged days: one week holding them, or no week where there is none.
pub open spec fn calendar_of(days: Seq<DayModel>) -> CalendarModel {
    let kept = trim_inactive_start(sort_by_date(days));
    CalendarModel {
        total: saturating_total(kept),
        weeks: if kept.len() == 0 {
            Seq::empty()
        } else {
            seq![kept]
        },
    }
}

/// The days whose date does not sort after `date`.
pub open spec fn not_after(days: Seq<DayModel>, date: Seq<char>) -> Seq<DayModel>
    decreases days.len(),
{
    if days.len() == 0 {
        Seq::empty()
    } else {
        let rest = not_after(days.drop_last(), date);
        if str_less(date, days.last().date) {
            rest
        } else {
            rest.push(days.last())
        }
    }
}

/// Inserts `day` in date order unless its date is already there.
pub fn insert_day_by_date(sorted: &mut Vec<RawContributionDay>, day: RawContributionDay)
    ensures
        final(sorted).deep_view() == insert_by_date(old(sorted).deep_view(), day.deep_view()),
{
    let ghost prev = sorted.deep_view();
    let mut j: usize = 0;
    while j < sorted.len() && less_than(sorted[j].date.as_str(), day.date.as_str())
        invariant
            j <= sorted@.len(),
            prev == sorted.deep_view(),
            first_date_not_before(prev, day.date@, 0) == first_date_not_before(
                prev,
                day.date@,
                j as int,
            ),
        decreases sorted.len() - j,
    {
        j = j + 1;
    }
    if j < sorted.len() && equals(sorted[j].date.as_str(), day.date.as_str()) {
        return;
    }
    let ghost dv = day.deep_view();
    sorted.insert(j, day);
    proof {
        assert(sorted.deep_view() =~= prev.insert(j as int, dv));
    }
}

/// Sorts the days by date, one per date, and trims them to start at the first day with
/// contributions (or to the latest day where none has any).
fn merged_days(days: Vec<RawContributionDay>) -> (r: Vec<RawContributionDay>)
    ensures
        r.deep_view() == trim_inactive_start(sort_by_date(days.deep_view())),
{
    let ghost all = days.deep_view();
    let mut sorted: Vec<RawContributionDay> = Vec::new();
    let mut i: usize = 0;
    while i < days.len()
        invariant
            i <= days@.len(),
            all == days.deep_view(),
            sorted.deep_view() == sort_by_date(all.take(i as int)),
        decreases days.len() - i,
    {
        proof {
            assert(all.take(i + 1).drop_last() == all.take(i as int));
            assert(all.take(i + 1).last() == all[i as int]);
        }
        insert_day_by_date(&mut sorted, days[i].clone());
        i = i + 1;
    }
    proof {
        assert(all.take(days@.len() as int) == all);
    }
    let ghost s = sorted.deep_view();
    let mut k: usize = 0;
    while k < sorted.len() && sorted[k].contribution_count == 0
        invariant
            k <= sorted@.len(),
            s == sorted.deep_view(),
            first_active_from(s, 0) == first_active_from(s, k as int),
        decreases sorted.len() - k,
    {
        k = k + 1;
    }
    let mut kept: Vec<RawContributionDay> = Vec::new();
    if k < sorted.len() {
        let mut m = k;
        while m < sorted.len()
            invariant
                k <= m <= sorted@.len(),
                s == sorted.deep_view(),
                kept.deep_view() == s.subrange(k as int, m as int),
            decreases sorted.len() - m,
        {
            let ghost before = kept.deep_view();
            kept.push(sorted[m].clone());
            proof {
                assert(kept.deep_view() =~= before.push(s[m as int]));
                assert(s.subrange(k as int, m + 1) =~= s.subrange(k as int, m as int).push(s[m as int]));
            }
            m = m + 1;
        }
        proof {
            assert(s.subrange(k as int, s.len() as int) == s.skip(k as int));
        }
    } else if sorted.len() > 0 {
        let last = sorted.len() - 1;
        kept.push(sorted[last].clone());
        proof {
            assert(kept.deep_view() =~= seq![s.last()]);
        }
    } else {
        proof {
            assert(kept.deep_view() =~= Seq::<DayModel>::empty());
        }
    }
    kept
}

fn total_of(days: &Vec<RawContributionDay>) -> (r: u64)
    ensures
        r == saturating_total(days.deep_view()),
{
    let ghost all = days.deep_view();
    let mut total: u64 = 0;
    let mut i: usize = 0;
    while i < days.len()
        invariant
            i <= days@.len(),
            all == days.deep_view(),
            total == saturating_total(all.take(i as int)),
        decreases days.len() - i,
    {
        proof {
            assert(all.take(i + 1).drop_last() == all.take(i as int));
        }
        total = total.saturating_add(days[i].contribution_count);
        i = i + 1;
    }
    proof {
        assert(all.take(days@.len() as int) == all);
    }
    total
}

fn calendar_from(kept: Vec<RawContributionDay>) -> (r: RawContributionCalendar)
    ensures
        r.deep_view() == (CalendarModel {
            total: saturating_total(kept.deep_view()),
            weeks: if kept@.len() == 0 {
                Seq::empty()
            } else {
                seq![kept.deep_view()]
            },
        }),
{
    let total = total_of(&kept);
    let ghost kv = kept.deep_view();
    let mut weeks: Vec<RawContributionWeek> = Vec::new();
    if kept.len() > 0 {
        weeks.push(RawContributionWeek { contribution_days: kept });
        proof {
            assert(weeks.deep_view() =~= seq![kv]);
        }
    } else {
        proof {
            assert(weeks.deep_view() =~= Seq::<Seq<DayModel>>::empty());
        }
    }
    RawContributionCalendar { total_contributions: total, weeks }
}

/// The all-time calendar of the historical and the current days: one entry per date in
/// date order (the first report of a date winning), starting at the first day with
/// contributions, with the saturating sum of the counts as its total.
pub fn build_all_time_calendar(
    historical_days: Vec<RawContributionDay>,
    current_days: Vec<RawContributionDay>,
) -> (r: RawContributionCalendar)
    ensures
        r.deep_view() == calendar_of(historical_days.deep_view() + current_days.deep_view()),
{
    let mut all = historical_days;
    let ghost h = all.deep_view();
    let mut current = current_days;
    let ghost c = current.deep_view();
    all.append(&mut current);
    proof {
        assert(all.deep_view() =~= h + c);
    }
    calendar_from(merged_days(all))
}

/// Like the all-time calendar, but without the days after `current_date`.
pub fn build_public_calendar(
    historical_days: Vec<RawContributionDay>,
    current_days: Vec<RawContributionDay>,
    current_date: &str,
) -> (r: RawContributionCalendar)
    ensures
        r.deep_view() == calendar_of(
            not_after(historical_days.deep_view() + current_days.deep_view(), current_date@),
        ),
{
    let mut all = historical_days;
    let ghost h = all.deep_view();
    let mut current = current_days;
    let ghost c = current.deep_view();
    all.append(&mut current);
    proof {
        assert(all.deep_view() =~= h + c);
    }
    let ghost joined = all.deep_view();
    let mut kept: Vec<RawContributionDay> = Vec::new();
    let mut i: usize = 0;
    while i < all.len()
        invariant
            i <= all@.len(),
            joined == all.deep_view(),
            kept.deep_view() == not_after(joined.take(i as int), current_date@),
        decreases all.len() - i,
    {
        proof {
            assert(joined.take(i + 1).drop_last() == joined.take(i as int));
            assert(joined.take(i + 1).last() == joined[i as int]);
        }
        if !less_than(current_date, all[i].date.as_str()) {
            let ghost before = kept.deep_view();
            kept.push(all[i].clone());
            proof {
                assert(kept.deep_view() =~= before.push(joined[i as int]));
            }
        }
        i = i + 1;
    }
    proof {
        assert(joined.take(all@.len() as int) == joined);
    }
    calendar_from(merged_days(kept))
}

/// Whether the dates of the days strictly increase.
pub open spec fn dates_increase(days: Seq<DayModel>) -> bool {
    forall|i: int, j: int| 0 <= i < j < days.len() ==> str_less(#[trigger] days[i].date, #[trigger] days[j].date)
}

proof fn lemma_str_less_irreflexive(a: Seq<char>)
    ensures
        !str_less(a, a),
    decreases a.len(),
{
    if a.len() > 0 {
        lemma_str_less_irreflexive(a.skip(1));
    }
}

proof fn lemma_str_less_transitive(a: Seq<char>, b: Seq<char>, c: Seq<char>)
    requires
        str_less(a, b),
        str_less(b, c),
    ensures
        str_less(a, c),
    decreases a.len(),
{
    if a.len() > 0 && b.len() > 0 && c.len() > 0 && a[0] == b[0] && b[0] == c[0] {
        lemma_str_less_transitive(a.skip(1), b.skip(1), c.skip(1));
    }
}

proof fn lemma_str_less_total(a: Seq<char>, b: Seq<char>)
    requires
        a != b,
    ensures
        str_less(a, b) || str_less(b, a),
    decreases a.len(),
{
    if a.len() == 0 && b.len() == 0 {
        assert(a =~= b);
    } else if a.len() > 0 && b.len() > 0 && a[0] == b[0] {
        if a.skip(1) =~= b.skip(1) {
            assert(a =~= seq![a[0]] + a.skip(1));
            assert(b =~= seq![b[0]] + b.skip(1));
        } else {
            lemma_str_less_total(a.skip(1), b.skip(1));
        }
    } else if a.len() > 0 && b.len() > 0 {
        assert(a[0] != b[0]);
        if (a[0] as u32) == (b[0] as u32) {
            vstd::utf8::char_u32_cast(a[0], a[0] as u32);
            vstd::utf8::char_u32_cast(b[0], b[0] as u32);
        }
    }
}

proof fn lemma_first_date_not_before(sorted: Seq<DayModel>, date: Seq<char>, k: int)
    requires
        0 <= k <= sorted.len(),
    ensures
        k <= first_date_not_before(sorted, date, k) <= sorted.len(),
        forall|m: int| k <= m < first_date_not_before(sorted, date, k) ==> str_less(#[trigger] sorted[m].date, date),
        first_date_not_before(sorted, date, k) < sorted.len() ==> !str_less(
            sorted[first_date_not_before(sorted, date, k)].date,
            date,
        ),
    decreases sorted.len() - k,
{
    if k < sorted.len() && str_less(sorted[k].date, date) {
        lemma_first_date_not_before(sorted, date, k + 1);
    }
}

proof fn lemma_insert_keeps_dates_increasing(sorted: Seq<DayModel>, x: DayModel)
    requires
        dates_increase(sorted),
    ensures
        dates_increase(insert_by_date(sorted, x)),
{
    let pos = first_date_not_before(sorted, x.date, 0);
    lemma_first_date_not_before(sorted, x.date, 0);
    if pos < sorted.len() && sorted[pos].date == x.date {
    } else {
        let r = sorted.insert(pos, x);
        if pos < sorted.len() {
            lemma_str_less_total(sorted[pos].date, x.date);
        }
        assert forall|i: int, j: int| 0 <= i < j < r.len() implies str_less(#[trigger] r[i].date, #[trigger] r[j].date) by {
            if j < pos {
                assert(r[i] == sorted[i] && r[j] == sorted[j]);
            } else if j == pos {
                assert(r[i] == sorted[i] && r[j] == x);
            } else if i == pos {
                assert(r[j] == sorted[j - 1]);
                if j - 1 > pos {
                    lemma_str_less_transitive(x.date, sorted[pos].date, sorted[j - 1].date);
                }
            } else if i < pos {
                assert(r[i] == sorted[i] && r[j] == sorted[j - 1]);
            } else {
                assert(r[i] == sorted[i - 1] && r[j] == sorted[j - 1]);
            }
        }
    }
}

/// Sorting by date gives strictly increasing dates: one day per date, in date order.
pub proof fn lemma_sort_by_date_increases(days: Seq<DayModel>)
    ensures
        dates_increase(sort_by_date(days)),
    decreases days.len(),
{
    if days.len() > 0 {
        lemma_sort_by_date_increases(days.drop_last());
        lemma_insert_keeps_dates_increasing(sort_by_date(days.drop_last()), days.last());
    }
}

/// The merged calendar holds at most one week, whose days have strictly increasing
/// dates and start with a day with contributions wherever any day has some.
pub proof fn law_calendar_is_in_date_order(days: Seq<DayModel>)
    ensures
        calendar_of(days).weeks.len() <= 1,
        calendar_of(days).weeks.len() == 1 ==> dates_increase(calendar_of(days).weeks[0]),
        calendar_of(days).weeks.len() == 1 && first_active_from(sort_by_date(days), 0) is Some
            ==> calendar_of(days).weeks[0][0].count > 0,
{
    let sorted = sort_by_date(days);
    lemma_sort_by_date_increases(days);
    let kept = trim_inactive_start(sorted);
    match first_active_from(sorted, 0) {
        Some(k) => {
            lemma_first_active(sorted, 0);
            assert(kept =~= sorted.skip(k));
            assert forall|i: int, j: int| 0 <= i < j < kept.len() implies str_less(
                #[trigger] kept[i].date,
                #[trigger] kept[j].date,
            ) by {
                assert(kept[i] == sorted[i + k] && kept[j] == sorted[j + k]);
            }
        },
        None => {},
    }
}

proof fn lemma_first_active(days: Seq<DayModel>, k: int)
    requires
        0 <= k,
    ensures
        first_active_from(days, k) matches Some(m) ==> k <= m < days.len() && days[m].count > 0,
    decreases days.len() - k,
{
    if k < days.len() && days[k].count == 0 {
        lemma_first_active(days, k + 1);
    }
}

} // verus!
