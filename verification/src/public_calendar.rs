//! Reading the public GitHub profile page: the years it links to and the days of its
//! contribution calendar, with their counts from the tags or from their tooltips.
use vstd::prelude::*;

use crate::contributions::{insert_by_date, sort_by_date};
use crate::github::{DayModel, RawContributionDay};
use crate::numbers::{
    all_digits, digits_value, parse_i32_in, parse_i32_spec, parse_nat_spec, parse_u64_spec,
    parse_u8, parse_u8_spec, parse_unsigned_at_most,
};
use crate::scan::{
    find_char_from, find_char_spec, find_from, find_spec, html_attribute, html_attribute_spec,
    rfind_char_before, rfind_char_spec, slice_chars, string_from,
};
use crate::text::{chars_of, is_ascii_digit, owned, push_str, skip_ws_forward, trim_start_spec};

verus! {

/// The characters without the commas.
pub open spec fn without_commas(s: Seq<char>) -> Seq<char>
    decreases s.len(),
{
    if s.len() == 0 {
        Seq::empty()
    } else {
        let rest = without_commas(s.drop_last());
        if s.last() == ',' {
            rest
        } else {
            rest.push(s.last())
        }
    }
}

/// How many characters at and after `k` are digits or commas.
pub open spec fn number_run(s: Seq<char>, k: int) -> int
    decreases s.len() - k,
{
    if k < 0 || k >= s.len() {
        0
    } else if is_ascii_digit(s[k]) || s[k] == ',' {
        1 + number_run(s, k + 1)
    } else {
        0
    }
}

/// The number at the start of a text (after white space), written with digits and
/// thousands separators.
pub open spec fn leading_count_spec(value: Seq<char>) -> Option<u64> {
    let t = trim_start_spec(value);
    let k = number_run(t, 0);
    if k == 0 {
        None
    } else {
        parse_u64_spec(without_commas(t.take(k)))
    }
}

proof fn lemma_number_run_bounds(s: Seq<char>, k: int)
    requires
        0 <= k <= s.len(),
    ensures
        0 <= number_run(s, k) <= s.len() - k,
    decreases s.len() - k,
{
    if k < s.len() && (is_ascii_digit(s[k]) || s[k] == ',') {
        lemma_number_run_bounds(s, k + 1);
    }
}

fn drop_commas(chars: &Vec<char>, from: usize, to: usize) -> (r: Vec<char>)
    requires
        from <= to <= chars@.len(),
    ensures
        r@ == without_commas(chars@.subrange(from as int, to as int)),
{
    let ghost s = chars@.subrange(from as int, to as int);
    let mut r: Vec<char> = Vec::new();
    let mut i = from;
    while i < to
        invariant
            from <= i <= to <= chars@.len(),
            s == chars@.subrange(from as int, to as int),
            r@ == without_commas(s.take(i - from)),
        decreases to - i,
    {
        proof {
            assert(s.take(i - from + 1).drop_last() == s.take(i - from));
            assert(s.take(i - from + 1).last() == chars@[i as int]);
        }
        if chars[i] != ',' {
            r.push(chars[i]);
        }
        i = i + 1;
    }
    proof {
        assert(s.take(to - from) == s);
    }
    r
}

/// The number at the start of a text, written with digits and thousands separators.
pub fn leading_count(chars: &Vec<char>, from: usize, to: usize) -> (r: Option<u64>)
    requires
        from <= to <= chars@.len(),
    ensures
        r == leading_count_spec(chars@.subrange(from as int, to as int)),
{
    let ghost v = chars@.subrange(from as int, to as int);
    let start = skip_ws_forward(chars, from, to);
    let ghost t = chars@.subrange(start as int, to as int);
    proof {
        assert(trim_start_spec(v) == t);
    }
    let mut k = start;
    while k < to && (crate::text::is_digit(chars[k]) || chars[k] == ',')
        invariant
            start <= k <= to <= chars@.len(),
            t == chars@.subrange(start as int, to as int),
            number_run(t, 0) == (k - start) + number_run(t, k - start),
        decreases to - k,
    {
        proof {
            assert(t[k - start] == chars@[k as int]);
        }
        k = k + 1;
    }
    proof {
        if k < to {
            assert(t[k - start] == chars@[k as int]);
        }
        assert(number_run(t, 0) == k - start);
        assert(t.take(k - start) == chars@.subrange(start as int, k as int));
    }
    if k == start {
        return None;
    }
    let digits = drop_commas(chars, start, k);
    proof {
        assert(digits@.subrange(0, digits@.len() as int) == digits@);
    }
    parse_unsigned_at_most(&digits, 0, digits.len(), u64::MAX)
}

/// The value of a tooltip target in the entries: the last entry for it wins.
pub open spec fn lookup_last(entries: Seq<(Seq<char>, u64)>, key: Seq<char>) -> Option<u64>
    decreases entries.len(),
{
    if entries.len() == 0 {
        None
    } else if entries.last().0 == key {
        Some(entries.last().1)
    } else {
        lookup_last(entries.drop_last(), key)
    }
}

pub open spec fn tooltip_open() -> Seq<char> {
    "<tool-tip"@
}

pub open spec fn tooltip_close() -> Seq<char> {
    "</tool-tip>"@
}

/// The tooltip targets and the counts their texts start with, from `cursor` on, in
/// document order.
pub open spec fn tooltips_from(html: Seq<char>, cursor: int) -> Seq<(Seq<char>, u64)>
    decreases html.len() + 1 - cursor
    via tooltips_from_decreases
{
    if cursor < 0 || cursor > html.len() {
        Seq::empty()
    } else {
        match find_spec(html, tooltip_open(), cursor) {
            None => Seq::empty(),
            Some(start) => match find_char_spec(html, '>', start) {
                None => Seq::empty(),
                Some(tag_end) => match find_spec(html, tooltip_close(), tag_end + 1) {
                    None => Seq::empty(),
                    Some(inner_end) => {
                        let rest = tooltips_from(html, inner_end + tooltip_close().len());
                        match html_attribute_spec(html.subrange(start, tag_end + 1), "for"@) {
                            Some(target) => seq![
                                (
                                    target,
                                    match leading_count_spec(html.subrange(tag_end + 1, inner_end)) {
                                        Some(n) => n,
                                        None => 0,
                                    },
                                ),
                            ] + rest,
                            None => rest,
                        }
                    },
                },
            },
        }
    }
}

#[via_fn]
proof fn tooltips_from_decreases(html: Seq<char>, cursor: int) {
    crate::scan::lemma_find_bounds(html, tooltip_open(), cursor);
    match find_spec(html, tooltip_open(), cursor) {
        Some(start) => {
            crate::scan::lemma_find_char_bounds(html, '>', start);
            match find_char_spec(html, '>', start) {
                Some(tag_end) => {
                    crate::scan::lemma_find_bounds(html, tooltip_close(), tag_end + 1);
                },
                None => {},
            }
        },
        None => {},
    }
}

/// The tooltip targets of the page and the counts their texts start with, in document
/// order; where a target has several tooltips, the last one counts.
pub fn parse_tooltip_counts(html: &Vec<char>) -> (r: Vec<(String, u64)>)
    ensures
        r.deep_view() == tooltips_from(html@, 0),
{
    let open = chars_of("<tool-tip");
    let close = chars_of("</tool-tip>");
    let mut r: Vec<(String, u64)> = Vec::new();
    let mut cursor: usize = 0;
    while cursor <= html.len()
        invariant
            cursor <= html@.len() + 1,
            open@ == tooltip_open(),
            close@ == tooltip_close(),
            r.deep_view() + tooltips_from(html@, cursor as int) == tooltips_from(html@, 0),
        ensures
            r.deep_view() == tooltips_from(html@, 0),
        decreases html@.len() + 1 - cursor,
    {
        proof {
            assert(r.deep_view() + Seq::<(Seq<char>, u64)>::empty() =~= r.deep_view());
        }
        let ghost before = r.deep_view();
        let start = match find_from(html, &open, cursor) {
            Some(v) => v,
            None => break,
        };
        let tag_end = match find_char_from(html, '>', start) {
            Some(v) => v,
            None => break,
        };
        let inner_end = match find_from(html, &close, tag_end + 1) {
            Some(v) => v,
            None => break,
        };
        let next = inner_end + close.len();
        match html_attribute(html, start, tag_end + 1, "for") {
            Some(target) => {
                let count = match leading_count(html, tag_end + 1, inner_end) {
                    Some(n) => n,
                    None => 0,
                };
                let ghost entry = (target@, count);
                r.push((target, count));
                proof {
                    assert(r.deep_view() =~= before.push(entry));
                    assert(before.push(entry) + tooltips_from(html@, next as int) =~= before + (seq![
                        entry,
                    ] + tooltips_from(html@, next as int)));
                }
            },
            None => {},
        }
        cursor = next;
    }
    r
}

/// The value for a tooltip target: the last entry for it wins.
pub fn lookup_tooltip(entries: &Vec<(String, u64)>, key: &str) -> (r: Option<u64>)
    ensures
        r == lookup_last(entries.deep_view(), key@),
{
    let ghost all = entries.deep_view();
    let mut k = entries.len();
    proof {
        assert(all.take(k as int) == all);
    }
    while k > 0
        invariant
            k <= entries@.len(),
            all == entries.deep_view(),
            lookup_last(all, key@) == lookup_last(all.take(k as int), key@),
        decreases k,
    {
        proof {
            assert(all.take(k as int).drop_last() == all.take(k - 1));
            assert(all.take(k as int).last() == all[k - 1]);
        }
        if crate::text::equals(entries[k - 1].0.as_str(), key) {
            return Some(entries[k - 1].1);
        }
        k = k - 1;
    }
    None
}

pub open spec fn day_marker() -> Seq<char> {
    "ContributionCalendar-day"@
}

/// The activity level of a calendar day tag; zero where it has none.
pub open spec fn day_level_spec(tag: Seq<char>) -> u8 {
    match html_attribute_spec(tag, "data-level"@) {
        Some(v) => match parse_u8_spec(v) {
            Some(l) => l,
            None => 0,
        },
        None => 0,
    }
}

/// The count of a calendar day tag: its own count where it is a number (thousands
/// separators allowed), else the count of its tooltip, else zero.
pub open spec fn day_count_spec(tag: Seq<char>, tips: Seq<(Seq<char>, u64)>) -> u64 {
    let direct = match html_attribute_spec(tag, "data-count"@) {
        Some(v) => parse_u64_spec(without_commas(v)),
        None => None,
    };
    match direct {
        Some(n) => n,
        None => match html_attribute_spec(tag, "id"@) {
            Some(id) => match lookup_last(tips, id) {
                Some(n) => n,
                None => 0,
            },
            None => 0,
        },
    }
}

/// The calendar days of the page from `cursor` on, in document order; the date of the
/// first day that shows activity but no count, where there is one.
pub open spec fn days_from(html: Seq<char>, tips: Seq<(Seq<char>, u64)>, cursor: int) -> Result<
    Seq<DayModel>,
    Seq<char>,
>
    decreases html.len() + 1 - cursor
    via days_from_decreases
{
    if cursor < 0 || cursor > html.len() {
        Ok(Seq::empty())
    } else {
        match find_spec(html, day_marker(), cursor) {
            None => Ok(Seq::empty()),
            Some(marker) => match rfind_char_spec(html, '<', marker) {
                None => Ok(Seq::empty()),
                Some(tag_start) => match find_char_spec(html, '>', marker) {
                    None => Ok(Seq::empty()),
                    Some(tag_end) => {
                        let tag = html.subrange(tag_start, tag_end + 1);
                        match html_attribute_spec(tag, "data-date"@) {
                            None => days_from(html, tips, tag_end + 1),
                            Some(date) => {
                                let count = day_count_spec(tag, tips);
                                if day_level_spec(tag) > 0 && count == 0 {
                                    Err(date)
                                } else {
                                    match days_from(html, tips, tag_end + 1) {
                                        Ok(rest) => Ok(seq![DayModel { count, date }] + rest),
                                        Err(e) => Err(e),
                                    }
                                }
                            },
                        }
                    },
                },
            },
        }
    }
}

#[via_fn]
proof fn days_from_decreases(html: Seq<char>, tips: Seq<(Seq<char>, u64)>, cursor: int) {
    crate::scan::lemma_find_bounds(html, day_marker(), cursor);
    match find_spec(html, day_marker(), cursor) {
        Some(marker) => {
            crate::scan::lemma_find_char_bounds(html, '>', marker);
        },
        None => {},
    }
}

/// Why the public calendar could not be read.
#[derive(Debug, PartialEq, Eq)]
pub enum CalendarParseError {
    /// A day showed activity, but no count could be read for it.
    ActiveDayWithoutCount(String),
    /// The page held no calendar day.
    NoDays,
}

impl CalendarParseError {
    /// The message that reports the error.
    pub fn message(&self) -> (r: String)
        ensures
            r@ == match self {
                CalendarParseError::ActiveDayWithoutCount(date) => "GitHub public contribution day "@ + date@
                    + " had activity but no parsable count"@,
                CalendarParseError::NoDays => "GitHub public contribution calendar contained no contribution days"@,
            },
    {
        match self {
            CalendarParseError::ActiveDayWithoutCount(date) => {
                let mut m = owned("GitHub public contribution day ");
                push_str(&mut m, date.as_str());
                push_str(&mut m, " had activity but no parsable count");
                m
            },
            CalendarParseError::NoDays => owned(
                "GitHub public contribution calendar contained no contribution days",
            ),
        }
    }
}

/// The contribution days of the public calendar: in date order, one per date (the
/// first on the page wins); an error for a day with activity but no count, or for a
/// page without days.
pub open spec fn parse_days_spec(html: Seq<char>) -> Result<Seq<DayModel>, Option<Seq<char>>> {
    match days_from(html, tooltips_from(html, 0), 0) {
        Err(date) => Err(Some(date)),
        Ok(days) => if sort_by_date(days).len() == 0 {
            Err(None)
        } else {
            Ok(sort_by_date(days))
        },
    }
}

fn day_count(html: &Vec<char>, from: usize, to: usize, tips: &Vec<(String, u64)>) -> (r: u64)
    requires
        from <= to <= html@.len(),
    ensures
        r == day_count_spec(html@.subrange(from as int, to as int), tips.deep_view()),
{
    match html_attribute(html, from, to, "data-count") {
        Some(v) => {
            let vc = chars_of(v.as_str());
            let digits = drop_commas(&vc, 0, vc.len());
            proof {
                assert(vc@.subrange(0, vc@.len() as int) == v@);
                assert(digits@.subrange(0, digits@.len() as int) == digits@);
            }
            if let Some(n) = parse_unsigned_at_most(&digits, 0, digits.len(), u64::MAX) {
                return n;
            }
        },
        None => {},
    }
    match html_attribute(html, from, to, "id") {
        Some(id) => match lookup_tooltip(tips, id.as_str()) {
            Some(n) => n,
            None => 0,
        },
        None => 0,
    }
}

fn day_level(html: &Vec<char>, from: usize, to: usize) -> (r: u8)
    requires
        from <= to <= html@.len(),
    ensures
        r == day_level_spec(html@.subrange(from as int, to as int)),
{
    match html_attribute(html, from, to, "data-level") {
        Some(v) => match parse_u8(v.as_str()) {
            Some(l) => l,
            None => 0,
        },
        None => 0,
    }
}

fn insert_by_date_exec(sorted: &mut Vec<RawContributionDay>, day: RawContributionDay)
    ensures
        final(sorted).deep_view() == insert_by_date(old(sorted).deep_view(), day.deep_view()),
{
    crate::contributions::insert_day_by_date(sorted, day);
}

/// The contribution days of the public calendar page.
pub fn parse_contribution_days(html: &str) -> (r: Result<Vec<RawContributionDay>, CalendarParseError>)
    ensures
        match parse_days_spec(html@) {
            Ok(days) => r matches Ok(v) && v.deep_view() == days,
            Err(Some(date)) => r matches Err(CalendarParseError::ActiveDayWithoutCount(d)) && d@
                == date,
            Err(None) => r matches Err(CalendarParseError::NoDays),
        },
{
    let chars = chars_of(html);
    let tips = parse_tooltip_counts(&chars);
    let ghost tv = tips.deep_view();
    let marker = chars_of("ContributionCalendar-day");
    let mut days: Vec<RawContributionDay> = Vec::new();
    let mut cursor: usize = 0;
    let mut failed: Option<String> = None;
    while cursor <= chars.len()
        invariant_except_break
            failed is None,
        invariant
            cursor <= chars@.len() + 1,
            chars@ == html@,
            tv == tips.deep_view(),
            tv == tooltips_from(html@, 0),
            marker@ == day_marker(),
            days_from(html@, tv, 0) == match days_from(html@, tv, cursor as int) {
                Ok(rest) => Ok(days.deep_view() + rest),
                Err(e) => Err(e),
            },
        ensures
            match failed {
                Some(d) => days_from(html@, tv, 0) == Err::<Seq<DayModel>, Seq<char>>(d@),
                None => days_from(html@, tv, 0) == Ok::<Seq<DayModel>, Seq<char>>(
                    days.deep_view(),
                ),
            },
        decreases chars@.len() + 1 - cursor,
    {
        proof {
            assert(days.deep_view() + Seq::<DayModel>::empty() =~= days.deep_view());
        }
        let found = match find_from(&chars, &marker, cursor) {
            Some(v) => v,
            None => break,
        };
        let tag_start = match rfind_char_before(&chars, '<', found) {
            Some(v) => v,
            None => break,
        };
        let tag_end = match find_char_from(&chars, '>', found) {
            Some(v) => v,
            None => break,
        };
        let next = tag_end + 1;
        let date = match html_attribute(&chars, tag_start, next, "data-date") {
            Some(d) => d,
            None => {
                cursor = next;
                continue;
            },
        };
        let level = day_level(&chars, tag_start, next);
        let count = day_count(&chars, tag_start, next, &tips);
        if level > 0 && count == 0 {
            failed = Some(date);
            break;
        }
        let ghost before = days.deep_view();
        let ghost entry = DayModel { count, date: date@ };
        days.push(RawContributionDay { contribution_count: count, date });
        proof {
            assert(days.deep_view() =~= before.push(entry));
            match days_from(html@, tv, next as int) {
                Ok(rest) => {
                    assert(before.push(entry) + rest =~= before + (seq![entry] + rest));
                },
                Err(e) => {},
            }
        }
        cursor = next;
    }
    if let Some(date) = failed {
        return Err(CalendarParseError::ActiveDayWithoutCount(date));
    }
    let ghost found_days = days.deep_view();
    let mut sorted: Vec<RawContributionDay> = Vec::new();
    let mut i: usize = 0;
    let n = days.len();
    while i < n
        invariant
            i <= n,
            n == days@.len(),
            found_days == days.deep_view(),
            sorted.deep_view() == sort_by_date(found_days.take(i as int)),
        decreases n - i,
    {
        proof {
            assert(found_days.take(i + 1).drop_last() == found_days.take(i as int));
            assert(found_days.take(i + 1).last() == found_days[i as int]);
        }
        insert_by_date_exec(&mut sorted, days[i].clone());
        i = i + 1;
    }
    proof {
        assert(found_days.take(n as int) == found_days);
    }
    if sorted.len() == 0 {
        return Err(CalendarParseError::NoDays);
    }
    Ok(sorted)
}

/// Whether the four characters from `k` are ASCII.
pub open spec fn ascii_four(s: Seq<char>, k: int) -> bool {
    forall|i: int| k <= i < k + 4 ==> (#[trigger] s[i] as u32) < 128
}

/// The year in a year link: the four characters after the first `from=`, as a positive
/// number.
pub open spec fn year_from_href_spec(href: Seq<char>) -> Option<i32> {
    match find_spec(href, "from="@, 0) {
        Some(p) => {
            let start = p + "from="@.len();
            if start + 4 <= href.len() && ascii_four(href, start) {
                match parse_i32_spec(href.subrange(start, start + 4)) {
                    Some(y) => if y > 0 {
                        Some(y)
                    } else {
                        None
                    },
                    None => None,
                }
            } else {
                None
            }
        },
        None => None,
    }
}

/// The year in a year link.
pub fn year_from_href(href: &str) -> (r: Option<i32>)
    ensures
        r == year_from_href_spec(href@),
{
    let chars = chars_of(href);
    let marker = chars_of("from=");
    proof {
        reveal_strlit("from=");
    }
    let n = chars.len();
    let p = match find_from(&chars, &marker, 0) {
        Some(v) => v,
        None => return None,
    };
    let start = p + marker.len();
    if n < 4 || start > n - 4 {
        return None;
    }
    let mut i = start;
    while i < start + 4
        invariant
            start <= i <= start + 4 <= n,
            n == chars@.len(),
            chars@ == href@,
            find_spec(href@, "from="@, 0) == Some(p as int),
            start == p + "from="@.len(),
            forall|k: int| start <= k < i ==> (#[trigger] href@[k] as u32) < 128,
        decreases start + 4 - i,
    {
        if chars[i] as u32 >= 128 {
            proof {
                assert(!ascii_four(href@, start as int));
            }
            return None;
        }
        i = i + 1;
    }
    match parse_i32_in(&chars, start, start + 4) {
        Some(y) => if y > 0 {
            Some(y)
        } else {
            None
        },
        None => None,
    }
}

/// Whether the four characters from `k` are ASCII digits.
pub open spec fn digits_four(s: Seq<char>, k: int) -> bool {
    forall|i: int| k <= i < k + 4 ==> is_ascii_digit(#[trigger] s[i])
}

/// The first run of four digits at or after `k` that reads as a positive year.
pub open spec fn four_digit_year_from(s: Seq<char>, k: int) -> Option<i32>
    decreases s.len() - k,
{
    if k < 0 || k + 4 > s.len() {
        None
    } else if digits_four(s, k) && digits_value(s.subrange(k, k + 4)) > 0 {
        Some(digits_value(s.subrange(k, k + 4)) as i32)
    } else {
        four_digit_year_from(s, k + 1)
    }
}

/// The first run of four digits in `chars[from..to]` that reads as a positive year.
pub fn first_four_digit_year(chars: &Vec<char>, from: usize, to: usize) -> (r: Option<i32>)
    requires
        from <= to <= chars@.len(),
    ensures
        r == four_digit_year_from(chars@.subrange(from as int, to as int), 0),
{
    let ghost s = chars@.subrange(from as int, to as int);
    let mut k = from;
    while to - k >= 4
        invariant
            from <= k <= to,
            to <= chars@.len(),
            s == chars@.subrange(from as int, to as int),
            four_digit_year_from(s, 0) == four_digit_year_from(s, k - from),
        decreases to - k,
    {
        let c0 = chars[k];
        let c1 = chars[k + 1];
        let c2 = chars[k + 2];
        let c3 = chars[k + 3];
        let ghost w = s.subrange(k - from, k - from + 4);
        proof {
            assert(w[0] == c0 && w[1] == c1 && w[2] == c2 && w[3] == c3);
        }
        if crate::text::is_digit(c0) && crate::text::is_digit(c1) && crate::text::is_digit(c2)
            && crate::text::is_digit(c3) {
            let v: u32 = (c0 as u32 - 48) * 1000 + (c1 as u32 - 48) * 100 + (c2 as u32 - 48) * 10 + (
            c3 as u32 - 48);
            proof {
                assert(digits_four(s, k - from)) by {
                    assert forall|i: int| k - from <= i < k - from + 4 implies is_ascii_digit(
                        #[trigger] s[i],
                    ) by {
                        assert(s[i] == w[i - (k - from)]);
                    }
                }
                assert(w.drop_last().drop_last().drop_last().drop_last() == Seq::<char>::empty());
                assert(w.drop_last().drop_last().drop_last() == seq![c0]);
                assert(w.drop_last().drop_last() == seq![c0, c1]);
                assert(w.drop_last() == seq![c0, c1, c2]);
                reveal_with_fuel(digits_value, 5);
                assert(digits_value(w) == v);
            }
            if v > 0 {
                return Some(v as i32);
            }
        } else {
            proof {
                assert(!digits_four(s, k - from)) by {
                    if digits_four(s, k - from) {
                        assert(is_ascii_digit(s[k - from]));
                        assert(is_ascii_digit(s[k - from + 1]));
                        assert(is_ascii_digit(s[k - from + 2]));
                        assert(is_ascii_digit(s[k - from + 3]));
                    }
                }
            }
        }
        k = k + 1;
    }
    None
}

pub open spec fn year_marker() -> Seq<char> {
    "js-year-link"@
}

pub open spec fn link_close() -> Seq<char> {
    "</a>"@
}

/// The year a link tag names in its `href`.
pub open spec fn href_year_spec(tag: Seq<char>) -> Option<i32> {
    match html_attribute_spec(tag, "href"@) {
        Some(h) => year_from_href_spec(h),
        None => None,
    }
}

/// The years of the year links from `cursor` on, in document order: from the link's
/// `href`, else from the first four-digit year in the link's text.
pub open spec fn years_from(html: Seq<char>, cursor: int) -> Seq<i32>
    decreases html.len() + 1 - cursor
    via years_from_decreases
{
    if cursor < 0 || cursor > html.len() {
        Seq::empty()
    } else {
        match find_spec(html, year_marker(), cursor) {
            None => Seq::empty(),
            Some(marker) => match rfind_char_spec(html, '<', marker) {
                None => Seq::empty(),
                Some(tag_start) => match find_char_spec(html, '>', marker) {
                    None => Seq::empty(),
                    Some(tag_end) => match href_year_spec(html.subrange(tag_start, tag_end + 1)) {
                        Some(y) => seq![y] + years_from(html, tag_end + 1),
                        None => match find_spec(html, link_close(), tag_end + 1) {
                            Some(inner_end) => {
                                let rest = years_from(html, inner_end + link_close().len());
                                match four_digit_year_from(
                                    html.subrange(tag_end + 1, inner_end),
                                    0,
                                ) {
                                    Some(y) => seq![y] + rest,
                                    None => rest,
                                }
                            },
                            None => years_from(html, tag_end + 1),
                        },
                    },
                },
            },
        }
    }
}

#[via_fn]
proof fn years_from_decreases(html: Seq<char>, cursor: int) {
    crate::scan::lemma_find_bounds(html, year_marker(), cursor);
    match find_spec(html, year_marker(), cursor) {
        Some(marker) => {
            crate::scan::lemma_find_char_bounds(html, '>', marker);
            match find_char_spec(html, '>', marker) {
                Some(tag_end) => {
                    crate::scan::lemma_find_bounds(html, link_close(), tag_end + 1);
                },
                None => {},
            }
        },
        None => {},
    }
}

/// `sorted` with `y` inserted in ascending order, unless it is already there.
pub open spec fn insert_year(sorted: Seq<i32>, y: i32) -> Seq<i32> {
    let pos = first_year_not_below(sorted, y, 0);
    if pos < sorted.len() && sorted[pos] == y {
        sorted
    } else {
        sorted.insert(pos, y)
    }
}

pub open spec fn first_year_not_below(sorted: Seq<i32>, y: i32, k: int) -> int
    decreases sorted.len() - k,
{
    if k < 0 || k >= sorted.len() {
        sorted.len() as int
    } else if sorted[k] >= y {
        k
    } else {
        first_year_not_below(sorted, y, k + 1)
    }
}

/// Strictly increasing years.
pub open spec fn ascending_years(s: Seq<i32>) -> bool {
    forall|i: int, j: int| 0 <= i < j < s.len() ==> s[i] < s[j]
}

proof fn lemma_first_not_below(s: Seq<i32>, y: i32, k: int)
    requires
        0 <= k <= s.len(),
        forall|m: int| 0 <= m < k ==> s[m] < y,
    ensures
        k <= first_year_not_below(s, y, k) <= s.len(),
        forall|m: int| 0 <= m < first_year_not_below(s, y, k) ==> s[m] < y,
        first_year_not_below(s, y, k) < s.len() ==> s[first_year_not_below(s, y, k)] >= y,
    decreases s.len() - k,
{
    if k < s.len() && s[k] < y {
        lemma_first_not_below(s, y, k + 1);
    }
}

/// Inserting a year keeps the years ascending and adds exactly that year.
pub proof fn lemma_insert_year(s: Seq<i32>, y: i32)
    requires
        ascending_years(s),
    ensures
        ascending_years(insert_year(s, y)),
        forall|z: i32| #[trigger] insert_year(s, y).contains(z) <==> (s.contains(z) || z == y),
{
    lemma_first_not_below(s, y, 0);
    let pos = first_year_not_below(s, y, 0);
    if !(pos < s.len() && s[pos] == y) {
        let t = s.insert(pos, y);
        assert forall|i: int, j: int| 0 <= i < j < t.len() implies t[i] < t[j] by {
            if j < pos {
            } else if j == pos {
            } else if i < pos {
                assert(s[i] < y);
                assert(s[pos] >= y);
                if j - 1 > pos { assert(s[pos] < s[j - 1]); }
            } else if i == pos {
                assert(s[pos] >= y);
                if j - 1 > pos { assert(s[pos] < s[j - 1]); }
            } else {
            }
        }
        assert forall|z: i32| #[trigger] t.contains(z) <==> (s.contains(z) || z == y) by {
            if t.contains(z) {
                let k = choose|k: int| 0 <= k < t.len() && t[k] == z;
                if k < pos {
                    assert(s[k] == z);
                } else if k > pos {
                    assert(s[k - 1] == z);
                }
            }
            if s.contains(z) {
                let k = choose|k: int| 0 <= k < s.len() && s[k] == z;
                if k < pos {
                    assert(t[k] == z);
                } else {
                    assert(t[k + 1] == z);
                }
            }
            if z == y {
                assert(t[pos] == y);
            }
        }
    } else {
        assert(s.contains(y));
    }
}

/// The years in ascending order, each once.
pub open spec fn sorted_years(years: Seq<i32>) -> Seq<i32>
    decreases years.len(),
{
    if years.len() == 0 {
        Seq::empty()
    } else {
        insert_year(sorted_years(years.drop_last()), years.last())
    }
}

pub(crate) fn insert_year_exec(sorted: &mut Vec<i32>, y: i32)
    ensures
        final(sorted)@ == insert_year(old(sorted)@, y),
{
    let ghost prev = sorted@;
    let mut j: usize = 0;
    while j < sorted.len() && sorted[j] < y
        invariant
            j <= sorted@.len(),
            sorted@ == prev,
            first_year_not_below(prev, y, 0) == first_year_not_below(prev, y, j as int),
        decreases sorted.len() - j,
    {
        j = j + 1;
    }
    if j < sorted.len() && sorted[j] == y {
        return;
    }
    sorted.insert(j, y);
}

/// The contribution years that the profile page links to, ascending, each once.
pub fn parse_contribution_years(html: &str) -> (r: Vec<i32>)
    ensures
        r@ == sorted_years(years_from(html@, 0)),
{
    let chars = chars_of(html);
    let marker = chars_of("js-year-link");
    let close = chars_of("</a>");
    let mut years: Vec<i32> = Vec::new();
    let mut cursor: usize = 0;
    while cursor <= chars.len()
        invariant
            cursor <= chars@.len() + 1,
            chars@ == html@,
            marker@ == year_marker(),
            close@ == link_close(),
            years@ + years_from(html@, cursor as int) == years_from(html@, 0),
        ensures
            years@ == years_from(html@, 0),
        decreases chars@.len() + 1 - cursor,
    {
        proof {
            assert(years@ + Seq::<i32>::empty() =~= years@);
        }
        let found = match find_from(&chars, &marker, cursor) {
            Some(v) => v,
            None => break,
        };
        let tag_start = match rfind_char_before(&chars, '<', found) {
            Some(v) => v,
            None => break,
        };
        let tag_end = match find_char_from(&chars, '>', found) {
            Some(v) => v,
            None => break,
        };
        let ghost before = years@;
        let href_year = match html_attribute(&chars, tag_start, tag_end + 1, "href") {
            Some(h) => year_from_href(h.as_str()),
            None => None,
        };
        if let Some(y) = href_year {
            years.push(y);
            proof {
                assert(before.push(y) + years_from(html@, tag_end + 1) =~= before + (seq![y]
                    + years_from(html@, tag_end + 1)));
            }
            cursor = tag_end + 1;
            continue;
        }
        match find_from(&chars, &close, tag_end + 1) {
            Some(inner_end) => {
                let next = inner_end + close.len();
                if let Some(y) = first_four_digit_year(&chars, tag_end + 1, inner_end) {
                    years.push(y);
                    proof {
                        assert(before.push(y) + years_from(html@, next as int) =~= before + (seq![y]
                            + years_from(html@, next as int)));
                    }
                }
                cursor = next;
            },
            None => {
                cursor = tag_end + 1;
            },
        }
    }
    let ghost found_years = years@;
    let mut sorted: Vec<i32> = Vec::new();
    let mut i: usize = 0;
    while i < years.len()
        invariant
            i <= years@.len(),
            found_years == years@,
            sorted@ == sorted_years(found_years.take(i as int)),
        decreases years.len() - i,
    {
        proof {
            assert(found_years.take(i + 1).drop_last() == found_years.take(i as int));
            assert(found_years.take(i + 1).last() == found_years[i as int]);
        }
        insert_year_exec(&mut sorted, years[i]);
        i = i + 1;
    }
    proof {
        assert(found_years.take(years@.len() as int) == found_years);
    }
    sorted
}

/// The first year of the public contribution graph's year links.
pub const FIRST_LISTED_YEAR: i32 = 2005;

/// The years from `start` up to, not including, `end`.
pub open spec fn year_range(start: int, end: int) -> Seq<i32> {
    Seq::new(if end > start {
        (end - start) as nat
    } else {
        0
    }, |i: int| (start + i) as i32)
}

/// The past years whose public calendars are read: from the first contribution year (or
/// 2005, where it is later) up to the current year; a first year before 2005 is read on
/// its own in front.
pub open spec fn historical_years_spec(first_year: Option<i32>, current_year: i32) -> Seq<i32> {
    let first = match first_year {
        Some(y) => if y < current_year {
            y
        } else {
            current_year
        },
        None => current_year,
    };
    let start = if first > FIRST_LISTED_YEAR {
        first
    } else {
        FIRST_LISTED_YEAR
    };
    let base = if current_year > FIRST_LISTED_YEAR {
        year_range(start as int, current_year as int)
    } else {
        Seq::empty()
    };
    if first < FIRST_LISTED_YEAR && first < current_year {
        seq![first] + base
    } else {
        base
    }
}

pub fn historical_years(first_year: Option<i32>, current_year: i32) -> (r: Vec<i32>)
    ensures
        r@ == historical_years_spec(first_year, current_year),
{
    let first = match first_year {
        Some(y) => if y < current_year {
            y
        } else {
            current_year
        },
        None => current_year,
    };
    let start = if first > FIRST_LISTED_YEAR {
        first
    } else {
        FIRST_LISTED_YEAR
    };
    let mut years: Vec<i32> = Vec::new();
    if first < FIRST_LISTED_YEAR && first < current_year {
        years.push(first);
    }
    let ghost head = years@;
    if current_year > FIRST_LISTED_YEAR {
        let mut y = start;
        while y < current_year
            invariant
                start <= y <= current_year,
                years@ == head + year_range(start as int, y as int),
            decreases current_year - y,
        {
            let ghost before = years@;
            years.push(y);
            proof {
                assert(year_range(start as int, (y + 1) as int) =~= year_range(start as int, y as int).push(y));
                assert(years@ =~= head + year_range(start as int, (y + 1) as int));
            }
            y = y + 1;
        }
    }
    proof {
        if current_year > FIRST_LISTED_YEAR {
            assert(years@ =~= historical_years_spec(first_year, current_year));
        } else {
            assert(years@ =~= historical_years_spec(first_year, current_year));
        }
    }
    years
}

} // verus!
