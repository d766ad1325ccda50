//! Searching in character sequences, and the attribute values of HTML tags.
use vstd::prelude::*;

use crate::text::{has_prefix, matches_at};

verus! {

/// The first position at or after `from` where `pattern` occurs.
pub open spec fn find_spec(s: Seq<char>, pattern: Seq<char>, from: int) -> Option<int>
    decreases s.len() + 1 - from,
{
    if from < 0 || from > s.len() {
        None
    } else if has_prefix(s.skip(from), pattern) {
        Some(from)
    } else {
        find_spec(s, pattern, from + 1)
    }
}

/// The first position at or after `from` holding `c`.
pub open spec fn find_char_spec(s: Seq<char>, c: char, from: int) -> Option<int>
    decreases s.len() - from,
{
    if from < 0 || from >= s.len() {
        None
    } else if s[from] == c {
        Some(from)
    } else {
        find_char_spec(s, c, from + 1)
    }
}

/// The last position before `end` holding `c`.
pub open spec fn rfind_char_spec(s: Seq<char>, c: char, end: int) -> Option<int>
    decreases end,
{
    if end <= 0 || end > s.len() {
        None
    } else if s[end - 1] == c {
        Some(end - 1)
    } else {
        rfind_char_spec(s, c, end - 1)
    }
}

/// `char::is_ascii_whitespace`.
pub open spec fn ascii_space(c: char) -> bool {
    c == ' ' || c == '\t' || c == '\n' || c == '\x0C' || c == '\r'
}

/// The first position at or after `from` that ends an unquoted attribute value: ASCII
/// white space or `>`; the end of the text where there is none.
pub open spec fn value_end_spec(s: Seq<char>, from: int) -> int
    decreases s.len() - from,
{
    if from < 0 || from >= s.len() {
        s.len() as int
    } else if ascii_space(s[from]) || s[from] == '>' {
        from
    } else {
        value_end_spec(s, from + 1)
    }
}

pub proof fn lemma_find_bounds(s: Seq<char>, pattern: Seq<char>, from: int)
    ensures
        find_spec(s, pattern, from) matches Some(i) ==> from <= i <= s.len() && i + pattern.len()
            <= s.len(),
    decreases s.len() + 1 - from,
{
    if 0 <= from <= s.len() && !has_prefix(s.skip(from), pattern) {
        lemma_find_bounds(s, pattern, from + 1);
    }
}

pub proof fn lemma_find_char_bounds(s: Seq<char>, c: char, from: int)
    ensures
        find_char_spec(s, c, from) matches Some(i) ==> from <= i < s.len() && s[i] == c,
    decreases s.len() - from,
{
    if 0 <= from < s.len() && s[from] != c {
        lemma_find_char_bounds(s, c, from + 1);
    }
}

pub proof fn lemma_rfind_char_bounds(s: Seq<char>, c: char, end: int)
    ensures
        rfind_char_spec(s, c, end) matches Some(i) ==> 0 <= i < end && s[i] == c,
    decreases end,
{
    if 0 < end <= s.len() && s[end - 1] != c {
        lemma_rfind_char_bounds(s, c, end - 1);
    }
}

proof fn lemma_value_end_bounds(s: Seq<char>, from: int)
    requires
        0 <= from <= s.len(),
    ensures
        from <= value_end_spec(s, from) <= s.len(),
    decreases s.len() - from,
{
    if from < s.len() && !(ascii_space(s[from]) || s[from] == '>') {
        lemma_value_end_bounds(s, from + 1);
    }
}

/// The first position at or after `from` where `pattern` occurs.
pub fn find_from(s: &Vec<char>, pattern: &Vec<char>, from: usize) -> (r: Option<usize>)
    requires
        from <= s@.len(),
    ensures
        r matches Some(i) ==> find_spec(s@, pattern@, from as int) == Some(i as int),
        r is None ==> find_spec(s@, pattern@, from as int) is None,
        r matches Some(i) ==> from <= i && i + pattern@.len() <= s@.len(),
{
    proof {
        lemma_find_bounds(s@, pattern@, from as int);
    }
    let n = s.len();
    let mut i = from;
    while i < n
        invariant
            from <= i <= n,
            n == s@.len(),
            find_spec(s@, pattern@, from as int) == find_spec(s@, pattern@, i as int),
        decreases n - i,
    {
        proof {
            assert(s@.subrange(i as int, s@.len() as int) == s@.skip(i as int));
        }
        if matches_at(s, i, pattern) {
            return Some(i);
        }
        i = i + 1;
    }
    proof {
        assert(s@.subrange(n as int, s@.len() as int) == s@.skip(n as int));
    }
    if matches_at(s, n, pattern) {
        Some(n)
    } else {
        proof {
            assert(find_spec(s@, pattern@, n + 1) is None);
        }
        None
    }
}

/// The first position at or after `from` holding `c`.
pub fn find_char_from(s: &Vec<char>, c: char, from: usize) -> (r: Option<usize>)
    ensures
        r matches Some(i) ==> find_char_spec(s@, c, from as int) == Some(i as int),
        r is None ==> find_char_spec(s@, c, from as int) is None,
        r matches Some(i) ==> from <= i < s@.len() && s@[i as int] == c,
{
    proof {
        lemma_find_char_bounds(s@, c, from as int);
    }
    let mut i = from;
    while i < s.len()
        invariant
            from <= i,
            find_char_spec(s@, c, from as int) == find_char_spec(s@, c, i as int),
        decreases s.len() - i,
    {
        if s[i] == c {
            return Some(i);
        }
        i = i + 1;
    }
    None
}

/// The last position before `end` holding `c`.
pub fn rfind_char_before(s: &Vec<char>, c: char, end: usize) -> (r: Option<usize>)
    requires
        end <= s@.len(),
    ensures
        r matches Some(i) ==> rfind_char_spec(s@, c, end as int) == Some(i as int),
        r is None ==> rfind_char_spec(s@, c, end as int) is None,
        r matches Some(i) ==> i < end && s@[i as int] == c,
{
    proof {
        lemma_rfind_char_bounds(s@, c, end as int);
    }
    let mut k = end;
    while k > 0
        invariant
            k <= end <= s@.len(),
            rfind_char_spec(s@, c, end as int) == rfind_char_spec(s@, c, k as int),
        decreases k,
    {
        if s[k - 1] == c {
            return Some(k - 1);
        }
        k = k - 1;
    }
    None
}

fn value_end(s: &Vec<char>, from: usize) -> (r: usize)
    requires
        from <= s@.len(),
    ensures
        r == value_end_spec(s@, from as int),
        from <= r <= s@.len(),
{
    proof {
        lemma_value_end_bounds(s@, from as int);
    }
    let mut i = from;
    while i < s.len()
        invariant
            from <= i <= s@.len(),
            value_end_spec(s@, from as int) == value_end_spec(s@, i as int),
        decreases s.len() - i,
    {
        let c = s[i];
        if c == ' ' || c == '\t' || c == '\n' || c == '\x0C' || c == '\r' || c == '>' {
            return i;
        }
        i = i + 1;
    }
    i
}

/// The value of an attribute that starts at `start`: a quoted value up to the closing
/// quote (nothing without one), or an unquoted value up to white space or `>`; nothing
/// where the tag ends there.
pub open spec fn value_at_spec(tag: Seq<char>, start: int) -> Option<Seq<char>> {
    if start < 0 || start >= tag.len() {
        None
    } else if tag[start] == '\'' || tag[start] == '"' {
        match find_char_spec(tag, tag[start], start + 1) {
            Some(close) => Some(tag.subrange(start + 1, close)),
            None => None,
        }
    } else {
        Some(tag.subrange(start, value_end_spec(tag, start)))
    }
}

/// Whether `start` begins the tag or follows ASCII white space or `<`.
pub open spec fn boundary_before(tag: Seq<char>, start: int) -> bool {
    start == 0 || (0 < start <= tag.len() && (ascii_space(tag[start - 1]) || tag[start - 1]
        == '<'))
}

/// The value of the first occurrence of `pattern` (`name=`) at or after `from` that
/// stands at an attribute boundary.
pub open spec fn attribute_from(tag: Seq<char>, pattern: Seq<char>, from: int) -> Option<Seq<char>>
    decreases tag.len() + 1 - from
    via attribute_from_decreases
{
    if pattern.len() == 0 || from < 0 || from > tag.len() {
        None
    } else {
        match find_spec(tag, pattern, from) {
            Some(start) => if boundary_before(tag, start) {
                value_at_spec(tag, start + pattern.len())
            } else {
                attribute_from(tag, pattern, start + pattern.len())
            },
            None => None,
        }
    }
}

#[via_fn]
proof fn attribute_from_decreases(tag: Seq<char>, pattern: Seq<char>, from: int) {
    lemma_find_bounds(tag, pattern, from);
}

/// The value of attribute `name` in a tag.
pub open spec fn html_attribute_spec(tag: Seq<char>, name: Seq<char>) -> Option<Seq<char>> {
    attribute_from(tag, name.push('='), 0)
}

/// The value of attribute `name` in the tag `chars[from..to]`.
pub fn html_attribute(chars: &Vec<char>, from: usize, to: usize, name: &str) -> (r: Option<
    String,
>)
    requires
        from <= to <= chars@.len(),
    ensures
        r.deep_view() == html_attribute_spec(chars@.subrange(from as int, to as int), name@),
{
    let tag = slice_chars(chars, from, to);
    let mut pattern = crate::text::chars_of(name);
    pattern.push('=');
    let ghost pat = name@.push('=');
    proof {
        assert(pattern@ == pat);
    }
    let mut cursor: usize = 0;
    while cursor <= tag.len()
        invariant
            cursor <= tag@.len() + 1,
            from <= to <= chars@.len(),
            tag@ == chars@.subrange(from as int, to as int),
            pat == name@.push('='),
            pattern@ == pat,
            pat.len() > 0,
            html_attribute_spec(tag@, name@) == attribute_from(tag@, pat, cursor as int),
        decreases tag@.len() + 1 - cursor,
    {
        let start = match find_from(&tag, &pattern, cursor) {
            Some(s) => s,
            None => return None,
        };
        proof {
            assert(find_spec(tag@, pat, cursor as int) == Some(start as int));
            assert(attribute_from(tag@, pat, cursor as int) == if boundary_before(tag@, start as int) {
                value_at_spec(tag@, start + pat.len())
            } else {
                attribute_from(tag@, pat, start + pat.len())
            });
        }
        let ok = start == 0 || {
            let c = tag[start - 1];
            c == ' ' || c == '\t' || c == '\n' || c == '\x0C' || c == '\r' || c == '<'
        };
        if !ok {
            cursor = start + pattern.len();
            continue;
        }
        let value_start = start + pattern.len();
        if value_start >= tag.len() {
            return None;
        }
        let quote = tag[value_start];
        if quote == '\'' || quote == '"' {
            return match find_char_from(&tag, quote, value_start + 1) {
                Some(close) => Some(string_from(&tag, value_start + 1, close)),
                None => None,
            };
        }
        let end = value_end(&tag, value_start);
        return Some(string_from(&tag, value_start, end));
    }
    None
}

/// A copy of `chars[from..to]`.
pub fn slice_chars(chars: &Vec<char>, from: usize, to: usize) -> (r: Vec<char>)
    requires
        from <= to <= chars@.len(),
    ensures
        r@ == chars@.subrange(from as int, to as int),
{
    let mut r: Vec<char> = Vec::new();
    let mut i = from;
    while i < to
        invariant
            from <= i <= to <= chars@.len(),
            r@ == chars@.subrange(from as int, i as int),
        decreases to - i,
    {
        r.push(chars[i]);
        proof {
            assert(chars@.subrange(from as int, i + 1) == chars@.subrange(from as int, i as int).push(
                chars@[i as int],
            ));
        }
        i = i + 1;
    }
    r
}

/// A string holding `chars[from..to]`.
pub fn string_from(chars: &Vec<char>, from: usize, to: usize) -> (r: String)
    requires
        from <= to <= chars@.len(),
    ensures
        r@ == chars@.subrange(from as int, to as int),
{
    crate::text::string_of(chars, from, to)
}

} // verus!
