//! Character-level text helpers shared by the normalizers and the SVG renderers.
//!
//! Strings are reasoned about through their `Seq<char>` views. The trimming and
//! case rules follow `char::is_whitespace` (Unicode `White_Space`) and the ASCII
//! case mapping of `char::to_ascii_lowercase`.
use vstd::prelude::*;

verus! {

/// Unicode `White_Space`, the set that `str::trim` and `split_whitespace` skip.
pub open spec fn is_ws(c: char) -> bool {
    let n = c as u32;
    ||| 0x09 <= n <= 0x0d
    ||| n == 0x20
    ||| n == 0x85
    ||| n == 0xa0
    ||| n == 0x1680
    ||| 0x2000 <= n <= 0x200a
    ||| n == 0x2028
    ||| n == 0x2029
    ||| n == 0x202f
    ||| n == 0x205f
    ||| n == 0x3000
}

/// The string with its leading white space removed.
pub open spec fn trim_start_spec(s: Seq<char>) -> Seq<char>
    decreases s.len(),
{
    if s.len() > 0 && is_ws(s[0]) {
        trim_start_spec(s.drop_first())
    } else {
        s
    }
}

/// The string with its trailing white space removed.
pub open spec fn trim_end_spec(s: Seq<char>) -> Seq<char>
    decreases s.len(),
{
    if s.len() > 0 && is_ws(s.last()) {
        trim_end_spec(s.drop_last())
    } else {
        s
    }
}

/// The string with leading and trailing white space removed.
pub open spec fn trim_spec(s: Seq<char>) -> Seq<char> {
    trim_end_spec(trim_start_spec(s))
}

pub open spec fn is_ascii_upper(c: char) -> bool {
    'A' <= c <= 'Z'
}

pub open spec fn is_ascii_lower(c: char) -> bool {
    'a' <= c <= 'z'
}

pub open spec fn is_ascii_digit(c: char) -> bool {
    '0' <= c <= '9'
}

pub open spec fn is_ascii_alphanumeric(c: char) -> bool {
    is_ascii_upper(c) || is_ascii_lower(c) || is_ascii_digit(c)
}

/// `char::to_ascii_lowercase`.
pub open spec fn lower_char(c: char) -> char {
    if is_ascii_upper(c) {
        ((c as u32) + 32) as char
    } else {
        c
    }
}

/// `char::to_ascii_uppercase`.
pub open spec fn upper_char(c: char) -> char {
    if is_ascii_lower(c) {
        ((c as u32) - 32) as char
    } else {
        c
    }
}

/// `str::to_ascii_lowercase`.
pub open spec fn lower_spec(s: Seq<char>) -> Seq<char> {
    s.map_values(|c: char| lower_char(c))
}

/// `str::to_ascii_uppercase`.
pub open spec fn upper_spec(s: Seq<char>) -> Seq<char> {
    s.map_values(|c: char| upper_char(c))
}

/// `str::eq_ignore_ascii_case`.
pub open spec fn eq_ignore_case_spec(a: Seq<char>, b: Seq<char>) -> bool {
    lower_spec(a) == lower_spec(b)
}

/// Two names that the renderers treat as the same display entry.
pub open spec fn same_name_spec(a: Seq<char>, b: Seq<char>) -> bool {
    eq_ignore_case_spec(trim_spec(a), trim_spec(b))
}

/// The trimmed text, or nothing where only white space is left.
pub open spec fn non_empty_spec(s: Option<Seq<char>>) -> Option<Seq<char>> {
    match s {
        Some(v) => if trim_spec(v).len() > 0 {
            Some(trim_spec(v))
        } else {
            None
        },
        None => None,
    }
}

pub open spec fn digit_char(d: nat) -> char {
    (('0' as u32) + d) as char
}

/// The decimal representation of `n`, as `u64::to_string` writes it.
pub open spec fn decimal_spec(n: nat) -> Seq<char>
    decreases n,
{
    if n < 10 {
        seq![digit_char(n)]
    } else {
        decimal_spec(n / 10).push(digit_char(n % 10))
    }
}

/// The decimal representation, padded with zeros to at least two digits (`{:02}`).
pub open spec fn pad2_spec(n: nat) -> Seq<char> {
    if n < 10 {
        seq!['0', digit_char(n)]
    } else {
        decimal_spec(n)
    }
}

/// The replacement that the XML escaper writes for one character.
pub open spec fn escape_char_spec(c: char) -> Seq<char> {
    if c == '&' {
        seq!['&', 'a', 'm', 'p', ';']
    } else if c == '<' {
        seq!['&', 'l', 't', ';']
    } else if c == '>' {
        seq!['&', 'g', 't', ';']
    } else if c == '"' {
        seq!['&', 'q', 'u', 'o', 't', ';']
    } else if c == '\'' {
        seq!['&', 'a', 'p', 'o', 's', ';']
    } else {
        seq![c]
    }
}

/// Text with the five XML special characters replaced by their entities.
pub open spec fn escape_spec(s: Seq<char>) -> Seq<char>
    decreases s.len(),
{
    if s.len() == 0 {
        Seq::empty()
    } else {
        escape_spec(s.drop_last()) + escape_char_spec(s.last())
    }
}

pub open spec fn ellipsis() -> char {
    '\u{2026}'
}

/// The first `max` characters, followed by an ellipsis where characters were cut.
pub open spec fn truncate_spec(s: Seq<char>, max: nat) -> Seq<char> {
    if s.len() <= max {
        s
    } else {
        s.take(max as int).push(ellipsis())
    }
}

/// Appends one character (`String::push`).
#[verifier::external_body]
pub(crate) fn push_char(s: &mut String, c: char)
    ensures
        final(s)@ == old(s)@.push(c),
{
    s.push(c);
}

/// Appends a string slice.
pub fn push_str(s: &mut String, t: &str)
    ensures
        final(s)@ == old(s)@ + t@,
{
    s.append(t);
}

/// The characters of a string slice.
pub fn chars_of(s: &str) -> (v: Vec<char>)
    ensures
        v@ == s@,
{
    let mut v: Vec<char> = Vec::new();
    for c in it: s.chars()
        invariant
            v@ == it.seq().take(it.index() as int),
    {
        v.push(c);
    }
    v
}

/// Appends every character of `chars[from..to]`.
pub fn push_chars(s: &mut String, chars: &Vec<char>, from: usize, to: usize)
    requires
        from <= to <= chars@.len(),
    ensures
        final(s)@ == old(s)@ + chars@.subrange(from as int, to as int),
{
    let mut i = from;
    while i < to
        invariant
            from <= i <= to <= chars@.len(),
            s@ == old(s)@ + chars@.subrange(from as int, i as int),
        decreases to - i,
    {
        push_char(s, chars[i]);
        proof {
            assert(chars@.subrange(from as int, i + 1) == chars@.subrange(from as int, i as int).push(
                chars@[i as int],
            ));
        }
        i = i + 1;
    }
}

/// A new string holding `chars[from..to]`.
pub fn string_of(chars: &Vec<char>, from: usize, to: usize) -> (r: String)
    requires
        from <= to <= chars@.len(),
    ensures
        r@ == chars@.subrange(from as int, to as int),
{
    let mut r = String::new();
    push_chars(&mut r, chars, from, to);
    proof {
        assert(Seq::<char>::empty() + chars@.subrange(from as int, to as int) == chars@.subrange(
            from as int,
            to as int,
        ));
    }
    r
}

/// An owned copy of a string slice.
pub fn owned(s: &str) -> (r: String)
    ensures
        r@ == s@,
{
    s.to_owned()
}

/// `char::is_whitespace`.
pub fn is_whitespace(c: char) -> (r: bool)
    ensures
        r == is_ws(c),
{
    let n = c as u32;
    (0x09 <= n && n <= 0x0d) || n == 0x20 || n == 0x85 || n == 0xa0 || n == 0x1680 || (0x2000
        <= n && n <= 0x200a) || n == 0x2028 || n == 0x2029 || n == 0x202f || n == 0x205f || n
        == 0x3000
}

pub fn is_digit(c: char) -> (r: bool)
    ensures
        r == is_ascii_digit(c),
{
    '0' <= c && c <= '9'
}

pub fn is_alphanumeric_ascii(c: char) -> (r: bool)
    ensures
        r == is_ascii_alphanumeric(c),
{
    ('A' <= c && c <= 'Z') || ('a' <= c && c <= 'z') || ('0' <= c && c <= '9')
}

pub fn to_lower(c: char) -> (r: char)
    ensures
        r == lower_char(c),
{
    if 'A' <= c && c <= 'Z' {
        let n = (c as u32) + 32;
        assert(0x41 + 32 <= n <= 0x5a + 32);
        char_from_ascii(n)
    } else {
        c
    }
}

pub fn to_upper(c: char) -> (r: char)
    ensures
        r == upper_char(c),
{
    if 'a' <= c && c <= 'z' {
        let n = (c as u32) - 32;
        char_from_ascii(n)
    } else {
        c
    }
}

/// The character with the given ASCII code.
pub fn char_from_ascii(n: u32) -> (r: char)
    requires
        n < 128,
    ensures
        r == n as char,
        r as u32 == n,
{
    let b = n as u8;
    b as char
}

/// The index just past the leading white space of `chars[from..to]`.
pub fn skip_ws_forward(chars: &Vec<char>, from: usize, to: usize) -> (i: usize)
    requires
        from <= to <= chars@.len(),
    ensures
        from <= i <= to,
        trim_start_spec(chars@.subrange(from as int, to as int)) == chars@.subrange(
            i as int,
            to as int,
        ),
{
    let mut i = from;
    while i < to && is_whitespace(chars[i])
        invariant
            from <= i <= to <= chars@.len(),
            trim_start_spec(chars@.subrange(from as int, to as int)) == trim_start_spec(
                chars@.subrange(i as int, to as int),
            ),
        decreases to - i,
    {
        proof {
            assert(chars@.subrange(i as int, to as int).drop_first() == chars@.subrange(
                i + 1,
                to as int,
            ));
        }
        i = i + 1;
    }
    i
}

/// The index at the start of the trailing white space of `chars[from..to]`.
pub fn skip_ws_backward(chars: &Vec<char>, from: usize, to: usize) -> (j: usize)
    requires
        from <= to <= chars@.len(),
    ensures
        from <= j <= to,
        trim_end_spec(chars@.subrange(from as int, to as int)) == chars@.subrange(
            from as int,
            j as int,
        ),
{
    let mut j = to;
    while j > from && is_whitespace(chars[j - 1])
        invariant
            from <= j <= to <= chars@.len(),
            trim_end_spec(chars@.subrange(from as int, to as int)) == trim_end_spec(
                chars@.subrange(from as int, j as int),
            ),
        decreases j - from,
    {
        proof {
            assert(chars@.subrange(from as int, j as int).drop_last() == chars@.subrange(
                from as int,
                j - 1,
            ));
        }
        j = j - 1;
    }
    j
}

/// The bounds of the trimmed part of `chars[from..to]`.
pub fn trim_bounds(chars: &Vec<char>, from: usize, to: usize) -> (r: (usize, usize))
    requires
        from <= to <= chars@.len(),
    ensures
        from <= r.0 <= r.1 <= to,
        trim_spec(chars@.subrange(from as int, to as int)) == chars@.subrange(
            r.0 as int,
            r.1 as int,
        ),
{
    let i = skip_ws_forward(chars, from, to);
    let j = skip_ws_backward(chars, i, to);
    (i, j)
}

/// `str::trim`, as an owned string.
pub fn trim(s: &str) -> (r: String)
    ensures
        r@ == trim_spec(s@),
{
    let chars = chars_of(s);
    let (i, j) = trim_bounds(&chars, 0, chars.len());
    proof {
        assert(chars@.subrange(0, chars@.len() as int) == chars@);
    }
    string_of(&chars, i, j)
}

/// The trimmed text of an optional value, or nothing where it is empty after trimming.
pub fn non_empty(value: &Option<String>) -> (r: Option<String>)
    ensures
        r.deep_view() == non_empty_spec(value.deep_view()),
{
    match value {
        Some(v) => {
            let t = trim(v.as_str());
            if t.as_str().is_empty() {
                None
            } else {
                Some(t)
            }
        },
        None => None,
    }
}

/// Whether the text is empty after trimming.
pub fn is_blank(s: &str) -> (r: bool)
    ensures
        r == (trim_spec(s@).len() == 0),
{
    let chars = chars_of(s);
    let (i, j) = trim_bounds(&chars, 0, chars.len());
    proof {
        assert(chars@.subrange(0, chars@.len() as int) == chars@);
    }
    i == j
}

/// `str::to_ascii_lowercase`.
pub fn lower(s: &str) -> (r: String)
    ensures
        r@ == lower_spec(s@),
{
    let chars = chars_of(s);
    let mut r = String::new();
    let mut i: usize = 0;
    while i < chars.len()
        invariant
            i <= chars@.len(),
            chars@ == s@,
            r@ == lower_spec(chars@.take(i as int)),
        decreases chars.len() - i,
    {
        push_char(&mut r, to_lower(chars[i]));
        proof {
            assert(lower_spec(chars@.take(i + 1)) == lower_spec(chars@.take(i as int)).push(
                lower_char(chars@[i as int]),
            ));
        }
        i = i + 1;
    }
    proof {
        assert(chars@.take(chars@.len() as int) == chars@);
    }
    r
}

/// `str::to_ascii_uppercase`.
pub fn upper(s: &str) -> (r: String)
    ensures
        r@ == upper_spec(s@),
{
    let chars = chars_of(s);
    let mut r = String::new();
    let mut i: usize = 0;
    while i < chars.len()
        invariant
            i <= chars@.len(),
            chars@ == s@,
            r@ == upper_spec(chars@.take(i as int)),
        decreases chars.len() - i,
    {
        push_char(&mut r, to_upper(chars[i]));
        proof {
            assert(upper_spec(chars@.take(i + 1)) == upper_spec(chars@.take(i as int)).push(
                upper_char(chars@[i as int]),
            ));
        }
        i = i + 1;
    }
    proof {
        assert(chars@.take(chars@.len() as int) == chars@);
    }
    r
}

/// Compares `a[af..at]` and `b[bf..bt]` ignoring ASCII case.
pub fn range_eq_ignore_case(
    a: &Vec<char>,
    af: usize,
    at: usize,
    b: &Vec<char>,
    bf: usize,
    bt: usize,
) -> (r: bool)
    requires
        af <= at <= a@.len(),
        bf <= bt <= b@.len(),
    ensures
        r == eq_ignore_case_spec(
            a@.subrange(af as int, at as int),
            b@.subrange(bf as int, bt as int),
        ),
{
    let ghost sa = a@.subrange(af as int, at as int);
    let ghost sb = b@.subrange(bf as int, bt as int);
    if at - af != bt - bf {
        proof {
            assert(lower_spec(sa).len() != lower_spec(sb).len());
        }
        return false;
    }
    let n = at - af;
    let mut k: usize = 0;
    while k < n
        invariant
            n == at - af == bt - bf,
            af <= at <= a@.len(),
            bf <= bt <= b@.len(),
            k <= n,
            sa == a@.subrange(af as int, at as int),
            sb == b@.subrange(bf as int, bt as int),
            forall|m: int| 0 <= m < k ==> lower_char(#[trigger] sa[m]) == lower_char(sb[m]),
        decreases n - k,
    {
        if to_lower(a[af + k]) != to_lower(b[bf + k]) {
            proof {
                assert(lower_spec(sa)[k as int] != lower_spec(sb)[k as int]);
            }
            return false;
        }
        k = k + 1;
    }
    proof {
        assert(lower_spec(sa) =~= lower_spec(sb));
    }
    true
}

/// `str::eq_ignore_ascii_case`.
pub fn eq_ignore_case(a: &str, b: &str) -> (r: bool)
    ensures
        r == eq_ignore_case_spec(a@, b@),
{
    let ca = chars_of(a);
    let cb = chars_of(b);
    proof {
        assert(ca@.subrange(0, ca@.len() as int) == ca@);
        assert(cb@.subrange(0, cb@.len() as int) == cb@);
    }
    range_eq_ignore_case(&ca, 0, ca.len(), &cb, 0, cb.len())
}

/// `a.trim().eq_ignore_ascii_case(b.trim())`.
pub fn same_name(a: &str, b: &str) -> (r: bool)
    ensures
        r == same_name_spec(a@, b@),
{
    let ca = chars_of(a);
    let cb = chars_of(b);
    let (ai, aj) = trim_bounds(&ca, 0, ca.len());
    let (bi, bj) = trim_bounds(&cb, 0, cb.len());
    proof {
        assert(ca@.subrange(0, ca@.len() as int) == ca@);
        assert(cb@.subrange(0, cb@.len() as int) == cb@);
    }
    range_eq_ignore_case(&ca, ai, aj, &cb, bi, bj)
}

/// Whether the name, trimmed, equals `expected` ignoring ASCII case.
pub fn trimmed_is(name: &str, expected: &str) -> (r: bool)
    ensures
        r == eq_ignore_case_spec(trim_spec(name@), expected@),
{
    let ca = chars_of(name);
    let cb = chars_of(expected);
    let (ai, aj) = trim_bounds(&ca, 0, ca.len());
    proof {
        assert(ca@.subrange(0, ca@.len() as int) == ca@);
        assert(cb@.subrange(0, cb@.len() as int) == cb@);
    }
    range_eq_ignore_case(&ca, ai, aj, &cb, 0, cb.len())
}

proof fn lemma_decimal_len(n: nat)
    ensures
        decimal_spec(n).len() >= 1,
        n >= 10 ==> decimal_spec(n).len() >= 2,
    decreases n,
{
    if n >= 10 {
        lemma_decimal_len(n / 10);
    }
}

/// Appends the decimal representation of `n`.
pub fn push_decimal(s: &mut String, n: u64)
    ensures
        final(s)@ == old(s)@ + decimal_spec(n as nat),
    decreases n,
{
    if n >= 10 {
        push_decimal(s, n / 10);
    }
    let d = (n % 10) as u32;
    push_char(s, char_from_ascii(48 + d));
    proof {
        assert(digit_char((n % 10) as nat) == (48 + d) as char);
        if n >= 10 {
            assert(decimal_spec(n as nat) == decimal_spec((n / 10) as nat).push(
                digit_char((n % 10) as nat),
            ));
        }
    }
}

/// `u64::to_string`.
pub fn decimal(n: u64) -> (r: String)
    ensures
        r@ == decimal_spec(n as nat),
{
    let mut r = String::new();
    push_decimal(&mut r, n);
    proof {
        assert(Seq::<char>::empty() + decimal_spec(n as nat) == decimal_spec(n as nat));
    }
    r
}

/// Appends `n` padded with zeros to at least two digits (`{:02}`).
pub fn push_pad2(s: &mut String, n: u64)
    ensures
        final(s)@ == old(s)@ + pad2_spec(n as nat),
{
    if n < 10 {
        push_char(s, '0');
        let ghost mid = s@;
        push_decimal(s, n);
        proof {
            assert(decimal_spec(n as nat) == seq![digit_char(n as nat)]);
            assert(s@ == old(s)@ + seq!['0', digit_char(n as nat)]);
        }
    } else {
        push_decimal(s, n);
    }
}

/// Appends the XML escape of `c`.
pub fn push_escaped_char(s: &mut String, c: char)
    ensures
        final(s)@ == old(s)@ + escape_char_spec(c),
{
    let ghost start = s@;
    if c == '&' {
        push_char(s, '&');
        push_char(s, 'a');
        push_char(s, 'm');
        push_char(s, 'p');
        push_char(s, ';');
    } else if c == '<' {
        push_char(s, '&');
        push_char(s, 'l');
        push_char(s, 't');
        push_char(s, ';');
    } else if c == '>' {
        push_char(s, '&');
        push_char(s, 'g');
        push_char(s, 't');
        push_char(s, ';');
    } else if c == '"' {
        push_char(s, '&');
        push_char(s, 'q');
        push_char(s, 'u');
        push_char(s, 'o');
        push_char(s, 't');
        push_char(s, ';');
    } else if c == '\'' {
        push_char(s, '&');
        push_char(s, 'a');
        push_char(s, 'p');
        push_char(s, 'o');
        push_char(s, 's');
        push_char(s, ';');
    } else {
        push_char(s, c);
    }
    proof {
        assert(s@ =~= start + escape_char_spec(c));
    }
}

/// Appends the XML escape of `value`.
pub fn push_escaped(s: &mut String, value: &str)
    ensures
        final(s)@ == old(s)@ + escape_spec(value@),
{
    let chars = chars_of(value);
    let ghost start = s@;
    let mut i: usize = 0;
    while i < chars.len()
        invariant
            i <= chars@.len(),
            chars@ == value@,
            s@ == start + escape_spec(chars@.take(i as int)),
        decreases chars.len() - i,
    {
        push_escaped_char(s, chars[i]);
        proof {
            let t = chars@.take(i + 1);
            assert(t.drop_last() == chars@.take(i as int));
            assert(t.last() == chars@[i as int]);
            assert(escape_spec(t) == escape_spec(chars@.take(i as int)) + escape_char_spec(
                chars@[i as int],
            ));
            assert(s@ == start + escape_spec(t));
        }
        i = i + 1;
    }
    proof {
        assert(chars@.take(chars@.len() as int) == chars@);
    }
}

/// Text with the five XML special characters replaced by their entities.
pub fn escape_xml(value: &str) -> (r: String)
    ensures
        r@ == escape_spec(value@),
{
    let mut r = String::new();
    push_escaped(&mut r, value);
    proof {
        assert(Seq::<char>::empty() + escape_spec(value@) == escape_spec(value@));
    }
    r
}

/// The first `max` characters, followed by an ellipsis where characters were cut.
pub fn truncate_chars(value: &str, max: usize) -> (r: String)
    ensures
        r@ == truncate_spec(value@, max as nat),
{
    let chars = chars_of(value);
    if chars.len() <= max {
        let r = string_of(&chars, 0, chars.len());
        proof {
            assert(chars@.subrange(0, chars@.len() as int) == chars@);
        }
        r
    } else {
        let mut r = string_of(&chars, 0, max);
        push_char(&mut r, '\u{2026}');
        r
    }
}

/// Whether `s` starts with `prefix`.
pub open spec fn has_prefix(s: Seq<char>, prefix: Seq<char>) -> bool {
    s.len() >= prefix.len() && s.take(prefix.len() as int) == prefix
}

/// Whether `chars[from..]` starts with `pattern`.
pub fn matches_at(chars: &Vec<char>, from: usize, pattern: &Vec<char>) -> (r: bool)
    requires
        from <= chars@.len(),
    ensures
        r == has_prefix(chars@.subrange(from as int, chars@.len() as int), pattern@),
{
    let ghost rest = chars@.subrange(from as int, chars@.len() as int);
    if chars.len() - from < pattern.len() {
        return false;
    }
    let n = chars.len();
    let mut k: usize = 0;
    while k < pattern.len()
        invariant
            n == chars@.len(),
            from + pattern@.len() <= chars@.len(),
            k <= pattern@.len(),
            rest == chars@.subrange(from as int, chars@.len() as int),
            forall|m: int| 0 <= m < k ==> #[trigger] rest[m] == pattern@[m],
        decreases pattern.len() - k,
    {
        if chars[from + k] != pattern[k] {
            proof {
                assert(rest.take(pattern@.len() as int)[k as int] != pattern@[k as int]);
            }
            return false;
        }
        k = k + 1;
    }
    proof {
        assert(rest.take(pattern@.len() as int) =~= pattern@);
    }
    true
}

/// Whether two strings hold the same characters.
pub fn equals(a: &str, b: &str) -> (r: bool)
    ensures
        r == (a@ == b@),
{
    let ca = chars_of(a);
    let cb = chars_of(b);
    if ca.len() != cb.len() {
        return false;
    }
    let r = matches_at(&ca, 0, &cb);
    proof {
        assert(ca@.subrange(0, ca@.len() as int) == ca@);
        if r {
            assert(ca@.take(cb@.len() as int) == ca@);
        }
    }
    r
}

/// Whether `s` starts with `prefix`.
pub fn starts_with(s: &str, prefix: &str) -> (r: bool)
    ensures
        r == has_prefix(s@, prefix@),
{
    let cs = chars_of(s);
    let cp = chars_of(prefix);
    proof {
        assert(cs@.subrange(0, cs@.len() as int) == cs@);
    }
    matches_at(&cs, 0, &cp)
}

/// `str::split` with a single character separator: the pieces between separators,
/// with an empty piece at each end or between adjacent separators.
pub open spec fn split_spec(s: Seq<char>, sep: char) -> Seq<Seq<char>>
    decreases s.len(),
{
    if s.len() == 0 {
        seq![Seq::empty()]
    } else {
        let parts = split_spec(s.drop_last(), sep);
        if s.last() == sep {
            parts.push(Seq::empty())
        } else {
            parts.update(parts.len() - 1, parts.last().push(s.last()))
        }
    }
}

pub proof fn lemma_split_nonempty(s: Seq<char>, sep: char)
    ensures
        split_spec(s, sep).len() >= 1,
    decreases s.len(),
{
    if s.len() > 0 {
        lemma_split_nonempty(s.drop_last(), sep);
    }
}

/// The bounds in `chars` of the pieces of `str::split(sep)`.
pub fn split_bounds(chars: &Vec<char>, sep: char) -> (r: Vec<(usize, usize)>)
    ensures
        r@.len() == split_spec(chars@, sep).len(),
        forall|k: int|
            0 <= k < r@.len() ==> (#[trigger] r@[k]).0 <= r@[k].1 <= chars@.len()
                && chars@.subrange(r@[k].0 as int, r@[k].1 as int) == split_spec(chars@, sep)[k],
{
    let mut r: Vec<(usize, usize)> = Vec::new();
    let mut start: usize = 0;
    let mut i: usize = 0;
    while i < chars.len()
        invariant
            start <= i <= chars@.len(),
            r@.len() + 1 == split_spec(chars@.take(i as int), sep).len(),
            forall|k: int|
                0 <= k < r@.len() ==> (#[trigger] r@[k]).0 <= r@[k].1 <= start && chars@.subrange(
                    r@[k].0 as int,
                    r@[k].1 as int,
                ) == split_spec(chars@.take(i as int), sep)[k],
            split_spec(chars@.take(i as int), sep).last() == chars@.subrange(start as int, i as int),
        decreases chars.len() - i,
    {
        let c = chars[i];
        let ghost before = split_spec(chars@.take(i as int), sep);
        proof {
            lemma_split_nonempty(chars@.take(i as int), sep);
            assert(chars@.take(i + 1).drop_last() == chars@.take(i as int));
            assert(chars@.take(i + 1).last() == c);
        }
        if c == sep {
            r.push((start, i));
            start = i + 1;
            proof {
                assert(chars@.subrange(start as int, i + 1) == Seq::<char>::empty());
            }
        } else {
            proof {
                assert(chars@.subrange(start as int, i + 1) == chars@.subrange(start as int, i as int).push(c));
            }
        }
        i = i + 1;
    }
    proof {
        assert(chars@.take(chars@.len() as int) == chars@);
        lemma_split_nonempty(chars@, sep);
    }
    r.push((start, chars.len()));
    r
}

/// The Unicode lower-case form of a text, as `str::to_lowercase` computes it.
pub uninterp spec fn unicode_lower(s: Seq<char>) -> Seq<char>;

/// `str::to_lowercase`: maps each character by the lower-case mapping of the Unicode
/// standard, which depends on the text alone; what it maps each character to is not
/// stated here.
#[verifier::external_body]
pub(crate) fn to_lowercase(s: &str) -> (r: String)
    ensures
        r@ == unicode_lower(s@),
{
    s.to_lowercase()
}

/// Escaped text holds none of the characters that could end an attribute or open or
/// close an element: external text never injects markup.
pub proof fn law_escaped_text_has_no_markup(s: Seq<char>)
    ensures
        forall|i: int|
            0 <= i < escape_spec(s).len() ==> {
                let c = #[trigger] escape_spec(s)[i];
                c != '<' && c != '>' && c != '"' && c != '\''
            },
    decreases s.len(),
{
    if s.len() > 0 {
        law_escaped_text_has_no_markup(s.drop_last());
        let head = escape_spec(s.drop_last());
        let tail = escape_char_spec(s.last());
        assert forall|i: int| 0 <= i < escape_spec(s).len() implies {
            let c = #[trigger] escape_spec(s)[i];
            c != '<' && c != '>' && c != '"' && c != '\''
        } by {
            if i < head.len() {
                assert(escape_spec(s)[i] == head[i]);
            } else {
                assert(escape_spec(s)[i] == tail[i - head.len()]);
            }
        }
    }
}

/// Whether `t` occurs in `s`.
pub open spec fn contains_seq(s: Seq<char>, t: Seq<char>) -> bool {
    exists|pre: Seq<char>, post: Seq<char>| s == #[trigger] (pre + t + post)
}

/// A text occurs in a text that holds it between two others.
pub proof fn lemma_contains_between(a: Seq<char>, t: Seq<char>, b: Seq<char>)
    ensures
        contains_seq(a + t + b, t),
{
    assert(a + t + b == a + t + b);
}

/// What occurs in the middle part occurs in the whole.
pub proof fn lemma_contains_within(a: Seq<char>, m: Seq<char>, b: Seq<char>, t: Seq<char>)
    requires
        contains_seq(m, t),
    ensures
        contains_seq(a + m + b, t),
{
    let (pre, post) = choose|pre: Seq<char>, post: Seq<char>| m == #[trigger] (pre + t + post);
    assert(a + m + b =~= (a + pre) + t + (post + b));
}

/// What occurs in a text occurs in it with more before it.
pub proof fn lemma_contains_after(a: Seq<char>, m: Seq<char>, t: Seq<char>)
    requires
        contains_seq(m, t),
    ensures
        contains_seq(a + m, t),
{
    let (pre, post) = choose|pre: Seq<char>, post: Seq<char>| m == #[trigger] (pre + t + post);
    assert(a + m =~= (a + pre) + t + post);
}

/// What occurs in a text occurs in it with more after it.
pub proof fn lemma_contains_before(m: Seq<char>, b: Seq<char>, t: Seq<char>)
    requires
        contains_seq(m, t),
    ensures
        contains_seq(m + b, t),
{
    let (pre, post) = choose|pre: Seq<char>, post: Seq<char>| m == #[trigger] (pre + t + post);
    assert(m + b =~= pre + t + (post + b));
}

} // verus!
