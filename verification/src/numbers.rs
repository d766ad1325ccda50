//! Decimal integer parsing with the rules of `str::parse` for integers: an optional
//! sign (`+`, and `-` for signed types), then at least one ASCII digit, within range.
use vstd::prelude::*;

use crate::text::{chars_of, is_ascii_digit, is_digit};

verus! {

/// Whether every character is an ASCII digit.
pub open spec fn all_digits(s: Seq<char>) -> bool {
    forall|i: int| 0 <= i < s.len() ==> is_ascii_digit(#[trigger] s[i])
}

pub open spec fn digit_value(c: char) -> nat {
    (c as u32 - '0' as u32) as nat
}

/// The value of a string of decimal digits.
pub open spec fn digits_value(s: Seq<char>) -> nat
    decreases s.len(),
{
    if s.len() == 0 {
        0
    } else {
        digits_value(s.drop_last()) * 10 + digit_value(s.last())
    }
}

/// The digits after an optional leading `+`.
pub open spec fn unsigned_body(s: Seq<char>) -> Seq<char> {
    if s.len() > 0 && s[0] == '+' {
        s.skip(1)
    } else {
        s
    }
}

/// The value of an unsigned decimal number, before the range check.
pub open spec fn parse_nat_spec(s: Seq<char>) -> Option<nat> {
    let d = unsigned_body(s);
    if d.len() > 0 && all_digits(d) {
        Some(digits_value(d))
    } else {
        None
    }
}

/// The value of a signed decimal number, before the range check.
pub open spec fn parse_int_spec(s: Seq<char>) -> Option<int> {
    if s.len() > 0 && s[0] == '-' {
        let d = s.skip(1);
        if d.len() > 0 && all_digits(d) {
            Some(-(digits_value(d) as int))
        } else {
            None
        }
    } else {
        match parse_nat_spec(s) {
            Some(n) => Some(n as int),
            None => None,
        }
    }
}

/// `str::parse::<u64>`.
pub open spec fn parse_u64_spec(s: Seq<char>) -> Option<u64> {
    match parse_nat_spec(s) {
        Some(n) => if n <= u64::MAX {
            Some(n as u64)
        } else {
            None
        },
        None => None,
    }
}

/// `str::parse::<u32>`.
pub open spec fn parse_u32_spec(s: Seq<char>) -> Option<u32> {
    match parse_nat_spec(s) {
        Some(n) => if n <= u32::MAX {
            Some(n as u32)
        } else {
            None
        },
        None => None,
    }
}

/// `str::parse::<u8>`.
pub open spec fn parse_u8_spec(s: Seq<char>) -> Option<u8> {
    match parse_nat_spec(s) {
        Some(n) => if n <= u8::MAX {
            Some(n as u8)
        } else {
            None
        },
        None => None,
    }
}

/// `str::parse::<i64>`.
pub open spec fn parse_i64_spec(s: Seq<char>) -> Option<i64> {
    match parse_int_spec(s) {
        Some(n) => if i64::MIN <= n <= i64::MAX {
            Some(n as i64)
        } else {
            None
        },
        None => None,
    }
}

/// `str::parse::<i32>`.
pub open spec fn parse_i32_spec(s: Seq<char>) -> Option<i32> {
    match parse_int_spec(s) {
        Some(n) => if i32::MIN <= n <= i32::MAX {
            Some(n as i32)
        } else {
            None
        },
        None => None,
    }
}

proof fn lemma_digits_value_grows(s: Seq<char>, i: int)
    requires
        0 <= i <= s.len(),
    ensures
        digits_value(s.take(i)) <= digits_value(s),
    decreases s.len(),
{
    if i < s.len() {
        assert(s.drop_last().take(i) == s.take(i));
        lemma_digits_value_grows(s.drop_last(), i);
    } else {
        assert(s.take(i) == s);
    }
}

/// The value of the digits `chars[from..to]`, if they are all digits and the value is at
/// most `max`.
pub fn digits_at_most(chars: &Vec<char>, from: usize, to: usize, max: u64) -> (r: Option<u64>)
    requires
        from <= to <= chars@.len(),
    ensures
        ({
            let d = chars@.subrange(from as int, to as int);
            r == if all_digits(d) && digits_value(d) <= max {
                Some(digits_value(d) as u64)
            } else {
                None
            }
        }),
{
    let ghost d = chars@.subrange(from as int, to as int);
    let mut value: u64 = 0;
    let mut i = from;
    while i < to
        invariant
            from <= i <= to <= chars@.len(),
            d == chars@.subrange(from as int, to as int),
            all_digits(d.take(i - from)),
            value == digits_value(d.take(i - from)),
            value <= max,
        decreases to - i,
    {
        let c = chars[i];
        proof {
            assert(d[i - from] == c);
            assert(d.take(i - from + 1).drop_last() == d.take(i - from));
            assert(d.take(i - from + 1).last() == c);
        }
        if !is_digit(c) {
            proof {
                assert(!all_digits(d));
            }
            return None;
        }
        let dv = (c as u32 - '0' as u32) as u64;
        let next = match value.checked_mul(10) {
            Some(v) => v.checked_add(dv),
            None => None,
        };
        match next {
            Some(v) => {
                if v > max {
                    proof {
                        lemma_digits_value_grows(d, i - from + 1);
                    }
                    return None;
                }
                value = v;
            },
            None => {
                proof {
                    lemma_digits_value_grows(d, i - from + 1);
                }
                return None;
            },
        }
        proof {
            assert forall|k: int| 0 <= k < i - from + 1 implies is_ascii_digit(
                #[trigger] d.take(i - from + 1)[k],
            ) by {
                if k < i - from {
                    assert(d.take(i - from)[k] == d.take(i - from + 1)[k]);
                }
            }
        }
        i = i + 1;
    }
    proof {
        assert(d.take(to - from) == d);
    }
    Some(value)
}

/// The unsigned value written in `chars[from..to]`, if it is at most `max`.
pub fn parse_unsigned_at_most(chars: &Vec<char>, from: usize, to: usize, max: u64) -> (r: Option<
    u64,
>)
    requires
        from <= to <= chars@.len(),
    ensures
        r == match parse_nat_spec(chars@.subrange(from as int, to as int)) {
            Some(n) => if n <= max {
                Some(n as u64)
            } else {
                None
            },
            None => None,
        },
{
    let ghost s = chars@.subrange(from as int, to as int);
    let start = if from < to && chars[from] == '+' {
        from + 1
    } else {
        from
    };
    proof {
        assert(unsigned_body(s) == chars@.subrange(start as int, to as int));
    }
    if start == to {
        return None;
    }
    digits_at_most(chars, start, to, max)
}

/// The signed value written in `chars[from..to]`, if it lies in `[-neg_max, pos_max]`.
pub fn parse_signed_within(
    chars: &Vec<char>,
    from: usize,
    to: usize,
    neg_max: u64,
    pos_max: u64,
) -> (r: Option<(bool, u64)>)
    requires
        from <= to <= chars@.len(),
    ensures
        match parse_int_spec(chars@.subrange(from as int, to as int)) {
            Some(n) => if -(neg_max as int) <= n <= pos_max {
                r matches Some((negative, m)) && (if negative {
                    n == -(m as int) && m > 0
                } else {
                    n == m
                })
            } else {
                r is None
            },
            None => r is None,
        },
{
    let ghost s = chars@.subrange(from as int, to as int);
    if from < to && chars[from] == '-' {
        proof {
            assert(s.skip(1) == chars@.subrange(from + 1, to as int));
        }
        if from + 1 == to {
            return None;
        }
        match digits_at_most(chars, from + 1, to, neg_max) {
            Some(m) => if m == 0 {
                Some((false, 0))
            } else {
                Some((true, m))
            },
            None => None,
        }
    } else {
        match parse_unsigned_at_most(chars, from, to, pos_max) {
            Some(m) => Some((false, m)),
            None => None,
        }
    }
}

/// `str::parse::<u64>`.
pub fn parse_u64(s: &str) -> (r: Option<u64>)
    ensures
        r == parse_u64_spec(s@),
{
    let chars = chars_of(s);
    proof {
        assert(chars@.subrange(0, chars@.len() as int) == s@);
    }
    parse_unsigned_at_most(&chars, 0, chars.len(), u64::MAX)
}

/// `str::parse::<u8>`.
pub fn parse_u8(s: &str) -> (r: Option<u8>)
    ensures
        r == parse_u8_spec(s@),
{
    let chars = chars_of(s);
    proof {
        assert(chars@.subrange(0, chars@.len() as int) == s@);
    }
    match parse_unsigned_at_most(&chars, 0, chars.len(), 255) {
        Some(v) => Some(v as u8),
        None => None,
    }
}

/// `str::parse::<u32>` on `chars[from..to]`.
pub fn parse_u32_in(chars: &Vec<char>, from: usize, to: usize) -> (r: Option<u32>)
    requires
        from <= to <= chars@.len(),
    ensures
        r == parse_u32_spec(chars@.subrange(from as int, to as int)),
{
    match parse_unsigned_at_most(chars, from, to, 0xffff_ffff) {
        Some(v) => Some(v as u32),
        None => None,
    }
}

/// `str::parse::<i64>` on `chars[from..to]`.
pub fn parse_i64_in(chars: &Vec<char>, from: usize, to: usize) -> (r: Option<i64>)
    requires
        from <= to <= chars@.len(),
    ensures
        r == parse_i64_spec(chars@.subrange(from as int, to as int)),
{
    match parse_signed_within(chars, from, to, 0x8000_0000_0000_0000, 0x7fff_ffff_ffff_ffff) {
        Some((negative, m)) => if negative {
            if m == 0x8000_0000_0000_0000 {
                Some(i64::MIN)
            } else {
                Some(-(m as i64))
            }
        } else {
            Some(m as i64)
        },
        None => None,
    }
}

/// `str::parse::<i32>` on `chars[from..to]`.
pub fn parse_i32_in(chars: &Vec<char>, from: usize, to: usize) -> (r: Option<i32>)
    requires
        from <= to <= chars@.len(),
    ensures
        r == parse_i32_spec(chars@.subrange(from as int, to as int)),
{
    match parse_signed_within(chars, from, to, 0x8000_0000, 0x7fff_ffff) {
        Some((negative, m)) => if negative {
            if m == 0x8000_0000 {
                Some(i32::MIN)
            } else {
                Some(-(m as i32))
            }
        } else {
            Some(m as i32)
        },
        None => None,
    }
}

} // verus!
