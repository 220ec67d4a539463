//! Parsing a clock reading of the form `HH:MM:SS` into minutes since
//! midnight, and turning that reading into the firmware's operational
//! window: how long to wait before the window opens and how long it then
//! stays open.

use vstd::prelude::*;

use crate::search::find_char_at;
use crate::search::find_char_spec;

verus! {

/// Whether `c` is an ASCII decimal digit.
pub open spec fn is_digit(c: char) -> bool {
    48 <= c as u32 <= 57
}

/// Every character of `s` is an ASCII decimal digit.
pub open spec fn all_digits(s: Seq<char>) -> bool {
    forall|i: int| 0 <= i < s.len() ==> is_digit(#[trigger] s[i])
}

/// The number a digit string denotes, most significant digit first.
pub open spec fn digits_value(s: Seq<char>) -> int
    decreases s.len(),
{
    if s.len() == 0 {
        0
    } else {
        digits_value(s.drop_last()) * 10 + (s.last() as u32 - 48)
    }
}

/// What `str::parse::<u32>` returns for `s`: an optional leading plus
/// sign, then at least one digit, and a value that fits in thirty-two
/// bits.
pub open spec fn parse_u32_spec(s: Seq<char>) -> Option<u32> {
    let digits = if s.len() >= 1 && s[0] == '+' {
        s.subrange(1, s.len() as int)
    } else {
        s
    };
    if digits.len() >= 1 && all_digits(digits) && digits_value(digits) <= u32::MAX {
        Some(digits_value(digits) as u32)
    } else {
        None
    }
}

/// What [`parse_time_to_minutes`] returns: the text must consist of
/// exactly three colon-separated fields; the first two must parse as a
/// valid hour and minute; the seconds field is not inspected.
pub open spec fn time_to_minutes_spec(s: Seq<char>) -> Option<u32> {
    match find_char_spec(s, ':', 0) {
        Option::None => Option::None,
        Option::Some(c1) => match find_char_spec(s, ':', c1 + 1) {
            Option::None => Option::None,
            Option::Some(c2) => if find_char_spec(s, ':', c2 + 1) is Some {
                Option::None
            } else {
                match (parse_u32_spec(s.subrange(0, c1)), parse_u32_spec(s.subrange(c1 + 1, c2))) {
                    (Option::Some(hours), Option::Some(minutes)) => if hours > 23 || minutes > 59 {
                        Option::None
                    } else {
                        Option::Some((hours * 60 + minutes) as u32)
                    },
                    _ => Option::None,
                }
            },
        },
    }
}

/// A longer digit prefix never denotes a smaller number.
proof fn lemma_digits_value_grows(s: Seq<char>, i: int, j: int)
    requires
        all_digits(s),
        0 <= i <= j <= s.len(),
    ensures
        digits_value(s.subrange(0, i)) <= digits_value(s.subrange(0, j)),
    decreases j - i,
{
    if i < j {
        lemma_digits_value_grows(s, i, j - 1);
        assert(s.subrange(0, j).drop_last() =~= s.subrange(0, j - 1));
        assert(digits_value(s.subrange(0, j - 1)) >= 0) by {
            lemma_digits_value_nonneg(s.subrange(0, j - 1));
        }
    }
}

/// A digit string denotes a non-negative number.
proof fn lemma_digits_value_nonneg(s: Seq<char>)
    requires
        all_digits(s),
    ensures
        digits_value(s) >= 0,
    decreases s.len(),
{
    if s.len() > 0 {
        assert(all_digits(s.drop_last()));
        lemma_digits_value_nonneg(s.drop_last());
    }
}

/// Parse the characters of `s` from `lo` (inclusive) to `hi` (exclusive)
/// as `str::parse::<u32>` would parse that field.
fn parse_u32_segment(s: &str, lo: usize, hi: usize) -> (value: Option<u32>)
    requires
        lo <= hi <= s@.len(),
    ensures
        value == parse_u32_spec(s@.subrange(lo as int, hi as int)),
{
    let ghost seg = s@.subrange(lo as int, hi as int);
    let mut start = lo;
    if lo < hi && s.get_char(lo) == '+' {
        start = lo + 1;
    }
    let ghost digits = if start > lo {
        seg.subrange(1, seg.len() as int)
    } else {
        seg
    };
    proof {
        assert(seg.len() == hi - lo);
        assert((start > lo) == (seg.len() >= 1 && seg[0] == '+'));
        assert(forall|j: int| 0 <= j < digits.len() ==> #[trigger] digits[j] == s@[start + j]);
        assert(digits.len() == hi - start);
    }
    if start == hi {
        return None;
    }

    let mut acc: u32 = 0;
    let mut i = start;
    while i < hi
        invariant
            lo <= start <= i <= hi <= s@.len(),
            start < hi,
            seg == s@.subrange(lo as int, hi as int),
            digits.len() == hi - start,
            forall|j: int| 0 <= j < digits.len() ==> #[trigger] digits[j] == s@[start + j],
            digits == (if seg.len() >= 1 && seg[0] == '+' {
                seg.subrange(1, seg.len() as int)
            } else {
                seg
            }),
            all_digits(digits.subrange(0, i - start)),
            acc == digits_value(digits.subrange(0, i - start)),
        decreases hi - i,
    {
        let c = s.get_char(i);
        let code = c as u32;
        let ghost done = digits.subrange(0, i - start);
        let ghost next = digits.subrange(0, i + 1 - start);
        proof {
            assert(next.drop_last() =~= done);
            assert(next.last() == s@[i as int]);
        }
        if code < 48 || code > 57 {
            proof {
                assert(!is_digit(digits[i - start]));
            }
            return None;
        }
        let d = code - 48;
        if acc > (u32::MAX - d) / 10 {
            proof {
                assert(acc * 10 + d > u32::MAX) by (nonlinear_arith)
                    requires
                        acc > (u32::MAX - d) / 10,
                        d <= 9,
                ;
                assert(all_digits(next));
                assert(digits_value(next) > u32::MAX);
                if all_digits(digits) {
                    lemma_digits_value_grows(digits, i + 1 - start, digits.len() as int);
                    assert(digits.subrange(0, digits.len() as int) =~= digits);
                }
            }
            return None;
        }
        proof {
            assert(acc * 10 + d <= u32::MAX) by (nonlinear_arith)
                requires
                    acc <= (u32::MAX - d) / 10,
                    d <= 9,
            ;
        }
        acc = acc * 10 + d;
        i = i + 1;
    }
    proof {
        assert(digits.subrange(0, hi - start) =~= digits);
    }
    Some(acc)
}

/// Parse a time string in `HH:MM:SS` form into minutes since midnight.
pub fn parse_time_to_minutes(time_str: &str) -> (minutes: Option<u32>)
    ensures
        minutes == time_to_minutes_spec(time_str@),
{
    let c1 = match find_char_at(time_str, ':', 0) {
        Some(p) => p,
        None => {
            return None;
        },
    };
    let c2 = match find_char_at(time_str, ':', c1 + 1) {
        Some(p) => p,
        None => {
            return None;
        },
    };
    if let Some(_third) = find_char_at(time_str, ':', c2 + 1) {
        return None;
    }

    let hours = match parse_u32_segment(time_str, 0, c1) {
        Some(h) => h,
        None => {
            return None;
        },
    };
    let minutes = match parse_u32_segment(time_str, c1 + 1, c2) {
        Some(m) => m,
        None => {
            return None;
        },
    };
    if hours > 23 || minutes > 59 {
        return None;
    }
    Some(hours * 60 + minutes)
}

/// The operational window derived from the clock reading at start-up, as
/// `(seconds to wait before the window opens, minutes it stays open)`.
/// The day's window runs from 09:30 (minute 570) to 23:00 plus half an
/// hour of grace (minute 1380); an unknown reading opens a default
/// window at once.
pub fn operational_window(initial_minutes: Option<u32>) -> (window: (u32, u32))
    requires
        initial_minutes is Some ==> initial_minutes->Some_0 <= 1439,
    ensures
        match initial_minutes {
            Option::Some(m) => window == if m < 570 {
                (((570 - m) * 60) as u32, 810u32)
            } else if m <= 1380 {
                (0u32, (1380 - m) as u32)
            } else {
                (((1440 - m + 570) * 60) as u32, 810u32)
            },
            Option::None => window == (0u32, 810u32),
        },
{
    match initial_minutes {
        Some(m) => {
            if m < 570 {
                ((570 - m) * 60, 810)
            } else if m <= 1380 {
                (0, 1380 - m)
            } else {
                ((1440 - m + 570) * 60, 810)
            }
        },
        None => (0, 810),
    }
}

} // verus!
