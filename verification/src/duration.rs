//! The duration grammar: `"<h>h <m>m"`, both fields optional but not both
//! absent, anchored to the whole text.
//!
//! The shape of a duration text is fixed first: an optional hour field —
//! everything before the first `'h'` — then spaces, then an optional
//! minute field — the rest, which must end in `'m'`. A text that fits no
//! such shape is an invalid format. The content of each present field must
//! then be a non-empty run of decimal digits whose value fits the machine
//! range; the hour field is checked before the minute field, and a text in
//! which neither field is present is an empty duration. The first failure
//! wins.

use vstd::prelude::*;

verus! {

/// A parsed work-time duration, kept as the hour and minute counts the
/// text named. Its total is `hours * 60 + minutes` minutes.
#[derive(Clone, Copy, PartialEq, Eq, Structural, Debug)]
pub struct Duration {
    pub hours: i64,
    pub minutes: i64,
}

impl Duration {
    /// The duration in minutes, as a mathematical integer.
    pub open spec fn as_minutes(self) -> int {
        self.hours * 60 + self.minutes
    }

    /// The duration in minutes, when it fits the machine range.
    pub fn checked_minutes(&self) -> (r: Option<i64>)
        ensures
            r matches Some(v) ==> v == self.as_minutes(),
            0 <= self.hours && 0 <= self.minutes ==> (r is None <==> self.as_minutes()
                > i64::MAX),
    {
        match self.hours.checked_mul(60) {
            Some(h) => h.checked_add(self.minutes),
            None => None,
        }
    }
}

/// Why a duration text was rejected, in the order the failures are
/// looked for: the text fits no shape of the grammar; a present hour or
/// minute field does not hold a machine-range number; no field is present
/// at all.
#[derive(Clone, Copy, PartialEq, Eq, Structural, Debug)]
pub enum DurationParseError {
    InvalidFormat,
    InvalidHourNumber,
    InvalidMinuteNumber,
    EmptyDuration,
}

/// The value of a decimal digit, or a negative sentinel for any other
/// character.
pub open spec fn digit_value(c: char) -> int {
    if c == '0' {
        0
    } else if c == '1' {
        1
    } else if c == '2' {
        2
    } else if c == '3' {
        3
    } else if c == '4' {
        4
    } else if c == '5' {
        5
    } else if c == '6' {
        6
    } else if c == '7' {
        7
    } else if c == '8' {
        8
    } else if c == '9' {
        9
    } else {
        -1
    }
}

pub open spec fn is_digit(c: char) -> bool {
    digit_value(c) >= 0
}

pub open spec fn all_digits(s: Seq<char>) -> bool {
    forall|i: int| 0 <= i < s.len() ==> is_digit(#[trigger] s[i])
}

/// The number a run of decimal digits denotes, most significant first.
pub open spec fn digits_value(s: Seq<char>) -> int
    decreases s.len(),
{
    if s.len() == 0 {
        0
    } else {
        10 * digits_value(s.drop_last()) + digit_value(s.last())
    }
}

/// A field's content parses as a number when it is a non-empty digit run
/// whose value fits an `i64`.
pub open spec fn spec_parse_number(s: Seq<char>) -> Option<i64> {
    if s.len() > 0 && all_digits(s) && digits_value(s) <= i64::MAX {
        Some(digits_value(s) as i64)
    } else {
        None
    }
}

/// The first position at or after `i` holding `c`, or `-1`.
pub open spec fn find_from(s: Seq<char>, i: int, c: char) -> int
    decreases s.len() - i,
{
    if i < 0 || i >= s.len() {
        -1
    } else if s[i] == c {
        i
    } else {
        find_from(s, i + 1, c)
    }
}

/// The first position at or after `i` holding something other than a
/// space.
pub open spec fn skip_spaces(s: Seq<char>, i: int) -> int
    decreases s.len() - i,
{
    if 0 <= i < s.len() && s[i] == ' ' {
        skip_spaces(s, i + 1)
    } else {
        i
    }
}

/// The whole duration grammar: shape first (hour field up to the first
/// `'h'`, then spaces, then a minute field ending in `'m'`), then the hour
/// number, then the minute number, then presence of at least one field.
pub open spec fn spec_parse_duration(s: Seq<char>) -> Result<Duration, DurationParseError> {
    let n = s.len() as int;
    let h = find_from(s, 0, 'h');
    let rest = if h >= 0 {
        h + 1
    } else {
        0
    };
    let j = skip_spaces(s, rest);
    if j < n && s[n - 1] != 'm' {
        Err(DurationParseError::InvalidFormat)
    } else if h < 0 && j == n {
        Err(DurationParseError::EmptyDuration)
    } else {
        let hours_opt = if h >= 0 {
            spec_parse_number(s.subrange(0, h))
        } else {
            Some(0i64)
        };
        let minutes_opt = if j < n {
            spec_parse_number(s.subrange(j, n - 1))
        } else {
            Some(0i64)
        };
        match (hours_opt, minutes_opt) {
            (None, _) => Err(DurationParseError::InvalidHourNumber),
            (_, None) => Err(DurationParseError::InvalidMinuteNumber),
            (Some(hv), Some(mv)) => Ok(Duration { hours: hv, minutes: mv }),
        }
    }
}

/// The value of a digit run is never negative.
proof fn lemma_digits_value_nonneg(s: Seq<char>)
    requires
        all_digits(s),
    ensures
        digits_value(s) >= 0,
    decreases s.len(),
{
    if s.len() > 0 {
        assert forall|i: int| 0 <= i < s.drop_last().len() implies is_digit(
            #[trigger] s.drop_last()[i],
        ) by {
            assert(s.drop_last()[i] == s[i]);
        }
        lemma_digits_value_nonneg(s.drop_last());
    }
}

/// Extending a digit run can only grow its value.
proof fn lemma_digits_value_prefix(s: Seq<char>, k: int)
    requires
        all_digits(s),
        0 <= k <= s.len(),
    ensures
        digits_value(s.subrange(0, k)) <= digits_value(s),
    decreases s.len() - k,
{
    if k == s.len() {
        assert(s.subrange(0, k) =~= s);
    } else {
        let p = s.subrange(0, k);
        let q = s.subrange(0, k + 1);
        assert(q.drop_last() =~= p);
        assert forall|i: int| 0 <= i < p.len() implies is_digit(#[trigger] p[i]) by {
            assert(p[i] == s[i]);
        }
        lemma_digits_value_nonneg(p);
        assert(digits_value(q) == 10 * digits_value(p) + digit_value(s[k]));
        lemma_digits_value_prefix(s, k + 1);
    }
}

/// The value of a decimal digit character, or nothing.
fn char_digit(c: char) -> (r: Option<i64>)
    ensures
        r matches Some(v) ==> v == digit_value(c) && 0 <= v <= 9,
        r is None ==> !is_digit(c),
{
    if c == '0' {
        Some(0)
    } else if c == '1' {
        Some(1)
    } else if c == '2' {
        Some(2)
    } else if c == '3' {
        Some(3)
    } else if c == '4' {
        Some(4)
    } else if c == '5' {
        Some(5)
    } else if c == '6' {
        Some(6)
    } else if c == '7' {
        Some(7)
    } else if c == '8' {
        Some(8)
    } else if c == '9' {
        Some(9)
    } else {
        None
    }
}

/// Parses the digit run `s[from..to]` as a number.
fn parse_number(s: &str, from: usize, to: usize) -> (r: Option<i64>)
    requires
        from <= to <= s@.len(),
    ensures
        r == spec_parse_number(s@.subrange(from as int, to as int)),
        r matches Some(v) ==> v >= 0,
{
    let ghost whole = s@.subrange(from as int, to as int);
    if from == to {
        assert(whole.len() == 0);
        return None;
    }
    let mut acc: i64 = 0;
    let mut i: usize = from;
    while i < to
        invariant
            from <= i <= to <= s@.len(),
            whole == s@.subrange(from as int, to as int),
            all_digits(s@.subrange(from as int, i as int)),
            0 <= acc,
            acc == digits_value(s@.subrange(from as int, i as int)),
        decreases to - i,
    {
        let c = s.get_char(i);
        let ghost pre = s@.subrange(from as int, i as int);
        let ghost cur = s@.subrange(from as int, i as int + 1);
        proof {
            assert(cur.drop_last() =~= pre);
            assert(cur.last() == s@[i as int]);
        }
        match char_digit(c) {
            None => {
                proof {
                    assert(whole[i - from] == s@[i as int]);
                    assert(!all_digits(whole));
                }
                return None;
            },
            Some(d) => {
                proof {
                    assert(digits_value(cur) == 10 * acc + d);
                }
                let next = match acc.checked_mul(10) {
                    Some(p) => p.checked_add(d),
                    None => None,
                };
                match next {
                    None => {
                        proof {
                            if all_digits(whole) {
                                lemma_digits_value_prefix(whole, i + 1 - from as int);
                                assert(whole.subrange(0, i + 1 - from as int) =~= cur);
                            }
                        }
                        return None;
                    },
                    Some(v) => {
                        proof {
                            assert forall|k: int| 0 <= k < cur.len() implies is_digit(
                                #[trigger] cur[k],
                            ) by {
                                if k < cur.len() - 1 {
                                    assert(cur[k] == pre[k]);
                                }
                            }
                        }
                        acc = v;
                    },
                }
            },
        }
        i = i + 1;
    }
    proof {
        assert(s@.subrange(from as int, i as int) =~= whole);
    }
    Some(acc)
}

/// The position of the first `'h'` of `s`, if any.
fn find_h_index(s: &str, n: usize) -> (r: Option<usize>)
    requires
        n == s@.len(),
    ensures
        match r {
            Some(k) => k < n && find_from(s@, 0, 'h') == k,
            None => find_from(s@, 0, 'h') == -1,
        },
{
    let mut i: usize = 0;
    while i < n
        invariant
            0 <= i <= n,
            n == s@.len(),
            find_from(s@, 0, 'h') == find_from(s@, i as int, 'h'),
        decreases n - i,
    {
        if s.get_char(i) == 'h' {
            assert(find_from(s@, i as int, 'h') == i);
            return Some(i);
        }
        assert(find_from(s@, i as int, 'h') == find_from(s@, i as int + 1, 'h'));
        i = i + 1;
    }
    None
}

/// The position of the first non-space at or after `from`.
fn skip_spaces_from(s: &str, from: usize, n: usize) -> (r: usize)
    requires
        n == s@.len(),
        from <= n,
    ensures
        from <= r <= n,
        r == skip_spaces(s@, from as int),
{
    let mut i: usize = from;
    while i < n && s.get_char(i) == ' '
        invariant
            from <= i <= n,
            n == s@.len(),
            skip_spaces(s@, from as int) == skip_spaces(s@, i as int),
        decreases n - i,
    {
        assert(skip_spaces(s@, i as int) == skip_spaces(s@, i as int + 1));
        i = i + 1;
    }
    i
}

/// Parses a duration text such as `"8h 48m"`, `"2h"` or `"30m"`.
///
/// The result is exactly what the grammar assigns to the text: the hour
/// and minute counts it names, a zero duration like `"0h 0m"` included —
/// distinguished from the empty-duration failure, where no field is
/// present at all.
pub fn parse_duration(input: &str) -> (r: Result<Duration, DurationParseError>)
    ensures
        r == spec_parse_duration(input@),
        r matches Ok(d) ==> 0 <= d.hours && 0 <= d.minutes,
{
    let n = input.unicode_len();
    let h_idx = find_h_index(input, n);
    let rest: usize = match h_idx {
        Some(k) => k + 1,
        None => 0,
    };
    let j = skip_spaces_from(input, rest, n);
    if j < n && input.get_char(n - 1) != 'm' {
        return Err(DurationParseError::InvalidFormat);
    }
    if h_idx.is_none() && j == n {
        return Err(DurationParseError::EmptyDuration);
    }
    let hours: i64 = match h_idx {
        Some(k) => match parse_number(input, 0, k) {
            Some(v) => v,
            None => {
                return Err(DurationParseError::InvalidHourNumber);
            },
        },
        None => 0,
    };
    let minutes: i64 = if j < n {
        match parse_number(input, j, n - 1) {
            Some(v) => v,
            None => {
                return Err(DurationParseError::InvalidMinuteNumber);
            },
        }
    } else {
        0
    };
    Ok(Duration { hours, minutes })
}

} // verus!
