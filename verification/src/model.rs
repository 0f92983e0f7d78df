//! Values of the racetime.gg data model that the bot's decisions read, and the
//! durations that the server writes in Django's notation.
use vstd::prelude::*;
use vstd::string::*;

use crate::duration::UDuration;

verus! {

/// The status of a race room.
#[derive(Debug, Clone, Copy, PartialEq, Eq, Hash, Structural)]
pub enum RaceStatusValue {
    Open,
    Invitational,
    Pending,
    InProgress,
    Finished,
    Cancelled,
}

/// Whether a race in this status is still going on: it is neither finished nor cancelled.
pub open spec fn is_active(status: RaceStatusValue) -> bool {
    !(status is Finished || status is Cancelled)
}

/// Whether a race in this status should be handled (and, for a handled race,
/// whether handling should go on): it is neither finished nor cancelled.
pub fn race_is_active(status: RaceStatusValue) -> (r: bool)
    ensures
        r == is_active(status),
{
    !matches!(status, RaceStatusValue::Finished | RaceStatusValue::Cancelled)
}

/// Why a duration in Django's notation was refused.
#[derive(Debug, Clone, Copy, PartialEq, Eq, Structural)]
pub enum DurationError {
    /// The text does not have the form `P<d>DT<h>H<m>M<s>[.<f>]S`.
    Format,
    /// A number in it does not fit in a `u64`.
    Number,
    /// The duration it describes is too long: a product or a sum of its parts
    /// goes past the range.
    Overflow,
}

/// Whether `c` is an ASCII digit.
pub open spec fn is_digit(c: char) -> bool {
    '0' <= c && c <= '9'
}

/// Whether `s` holds a run of at least one digit from `from` up to `to`.
pub open spec fn digit_run(s: Seq<char>, from: int, to: int) -> bool {
    &&& 0 <= from < to <= s.len()
    &&& forall|k: int| from <= k < to ==> is_digit(#[trigger] s[k])
}

/// The number that a sequence of digits writes in decimal.
pub open spec fn digits_value(s: Seq<char>) -> nat
    decreases s.len(),
{
    if s.len() == 0 {
        0
    } else {
        digits_value(s.drop_last()) * 10 + (s.last() as nat - '0' as nat) as nat
    }
}

/// Whether `s` has the form `P<days>DT<hours>H<minutes>M<seconds>[.<fraction>]S`,
/// where each part is a run of digits: the days end before `d`, the hours
/// before `h`, the minutes before `m`, the seconds before `sec`, and the
/// fraction, where there is one, before `frac` (otherwise `frac == sec`).
pub open spec fn django_shape(s: Seq<char>, d: int, h: int, m: int, sec: int, frac: int) -> bool {
    &&& s.len() > 0 && s[0] == 'P'
    &&& digit_run(s, 1, d) && d + 1 < s.len() && s[d] == 'D' && s[d + 1] == 'T'
    &&& digit_run(s, d + 2, h) && h < s.len() && s[h] == 'H'
    &&& digit_run(s, h + 1, m) && m < s.len() && s[m] == 'M'
    &&& digit_run(s, m + 1, sec) && sec < s.len()
    &&& if frac == sec {
        s[sec] == 'S' && sec == s.len() - 1
    } else {
        s[sec] == '.' && digit_run(s, sec + 1, frac) && frac == s.len() - 1 && s[frac] == 'S'
    }
}

/// The largest `u64`.
pub open spec fn u64_max() -> nat {
    u64::MAX as nat
}

/// The length, in nanoseconds, of a duration of the given days, hours,
/// minutes, seconds and microseconds, as the parts are read and added in turn;
/// a part too large for a `u64` is a `Number` error, a product or sum past the
/// range of seconds an `Overflow`.
pub open spec fn django_total(days: nat, hours: nat, minutes: nat, seconds: nat, micros: nat) -> Result<nat, DurationError> {
    if days > u64_max() {
        Err(DurationError::Number)
    } else if days * 86400 > u64_max() {
        Err(DurationError::Overflow)
    } else if hours > u64_max() {
        Err(DurationError::Number)
    } else if hours * 3600 > u64_max() {
        Err(DurationError::Overflow)
    } else if days * 86400 + hours * 3600 > u64_max() {
        Err(DurationError::Overflow)
    } else if minutes > u64_max() {
        Err(DurationError::Number)
    } else if minutes * 60 > u64_max() {
        Err(DurationError::Overflow)
    } else if days * 86400 + hours * 3600 + minutes * 60 > u64_max() {
        Err(DurationError::Overflow)
    } else if seconds > u64_max() {
        Err(DurationError::Number)
    } else if days * 86400 + hours * 3600 + minutes * 60 + seconds > u64_max() {
        Err(DurationError::Overflow)
    } else if micros > u64_max() {
        Err(DurationError::Number)
    } else if days * 86400 + hours * 3600 + minutes * 60 + seconds + micros / 1_000_000 > u64_max() {
        Err(DurationError::Overflow)
    } else {
        Ok(((days * 86400 + hours * 3600 + minutes * 60 + seconds) * 1_000_000_000 + micros
            * 1000) as nat)
    }
}

/// The duration, in nanoseconds, that `s` describes in Django's notation, or
/// why it is refused. The fraction after the seconds counts microseconds.
pub open spec fn django_duration(s: Seq<char>) -> Result<nat, DurationError> {
    if exists|d: int, h: int, m: int, sec: int, frac: int| django_shape(s, d, h, m, sec, frac) {
        let (d, h, m, sec, frac) = choose|d: int, h: int, m: int, sec: int, frac: int|
            django_shape(s, d, h, m, sec, frac);
        django_total(
            digits_value(s.subrange(1, d)),
            digits_value(s.subrange(d + 2, h)),
            digits_value(s.subrange(h + 1, m)),
            digits_value(s.subrange(m + 1, sec)),
            if frac == sec {
                0
            } else {
                digits_value(s.subrange(sec + 1, frac))
            },
        )
    } else {
        Err(DurationError::Format)
    }
}

/// Where the run of digits that starts at `i` ends (at `i` itself where there is none).
pub open spec fn run_end(s: Seq<char>, i: int) -> int
    decreases s.len() - i,
{
    if 0 <= i < s.len() && is_digit(s[i]) {
        run_end(s, i + 1)
    } else {
        i
    }
}

/// Digits from `i` up to `j`, followed by a non-digit or the end, make the run
/// that starts at `i`.
proof fn lemma_run_end(s: Seq<char>, i: int, j: int)
    requires
        0 <= i <= j <= s.len(),
        forall|k: int| i <= k < j ==> is_digit(#[trigger] s[k]),
        j == s.len() || !is_digit(s[j]),
    ensures
        run_end(s, i) == j,
    decreases j - i,
{
    if i < j {
        lemma_run_end(s, i + 1, j);
    }
}

/// The parts of a duration's shape are the runs of digits at their places.
proof fn lemma_shape_runs(s: Seq<char>, d: int, h: int, m: int, sec: int, frac: int)
    requires
        django_shape(s, d, h, m, sec, frac),
    ensures
        d == run_end(s, 1),
        h == run_end(s, d + 2),
        m == run_end(s, h + 1),
        sec == run_end(s, m + 1),
        frac != sec ==> frac == run_end(s, sec + 1),
{
    lemma_run_end(s, 1, d);
    lemma_run_end(s, d + 2, h);
    lemma_run_end(s, h + 1, m);
    lemma_run_end(s, m + 1, sec);
    if frac != sec {
        lemma_run_end(s, sec + 1, frac);
    }
}

/// Two runs of digits that start at the same place and are each followed by a
/// non-digit (or the end) end at the same place.
proof fn lemma_run_end_unique(s: Seq<char>, from: int, to1: int, to2: int)
    requires
        digit_run(s, from, to1),
        digit_run(s, from, to2),
        to1 == s.len() || !is_digit(s[to1]),
        to2 == s.len() || !is_digit(s[to2]),
    ensures
        to1 == to2,
{
    if to1 < to2 {
        assert(is_digit(s[to1]));
    }
    if to2 < to1 {
        assert(is_digit(s[to2]));
    }
}

/// The shape of a duration in Django's notation fixes where its parts end.
proof fn lemma_shape_unique(
    s: Seq<char>,
    d: int,
    h: int,
    m: int,
    sec: int,
    frac: int,
    d2: int,
    h2: int,
    m2: int,
    sec2: int,
    frac2: int,
)
    requires
        django_shape(s, d, h, m, sec, frac),
        django_shape(s, d2, h2, m2, sec2, frac2),
    ensures
        d == d2 && h == h2 && m == m2 && sec == sec2 && frac == frac2,
{
    lemma_run_end_unique(s, 1, d, d2);
    lemma_run_end_unique(s, d + 2, h, h2);
    lemma_run_end_unique(s, h + 1, m, m2);
    lemma_run_end_unique(s, m + 1, sec, sec2);
    if frac != sec && frac2 != sec2 {
        lemma_run_end_unique(s, sec + 1, frac, frac2);
    }
}

/// Whether there is a digit at position `i` of `s`.
fn digit_at(s: &str, n: usize, i: usize) -> (r: bool)
    requires
        n == s@.len(),
    ensures
        r == (i < n && is_digit(s@[i as int])),
{
    if i < n {
        let c = s.get_char(i);
        '0' <= c && c <= '9'
    } else {
        false
    }
}

/// Where the run of digits that starts at `from` ends.
fn digits_end(s: &str, n: usize, from: usize) -> (r: usize)
    requires
        n == s@.len(),
        from <= n,
    ensures
        from <= r <= n,
        forall|k: int| from <= k < r ==> is_digit(#[trigger] s@[k]),
        r == n || !is_digit(s@[r as int]),
        r == run_end(s@, from as int),
{
    let mut i = from;
    while digit_at(s, n, i)
        invariant
            n == s@.len(),
            from <= i <= n,
            forall|k: int| from <= k < i ==> is_digit(#[trigger] s@[k]),
        decreases n - i,
    {
        i = i + 1;
    }
    proof {
        lemma_run_end(s@, from as int, i as int);
    }
    i
}

/// The number that the digits of `s` from `from` up to `to` write, or `None`
/// where it does not fit in a `u64`.
fn digits_u64(s: &str, from: usize, to: usize) -> (r: Option<u64>)
    requires
        from <= to <= s@.len(),
        forall|k: int| from <= k < to ==> is_digit(#[trigger] s@[k]),
    ensures
        match r {
            Some(v) => v as nat == digits_value(s@.subrange(from as int, to as int)),
            None => digits_value(s@.subrange(from as int, to as int)) > u64_max(),
        },
{
    let mut v: u64 = 0;
    let mut i = from;
    while i < to
        invariant
            from <= i <= to <= s@.len(),
            forall|k: int| from <= k < to ==> is_digit(#[trigger] s@[k]),
            v as nat == digits_value(s@.subrange(from as int, i as int)),
        decreases to - i,
    {
        let c = s.get_char(i);
        assert(is_digit(s@[i as int]));
        let digit = (c as u32 - '0' as u32) as u64;
        let ghost prefix = s@.subrange(from as int, i as int);
        let ghost next = s@.subrange(from as int, i + 1);
        assert(next.drop_last() =~= prefix);
        assert(next.last() == c);
        if v > (u64::MAX - digit) / 10 {
            proof {
                lemma_digits_value_monotone(s@.subrange(from as int, to as int), (i + 1 - from) as nat);
                assert(s@.subrange(from as int, to as int).subrange(0, (i + 1 - from) as int) =~= next);
                assert(v * 10 + digit > u64::MAX) by (nonlinear_arith)
                    requires
                        v > (u64::MAX - digit) / 10,
                        digit <= 9,
                ;
            }
            return None;
        }
        v = v * 10 + digit;
        i = i + 1;
    }
    Some(v)
}

/// A run of digits writes a number at least as large as any of its prefixes.
proof fn lemma_digits_value_monotone(s: Seq<char>, k: nat)
    requires
        k <= s.len(),
        forall|i: int| 0 <= i < s.len() ==> is_digit(#[trigger] s[i]),
    ensures
        digits_value(s.subrange(0, k as int)) <= digits_value(s),
    decreases s.len(),
{
    if k < s.len() {
        let t = s.drop_last();
        assert forall|i: int| 0 <= i < t.len() implies is_digit(#[trigger] t[i]) by {
            assert(t[i] == s[i]);
        }
        lemma_digits_value_monotone(t, k);
        assert(t.subrange(0, k as int) =~= s.subrange(0, k as int));
        assert(is_digit(s.last()));
        assert(digits_value(t) <= digits_value(t) * 10 + (s.last() as nat - '0' as nat) as nat)
            by (nonlinear_arith);
    } else {
        assert(s.subrange(0, k as int) =~= s);
    }
}

/// The character at position `i` of `s`, if there is one.
fn char_at(s: &str, n: usize, i: usize) -> (r: Option<char>)
    requires
        n == s@.len(),
    ensures
        i < n ==> r == Some(s@[i as int]),
        i >= n ==> r is None,
{
    if i < n {
        Some(s.get_char(i))
    } else {
        None
    }
}

/// Reads a duration written in Django's notation, `P<d>DT<h>H<m>M<s>[.<f>]S`
/// (the fraction counts microseconds).
pub fn parse_django_duration(s: &str) -> (r: Result<UDuration, DurationError>)
    ensures
        match r {
            Ok(v) => django_duration(s@) == Ok::<nat, DurationError>(v@),
            Err(e) => django_duration(s@) == Err::<nat, DurationError>(e),
        },
{
    let n = s.unicode_len();
    let ghost t = s@;
    if char_at(s, n, 0) != Some('P') {
        proof {
            assert forall|d: int, h: int, m: int, sec: int, frac: int|
                !django_shape(t, d, h, m, sec, frac) by {}
        }
        return Err(DurationError::Format);
    }
    let d = digits_end(s, n, 1);
    if d == 1 || char_at(s, n, d) != Some('D') || char_at(s, n, d + 1) != Some('T') {
        proof {
            assert forall|d2: int, h2: int, m2: int, sec2: int, frac2: int|
                !django_shape(t, d2, h2, m2, sec2, frac2) by {
                if django_shape(t, d2, h2, m2, sec2, frac2) {
                    lemma_shape_runs(t, d2, h2, m2, sec2, frac2);
                }
            }
        }
        return Err(DurationError::Format);
    }
    let h = digits_end(s, n, d + 2);
    if h == d + 2 || char_at(s, n, h) != Some('H') {
        proof {
            assert forall|d2: int, h2: int, m2: int, sec2: int, frac2: int|
                !django_shape(t, d2, h2, m2, sec2, frac2) by {
                if django_shape(t, d2, h2, m2, sec2, frac2) {
                    lemma_shape_runs(t, d2, h2, m2, sec2, frac2);
                }
            }
        }
        return Err(DurationError::Format);
    }
    let m = digits_end(s, n, h + 1);
    if m == h + 1 || char_at(s, n, m) != Some('M') {
        proof {
            assert forall|d2: int, h2: int, m2: int, sec2: int, frac2: int|
                !django_shape(t, d2, h2, m2, sec2, frac2) by {
                if django_shape(t, d2, h2, m2, sec2, frac2) {
                    lemma_shape_runs(t, d2, h2, m2, sec2, frac2);
                }
            }
        }
        return Err(DurationError::Format);
    }
    let sec = digits_end(s, n, m + 1);
    let after = char_at(s, n, sec);
    let frac = if sec > m + 1 && after == Some('S') && sec + 1 == n {
        sec
    } else if sec > m + 1 && after == Some('.') {
        let f = digits_end(s, n, sec + 1);
        if f > sec + 1 && char_at(s, n, f) == Some('S') && f + 1 == n {
            f
        } else {
            proof {
                assert forall|d2: int, h2: int, m2: int, sec2: int, frac2: int|
                    !django_shape(t, d2, h2, m2, sec2, frac2) by {
                    if django_shape(t, d2, h2, m2, sec2, frac2) {
                        lemma_shape_runs(t, d2, h2, m2, sec2, frac2);
                    }
                }
            }
            return Err(DurationError::Format);
        }
    } else {
        proof {
            assert forall|d2: int, h2: int, m2: int, sec2: int, frac2: int|
                !django_shape(t, d2, h2, m2, sec2, frac2) by {
                if django_shape(t, d2, h2, m2, sec2, frac2) {
                    lemma_shape_runs(t, d2, h2, m2, sec2, frac2);
                }
            }
        }
        return Err(DurationError::Format);
    };
    assert(django_shape(t, d as int, h as int, m as int, sec as int, frac as int));
    proof {
        let (d2, h2, m2, sec2, frac2) = choose|d2: int, h2: int, m2: int, sec2: int, frac2: int|
            django_shape(t, d2, h2, m2, sec2, frac2);
        lemma_shape_unique(t, d as int, h as int, m as int, sec as int, frac as int, d2, h2, m2, sec2, frac2);
    }
    total_duration(s, d, h, m, sec, frac)
}

/// The number written by the digits of `s` from `from` up to `to`, or the
/// refusal of a number too large for a `u64`.
fn read_number(s: &str, from: usize, to: usize) -> (r: Result<u64, DurationError>)
    requires
        digit_run(s@, from as int, to as int),
    ensures
        match r {
            Ok(v) => v as nat == digits_value(s@.subrange(from as int, to as int)),
            Err(e) => e == DurationError::Number && digits_value(s@.subrange(from as int, to as int))
                > u64_max(),
        },
{
    match digits_u64(s, from, to) {
        Some(v) => Ok(v),
        None => Err(DurationError::Number),
    }
}

/// Adds up the parts of a duration whose shape is known, in the order in which
/// they are read.
fn total_duration(s: &str, d: usize, h: usize, m: usize, sec: usize, frac: usize) -> (r: Result<UDuration, DurationError>)
    requires
        digit_run(s@, 1, d as int),
        digit_run(s@, d + 2, h as int),
        digit_run(s@, h + 1, m as int),
        digit_run(s@, m + 1, sec as int),
        frac != sec ==> digit_run(s@, sec + 1, frac as int),
    ensures
        ({
            let total = django_total(
                digits_value(s@.subrange(1, d as int)),
                digits_value(s@.subrange(d + 2, h as int)),
                digits_value(s@.subrange(h + 1, m as int)),
                digits_value(s@.subrange(m + 1, sec as int)),
                if frac == sec {
                    0
                } else {
                    digits_value(s@.subrange(sec + 1, frac as int))
                },
            );
            match r {
                Ok(v) => total == Ok::<nat, DurationError>(v@),
                Err(e) => total == Err::<nat, DurationError>(e),
            }
        }),
{
    let max = u64::MAX;
    let days = read_number(s, 1, d)?;
    if days > max / 86400 {
        assert(days * 86400 > max) by (nonlinear_arith)
            requires
                days > max / 86400,
                max == u64::MAX,
        ;
        return Err(DurationError::Overflow);
    }
    assert(days * 86400 <= max) by (nonlinear_arith)
        requires
            days <= max / 86400,
            max == u64::MAX,
    ;
    let a = days * 86400;
    let hours = read_number(s, d + 2, h)?;
    if hours > max / 3600 {
        assert(hours * 3600 > max) by (nonlinear_arith)
            requires
                hours > max / 3600,
                max == u64::MAX,
        ;
        return Err(DurationError::Overflow);
    }
    assert(hours * 3600 <= max) by (nonlinear_arith)
        requires
            hours <= max / 3600,
            max == u64::MAX,
    ;
    let b = hours * 3600;
    if a > max - b {
        return Err(DurationError::Overflow);
    }
    let ab = a + b;
    let minutes = read_number(s, h + 1, m)?;
    if minutes > max / 60 {
        assert(minutes * 60 > max) by (nonlinear_arith)
            requires
                minutes > max / 60,
                max == u64::MAX,
        ;
        return Err(DurationError::Overflow);
    }
    assert(minutes * 60 <= max) by (nonlinear_arith)
        requires
            minutes <= max / 60,
            max == u64::MAX,
    ;
    let c = minutes * 60;
    if ab > max - c {
        return Err(DurationError::Overflow);
    }
    let abc = ab + c;
    let seconds = read_number(s, m + 1, sec)?;
    if abc > max - seconds {
        return Err(DurationError::Overflow);
    }
    let whole = abc + seconds;
    let micros = if frac == sec {
        0
    } else {
        read_number(s, sec + 1, frac)?
    };
    if whole > max - micros / 1_000_000 {
        return Err(DurationError::Overflow);
    }
    let r = UDuration::new(whole + micros / 1_000_000, ((micros % 1_000_000) * 1000) as u32);
    assert((whole + micros / 1_000_000) * 1_000_000_000 + (micros % 1_000_000) * 1000 == whole
        * 1_000_000_000 + micros * 1000) by (nonlinear_arith);
    Ok(r)
}

/// Reads a duration that may be absent: an absent one stays absent, a present
/// one is read as by [`parse_django_duration`].
pub fn parse_optional_django_duration(s: Option<&str>) -> (r: Result<Option<UDuration>, DurationError>)
    ensures
        match s {
            None => r == Ok::<Option<UDuration>, DurationError>(None),
            Some(t) => match r {
                Ok(Some(v)) => django_duration(t@) == Ok::<nat, DurationError>(v@),
                Ok(None) => false,
                Err(e) => django_duration(t@) == Err::<nat, DurationError>(e),
            },
        },
{
    match s {
        None => Ok(None),
        Some(t) => match parse_django_duration(t) {
            Ok(v) => Ok(Some(v)),
            Err(e) => Err(e),
        },
    }
}

} // verus!
