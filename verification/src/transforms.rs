//! Value transforms for extracted fields: normalizing relative date
//! phrases ("il y a 2 semaines", "3 days ago") to calendar dates, taking
//! the trailing segment of a colon-delimited id, and parsing absolute date
//! strings into the library's day-number date model.

use vstd::prelude::*;
use vstd::string::StrSliceExecFns;

use crate::calendar::{
    civil_day_number, civil_string, clamp_today, clamp_today_spec, day_number_from_ymd,
    day_number_to_string, today_day_number_raw, valid_ymd, DAY_NUMBER_MAX, DAY_NUMBER_MIN,
};
use crate::strutil::{
    contains_char, contains_seq, contains_sub, digits_val, extract_number, first_number_spec,
    is_digit_char, lower_of, lowercase, trim_spec, trim_str,
};

verus! {

/// The largest count of days, weeks or months a relative date phrase is
/// taken at; larger (or more negative) counts are clamped so the computed
/// date stays within the library's calendar range.
pub const RELATIVE_COUNT_MAX: i64 = 10_000;

/// A relative count forced into `[-RELATIVE_COUNT_MAX, RELATIVE_COUNT_MAX]`.
pub open spec fn clamp_count_spec(n: int) -> int {
    if n < -(RELATIVE_COUNT_MAX as int) {
        -(RELATIVE_COUNT_MAX as int)
    } else if n > RELATIVE_COUNT_MAX as int {
        RELATIVE_COUNT_MAX as int
    } else {
        n
    }
}

fn clamp_count(n: i64) -> (r: i64)
    ensures
        r as int == clamp_count_spec(n as int),
        -RELATIVE_COUNT_MAX <= r <= RELATIVE_COUNT_MAX,
{
    if n < -RELATIVE_COUNT_MAX {
        -RELATIVE_COUNT_MAX
    } else if n > RELATIVE_COUNT_MAX {
        RELATIVE_COUNT_MAX
    } else {
        n
    }
}

/// The day number a lowered relative date phrase denotes: the first number
/// in the text counts weeks, days or months (30 days) back from today,
/// depending on which unit word occurs; without a unit word the phrase
/// denotes today. Today and the count are clamped to the library's
/// calendar range.
pub open spec fn relative_days_spec(t: Seq<char>, today: int) -> int {
    let tc = clamp_today_spec(today);
    let n = clamp_count_spec(first_number_spec(t, 0));
    if contains_seq(t, "semaine"@) || contains_seq(t, "week"@) {
        tc - n * 7
    } else if contains_seq(t, "jour"@) || contains_seq(t, "day"@) {
        tc - n
    } else if contains_seq(t, "mois"@) || contains_seq(t, "month"@) {
        tc - n * 30
    } else {
        tc
    }
}

/// The calendar string a lowered relative date phrase denotes.
pub open spec fn relative_date_string_spec(t: Seq<char>, today: int) -> Seq<char> {
    civil_string(relative_days_spec(t, today))
}

/// The calendar string denoted by an already-lowercased relative date
/// phrase, counting back from the day number `today`.
pub fn relative_date_from_lowered(lowered: &str, today: i64) -> (r: String)
    ensures
        r@ == relative_date_string_spec(lowered@, today as int),
{
    let tc = clamp_today(today);
    let n = clamp_count(extract_number(lowered));
    let days: i64 = if contains_sub(lowered, "semaine") || contains_sub(lowered, "week") {
        tc - n * 7
    } else if contains_sub(lowered, "jour") || contains_sub(lowered, "day") {
        tc - n
    } else if contains_sub(lowered, "mois") || contains_sub(lowered, "month") {
        tc - n * 30
    } else {
        tc
    };
    assert(DAY_NUMBER_MIN <= days <= DAY_NUMBER_MAX);
    match day_number_to_string(days) {
        Some(s) => s,
        None => {
            // Unreachable: the clamped day number is always formattable.
            assert(false);
            String::new()
        },
    }
}

/// Normalizes a relative date phrase ("il y a 2 semaines", "3 days ago")
/// into the calendar date it denotes, counting back from the day number
/// `today`: the text is trimmed and lowercased first.
pub fn hellowork_date_on(text: &str, today: i64) -> (r: String)
    ensures
        r@ == relative_date_string_spec(lower_of(trim_spec(text@)), today as int),
{
    let trimmed = trim_str(text);
    let lowered = lowercase(trimmed.as_str());
    relative_date_from_lowered(lowered.as_str(), today)
}

/// Normalizes a relative date phrase against the system clock's current
/// date. The clock is outside the library, so the contract only fixes the
/// result for some observed day.
pub fn hellowork_date(text: &str) -> (r: String)
    ensures
        exists|d: int| r@ == relative_date_string_spec(lower_of(trim_spec(text@)), d),
{
    let today = today_day_number_raw();
    let r = hellowork_date_on(text, today);
    assert(r@ == relative_date_string_spec(lower_of(trim_spec(text@)), today as int));
    r
}

/// The index just after the last colon strictly before `j` (0 if there is
/// none).
pub open spec fn last_colon_end(s: Seq<char>, j: int) -> int
    recommends
        0 <= j <= s.len(),
    decreases j when 0 <= j <= s.len()
{
    if j <= 0 || s[j - 1] == ':' {
        j
    } else {
        last_colon_end(s, j - 1)
    }
}

/// The trailing segment of a colon-delimited string: what follows the
/// last colon, or the whole string when it has no colon.
pub open spec fn trailing_segment_spec(s: Seq<char>) -> Seq<char> {
    s.skip(last_colon_end(s, s.len() as int))
}

proof fn lemma_last_colon_end_bounds(s: Seq<char>, j: int)
    requires
        0 <= j <= s.len(),
    ensures
        0 <= last_colon_end(s, j) <= j,
    decreases j,
{
    if !(j <= 0 || s[j - 1] == ':') {
        lemma_last_colon_end_bounds(s, j - 1);
    }
}

/// Derives a canonical id from a composite colon-delimited attribute
/// string (such as an entity URN) by taking its trailing segment.
pub fn linkedin_id(text: &str) -> (r: String)
    ensures
        r@ == trailing_segment_spec(text@),
{
    let n = text.unicode_len();
    let mut j = n;
    while j > 0 && text.get_char(j - 1) != ':'
        invariant
            0 <= j <= n,
            n == text@.len(),
            last_colon_end(text@, n as int) == last_colon_end(text@, j as int),
        decreases j,
    {
        j = j - 1;
    }
    assert(last_colon_end(text@, j as int) == j as int);
    text.substring_char(j, n).to_owned()
}

/// Whether `t` is shaped like a calendar date `YYYY-MM-DD`.
pub open spec fn date_shape(t: Seq<char>) -> bool {
    t.len() == 10 && t[4] == '-' && t[7] == '-' && is_digit_char(t[0]) && is_digit_char(t[1])
        && is_digit_char(t[2]) && is_digit_char(t[3]) && is_digit_char(t[5]) && is_digit_char(
        t[6],
    ) && is_digit_char(t[8]) && is_digit_char(t[9])
}

/// Whether `t` is shaped like a UTC timestamp `YYYY-MM-DDTHH:MM:SSZ` with
/// fields in range (seconds may reach 60 for a leap second).
pub open spec fn datetime_shape(t: Seq<char>) -> bool {
    t.len() == 20 && t[4] == '-' && t[7] == '-' && t[10] == 'T' && t[13] == ':' && t[16] == ':'
        && t[19] == 'Z' && is_digit_char(t[0]) && is_digit_char(t[1]) && is_digit_char(t[2])
        && is_digit_char(t[3]) && is_digit_char(t[5]) && is_digit_char(t[6]) && is_digit_char(
        t[8],
    ) && is_digit_char(t[9]) && is_digit_char(t[11]) && is_digit_char(t[12]) && is_digit_char(
        t[14],
    ) && is_digit_char(t[15]) && is_digit_char(t[17]) && is_digit_char(t[18]) && digits_val(
        t.subrange(11, 13),
    ) <= 23 && digits_val(t.subrange(14, 16)) <= 59 && digits_val(t.subrange(17, 19)) <= 60
}

/// The year, month and day digits of a date-shaped string.
pub open spec fn shape_year(t: Seq<char>) -> int {
    digits_val(t.subrange(0, 4))
}

/// The month digits of a date-shaped string.
pub open spec fn shape_month(t: Seq<char>) -> int {
    digits_val(t.subrange(5, 7))
}

/// The day digits of a date-shaped string.
pub open spec fn shape_day(t: Seq<char>) -> int {
    digits_val(t.subrange(8, 10))
}

/// The day number an absolute date string denotes: a `YYYY-MM-DD` date, or
/// the date part of a `YYYY-MM-DDTHH:MM:SSZ` timestamp when the text
/// contains a `T`; anything else falls back to (clamped) today.
pub open spec fn parse_date_spec(t: Seq<char>, today: int) -> int {
    let fallback = clamp_today_spec(today);
    if t.contains('T') {
        if datetime_shape(t) && valid_ymd(shape_year(t), shape_month(t), shape_day(t)) {
            civil_day_number(shape_year(t), shape_month(t), shape_day(t))
        } else {
            fallback
        }
    } else {
        if date_shape(t) && valid_ymd(shape_year(t), shape_month(t), shape_day(t)) {
            civil_day_number(shape_year(t), shape_month(t), shape_day(t))
        } else {
            fallback
        }
    }
}

fn digit_at(s: &str, i: usize) -> (r: Option<u32>)
    requires
        i < s@.len(),
    ensures
        match r {
            Some(v) => is_digit_char(s@[i as int]) && v as int == s@[i as int] as int - 48 && v
                <= 9,
            None => !is_digit_char(s@[i as int]),
        },
{
    let cv = s.get_char(i) as u32;
    if 48 <= cv && cv <= 57 {
        Some(cv - 48)
    } else {
        None
    }
}

proof fn lemma_digits_val2(t: Seq<char>, i: int)
    requires
        0 <= i,
        i + 2 <= t.len(),
    ensures
        digits_val(t.subrange(i, i + 2)) == (t[i] as int - 48) * 10 + (t[i + 1] as int - 48),
{
    let q2 = t.subrange(i, i + 2);
    let q1 = t.subrange(i, i + 1);
    let q0 = t.subrange(i, i);
    assert(q1.drop_last() =~= q0);
    assert(q2.drop_last() =~= q1);
    assert(digits_val(q0) == 0);
    assert(q1.last() == t[i]);
    assert(digits_val(q1) == t[i] as int - 48);
    assert(q2.last() == t[i + 1]);
}

proof fn lemma_digits_val4(t: Seq<char>, i: int)
    requires
        0 <= i,
        i + 4 <= t.len(),
    ensures
        digits_val(t.subrange(i, i + 4)) == (t[i] as int - 48) * 1000 + (t[i + 1] as int - 48)
            * 100 + (t[i + 2] as int - 48) * 10 + (t[i + 3] as int - 48),
{
    let q4 = t.subrange(i, i + 4);
    let q3 = t.subrange(i, i + 3);
    let q2 = t.subrange(i, i + 2);
    lemma_digits_val2(t, i);
    assert(q3.drop_last() =~= q2);
    assert(q4.drop_last() =~= q3);
    assert(q3.last() == t[i + 2]);
    assert(digits_val(q3) == digits_val(q2) * 10 + (t[i + 2] as int - 48));
    assert(q4.last() == t[i + 3]);
}

/// Parses an absolute date string into the day number it denotes, falling
/// back to (clamped) today for anything unparsable.
pub fn parse_date(text: &str, today: i64) -> (r: i64)
    ensures
        r as int == parse_date_spec(text@, today as int),
        DAY_NUMBER_MIN <= r <= DAY_NUMBER_MAX,
{
    let fallback = clamp_today(today);
    let n = text.unicode_len();
    if contains_char(text, 'T') {
        if n != 20 {
            return fallback;
        }
        if text.get_char(4) != '-' || text.get_char(7) != '-' || text.get_char(10) != 'T'
            || text.get_char(13) != ':' || text.get_char(16) != ':' || text.get_char(19) != 'Z' {
            return fallback;
        }
        let (y, m, d) = match read_ymd_digits(text) {
            Some(f) => f,
            None => {
                return fallback;
            },
        };
        let hh = match two_digits(text, 11) {
            Some(v) => v,
            None => {
                return fallback;
            },
        };
        let mm = match two_digits(text, 14) {
            Some(v) => v,
            None => {
                return fallback;
            },
        };
        let ss = match two_digits(text, 17) {
            Some(v) => v,
            None => {
                return fallback;
            },
        };
        if hh > 23 || mm > 59 || ss > 60 {
            return fallback;
        }
        assert(datetime_shape(text@));
        match day_number_from_ymd(y as i32, m, d) {
            Some(v) => v,
            None => fallback,
        }
    } else {
        if n != 10 {
            return fallback;
        }
        if text.get_char(4) != '-' || text.get_char(7) != '-' {
            return fallback;
        }
        let (y, m, d) = match read_ymd_digits(text) {
            Some(f) => f,
            None => {
                return fallback;
            },
        };
        assert(date_shape(text@));
        match day_number_from_ymd(y as i32, m, d) {
            Some(v) => v,
            None => fallback,
        }
    }
}

fn two_digits(s: &str, i: usize) -> (r: Option<u32>)
    requires
        i + 2 <= s@.len() <= usize::MAX,
    ensures
        match r {
            Some(v) => is_digit_char(s@[i as int]) && is_digit_char(s@[i + 1]) && v as int
                == digits_val(s@.subrange(i as int, i + 2)) && v <= 99,
            None => !(is_digit_char(s@[i as int]) && is_digit_char(s@[i + 1])),
        },
{
    let d0 = match digit_at(s, i) {
        Some(v) => v,
        None => {
            return None;
        },
    };
    let d1 = match digit_at(s, i + 1) {
        Some(v) => v,
        None => {
            return None;
        },
    };
    proof {
        lemma_digits_val2(s@, i as int);
    }
    Some(d0 * 10 + d1)
}

fn read_ymd_digits(s: &str) -> (r: Option<(u32, u32, u32)>)
    requires
        10 <= s@.len() <= usize::MAX,
    ensures
        match r {
            Some(f) => {
                &&& is_digit_char(s@[0]) && is_digit_char(s@[1]) && is_digit_char(s@[2])
                    && is_digit_char(s@[3]) && is_digit_char(s@[5]) && is_digit_char(s@[6])
                    && is_digit_char(s@[8]) && is_digit_char(s@[9])
                &&& f.0 as int == shape_year(s@) && f.0 <= 9999
                &&& f.1 as int == shape_month(s@) && f.1 <= 99
                &&& f.2 as int == shape_day(s@) && f.2 <= 99
            },
            None => !(is_digit_char(s@[0]) && is_digit_char(s@[1]) && is_digit_char(s@[2])
                && is_digit_char(s@[3]) && is_digit_char(s@[5]) && is_digit_char(s@[6])
                && is_digit_char(s@[8]) && is_digit_char(s@[9])),
        },
{
    let y0 = match digit_at(s, 0) {
        Some(v) => v,
        None => {
            return None;
        },
    };
    let y1 = match digit_at(s, 1) {
        Some(v) => v,
        None => {
            return None;
        },
    };
    let y2 = match digit_at(s, 2) {
        Some(v) => v,
        None => {
            return None;
        },
    };
    let y3 = match digit_at(s, 3) {
        Some(v) => v,
        None => {
            return None;
        },
    };
    let m = match two_digits(s, 5) {
        Some(v) => v,
        None => {
            return None;
        },
    };
    let d = match two_digits(s, 8) {
        Some(v) => v,
        None => {
            return None;
        },
    };
    proof {
        lemma_digits_val4(s@, 0);
    }
    Some((y0 * 1000 + y1 * 100 + y2 * 10 + y3, m, d))
}

} // verus!
