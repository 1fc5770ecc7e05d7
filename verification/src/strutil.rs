//! Verified string utilities: trimming, substring search, token parsing,
//! decimal formatting and character-level replacement, all specified over
//! `Seq<char>` views.

use vstd::prelude::*;
use vstd::string::{StrSliceExecFns, StringExecFns};

verus! {

/// The Unicode `White_Space` characters, the set `str::trim` strips.
pub open spec fn is_space_char(c: char) -> bool {
    c == ' ' || c == '\t' || c == '\n' || c == '\r' || c == '\u{000B}' || c == '\u{000C}'
        || c == '\u{0085}' || c == '\u{00A0}' || c == '\u{1680}' || c == '\u{2000}'
        || c == '\u{2001}' || c == '\u{2002}' || c == '\u{2003}' || c == '\u{2004}'
        || c == '\u{2005}' || c == '\u{2006}' || c == '\u{2007}' || c == '\u{2008}'
        || c == '\u{2009}' || c == '\u{200A}' || c == '\u{2028}' || c == '\u{2029}'
        || c == '\u{202F}' || c == '\u{205F}' || c == '\u{3000}'
}

/// Whether `c` is whitespace in the sense of [`is_space_char`].
pub fn is_space(c: char) -> (r: bool)
    ensures
        r == is_space_char(c),
{
    c == ' ' || c == '\t' || c == '\n' || c == '\r' || c == '\u{000B}' || c == '\u{000C}'
        || c == '\u{0085}' || c == '\u{00A0}' || c == '\u{1680}' || c == '\u{2000}'
        || c == '\u{2001}' || c == '\u{2002}' || c == '\u{2003}' || c == '\u{2004}'
        || c == '\u{2005}' || c == '\u{2006}' || c == '\u{2007}' || c == '\u{2008}'
        || c == '\u{2009}' || c == '\u{200A}' || c == '\u{2028}' || c == '\u{2029}'
        || c == '\u{202F}' || c == '\u{205F}' || c == '\u{3000}'
}

/// The first index at or after `i` whose character is not whitespace
/// (`s.len()` if none is).
pub open spec fn first_non_space(s: Seq<char>, i: int) -> int
    recommends
        0 <= i <= s.len(),
    decreases s.len() - i when 0 <= i <= s.len()
{
    if i >= s.len() || !is_space_char(s[i]) {
        i
    } else {
        first_non_space(s, i + 1)
    }
}

/// The first index at or after `i` whose character is whitespace
/// (`s.len()` if none is).
pub open spec fn first_space(s: Seq<char>, i: int) -> int
    recommends
        0 <= i <= s.len(),
    decreases s.len() - i when 0 <= i <= s.len()
{
    if i >= s.len() || is_space_char(s[i]) {
        i
    } else {
        first_space(s, i + 1)
    }
}

/// One past the last non-whitespace index strictly before `j`
/// (0 if every character before `j` is whitespace).
pub open spec fn trailing_space_start(s: Seq<char>, j: int) -> int
    recommends
        0 <= j <= s.len(),
    decreases j when 0 <= j <= s.len()
{
    if j <= 0 || !is_space_char(s[j - 1]) {
        j
    } else {
        trailing_space_start(s, j - 1)
    }
}

/// `s` with leading and trailing whitespace removed.
pub open spec fn trim_spec(s: Seq<char>) -> Seq<char> {
    let a = first_non_space(s, 0);
    let b = trailing_space_start(s, s.len() as int);
    if a <= b {
        s.subrange(a, b)
    } else {
        Seq::empty()
    }
}

proof fn lemma_first_non_space_bounds(s: Seq<char>, i: int)
    requires
        0 <= i <= s.len(),
    ensures
        i <= first_non_space(s, i) <= s.len(),
        first_non_space(s, i) < s.len() ==> !is_space_char(s[first_non_space(s, i)]),
    decreases s.len() - i,
{
    if !(i >= s.len() || !is_space_char(s[i])) {
        lemma_first_non_space_bounds(s, i + 1);
    }
}

proof fn lemma_first_space_bounds(s: Seq<char>, i: int)
    requires
        0 <= i <= s.len(),
    ensures
        i <= first_space(s, i) <= s.len(),
    decreases s.len() - i,
{
    if !(i >= s.len() || is_space_char(s[i])) {
        lemma_first_space_bounds(s, i + 1);
    }
}

proof fn lemma_trailing_space_start_bounds(s: Seq<char>, j: int)
    requires
        0 <= j <= s.len(),
    ensures
        0 <= trailing_space_start(s, j) <= j,
    decreases j,
{
    if !(j <= 0 || !is_space_char(s[j - 1])) {
        lemma_trailing_space_start_bounds(s, j - 1);
    }
}

/// `s` with leading and trailing whitespace removed, as a fresh `String`.
pub fn trim_str(s: &str) -> (r: String)
    ensures
        r@ == trim_spec(s@),
{
    let len = s.unicode_len();
    let mut a: usize = 0;
    while a < len && is_space(s.get_char(a))
        invariant
            0 <= a <= len,
            len == s@.len(),
            first_non_space(s@, 0) == first_non_space(s@, a as int),
        decreases len - a,
    {
        a = a + 1;
    }
    assert(first_non_space(s@, a as int) == a as int);
    let mut b: usize = len;
    while b > a && is_space(s.get_char(b - 1))
        invariant
            a <= b <= len,
            len == s@.len(),
            first_non_space(s@, 0) == a as int,
            trailing_space_start(s@, len as int) == trailing_space_start(s@, b as int),
        decreases b,
    {
        b = b - 1;
    }
    proof {
        if b > a {
            assert(trailing_space_start(s@, b as int) == b as int);
        } else {
            // b == a: everything from a on (and before a) is whitespace on
            // the scanned side, so the trimmed result is empty either way.
            lemma_trailing_space_start_bounds(s@, b as int);
        }
    }
    if a < b {
        s.substring_char(a, b).to_owned()
    } else {
        assert(trim_spec(s@) =~= Seq::<char>::empty()) by {
            lemma_trailing_space_start_bounds(s@, b as int);
        }
        String::new()
    }
}

/// Whether `p` occurs in `s` as a contiguous run of characters.
pub open spec fn contains_seq(s: Seq<char>, p: Seq<char>) -> bool {
    exists|i: int| 0 <= i && i + p.len() <= s.len() && #[trigger] s.subrange(i, i + p.len()) == p
}

/// Whether the substring `p` occurs anywhere in `s`.
pub fn contains_sub(s: &str, p: &str) -> (r: bool)
    ensures
        r == contains_seq(s@, p@),
{
    let n = s.unicode_len();
    let m = p.unicode_len();
    if m > n {
        assert(!contains_seq(s@, p@));
        return false;
    }
    if m == 0 {
        assert(contains_seq(s@, p@)) by {
            assert(s@.subrange(0, 0 + p@.len() as int) =~= p@);
        }
        return true;
    }
    let mut i: usize = 0;
    while i <= n - m
        invariant
            0 <= i <= n - m + 1,
            1 <= m <= n,
            n == s@.len(),
            m == p@.len(),
            forall|j: int| 0 <= j < i ==> #[trigger] s@.subrange(j, j + m as int) != p@,
        decreases n - m - i + 1,
    {
        let mut k: usize = 0;
        let mut matched = true;
        while k < m && matched
            invariant
                0 <= k <= m,
                i + m <= n,
                n == s@.len(),
                m == p@.len(),
                matched ==> forall|t: int| 0 <= t < k ==> s@[i + t] == p@[t],
                !matched ==> s@.subrange(i as int, i + m as int) != p@,
            decreases (if matched { 1int } else { 0int }), m - k,
        {
            if s.get_char(i + k) != p.get_char(k) {
                matched = false;
                proof {
                    assert(s@.subrange(i as int, i + m as int)[k as int] != p@[k as int]);
                }
            } else {
                k = k + 1;
            }
        }
        if matched {
            assert(s@.subrange(i as int, i + m as int) =~= p@);
            return true;
        }
        i = i + 1;
    }
    assert forall|j: int| 0 <= j && j + p@.len() <= s@.len() implies #[trigger] s@.subrange(
        j,
        j + p@.len(),
    ) != p@ by {
        assert(j < i);
    }
    false
}

/// Whether the character `c` occurs in `s`.
pub fn contains_char(s: &str, c: char) -> (r: bool)
    ensures
        r == s@.contains(c),
{
    let n = s.unicode_len();
    let mut i: usize = 0;
    while i < n
        invariant
            0 <= i <= n,
            n == s@.len(),
            forall|j: int| 0 <= j < i ==> s@[j] != c,
        decreases n - i,
    {
        if s.get_char(i) == c {
            return true;
        }
        i = i + 1;
    }
    false
}

/// Relies on `String`'s `FromIterator` over `char` to build the string
/// whose characters are exactly those of `v`.
#[verifier::external_body]
pub fn string_from_chars(v: &Vec<char>) -> (r: String)
    ensures
        r@ == v@,
{
    v.iter().collect()
}

/// Whether `c` is a decimal digit.
pub open spec fn is_digit_char(c: char) -> bool {
    48 <= c as int <= 57
}

/// Whether every character of `s` is a decimal digit.
pub open spec fn all_digits(s: Seq<char>) -> bool {
    forall|i: int| 0 <= i < s.len() ==> is_digit_char(#[trigger] s[i])
}

/// The value of a run of decimal digits, most significant first.
pub open spec fn digits_val(s: Seq<char>) -> int
    decreases s.len(),
{
    if s.len() == 0 {
        0
    } else {
        digits_val(s.drop_last()) * 10 + (s.last() as int - 48)
    }
}

/// What parsing `t` as a decimal `i64` yields: an optional sign, then at
/// least one digit and nothing else, with the value in `i64`'s range.
pub open spec fn parse_int_spec(t: Seq<char>) -> Option<int> {
    if t.len() > 0 && (t[0] == '+' || t[0] == '-') {
        let d = t.drop_first();
        if d.len() > 0 && all_digits(d) {
            let m = digits_val(d);
            if t[0] == '-' {
                if m <= 0x8000_0000_0000_0000 {
                    Some(-m)
                } else {
                    None
                }
            } else {
                if m <= 0x7fff_ffff_ffff_ffff {
                    Some(m)
                } else {
                    None
                }
            }
        } else {
            None
        }
    } else if t.len() > 0 && all_digits(t) {
        let m = digits_val(t);
        if m <= 0x7fff_ffff_ffff_ffff {
            Some(m)
        } else {
            None
        }
    } else {
        None
    }
}

/// Parses `s`'s characters from `a` (inclusive) to `b` (exclusive) as a
/// decimal `i64`, as [`parse_int_spec`] describes.
#[verifier::loop_isolation(false)]
pub fn parse_i64_range(s: &str, a: usize, b: usize) -> (r: Option<i64>)
    requires
        a <= b <= s@.len(),
    ensures
        match r {
            Some(v) => parse_int_spec(s@.subrange(a as int, b as int)) == Some(v as int),
            None => parse_int_spec(s@.subrange(a as int, b as int)) is None,
        },
{
    let ghost t = s@.subrange(a as int, b as int);
    if a == b {
        return None;
    }
    let first = s.get_char(a);
    let negative = first == '-';
    let signed = negative || first == '+';
    let start = if signed {
        a + 1
    } else {
        a
    };
    proof {
        assert(t[0] == s@[a as int]);
        if signed {
            assert(t.drop_first() =~= s@.subrange(start as int, b as int));
        } else {
            assert(t =~= s@.subrange(start as int, b as int));
        }
    }
    if start == b {
        // A bare sign, or nothing after it: not a number.
        return None;
    }
    let mut j = start;
    let mut mag: u64 = 0;
    let mut over = false;
    while j < b
        invariant
            start <= j <= b <= s@.len(),
            start < b,
            all_digits(s@.subrange(start as int, j as int)),
            !over ==> mag == digits_val(s@.subrange(start as int, j as int)),
            over ==> digits_val(s@.subrange(start as int, j as int)) > 0x8000_0000_0000_0000,
        decreases b - j,
    {
        let c = s.get_char(j);
        let cv = c as u32;
        if cv < 48 || cv > 57 {
            proof {
                let d = s@.subrange(start as int, b as int);
                assert(d[j - start] == s@[j as int]);
                assert(!is_digit_char(d[j - start]));
            }
            return None;
        }
        let dv = (cv - 48) as u64;
        proof {
            let cur = s@.subrange(start as int, j as int);
            let nxt = s@.subrange(start as int, j + 1);
            assert(nxt.drop_last() =~= cur);
            assert(nxt.last() == s@[j as int]);
        }
        if mag > 922_337_203_685_477_580 {
            proof {
                if !over {
                    assert(digits_val(s@.subrange(start as int, j + 1)) == mag * 10 + dv);
                }
            }
            over = true;
        } else {
            mag = mag * 10 + dv;
        }
        j = j + 1;
    }
    proof {
        if signed {
            assert(t.drop_first() =~= s@.subrange(start as int, b as int));
            assert(t.drop_first().len() > 0);
        } else {
            assert(t =~= s@.subrange(start as int, b as int));
        }
    }
    if over {
        return None;
    }
    if negative {
        if mag > 0x8000_0000_0000_0000 {
            None
        } else if mag == 0x8000_0000_0000_0000 {
            Some(i64::MIN)
        } else {
            Some(-(mag as i64))
        }
    } else {
        if mag > 0x7fff_ffff_ffff_ffff {
            None
        } else {
            Some(mag as i64)
        }
    }
}

/// The value of the first whitespace-separated token at or after `i` that
/// parses as a decimal `i64`; 1 when no token does.
pub open spec fn first_number_spec(s: Seq<char>, i: int) -> int
    recommends
        0 <= i <= s.len(),
    decreases s.len() - i when 0 <= i <= s.len() via first_number_spec_dec
{
    let a = first_non_space(s, i);
    if a >= s.len() {
        1
    } else {
        let b = first_space(s, a);
        match parse_int_spec(s.subrange(a, b)) {
            Some(v) => v,
            None => first_number_spec(s, b),
        }
    }
}

#[via_fn]
proof fn first_number_spec_dec(s: Seq<char>, i: int) {
    lemma_first_non_space_bounds(s, i);
    let a = first_non_space(s, i);
    if a < s.len() {
        assert(first_space(s, a) == first_space(s, a + 1));
        lemma_first_space_bounds(s, a + 1);
    }
}

/// The first number in `text`: the first whitespace-separated token that
/// parses entirely as a decimal integer, defaulting to 1 when none does.
pub fn extract_number(text: &str) -> (r: i64)
    ensures
        r as int == first_number_spec(text@, 0),
{
    let n = text.unicode_len();
    let mut i: usize = 0;
    while i < n
        invariant
            0 <= i <= n,
            n == text@.len(),
            first_number_spec(text@, 0) == first_number_spec(text@, i as int),
        decreases n - i,
    {
        if is_space(text.get_char(i)) {
            proof {
                assert(first_non_space(text@, i as int) == first_non_space(text@, i + 1));
            }
            i = i + 1;
        } else {
            assert(first_non_space(text@, i as int) == i as int);
            let mut j = i;
            while j < n && !is_space(text.get_char(j))
                invariant
                    i <= j <= n,
                    n == text@.len(),
                    first_space(text@, i as int) == first_space(text@, j as int),
                decreases n - j,
            {
                proof {
                    assert(first_space(text@, j as int) == first_space(text@, j + 1));
                }
                j = j + 1;
            }
            assert(first_space(text@, i as int) == j as int);
            match parse_i64_range(text, i, j) {
                Some(v) => {
                    return v;
                },
                None => {
                    proof {
                        lemma_first_space_bounds(text@, i as int);
                    }
                    i = j;
                },
            }
        }
    }
    1
}

/// The decimal digit character for a value below ten.
pub open spec fn dec_digit_char(d: int) -> char {
    if d == 0 {
        '0'
    } else if d == 1 {
        '1'
    } else if d == 2 {
        '2'
    } else if d == 3 {
        '3'
    } else if d == 4 {
        '4'
    } else if d == 5 {
        '5'
    } else if d == 6 {
        '6'
    } else if d == 7 {
        '7'
    } else if d == 8 {
        '8'
    } else {
        '9'
    }
}

/// The decimal digit characters of `n`, most significant first, with no
/// leading zero except for zero itself.
pub open spec fn spec_dec(n: int) -> Seq<char>
    recommends
        n >= 0,
    decreases n when n >= 0
{
    if n < 10 {
        seq![dec_digit_char(n)]
    } else {
        spec_dec(n / 10) + seq![dec_digit_char(n % 10)]
    }
}

fn dec_digit(d: u64) -> (c: char)
    requires
        d < 10,
    ensures
        c == dec_digit_char(d as int),
{
    if d == 0 {
        '0'
    } else if d == 1 {
        '1'
    } else if d == 2 {
        '2'
    } else if d == 3 {
        '3'
    } else if d == 4 {
        '4'
    } else if d == 5 {
        '5'
    } else if d == 6 {
        '6'
    } else if d == 7 {
        '7'
    } else if d == 8 {
        '8'
    } else {
        '9'
    }
}

fn u64_dec_chars(n: u64) -> (r: Vec<char>)
    ensures
        r@ == spec_dec(n as int),
    decreases n,
{
    if n < 10 {
        let mut v: Vec<char> = Vec::new();
        v.push(dec_digit(n));
        assert(v@ =~= spec_dec(n as int));
        v
    } else {
        let mut v = u64_dec_chars(n / 10);
        v.push(dec_digit(n % 10));
        assert(v@ =~= spec_dec(n as int));
        v
    }
}

/// `n` written in decimal.
pub fn u64_to_dec(n: u64) -> (r: String)
    ensures
        r@ == spec_dec(n as int),
{
    let v = u64_dec_chars(n);
    string_from_chars(&v)
}

/// The first index at or after `i` where `p` occurs in `s`, if any.
pub open spec fn find_sub(s: Seq<char>, p: Seq<char>, i: int) -> Option<int>
    recommends
        0 <= i,
        1 <= p.len(),
    decreases s.len() - i when 0 <= i && 1 <= p.len()
{
    if i + p.len() > s.len() {
        None
    } else if s.subrange(i, i + p.len()) == p {
        Some(i)
    } else {
        find_sub(s, p, i + 1)
    }
}

proof fn lemma_find_sub_bounds(s: Seq<char>, p: Seq<char>, i: int)
    requires
        0 <= i,
        1 <= p.len(),
    ensures
        find_sub(s, p, i) matches Some(k) ==> i <= k && k + p.len() <= s.len(),
    decreases s.len() - i,
{
    if i + p.len() <= s.len() && s.subrange(i, i + p.len()) != p {
        lemma_find_sub_bounds(s, p, i + 1);
    }
}

/// `s` with every occurrence of `p` replaced by `r`, scanning left to
/// right. An empty pattern leaves `s` unchanged.
pub open spec fn replace_sub_spec(s: Seq<char>, p: Seq<char>, r: Seq<char>) -> Seq<char>
    decreases s.len() via replace_sub_spec_dec
{
    if p.len() == 0 {
        s
    } else {
        match find_sub(s, p, 0) {
            None => s,
            Some(k) => s.take(k) + r + replace_sub_spec(s.skip(k + p.len() as int), p, r),
        }
    }
}

#[via_fn]
proof fn replace_sub_spec_dec(s: Seq<char>, p: Seq<char>, r: Seq<char>) {
    if p.len() >= 1 {
        lemma_find_sub_bounds(s, p, 0);
    }
}

fn find_first(s: &str, p: &str) -> (r: Option<usize>)
    requires
        1 <= p@.len(),
    ensures
        match r {
            Some(k) => find_sub(s@, p@, 0) == Some(k as int),
            None => find_sub(s@, p@, 0) is None,
        },
{
    let n = s.unicode_len();
    let m = p.unicode_len();
    if m > n {
        return None;
    }
    let mut i: usize = 0;
    while i <= n - m
        invariant
            0 <= i <= n - m + 1,
            1 <= m <= n,
            n == s@.len(),
            m == p@.len(),
            find_sub(s@, p@, 0) == find_sub(s@, p@, i as int),
        decreases n - i,
    {
        let mut k: usize = 0;
        let mut matched = true;
        while k < m && matched
            invariant
                0 <= k <= m,
                i + m <= n,
                n == s@.len(),
                m == p@.len(),
                matched ==> forall|t: int| 0 <= t < k ==> s@[i + t] == p@[t],
                !matched ==> s@.subrange(i as int, i + m as int) != p@,
            decreases (if matched { 1int } else { 0int }), m - k,
        {
            if s.get_char(i + k) != p.get_char(k) {
                matched = false;
                proof {
                    assert(s@.subrange(i as int, i + m as int)[k as int] != p@[k as int]);
                }
            } else {
                k = k + 1;
            }
        }
        if matched {
            assert(s@.subrange(i as int, i + m as int) =~= p@);
            return Some(i);
        }
        i = i + 1;
    }
    None
}

/// Replaces every occurrence of the substring `p` in `s` by `r`, scanning
/// left to right. An empty pattern leaves `s` unchanged.
pub fn replace_sub(s: &str, p: &str, r: &str) -> (out: String)
    ensures
        out@ == replace_sub_spec(s@, p@, r@),
    decreases s@.len(),
{
    let m = p.unicode_len();
    if m == 0 {
        return s.to_owned();
    }
    match find_first(s, p) {
        None => s.to_owned(),
        Some(k) => {
            proof {
                lemma_find_sub_bounds(s@, p@, 0);
            }
            let n = s.unicode_len();
            let mut out = s.substring_char(0, k).to_owned();
            out.append(r);
            let rest = s.substring_char(k + m, n);
            let tail = replace_sub(rest, p, r);
            out.append(tail.as_str());
            proof {
                assert(s@.subrange(0, k as int) =~= s@.take(k as int));
                assert(s@.subrange(k + m as int, n as int) =~= s@.skip(k + m as int));
            }
            out
        },
    }
}

/// Relies on `str::to_lowercase`: the result depends on the input
/// characters alone, so it is named rather than spelled out.
pub uninterp spec fn lower_of(s: Seq<char>) -> Seq<char>;

/// Relies on `str::to_lowercase` for Unicode-aware case folding.
#[verifier::external_body]
pub fn lowercase(s: &str) -> (r: String)
    ensures
        r@ == lower_of(s@),
{
    s.to_lowercase()
}

/// `s` with every occurrence of the character `from` replaced by `to`.
pub open spec fn replace_char_spec(s: Seq<char>, from: char, to: char) -> Seq<char> {
    s.map_values(|c: char| if c == from { to } else { c })
}

/// Replaces every occurrence of the character `from` in `s` by `to`.
pub fn replace_char(s: &str, from: char, to: char) -> (r: String)
    ensures
        r@ == replace_char_spec(s@, from, to),
{
    let n = s.unicode_len();
    let mut v: Vec<char> = Vec::new();
    let mut i: usize = 0;
    while i < n
        invariant
            0 <= i <= n,
            n == s@.len(),
            v@ =~= s@.take(i as int).map_values(|c: char| if c == from { to } else { c }),
        decreases n - i,
    {
        let c = s.get_char(i);
        if c == from {
            v.push(to);
        } else {
            v.push(c);
        }
        i = i + 1;
        assert(v@ =~= s@.take(i as int).map_values(
            |c: char| if c == from { to } else { c },
        ));
    }
    assert(s@.take(n as int) =~= s@);
    string_from_chars(&v)
}

} // verus!
