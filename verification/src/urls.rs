//! The URL builder: resolving a board's path templates against its base
//! URL and assembling the listing query string. Query and path encoding
//! are verified byte-for-byte; only base-URL parsing and resolution rely
//! on the URL crate.

use vstd::prelude::*;
use vstd::string::{StrSliceExecFns, StringExecFns};
use vstd::utf8::encode_utf8;

use crate::constants::BoardConfig;
use crate::error::ScraperError;
use crate::indeed;
use crate::linkedin;
use crate::models::{Board, DatePosted, ExperienceLevel, JobSearchParams, JobType, PageQuery};
use crate::strutil::{
    contains_char, replace_sub, replace_sub_spec, spec_dec, string_from_chars, u64_to_dec,
};

verus! {

/// Relies on the URL crate's `Url::parse` and `Url::join`: whether a base
/// URL parses and a path resolves against it, a function of the two
/// strings alone.
pub uninterp spec fn resolve_ok(base: Seq<char>, path: Seq<char>) -> bool;

/// Relies on the URL crate's `Url::parse`, `Url::join` and `Display`: the
/// serialized absolute URL a path resolves to against a base, a function
/// of the two strings alone.
pub uninterp spec fn resolved_url(base: Seq<char>, path: Seq<char>) -> Seq<char>;

/// Relies on the URL crate's `Url::parse`, `Url::join` and `Display` for
/// parsing the base URL and resolving the path template against it.
/// `None` exactly when parsing or resolution fails.
#[verifier::external_body]
fn resolve_url(base: &str, path: &str) -> (r: Option<String>)
    ensures
        r is Some <==> resolve_ok(base@, path@),
        r matches Some(u) ==> u@ == resolved_url(base@, path@),
{
    let parsed = match url::Url::parse(base) {
        Ok(u) => u,
        Err(_) => {
            return None;
        },
    };
    match parsed.join(path) {
        Ok(u) => Some(u.to_string()),
        Err(_) => None,
    }
}

/// Whether a byte passes through the form encoding unchanged: ASCII
/// alphanumerics and `*`, `-`, `.`, `_`.
pub open spec fn form_unchanged(b: u8) -> bool {
    (48 <= b <= 57) || (65 <= b <= 90) || (97 <= b <= 122) || b == 42 || b == 45 || b == 46
        || b == 95
}

/// Whether a byte passes through the path encoding unchanged: ASCII
/// alphanumerics and the unreserved `-`, `.`, `_`, `~`.
pub open spec fn path_unchanged(b: u8) -> bool {
    (48 <= b <= 57) || (65 <= b <= 90) || (97 <= b <= 122) || b == 45 || b == 46 || b == 95
        || b == 126
}

/// The uppercase hexadecimal digit for a value below sixteen.
pub open spec fn hex_digit_char(d: int) -> char {
    if d == 0 {
        '0'
    } else if d == 1 {
        '1'
    } else if d == 2 {
        '2'
    } else if d == 3 {
        '3'
    } else if d == 4 {
        '4'
    } else if d == 5 {
        '5'
    } else if d == 6 {
        '6'
    } else if d == 7 {
        '7'
    } else if d == 8 {
        '8'
    } else if d == 9 {
        '9'
    } else if d == 10 {
        'A'
    } else if d == 11 {
        'B'
    } else if d == 12 {
        'C'
    } else if d == 13 {
        'D'
    } else if d == 14 {
        'E'
    } else {
        'F'
    }
}

fn hex_digit(d: u8) -> (c: char)
    requires
        d < 16,
    ensures
        c == hex_digit_char(d as int),
{
    if d == 0 {
        '0'
    } else if d == 1 {
        '1'
    } else if d == 2 {
        '2'
    } else if d == 3 {
        '3'
    } else if d == 4 {
        '4'
    } else if d == 5 {
        '5'
    } else if d == 6 {
        '6'
    } else if d == 7 {
        '7'
    } else if d == 8 {
        '8'
    } else if d == 9 {
        '9'
    } else if d == 10 {
        'A'
    } else if d == 11 {
        'B'
    } else if d == 12 {
        'C'
    } else if d == 13 {
        'D'
    } else if d == 14 {
        'E'
    } else {
        'F'
    }
}

/// One byte's form encoding: unchanged bytes as themselves, a space as
/// `+`, anything else percent-escaped with uppercase hexadecimal.
pub open spec fn form_byte(b: u8) -> Seq<char> {
    if form_unchanged(b) {
        seq![b as char]
    } else if b == 32 {
        seq!['+']
    } else {
        seq!['%', hex_digit_char(b as int / 16), hex_digit_char(b as int % 16)]
    }
}

/// One byte's path encoding: unchanged bytes as themselves, anything else
/// percent-escaped with uppercase hexadecimal.
pub open spec fn path_byte(b: u8) -> Seq<char> {
    if path_unchanged(b) {
        seq![b as char]
    } else {
        seq!['%', hex_digit_char(b as int / 16), hex_digit_char(b as int % 16)]
    }
}

/// The form encoding of a byte sequence.
pub open spec fn form_encoded_bytes(bs: Seq<u8>) -> Seq<char>
    decreases bs.len(),
{
    if bs.len() == 0 {
        Seq::empty()
    } else {
        form_encoded_bytes(bs.drop_last()) + form_byte(bs.last())
    }
}

/// The path encoding of a byte sequence.
pub open spec fn path_encoded_bytes(bs: Seq<u8>) -> Seq<char>
    decreases bs.len(),
{
    if bs.len() == 0 {
        Seq::empty()
    } else {
        path_encoded_bytes(bs.drop_last()) + path_byte(bs.last())
    }
}

/// A string's form encoding, over its UTF-8 bytes.
pub open spec fn form_encoded(s: Seq<char>) -> Seq<char> {
    form_encoded_bytes(encode_utf8(s))
}

/// A string's path encoding, over its UTF-8 bytes.
pub open spec fn path_encoded(s: Seq<char>) -> Seq<char> {
    path_encoded_bytes(encode_utf8(s))
}

/// Form-encodes a string for use as a query-parameter name or value.
#[verifier::loop_isolation(false)]
pub fn form_encode(s: &str) -> (r: String)
    ensures
        r@ == form_encoded(s@),
{
    let bytes = s.as_bytes();
    let ghost bs = bytes@;
    let mut out: Vec<char> = Vec::new();
    let mut i: usize = 0;
    while i < bytes.len()
        invariant
            0 <= i <= bs.len(),
            out@ =~= form_encoded_bytes(bs.take(i as int)),
        decreases bs.len() - i,
    {
        let b = *vstd::slice::slice_index_get(bytes, i);
        proof {
            assert(bs.take(i + 1).drop_last() =~= bs.take(i as int));
            assert(bs.take(i + 1).last() == bs[i as int]);
        }
        if (48 <= b && b <= 57) || (65 <= b && b <= 90) || (97 <= b && b <= 122) || b == 42 || b
            == 45 || b == 46 || b == 95 {
            out.push(b as char);
        } else if b == 32 {
            out.push('+');
        } else {
            out.push('%');
            out.push(hex_digit(b / 16));
            out.push(hex_digit(b % 16));
        }
        proof {
            assert(out@ =~= form_encoded_bytes(bs.take(i + 1)));
        }
        i = i + 1;
    }
    proof {
        assert(bs.take(bs.len() as int) =~= bs);
    }
    string_from_chars(&out)
}

/// Path-encodes a string for substitution into a path template.
#[verifier::loop_isolation(false)]
pub fn path_encode(s: &str) -> (r: String)
    ensures
        r@ == path_encoded(s@),
{
    let bytes = s.as_bytes();
    let ghost bs = bytes@;
    let mut out: Vec<char> = Vec::new();
    let mut i: usize = 0;
    while i < bytes.len()
        invariant
            0 <= i <= bs.len(),
            out@ =~= path_encoded_bytes(bs.take(i as int)),
        decreases bs.len() - i,
    {
        let b = *vstd::slice::slice_index_get(bytes, i);
        proof {
            assert(bs.take(i + 1).drop_last() =~= bs.take(i as int));
            assert(bs.take(i + 1).last() == bs[i as int]);
        }
        if (48 <= b && b <= 57) || (65 <= b && b <= 90) || (97 <= b && b <= 122) || b == 45 || b
            == 46 || b == 95 || b == 126 {
            out.push(b as char);
        } else {
            out.push('%');
            out.push(hex_digit(b / 16));
            out.push(hex_digit(b % 16));
        }
        proof {
            assert(out@ =~= path_encoded_bytes(bs.take(i + 1)));
        }
        i = i + 1;
    }
    proof {
        assert(bs.take(bs.len() as int) =~= bs);
    }
    string_from_chars(&out)
}

/// One query pair, encoded and joined with `=`.
pub open spec fn pair_encoded(k: Seq<char>, v: Seq<char>) -> Seq<char> {
    form_encoded(k) + seq!['='] + form_encoded(v)
}

/// A pair list, encoded and joined with `&`.
pub open spec fn pairs_encoded(ps: Seq<(Seq<char>, Seq<char>)>) -> Seq<char>
    decreases ps.len(),
{
    if ps.len() == 0 {
        Seq::empty()
    } else if ps.len() == 1 {
        pair_encoded(ps[0].0, ps[0].1)
    } else {
        pairs_encoded(ps.drop_last()) + seq!['&'] + pair_encoded(ps.last().0, ps.last().1)
    }
}

/// The views of a pair list.
pub open spec fn pair_views(ps: Seq<(String, String)>) -> Seq<(Seq<char>, Seq<char>)> {
    ps.map_values(|p: (String, String)| (p.0@, p.1@))
}

/// The job-type value a board's listing URL carries for a caller-supplied
/// job-type filter, where the board defines one.
pub open spec fn spec_job_type_value(board: Board, job_type: JobType) -> Option<Seq<char>> {
    match board {
        Board::Linkedin => linkedin::spec_job_type_code(job_type),
        _ => None,
    }
}

/// The experience-level value a board's listing URL carries, where the
/// board defines one.
pub open spec fn spec_experience_value(board: Board, level: ExperienceLevel) -> Option<Seq<char>> {
    match board {
        Board::Linkedin => linkedin::spec_experience_level_code(level),
        _ => None,
    }
}

/// The recency-window value a board's listing URL carries, where the board
/// defines one (LinkedIn takes `r` followed by a number of seconds).
pub open spec fn spec_date_posted_value(board: Board, date: DatePosted) -> Option<Seq<char>> {
    match board {
        Board::Linkedin => match linkedin::spec_date_posted_seconds(date) {
            Some(s) => Some(seq!['r'] + spec_dec(s as int)),
            None => None,
        },
        _ => None,
    }
}

fn job_type_value(board: &Board, job_type: &JobType) -> (r: Option<String>)
    ensures
        match r {
            Some(v) => spec_job_type_value(*board, *job_type) == Some(v@),
            None => spec_job_type_value(*board, *job_type) is None,
        },
{
    match board {
        Board::Linkedin => match linkedin::job_type_code(job_type) {
            Some(c) => Some(c.to_owned()),
            None => None,
        },
        _ => None,
    }
}

fn experience_value(board: &Board, level: &ExperienceLevel) -> (r: Option<String>)
    ensures
        match r {
            Some(v) => spec_experience_value(*board, *level) == Some(v@),
            None => spec_experience_value(*board, *level) is None,
        },
{
    match board {
        Board::Linkedin => match linkedin::experience_level_code(level) {
            Some(c) => Some(c.to_owned()),
            None => None,
        },
        _ => None,
    }
}

fn date_posted_value(board: &Board, date: &DatePosted) -> (r: Option<String>)
    ensures
        match r {
            Some(v) => spec_date_posted_value(*board, *date) == Some(v@),
            None => spec_date_posted_value(*board, *date) is None,
        },
{
    match board {
        Board::Linkedin => match linkedin::date_posted_seconds(date) {
            Some(s) => {
                let mut v = "r".to_owned();
                let digits = u64_to_dec(s as u64);
                v.append(digits.as_str());
                proof {
                    reveal_strlit("r");
                    assert("r"@ =~= seq!['r']);
                }
                Some(v)
            },
            None => None,
        },
        _ => None,
    }
}

/// The query pairs a listing URL carries, in order: the query text, the
/// location text, then — each only when the board names a parameter for it
/// and the caller supplied a value that the board maps — the radius, the
/// page offset, the job type, the experience level and the recency window.
pub open spec fn listing_pairs(
    profile: BoardConfig,
    params: JobSearchParams,
    offset: Option<u32>,
) -> Seq<(Seq<char>, Seq<char>)> {
    let up = profile.url_params;
    let base = seq![(up.query@, params.query@), (up.location@, params.location@)];
    let with_radius = match (up.radius, params.radius) {
        (Some(name), Some(r)) => base.push((name@, spec_dec(r as int))),
        _ => base,
    };
    let with_offset = match offset {
        Some(o) => with_radius.push((up.offset@, spec_dec(o as int))),
        None => with_radius,
    };
    let with_job_type = match (up.job_type, params.job_type) {
        (Some(name), Some(jt)) => match spec_job_type_value(profile.board, jt) {
            Some(v) => with_offset.push((name@, v)),
            None => with_offset,
        },
        _ => with_offset,
    };
    let with_level = match (up.experience_level, params.experience_level) {
        (Some(name), Some(lv)) => match spec_experience_value(profile.board, lv) {
            Some(v) => with_job_type.push((name@, v)),
            None => with_job_type,
        },
        _ => with_job_type,
    };
    match (up.date_posted, params.date_posted) {
        (Some(name), Some(d)) => match spec_date_posted_value(profile.board, d) {
            Some(v) => with_level.push((name@, v)),
            None => with_level,
        },
        _ => with_level,
    }
}

/// A parameter the caller did not supply is never emitted, even where the
/// profile names one: with no offset and no optional filters the pair
/// list is exactly the query and location pairs.
pub proof fn lemma_unsupplied_params_omitted(
    profile: BoardConfig,
    params: JobSearchParams,
    offset: Option<u32>,
)
    requires
        offset is None,
        params.radius is None,
        params.job_type is None,
        params.experience_level is None,
        params.date_posted is None,
    ensures
        listing_pairs(profile, params, offset) =~= seq![
            (profile.url_params.query@, params.query@),
            (profile.url_params.location@, params.location@),
        ],
{
}

/// A parameter the profile names no parameter for is never emitted, even
/// where the caller supplied a value: with no optional names the pair
/// list is exactly the query and location pairs plus the offset, if any.
pub proof fn lemma_unnamed_params_omitted(
    profile: BoardConfig,
    params: JobSearchParams,
    offset: Option<u32>,
)
    requires
        profile.url_params.radius is None,
        profile.url_params.job_type is None,
        profile.url_params.experience_level is None,
        profile.url_params.date_posted is None,
    ensures
        listing_pairs(profile, params, offset) =~= match offset {
            None => seq![
                (profile.url_params.query@, params.query@),
                (profile.url_params.location@, params.location@),
            ],
            Some(o) => seq![
                (profile.url_params.query@, params.query@),
                (profile.url_params.location@, params.location@),
                (profile.url_params.offset@, spec_dec(o as int)),
            ],
        },
{
}

/// A query string attached to a resolved URL: straight after a trailing
/// `?`, with `&` after an existing query, else with a fresh `?`.
pub open spec fn attach_query(stem: Seq<char>, q: Seq<char>) -> Seq<char> {
    if stem.len() > 0 && stem.last() == '?' {
        stem + q
    } else if stem.contains('?') {
        stem + seq!['&'] + q
    } else {
        stem + seq!['?'] + q
    }
}

/// What [`build_board_url`] returns when the profile's base URL and
/// listing path resolve.
pub open spec fn listing_url_spec(
    profile: BoardConfig,
    params: JobSearchParams,
    offset: Option<u32>,
) -> Option<Seq<char>> {
    if resolve_ok(profile.base_url@, profile.board_path@) {
        Some(
            attach_query(
                resolved_url(profile.base_url@, profile.board_path@),
                pairs_encoded(listing_pairs(profile, params, offset)),
            ),
        )
    } else {
        None
    }
}

#[verifier::loop_isolation(false)]
fn encode_pairs(qp: &Vec<(String, String)>) -> (r: String)
    ensures
        r@ == pairs_encoded(pair_views(qp@)),
{
    let ghost ps = pair_views(qp@);
    proof {
        reveal_strlit("&");
        reveal_strlit("=");
        assert("&"@ =~= seq!['&']);
        assert("="@ =~= seq!['=']);
    }
    let mut out = String::new();
    let mut j: usize = 0;
    while j < qp.len()
        invariant
            0 <= j <= qp.len(),
            out@ =~= pairs_encoded(ps.take(j as int)),
        decreases qp.len() - j,
    {
        proof {
            assert(ps.take(j + 1).drop_last() =~= ps.take(j as int));
            assert(ps.take(j + 1).last() == ps[j as int]);
            assert(ps[j as int] == (qp@[j as int].0@, qp@[j as int].1@));
        }
        if j > 0 {
            out.append("&");
        }
        let k = form_encode(qp[j].0.as_str());
        out.append(k.as_str());
        out.append("=");
        let v = form_encode(qp[j].1.as_str());
        out.append(v.as_str());
        j = j + 1;
    }
    proof {
        assert(ps.take(qp@.len() as int) =~= ps);
    }
    out
}

/// Builds the fully qualified listing URL for a board profile, the
/// caller's search parameters and an optional page offset. Fails with
/// `InvalidUrl` exactly when the profile's base URL or listing path does
/// not resolve — fatal for that board's search.
pub fn build_board_url(
    profile: &BoardConfig,
    params: &JobSearchParams,
    offset: Option<u32>,
) -> (r: Result<String, ScraperError>)
    ensures
        match r {
            Ok(u) => listing_url_spec(*profile, *params, offset) == Some(u@),
            Err(e) => listing_url_spec(*profile, *params, offset) is None && e is InvalidUrl,
        },
{
    let stem = match resolve_url(profile.base_url.as_str(), profile.board_path.as_str()) {
        Some(u) => u,
        None => {
            return Err(ScraperError::InvalidUrl);
        },
    };
    let mut qp: Vec<(String, String)> = Vec::new();
    qp.push((profile.url_params.query.clone(), params.query.clone()));
    qp.push((profile.url_params.location.clone(), params.location.clone()));
    match (&profile.url_params.radius, &params.radius) {
        (Some(name), Some(radius)) => {
            qp.push((name.clone(), u64_to_dec(*radius as u64)));
        },
        _ => {},
    }
    match offset {
        Some(o) => {
            qp.push((profile.url_params.offset.clone(), u64_to_dec(o as u64)));
        },
        None => {},
    }
    match (&profile.url_params.job_type, &params.job_type) {
        (Some(name), Some(jt)) => match job_type_value(&profile.board, jt) {
            Some(v) => {
                qp.push((name.clone(), v));
            },
            None => {},
        },
        _ => {},
    }
    match (&profile.url_params.experience_level, &params.experience_level) {
        (Some(name), Some(lv)) => match experience_value(&profile.board, lv) {
            Some(v) => {
                qp.push((name.clone(), v));
            },
            None => {},
        },
        _ => {},
    }
    match (&profile.url_params.date_posted, &params.date_posted) {
        (Some(name), Some(d)) => match date_posted_value(&profile.board, d) {
            Some(v) => {
                qp.push((name.clone(), v));
            },
            None => {},
        },
        _ => {},
    }
    assert(pair_views(qp@) =~= listing_pairs(*profile, *params, offset));
    let q = encode_pairs(&qp);
    let n = stem.unicode_len();
    let mut out = stem;
    proof {
        reveal_strlit("&");
        reveal_strlit("?");
        assert("&"@ =~= seq!['&']);
        assert("?"@ =~= seq!['?']);
    }
    if n > 0 && out.as_str().get_char(n - 1) == '?' {
        out.append(q.as_str());
    } else if contains_char(out.as_str(), '?') {
        out.append("&");
        out.append(q.as_str());
    } else {
        out.append("?");
        out.append(q.as_str());
    }
    Ok(out)
}

/// Builds the URL a page query asks for: a board's listing page at an
/// optional offset, or one job's detail page.
pub fn build_url(profile: &BoardConfig, query: PageQuery<'_>, offset: Option<u32>) -> (r: Result<
    String,
    ScraperError,
>)
    ensures
        match query {
            PageQuery::Board(params) => match r {
                Ok(u) => listing_url_spec(*profile, *params, offset) == Some(u@),
                Err(e) => listing_url_spec(*profile, *params, offset) is None && e is InvalidUrl,
            },
            PageQuery::Job(job_id) => match r {
                Ok(u) => job_url_spec(*profile, job_id@) == Some(u@),
                Err(e) => job_url_spec(*profile, job_id@) is None && e is InvalidUrl,
            },
        },
{
    match query {
        PageQuery::Board(params) => build_board_url(profile, params, offset),
        PageQuery::Job(job_id) => build_job_url(profile, job_id),
    }
}

/// What [`build_job_url`] returns when the profile's base URL and the
/// substituted detail path resolve.
pub open spec fn job_url_spec(profile: BoardConfig, job_id: Seq<char>) -> Option<Seq<char>> {
    let path = replace_sub_spec(profile.job_path@, "{id}"@, path_encoded(job_id));
    if resolve_ok(profile.base_url@, path) {
        Some(resolved_url(profile.base_url@, path))
    } else {
        None
    }
}

/// Builds the fully qualified detail URL for one job: the job-id
/// placeholder in the profile's detail path template is replaced by the
/// path-encoded job id, and the result resolves against the base URL.
/// Fails with `InvalidUrl` exactly when resolution fails.
pub fn build_job_url(profile: &BoardConfig, job_id: &str) -> (r: Result<String, ScraperError>)
    ensures
        match r {
            Ok(u) => job_url_spec(*profile, job_id@) == Some(u@),
            Err(e) => job_url_spec(*profile, job_id@) is None && e is InvalidUrl,
        },
{
    let escaped = path_encode(job_id);
    let path = replace_sub(profile.job_path.as_str(), "{id}", escaped.as_str());
    match resolve_url(profile.base_url.as_str(), path.as_str()) {
        Some(u) => Ok(u),
        None => Err(ScraperError::InvalidUrl),
    }
}

} // verus!
