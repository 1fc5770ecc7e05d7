//! The extractor: applying one declarative rule to a document (or a card
//! fragment) and joining the extracted, transformed values into one
//! normalized string. Purely functional over its inputs.

use vstd::prelude::*;
use vstd::string::StringExecFns;

use crate::dom::{
    document_matches, fragment_matches, select_in_document, select_in_fragment, selector_ok,
    views_of, ElementMatch, MatchView,
};
use crate::models::{Rule, RuleReturns, Transform};
use crate::strutil::{trim_spec, trim_str, lower_of};
use crate::transforms::{
    hellowork_date_on, linkedin_id, relative_date_string_spec, trailing_segment_spec,
};

verus! {

/// The attribute name a rule reads, or the empty string for rules that do
/// not read one.
pub open spec fn rule_attr_spec(rule: Rule) -> Seq<char> {
    match rule.returns {
        RuleReturns::Attribute(a) => a@,
        _ => Seq::empty(),
    }
}

fn rule_attr(rule: &Rule) -> (a: &str)
    ensures
        a@ == rule_attr_spec(*rule),
{
    match &rule.returns {
        RuleReturns::Attribute(name) => name.as_str(),
        _ => {
            proof {
                reveal_strlit("");
            }
            assert(""@ =~= Seq::<char>::empty());
            ""
        },
    }
}

/// The effective element range of a rule over `count` matches: an absent
/// range means the first match only, and a present range is clamped so
/// that `0 <= start <= end <= count` always holds.
pub open spec fn clamped_range(n: Option<(usize, usize)>, count: int) -> (int, int) {
    match n {
        None => (0int, if count < 1 { count } else { 1int }),
        Some((s, e)) => {
            let end = if e as int <= count { e as int } else { count };
            let start = if s as int <= end { s as int } else { end };
            (start, end)
        },
    }
}

/// The effective range never reaches past the match count: whatever range
/// a rule declares, clamping yields `0 <= start <= end <= count`, so
/// selecting the range can never index out of bounds.
pub proof fn lemma_range_clamped(n: Option<(usize, usize)>, count: int)
    requires
        count >= 0,
    ensures
        0 <= clamped_range(n, count).0 <= clamped_range(n, count).1 <= count,
{
}

/// The values the rule's return kind picks out of a slice of matches:
/// trimmed text, the named attribute where the element has one (elements
/// lacking it contribute nothing), or the inner markup.
pub open spec fn kind_values(ms: Seq<MatchView>, kind: RuleReturns) -> Seq<Seq<char>>
    decreases ms.len(),
{
    if ms.len() == 0 {
        Seq::empty()
    } else {
        let init = kind_values(ms.drop_last(), kind);
        let m = ms.last();
        match kind {
            RuleReturns::Text => init.push(trim_spec(m.text)),
            RuleReturns::Attribute(_) => match m.attr {
                Some(a) => init.push(a),
                None => init,
            },
            RuleReturns::Html => init.push(m.inner),
        }
    }
}

/// A rule's transform applied to one extracted value.
pub open spec fn apply_transform_spec(t: Transform, v: Seq<char>, today: int) -> Seq<char> {
    match t {
        Transform::Identity => v,
        Transform::RelativeFrenchDate => relative_date_string_spec(lower_of(trim_spec(v)), today),
        Transform::TrailingColonSegment => trailing_segment_spec(v),
    }
}

/// A rule's transform applied to each extracted value independently.
pub open spec fn transformed_values(vs: Seq<Seq<char>>, t: Transform, today: int) -> Seq<
    Seq<char>,
> {
    vs.map_values(|v: Seq<char>| apply_transform_spec(t, v, today))
}

/// The views of a sequence of strings.
pub open spec fn string_views(v: Seq<String>) -> Seq<Seq<char>> {
    v.map_values(|s: String| s@)
}

proof fn lemma_transformed_push(vs: Seq<Seq<char>>, x: Seq<char>, t: Transform, today: int)
    ensures
        transformed_values(vs.push(x), t, today) =~= transformed_values(vs, t, today).push(
            apply_transform_spec(t, x, today),
        ),
{
    let a = transformed_values(vs.push(x), t, today);
    let b = transformed_values(vs, t, today).push(apply_transform_spec(t, x, today));
    assert forall|j: int| 0 <= j < a.len() implies a[j] == b[j] by {
        if j < vs.len() {
            assert(vs.push(x)[j] == vs[j]);
        } else {
            assert(vs.push(x)[j] == x);
        }
    }
}

proof fn lemma_string_views_push(v: Seq<String>, s: String)
    ensures
        string_views(v.push(s)) =~= string_views(v).push(s@),
{
    let a = string_views(v.push(s));
    let b = string_views(v).push(s@);
    assert forall|j: int| 0 <= j < a.len() implies a[j] == b[j] by {
        if j < v.len() {
            assert(v.push(s)[j] == v[j]);
        } else {
            assert(v.push(s)[j] == s);
        }
    }
}

/// The values joined with a separator between consecutive values.
pub open spec fn join_sep(vs: Seq<Seq<char>>, sep: Seq<char>) -> Seq<char>
    decreases vs.len(),
{
    if vs.len() == 0 {
        Seq::empty()
    } else if vs.len() == 1 {
        vs[0]
    } else {
        join_sep(vs.drop_last(), sep) + sep + vs.last()
    }
}

/// The whole extraction pipeline over a match list: no matches yield "no
/// value"; otherwise the clamped range is selected, values are picked per
/// return kind, transformed, and joined with blank lines.
pub open spec fn extract_from_matches(ms: Seq<MatchView>, rule: Rule, today: int) -> Option<
    Seq<char>,
> {
    if ms.len() == 0 {
        None
    } else {
        let r = clamped_range(rule.n, ms.len() as int);
        let slice = ms.subrange(r.0, r.1);
        let vs = transformed_values(kind_values(slice, rule.returns), rule.transforms, today);
        Some(join_sep(vs, "\n\n"@))
    }
}

/// A rule over a document with zero matches extracts "no value" — never an
/// error, whatever the rule's range, kind or transform.
pub proof fn lemma_empty_matches_no_value(ms: Seq<MatchView>, rule: Rule, today: int)
    requires
        ms.len() == 0,
    ensures
        extract_from_matches(ms, rule, today) is None,
{
}

/// What [`extract`] returns: "no value" when the selector does not parse
/// or nothing matches, else the extraction pipeline's result.
pub open spec fn spec_extract(html: Seq<char>, rule: Rule, today: int) -> Option<Seq<char>> {
    if !selector_ok(rule.selects@) {
        None
    } else {
        extract_from_matches(document_matches(html, rule.selects@, rule_attr_spec(rule)), rule, today)
    }
}

/// What [`extract_fragment`] returns, over a fragment parse.
pub open spec fn spec_extract_fragment(html: Seq<char>, rule: Rule, today: int) -> Option<
    Seq<char>,
> {
    if !selector_ok(rule.selects@) {
        None
    } else {
        extract_from_matches(fragment_matches(html, rule.selects@, rule_attr_spec(rule)), rule, today)
    }
}

/// Extraction is a pure function of the document, the rule and the day:
/// two extractions from the same immutable inputs yield identical output.
pub proof fn lemma_extract_idempotent(
    html: Seq<char>,
    rule: Rule,
    today: int,
    r1: Option<Seq<char>>,
    r2: Option<Seq<char>>,
)
    requires
        r1 == spec_extract(html, rule, today),
        r2 == spec_extract(html, rule, today),
    ensures
        r1 == r2,
{
}

fn apply_transform(t: &Transform, v: &str, today: i64) -> (r: String)
    ensures
        r@ == apply_transform_spec(*t, v@, today as int),
{
    match t {
        Transform::Identity => v.to_owned(),
        Transform::RelativeFrenchDate => hellowork_date_on(v, today),
        Transform::TrailingColonSegment => linkedin_id(v),
    }
}

#[verifier::loop_isolation(false)]
fn extract_values(ms: &Vec<ElementMatch>, rule: &Rule, today: i64) -> (r: Option<String>)
    ensures
        match r {
            Some(s) => extract_from_matches(views_of(ms@), *rule, today as int) == Some(s@),
            None => extract_from_matches(views_of(ms@), *rule, today as int) is None,
        },
{
    let count = ms.len();
    if count == 0 {
        return None;
    }
    let ghost mvs = views_of(ms@);
    let (start, end): (usize, usize) = match rule.n {
        None => (0, 1),
        Some((s, e)) => {
            let e2 = if e <= count {
                e
            } else {
                count
            };
            let s2 = if s <= e2 {
                s
            } else {
                e2
            };
            (s2, e2)
        },
    };
    assert((start as int, end as int) == clamped_range(rule.n, mvs.len() as int));
    let ghost slice = mvs.subrange(start as int, end as int);
    let mut values: Vec<String> = Vec::new();
    let mut i: usize = start;
    while i < end
        invariant
            start <= i <= end,
            string_views(values@) =~= transformed_values(
                kind_values(slice.take(i - start), rule.returns),
                rule.transforms,
                today as int,
            ),
        decreases end - i,
    {
        let m = &ms[i];
        let ghost cur = slice.take(i - start);
        let ghost nxt = slice.take(i + 1 - start);
        let ghost mv = mvs[i as int];
        proof {
            assert(nxt.drop_last() =~= cur);
            assert(nxt.last() == mv);
            assert(mv == ms@[i as int]@);
        }
        match &rule.returns {
            RuleReturns::Text => {
                let tv = trim_str(m.text.as_str());
                let av = apply_transform(&rule.transforms, tv.as_str(), today);
                let ghost prev = values@;
                values.push(av);
                proof {
                    assert(kind_values(nxt, rule.returns) == kind_values(cur, rule.returns).push(
                        trim_spec(mv.text),
                    ));
                    lemma_transformed_push(
                        kind_values(cur, rule.returns),
                        trim_spec(mv.text),
                        rule.transforms,
                        today as int,
                    );
                    lemma_string_views_push(prev, av);
                }
            },
            RuleReturns::Attribute(_) => {
                match &m.attr {
                    Some(a) => {
                        let av = apply_transform(&rule.transforms, a.as_str(), today);
                        let ghost prev = values@;
                        values.push(av);
                        proof {
                            assert(mv.attr == Some(a@));
                            assert(kind_values(nxt, rule.returns) == kind_values(
                                cur,
                                rule.returns,
                            ).push(a@));
                            lemma_transformed_push(
                                kind_values(cur, rule.returns),
                                a@,
                                rule.transforms,
                                today as int,
                            );
                            lemma_string_views_push(prev, av);
                        }
                    },
                    None => {
                        proof {
                            assert(mv.attr is None);
                            assert(kind_values(nxt, rule.returns) == kind_values(
                                cur,
                                rule.returns,
                            ));
                        }
                    },
                }
            },
            RuleReturns::Html => {
                let av = apply_transform(&rule.transforms, m.inner.as_str(), today);
                let ghost prev = values@;
                values.push(av);
                proof {
                    assert(kind_values(nxt, rule.returns) == kind_values(cur, rule.returns).push(
                        mv.inner,
                    ));
                    lemma_transformed_push(
                        kind_values(cur, rule.returns),
                        mv.inner,
                        rule.transforms,
                        today as int,
                    );
                    lemma_string_views_push(prev, av);
                }
            },
        }
        i = i + 1;
    }
    proof {
        assert(slice.take(end - start) =~= slice);
    }
    let ghost vs = transformed_values(kind_values(slice, rule.returns), rule.transforms, today as int);
    let mut out = String::new();
    let mut k: usize = 0;
    while k < values.len()
        invariant
            0 <= k <= values.len(),
            string_views(values@) =~= vs,
            out@ =~= join_sep(vs.take(k as int), "\n\n"@),
        decreases values.len() - k,
    {
        if k > 0 {
            out.append("\n\n");
        }
        out.append(values[k].as_str());
        proof {
            assert(vs.take(k + 1).drop_last() =~= vs.take(k as int));
            assert(vs.take(k + 1).last() == vs[k as int]);
            assert(vs[k as int] == string_views(values@)[k as int]);
            assert(string_views(values@)[k as int] == values@[k as int]@);
        }
        k = k + 1;
    }
    proof {
        assert(vs.take(values@.len() as int) =~= vs);
    }
    Some(out)
}

/// Applies one rule to a whole HTML document: "no value" when the selector
/// does not parse or nothing matches; otherwise the matched elements in
/// the rule's clamped range, read per its return kind, transformed, and
/// joined with blank lines. Purely functional over its inputs.
pub fn extract(html: &str, rule: &Rule, today: i64) -> (r: Option<String>)
    ensures
        match r {
            Some(s) => spec_extract(html@, *rule, today as int) == Some(s@),
            None => spec_extract(html@, *rule, today as int) is None,
        },
        selector_ok(rule.selects@) && document_matches(
            html@,
            rule.selects@,
            rule_attr_spec(*rule),
        ).len() == 0 ==> r is None,
{
    let attr = rule_attr(rule);
    match select_in_document(html, rule.selects.as_str(), attr) {
        None => None,
        Some(ms) => extract_values(&ms, rule, today),
    }
}

/// Applies one rule to an HTML fragment (a job card), as [`extract`] does
/// to a document.
pub fn extract_fragment(html: &str, rule: &Rule, today: i64) -> (r: Option<String>)
    ensures
        match r {
            Some(s) => spec_extract_fragment(html@, *rule, today as int) == Some(s@),
            None => spec_extract_fragment(html@, *rule, today as int) is None,
        },
        selector_ok(rule.selects@) && fragment_matches(
            html@,
            rule.selects@,
            rule_attr_spec(*rule),
        ).len() == 0 ==> r is None,
{
    let attr = rule_attr(rule);
    match select_in_fragment(html, rule.selects.as_str(), attr) {
        None => None,
        Some(ms) => extract_values(&ms, rule, today),
    }
}

/// The serialized card fragments a listing page yields: the outer markup
/// of every element matching the card selector, in document order.
pub open spec fn cards_spec(html: Seq<char>, selector: Seq<char>) -> Seq<Seq<char>> {
    document_matches(html, selector, Seq::empty()).map_values(|m: MatchView| m.outer)
}

/// Extracts every job card from a listing page: the serialized markup of
/// each element matching the card selector, in document order. `None`
/// exactly when the selector does not parse.
#[verifier::loop_isolation(false)]
pub fn card_fragments(html: &str, card_selector: &str) -> (r: Option<Vec<String>>)
    ensures
        r is Some <==> selector_ok(card_selector@),
        r matches Some(v) ==> v@.map_values(|s: String| s@) == cards_spec(html@, card_selector@),
{
    proof {
        reveal_strlit("");
    }
    assert(""@ =~= Seq::<char>::empty());
    match select_in_document(html, card_selector, "") {
        None => None,
        Some(ms) => {
            let ghost mvs = views_of(ms@);
            let mut out: Vec<String> = Vec::new();
            let mut i: usize = 0;
            while i < ms.len()
                invariant
                    0 <= i <= ms.len(),
                    out@.len() == i,
                    forall|j: int| 0 <= j < i ==> #[trigger] out@[j]@ == mvs[j].outer,
                decreases ms.len() - i,
            {
                out.push(ms[i].outer.clone());
                proof {
                    assert(mvs[i as int] == ms@[i as int]@);
                }
                i = i + 1;
            }
            proof {
                let lhs = out@.map_values(|s: String| s@);
                let rhs = cards_spec(html@, card_selector@);
                assert forall|j: int| 0 <= j < lhs.len() implies lhs[j] == rhs[j] by {
                    assert(out@[j]@ == mvs[j].outer);
                }
                assert(lhs =~= rhs);
            }
            Some(out)
        },
    }
}

} // verus!
