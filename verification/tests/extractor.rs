use jobscraper::calendar::day_number_from_ymd;
use jobscraper::extract::{card_fragments, extract, extract_fragment};
use jobscraper::models::{Rule, RuleReturns, Transform};

fn text_rule(selects: &str, n: Option<(usize, usize)>) -> Rule {
    Rule {
        selects: selects.to_string(),
        n,
        returns: RuleReturns::Text,
        transforms: Transform::Identity,
    }
}

fn fixed_today() -> i64 {
    day_number_from_ymd(2024, 6, 10).expect("valid date")
}

#[test]
fn text_rule_takes_first_match_by_default() {
    let html = "<html><body><ul><li>one</li><li>two</li><li>three</li></ul></body></html>";
    let rule = text_rule("li", None);
    assert_eq!(extract(html, &rule, fixed_today()), Some("one".to_string()));
}

#[test]
fn range_end_is_clamped_to_match_count() {
    let html = "<html><body><ul><li>one</li><li>two</li><li>three</li></ul></body></html>";
    let rule = text_rule("li", Some((0, 5)));
    assert_eq!(
        extract(html, &rule, fixed_today()),
        Some("one\n\ntwo\n\nthree".to_string())
    );
}

#[test]
fn range_start_is_clamped_too() {
    let html = "<html><body><ul><li>one</li><li>two</li></ul></body></html>";
    let rule = text_rule("li", Some((7, 9)));
    // Both bounds collapse to the match count: an empty slice joins to "".
    assert_eq!(extract(html, &rule, fixed_today()), Some("".to_string()));
}

#[test]
fn range_selects_a_middle_slice() {
    let html = "<html><body><ul><li>one</li><li>two</li><li>three</li></ul></body></html>";
    let rule = text_rule("li", Some((1, 2)));
    assert_eq!(extract(html, &rule, fixed_today()), Some("two".to_string()));
}

#[test]
fn zero_matches_yield_no_value_not_an_error() {
    let html = "<html><body><p>text</p></body></html>";
    let rule = text_rule("div.nothing-here", None);
    assert_eq!(extract(html, &rule, fixed_today()), None);
}

#[test]
fn invalid_selector_yields_no_value() {
    let html = "<html><body><p>text</p></body></html>";
    let rule = text_rule("p[[", None);
    assert_eq!(extract(html, &rule, fixed_today()), None);
}

#[test]
fn extraction_is_idempotent_on_an_immutable_document() {
    let html = "<html><body><ul><li> padded </li><li>two</li></ul></body></html>";
    let rule = text_rule("li", Some((0, 2)));
    let first = extract(html, &rule, fixed_today());
    let second = extract(html, &rule, fixed_today());
    assert_eq!(first, second);
    assert_eq!(first, Some("padded\n\ntwo".to_string()));
}

#[test]
fn elements_lacking_the_attribute_are_skipped() {
    let html = "<html><body><a href='x'>A</a><a>B</a><a href='y'>C</a></body></html>";
    let rule = Rule {
        selects: "a".to_string(),
        n: Some((0, 3)),
        returns: RuleReturns::Attribute("href".to_string()),
        transforms: Transform::Identity,
    };
    assert_eq!(extract(html, &rule, fixed_today()), Some("x\n\ny".to_string()));
}

#[test]
fn html_kind_takes_inner_markup() {
    let html = "<html><body><div id='d'><b>hi</b> there</div></body></html>";
    let rule = Rule {
        selects: "div#d".to_string(),
        n: None,
        returns: RuleReturns::Html,
        transforms: Transform::Identity,
    };
    assert_eq!(
        extract(html, &rule, fixed_today()),
        Some("<b>hi</b> there".to_string())
    );
}

#[test]
fn text_is_trimmed_per_element() {
    let html = "<html><body><p>  hello world\t</p></body></html>";
    let rule = text_rule("p", None);
    assert_eq!(extract(html, &rule, fixed_today()), Some("hello world".to_string()));
}

#[test]
fn trailing_segment_transform_applies_per_value() {
    let html = "<html><body><div data-urn='urn:li:jobPosting:42'>x</div></body></html>";
    let rule = Rule {
        selects: "div".to_string(),
        n: None,
        returns: RuleReturns::Attribute("data-urn".to_string()),
        transforms: Transform::TrailingColonSegment,
    };
    assert_eq!(extract(html, &rule, fixed_today()), Some("42".to_string()));
}

#[test]
fn relative_date_transform_normalizes_inside_extract() {
    let html = "<html><body><span class='age'>il y a 2 semaines</span></body></html>";
    let rule = Rule {
        selects: "span.age".to_string(),
        n: None,
        returns: RuleReturns::Text,
        transforms: Transform::RelativeFrenchDate,
    };
    assert_eq!(
        extract(html, &rule, fixed_today()),
        Some("2024-05-27".to_string())
    );
}

#[test]
fn fragment_extraction_reads_a_card() {
    let card = "<div class='card' data-id='a1'><h2>Job a1</h2></div>";
    let id_rule = Rule {
        selects: "div.card".to_string(),
        n: None,
        returns: RuleReturns::Attribute("data-id".to_string()),
        transforms: Transform::Identity,
    };
    assert_eq!(extract_fragment(card, &id_rule, fixed_today()), Some("a1".to_string()));
    let title_rule = text_rule("h2", None);
    assert_eq!(
        extract_fragment(card, &title_rule, fixed_today()),
        Some("Job a1".to_string())
    );
}

#[test]
fn card_fragments_lists_outer_markup_in_document_order() {
    let html = "<html><body>\
        <div class='card' data-id='a'>first</div>\
        <p>noise</p>\
        <div class='card' data-id='b'>second</div>\
        </body></html>";
    let cards = card_fragments(html, "div.card").expect("selector parses");
    assert_eq!(cards.len(), 2);
    assert_eq!(cards[0], "<div class=\"card\" data-id=\"a\">first</div>");
    assert_eq!(cards[1], "<div class=\"card\" data-id=\"b\">second</div>");
}

#[test]
fn card_fragments_rejects_a_bad_selector() {
    assert!(card_fragments("<html></html>", "div[[").is_none());
}

#[test]
fn card_fragments_is_empty_when_nothing_matches() {
    let cards = card_fragments("<html><body><p>x</p></body></html>", "div.card").unwrap();
    assert!(cards.is_empty());
}
