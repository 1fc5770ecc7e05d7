//! The bridge to the HTML engine. A parsed page never crosses this
//! boundary: selection runs behind trusted wrappers that hand back, per
//! matched element, the plain values a rule can ask for.

use vstd::prelude::*;

verus! {

/// What one matched element yields, as plain values: its text nodes joined
/// with newlines, the value of the rule's attribute (when the element has
/// it), and its serialized outer and inner markup.
pub struct ElementMatch {
    pub text: String,
    pub attr: Option<String>,
    pub outer: String,
    pub inner: String,
}

/// The mathematical view of one matched element.
pub ghost struct MatchView {
    pub text: Seq<char>,
    pub attr: Option<Seq<char>>,
    pub outer: Seq<char>,
    pub inner: Seq<char>,
}

impl View for ElementMatch {
    type V = MatchView;

    open spec fn view(&self) -> MatchView {
        MatchView {
            text: self.text@,
            attr: match self.attr {
                Some(a) => Some(a@),
                None => None,
            },
            outer: self.outer@,
            inner: self.inner@,
        }
    }
}

/// The views of a sequence of matched elements.
pub open spec fn views_of(v: Seq<ElementMatch>) -> Seq<MatchView> {
    v.map_values(|m: ElementMatch| m@)
}

/// Relies on scraper's `Selector::parse`: whether a selector string is
/// syntactically valid CSS, a function of the string alone.
pub uninterp spec fn selector_ok(selector: Seq<char>) -> bool;

/// Relies on scraper's `Html::parse_document` and selection: the elements
/// of the parsed document matching a selector, in document order, read
/// through the accessors named on [`select_in_document`]. A function of
/// the three strings alone.
pub uninterp spec fn document_matches(html: Seq<char>, selector: Seq<char>, attr: Seq<char>) -> Seq<
    MatchView,
>;

/// Relies on scraper's `Html::parse_fragment` and selection, as
/// [`document_matches`] does for documents.
pub uninterp spec fn fragment_matches(html: Seq<char>, selector: Seq<char>, attr: Seq<char>) -> Seq<
    MatchView,
>;

/// Relies on scraper's `Selector::parse`, `Html::parse_document`,
/// `Html::select`, and the `ElementRef` accessors `text`, `attr`, `html`
/// and `inner_html`. Parsing and selection are pure functions of the HTML
/// and selector strings; elements come back in document order. `None`
/// exactly when the selector does not parse.
#[verifier::external_body]
pub(crate) fn select_in_document(html: &str, selector: &str, attr: &str) -> (r: Option<
    Vec<ElementMatch>,
>)
    ensures
        r is Some <==> selector_ok(selector@),
        r matches Some(v) ==> views_of(v@) == document_matches(html@, selector@, attr@),
{
    let sel = scraper::Selector::parse(selector).ok()?;
    let doc = scraper::Html::parse_document(html);
    Some(doc.select(&sel).map(|el| ElementMatch {
        text: el.text().collect::<Vec<_>>().join("\n"),
        attr: el.attr(attr).map(|v| v.to_string()),
        outer: el.html(),
        inner: el.inner_html(),
    }).collect())
}

/// Relies on scraper's `Selector::parse`, `Html::parse_fragment`,
/// `Html::select`, and the `ElementRef` accessors `text`, `attr`, `html`
/// and `inner_html`, as [`select_in_document`] does for documents.
#[verifier::external_body]
pub(crate) fn select_in_fragment(html: &str, selector: &str, attr: &str) -> (r: Option<
    Vec<ElementMatch>,
>)
    ensures
        r is Some <==> selector_ok(selector@),
        r matches Some(v) ==> views_of(v@) == fragment_matches(html@, selector@, attr@),
{
    let sel = scraper::Selector::parse(selector).ok()?;
    let doc = scraper::Html::parse_fragment(html);
    Some(doc.select(&sel).map(|el| ElementMatch {
        text: el.text().collect::<Vec<_>>().join("\n"),
        attr: el.attr(attr).map(|v| v.to_string()),
        outer: el.html(),
        inner: el.inner_html(),
    }).collect())
}

} // verus!
