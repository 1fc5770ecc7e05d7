//! Per-board profiles: static configuration for each supported job board,
//! built once and shared read-only by every search.

use vstd::prelude::*;
use vstd::string::StringExecFns;

use crate::models::{Board, Rule, RuleReturns, Selectors, Transform, UrlParameters};

verus! {

/// Static, per-board configuration: which board it is, its base URL, the
/// path templates for the listing and detail pages, the extraction rules
/// for each field, the query-parameter name mapping, and the selector of a
/// cookie-consent button to dismiss before the first read (if the board
/// shows one).
pub struct BoardConfig {
    pub board: Board,
    pub name: String,
    pub base_url: String,
    pub board_path: String,
    pub job_path: String,
    pub selectors: Selectors,
    pub url_params: UrlParameters,
    pub cookie_popup_selector: Option<String>,
}

fn rule(selects: &str, n: Option<(usize, usize)>, kind: RuleReturns, transforms: Transform) -> (r:
    Rule)
    ensures
        r.selects@ == selects@,
        r.n == n,
        r.returns == kind,
        r.transforms == transforms,
{
    Rule { selects: selects.to_owned(), n, returns: kind, transforms }
}

/// The Hellowork profile: French listing pages, with relative posting
/// dates ("il y a 2 semaines") normalized by the relative-date transform,
/// and a cookie-consent button to dismiss on the first page.
pub fn hellowork_config() -> (r: BoardConfig)
    ensures
        r.board is Hellowork,
        r.name@ == "Hellowork"@,
        r.base_url@ == "https://www.hellowork.com/fr-fr"@,
        r.board_path@ == "/emploi/recherche.html"@,
        r.job_path@ == "/emplois/{id}.html"@,
        r.url_params.query@ == "k"@,
        r.url_params.location@ == "l"@,
        r.url_params.offset@ == "p"@,
        r.url_params.radius is None,
        r.url_params.job_type is None,
        r.url_params.experience_level is None,
        r.url_params.date_posted is None,
        r.cookie_popup_selector is Some,
        r.selectors.card.returns is Html,
        r.selectors.date_posted.transforms is RelativeFrenchDate,
        r.selectors.id.transforms is Identity,
{
    BoardConfig {
        board: Board::Hellowork,
        name: "Hellowork".to_owned(),
        base_url: "https://www.hellowork.com/fr-fr".to_owned(),
        board_path: "/emploi/recherche.html".to_owned(),
        job_path: "/emplois/{id}.html".to_owned(),
        selectors: Selectors {
            card: rule(
                "div[data-id-storage-target='item']",
                None,
                RuleReturns::Html,
                Transform::Identity,
            ),
            id: rule(
                "div[data-id-storage-target='item']",
                None,
                RuleReturns::Attribute("data-id-storage-item-id".to_owned()),
                Transform::Identity,
            ),
            title: rule(
                "h3.tw-inline p:first-of-type",
                None,
                RuleReturns::Text,
                Transform::Identity,
            ),
            company: rule(
                "h3.tw-inline p:last-of-type",
                None,
                RuleReturns::Text,
                Transform::Identity,
            ),
            location: rule(
                "div[data-cy='localisationCard']",
                None,
                RuleReturns::Text,
                Transform::Identity,
            ),
            description: rule(
                "div#offer-panel p",
                Some((0, 3)),
                RuleReturns::Text,
                Transform::Identity,
            ),
            date_posted: rule(
                "div[class='tw-typo-s tw-text-grey-500 tw-pl-1 tw-pt-1']",
                None,
                RuleReturns::Text,
                Transform::RelativeFrenchDate,
            ),
        },
        url_params: UrlParameters {
            query: "k".to_owned(),
            location: "l".to_owned(),
            offset: "p".to_owned(),
            radius: None,
            job_type: None,
            experience_level: None,
            date_posted: None,
        },
        cookie_popup_selector: Some("button#hw-cc-notice-accept-btn".to_owned()),
    }
}

/// The LinkedIn profile: the guest jobs API, with the job id derived from
/// the trailing segment of the card's entity URN, and optional filters
/// mapped to its `f_JT`, `f_E` and `f_TPR` parameters.
pub fn linkedin_config() -> (r: BoardConfig)
    ensures
        r.board is Linkedin,
        r.name@ == "Linkedin"@,
        r.base_url@ == "https://www.linkedin.com"@,
        r.board_path@ == "/jobs-guest/jobs/api/seeMoreJobPostings/search?"@,
        r.job_path@ == "/jobs-guest/jobs/api/jobPosting/{id}"@,
        r.url_params.query@ == "keywords"@,
        r.url_params.location@ == "location"@,
        r.url_params.offset@ == "start"@,
        r.url_params.radius matches Some(s) && s@ == "distance"@,
        r.url_params.job_type matches Some(s) && s@ == "f_JT"@,
        r.url_params.experience_level matches Some(s) && s@ == "f_E"@,
        r.url_params.date_posted matches Some(s) && s@ == "f_TPR"@,
        r.cookie_popup_selector is None,
        r.selectors.card.returns is Html,
        r.selectors.id.transforms is TrailingColonSegment,
        r.selectors.date_posted.transforms is Identity,
{
    BoardConfig {
        board: Board::Linkedin,
        name: "Linkedin".to_owned(),
        base_url: "https://www.linkedin.com".to_owned(),
        board_path: "/jobs-guest/jobs/api/seeMoreJobPostings/search?".to_owned(),
        job_path: "/jobs-guest/jobs/api/jobPosting/{id}".to_owned(),
        selectors: Selectors {
            card: rule("div.base-search-card", None, RuleReturns::Html, Transform::Identity),
            id: rule(
                "div.base-search-card",
                None,
                RuleReturns::Attribute("data-entity-urn".to_owned()),
                Transform::TrailingColonSegment,
            ),
            title: rule(
                "h3.base-search-card__title",
                None,
                RuleReturns::Text,
                Transform::Identity,
            ),
            company: rule(
                "h4.base-search-card__subtitle a",
                None,
                RuleReturns::Text,
                Transform::Identity,
            ),
            location: rule(
                "span.job-search-card__location",
                None,
                RuleReturns::Text,
                Transform::Identity,
            ),
            description: rule(
                "div.show-more-less-html__markup",
                None,
                RuleReturns::Text,
                Transform::Identity,
            ),
            date_posted: rule(
                "time.job-search-card__listdate",
                None,
                RuleReturns::Attribute("datetime".to_owned()),
                Transform::Identity,
            ),
        },
        url_params: UrlParameters {
            query: "keywords".to_owned(),
            location: "location".to_owned(),
            offset: "start".to_owned(),
            radius: Some("distance".to_owned()),
            job_type: Some("f_JT".to_owned()),
            experience_level: Some("f_E".to_owned()),
            date_posted: Some("f_TPR".to_owned()),
        },
        cookie_popup_selector: None,
    }
}

/// The profile for a board identifier (`All` gets the first concrete
/// board's profile, matching the default profile a scraper starts with).
pub fn config_for_board(board: &Board) -> (r: BoardConfig)
    ensures
        board is Hellowork ==> r.board is Hellowork,
        board is Linkedin ==> r.board is Linkedin,
        board is All ==> r.board is Hellowork,
{
    match board {
        Board::Hellowork => hellowork_config(),
        Board::Linkedin => linkedin_config(),
        Board::All => hellowork_config(),
    }
}

} // verus!
