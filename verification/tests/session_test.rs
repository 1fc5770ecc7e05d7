use jobscraper::calendar::day_number_from_ymd;
use jobscraper::constants::BoardConfig;
use jobscraper::error::ScraperError;
use jobscraper::models::{Board, JobSearchParams, Rule, RuleReturns, Selectors, Transform};
use jobscraper::search::{SearchPhase, SearchSession};

fn text_rule(selects: &str) -> Rule {
    Rule {
        selects: selects.to_string(),
        n: None,
        returns: RuleReturns::Text,
        transforms: Transform::Identity,
    }
}

fn test_config() -> BoardConfig {
    BoardConfig {
        board: Board::Hellowork,
        name: "TestBoard".to_string(),
        base_url: "https://example.com".to_string(),
        board_path: "/jobs".to_string(),
        job_path: "/job/{id}".to_string(),
        selectors: Selectors {
            card: Rule {
                selects: "div.card".to_string(),
                n: None,
                returns: RuleReturns::Html,
                transforms: Transform::Identity,
            },
            id: Rule {
                selects: "div.card".to_string(),
                n: None,
                returns: RuleReturns::Attribute("data-id".to_string()),
                transforms: Transform::Identity,
            },
            title: text_rule("h2"),
            company: text_rule("h3"),
            location: text_rule("span.loc"),
            description: text_rule("p.desc"),
            date_posted: Rule {
                selects: "time".to_string(),
                n: None,
                returns: RuleReturns::Attribute("datetime".to_string()),
                transforms: Transform::Identity,
            },
        },
        url_params: jobscraper::models::UrlParameters {
            query: "q".to_string(),
            location: "l".to_string(),
            offset: "page".to_string(),
            radius: None,
            job_type: None,
            experience_level: None,
            date_posted: None,
        },
        cookie_popup_selector: None,
    }
}

fn test_params(limit: u32, offset: u32, single_page: bool) -> JobSearchParams {
    JobSearchParams {
        query: "rust".to_string(),
        board: Board::Hellowork,
        location: "Lyon".to_string(),
        limit,
        offset,
        single_page,
        radius: None,
        job_type: None,
        experience_level: None,
        date_posted: None,
    }
}

fn card(id: &str) -> String {
    format!(
        "<div class='card' data-id='{id}'><h2>Job {id}</h2><h3>ACME</h3>\
         <span class='loc'>Lyon</span><time datetime='2024-06-01'></time></div>"
    )
}

fn listing(ids: &[&str]) -> String {
    let cards: String = ids.iter().map(|id| card(id)).collect();
    format!("<html><body>{cards}</body></html>")
}

const DETAIL: &str = "<html><body><p class='desc'>Great job.</p></body></html>";

fn fixed_today() -> i64 {
    day_number_from_ymd(2024, 6, 10).expect("valid date")
}

/// Drives a session against a fake fetcher that serves `pages[i]` for the
/// listing page at offset `first_offset + i` (an out-of-range page is
/// empty), and a fixed detail page. Returns the finished session, the
/// number of listing fetches and the number of detail fetches.
fn drive(
    config: BoardConfig,
    params: JobSearchParams,
    pages: &[&[&str]],
) -> (SearchSession, usize, usize) {
    let first_offset = params.offset;
    let mut session = SearchSession::new(config, params, fixed_today());
    let mut listing_fetches = 0usize;
    let mut detail_fetches = 0usize;
    for _guard in 0..1000 {
        let url = match session.pending_url() {
            Some(u) => u.clone(),
            None => break,
        };
        let body = if url.contains("/job/") {
            detail_fetches += 1;
            DETAIL.to_string()
        } else {
            listing_fetches += 1;
            let page_index = (listing_fetches - 1) as u32 + first_offset;
            assert!(
                url.contains(&format!("page={page_index}")),
                "pages are fetched in increasing offset order: {url}"
            );
            let idx = (listing_fetches - 1) as usize;
            if idx < pages.len() {
                listing(pages[idx])
            } else {
                listing(&[])
            }
        };
        session = session.on_response(200, &body);
    }
    (session, listing_fetches, detail_fetches)
}

#[test]
fn pagination_terminates_on_an_empty_page() {
    // Pages 1 and 2 carry two cards each; page 3 is empty. With a limit
    // far above, the loop must collect pages 1-2 and finish Done.
    let pages: &[&[&str]] = &[&["a1", "a2"], &["b1", "b2"], &[]];
    let (session, listings, details) = drive(test_config(), test_params(100, 1, false), pages);
    assert!(matches!(session.phase, SearchPhase::Done));
    assert_eq!(listings, 3);
    assert_eq!(details, 4);
    let ids: Vec<&str> = session.jobs.iter().map(|j| j.id.as_str()).collect();
    assert_eq!(ids, ["a1", "a2", "b1", "b2"]);
}

#[test]
fn quota_stops_the_loop_and_spares_remaining_detail_pages() {
    // One page of ten cards with limit five: exactly five jobs come back
    // and no detail page is fetched for the sixth card onward.
    let pages: &[&[&str]] = &[&["c1", "c2", "c3", "c4", "c5", "c6", "c7", "c8", "c9", "c10"]];
    let (session, listings, details) = drive(test_config(), test_params(5, 0, false), pages);
    assert!(matches!(session.phase, SearchPhase::Done));
    assert_eq!(session.jobs.len(), 5);
    assert_eq!(details, 5);
    assert_eq!(listings, 1);
}

#[test]
fn jobs_carry_the_extracted_fields() {
    let pages: &[&[&str]] = &[&["a1"]];
    let (session, _, _) = drive(test_config(), test_params(10, 0, true), pages);
    assert_eq!(session.jobs.len(), 1);
    let job = &session.jobs[0];
    assert_eq!(job.id, "a1");
    assert_eq!(job.title, "Job a1");
    assert_eq!(job.company, "ACME");
    assert_eq!(job.location, "Lyon");
    assert_eq!(job.description, "Great job.");
    assert_eq!(job.date_posted, "2024-06-01");
    assert_eq!(job.url, "https://example.com/job/a1");
    assert_eq!(job.source, "TestBoard");
}

#[test]
fn single_page_mode_never_turns_the_page() {
    let pages: &[&[&str]] = &[&["a1", "a2"], &["b1"]];
    let (session, listings, details) = drive(test_config(), test_params(100, 0, true), pages);
    assert!(matches!(session.phase, SearchPhase::Done));
    assert_eq!(listings, 1);
    assert_eq!(details, 2);
    assert_eq!(session.jobs.len(), 2);
}

#[test]
fn zero_limit_finishes_without_fetching() {
    let session = SearchSession::new(test_config(), test_params(0, 0, false), fixed_today());
    assert!(matches!(session.phase, SearchPhase::Done));
    assert!(session.pending_url().is_none());
}

#[test]
fn a_rate_limit_ends_the_search_with_its_classification() {
    let session = SearchSession::new(test_config(), test_params(10, 0, false), fixed_today());
    let session = session.on_response(429, "");
    assert!(matches!(
        session.phase,
        SearchPhase::Failed(ScraperError::RateLimited)
    ));
    assert!(session.jobs.is_empty());
}

#[test]
fn a_block_ends_the_search_with_its_classification() {
    let session = SearchSession::new(test_config(), test_params(10, 0, false), fixed_today());
    let session = session.on_response(403, "");
    assert!(matches!(
        session.phase,
        SearchPhase::Failed(ScraperError::Blocked)
    ));
}

#[test]
fn any_other_bad_status_is_a_network_failure() {
    let session = SearchSession::new(test_config(), test_params(10, 0, false), fixed_today());
    let session = session.on_response(503, "");
    assert!(matches!(
        session.phase,
        SearchPhase::Failed(ScraperError::NetworkFailure(503))
    ));
}

#[test]
fn a_transport_failure_is_a_network_failure_without_status() {
    let session = SearchSession::new(test_config(), test_params(10, 0, false), fixed_today());
    let session = session.on_transport_failure();
    assert!(matches!(
        session.phase,
        SearchPhase::Failed(ScraperError::NetworkFailure(0))
    ));
}

#[test]
fn an_unparsable_card_selector_is_a_configuration_error() {
    let mut config = test_config();
    config.selectors.card.selects = "div[[".to_string();
    let session = SearchSession::new(config, test_params(10, 0, false), fixed_today());
    let session = session.on_response(200, "<html></html>");
    assert!(matches!(
        session.phase,
        SearchPhase::Failed(ScraperError::ConfigurationError)
    ));
}

#[test]
fn a_malformed_base_url_fails_before_any_fetch() {
    let mut config = test_config();
    config.base_url = "::::".to_string();
    let session = SearchSession::new(config, test_params(10, 0, false), fixed_today());
    assert!(matches!(
        session.phase,
        SearchPhase::Failed(ScraperError::InvalidUrl)
    ));
}

#[test]
fn missing_fields_become_empty_never_a_failure() {
    // Cards lacking the title, company, location and date still yield a
    // job with empty fields; only the id attribute is present.
    let mut config = test_config();
    config.selectors.description.selects = "p.nope".to_string();
    let mut session = SearchSession::new(config, test_params(10, 0, true), fixed_today());
    let listing_html =
        "<html><body><div class='card' data-id='bare'>text</div></body></html>";
    session = session.on_response(200, listing_html);
    session = session.on_response(200, DETAIL);
    assert!(matches!(session.phase, SearchPhase::Done));
    assert_eq!(session.jobs.len(), 1);
    let job = &session.jobs[0];
    assert_eq!(job.id, "bare");
    assert_eq!(job.title, "");
    assert_eq!(job.company, "");
    assert_eq!(job.location, "");
    assert_eq!(job.description, "");
    // The posting date falls back to today.
    assert_eq!(job.date_posted, "2024-06-10");
}

#[test]
fn the_linkedin_profile_drives_a_full_search() {
    // A synthetic page shaped like the LinkedIn guest API's markup: the
    // job id comes from the trailing segment of the entity URN.
    let config = jobscraper::constants::linkedin_config();
    let params = JobSearchParams {
        board: Board::Linkedin,
        ..test_params(10, 0, true)
    };
    let listing_html = "<html><body>\
        <div class='base-search-card' data-entity-urn='urn:li:jobPosting:998877'>\
        <h3 class='base-search-card__title'>Rust Engineer</h3>\
        <h4 class='base-search-card__subtitle'><a>ACME SA</a></h4>\
        <span class='job-search-card__location'>Lyon, France</span>\
        <time class='job-search-card__listdate' datetime='2024-06-03'></time>\
        </div></body></html>";
    let detail_html = "<html><body>\
        <div class='show-more-less-html__markup'>Build things in Rust.</div>\
        </body></html>";
    let mut session = SearchSession::new(config, params, fixed_today());
    let url = session.pending_url().unwrap().clone();
    assert_eq!(
        url,
        "https://www.linkedin.com/jobs-guest/jobs/api/seeMoreJobPostings/search?\
         keywords=rust&location=Lyon&start=0"
    );
    session = session.on_response(200, listing_html);
    let detail_url = session.pending_url().unwrap().clone();
    assert_eq!(
        detail_url,
        "https://www.linkedin.com/jobs-guest/jobs/api/jobPosting/998877"
    );
    session = session.on_response(200, detail_html);
    assert!(matches!(session.phase, SearchPhase::Done));
    assert_eq!(session.jobs.len(), 1);
    let job = &session.jobs[0];
    assert_eq!(job.id, "998877");
    assert_eq!(job.title, "Rust Engineer");
    assert_eq!(job.company, "ACME SA");
    assert_eq!(job.location, "Lyon, France");
    assert_eq!(job.description, "Build things in Rust.");
    assert_eq!(job.date_posted, "2024-06-03");
    assert_eq!(job.source, "Linkedin");
}

#[test]
fn the_pre_search_action_window_opens_once() {
    let mut config = test_config();
    config.cookie_popup_selector = Some("button#accept".to_string());
    let session = SearchSession::new(config, test_params(100, 0, false), fixed_today());
    assert!(session.needs_pre_search());
    let session = session.note_pre_search_done();
    assert!(!session.needs_pre_search());
    // Even without an explicit note, reading the first page spends the
    // window: the next listing page asks for no action.
    let mut config2 = test_config();
    config2.cookie_popup_selector = Some("button#accept".to_string());
    let session2 = SearchSession::new(config2, test_params(100, 0, false), fixed_today());
    let session2 = session2.on_response(200, &listing(&["a1"]));
    let session2 = session2.on_response(200, DETAIL);
    // Back on a listing fetch (page 2), the window is spent.
    assert!(matches!(session2.phase, SearchPhase::FetchListing { .. }));
    assert!(!session2.needs_pre_search());
}
