use jobscraper::constants::{hellowork_config, linkedin_config};
use jobscraper::error::{classify_status, ScraperError};
use jobscraper::models::{Board, DatePosted, ExperienceLevel, JobSearchParams, JobType, PageQuery};
use jobscraper::urls::{build_board_url, build_job_url, build_url, form_encode, path_encode};
use jobscraper::{indeed, linkedin};

fn base_params() -> JobSearchParams {
    JobSearchParams {
        query: "dev rust".to_string(),
        board: Board::Hellowork,
        location: "Lyon".to_string(),
        limit: 10,
        offset: 0,
        single_page: false,
        radius: None,
        job_type: None,
        experience_level: None,
        date_posted: None,
    }
}

#[test]
fn hellowork_listing_url_is_exact() {
    let url = build_board_url(&hellowork_config(), &base_params(), Some(2)).unwrap();
    assert_eq!(
        url,
        "https://www.hellowork.com/emploi/recherche.html?k=dev+rust&l=Lyon&p=2"
    );
}

#[test]
fn unsupplied_optional_parameters_are_never_emitted() {
    // LinkedIn names parameters for every optional filter; with none
    // supplied the URL must carry only the query, location and offset.
    let url = build_board_url(&linkedin_config(), &base_params(), Some(0)).unwrap();
    assert_eq!(
        url,
        "https://www.linkedin.com/jobs-guest/jobs/api/seeMoreJobPostings/search?keywords=dev+rust&location=Lyon&start=0"
    );
    assert!(!url.contains("f_JT"));
    assert!(!url.contains("f_E="));
    assert!(!url.contains("f_TPR"));
    assert!(!url.contains("distance"));
}

#[test]
fn supplied_filters_are_mapped_to_board_codes() {
    let params = JobSearchParams {
        radius: Some(25),
        job_type: Some(JobType::FullTime),
        experience_level: Some(ExperienceLevel::MidSenior),
        date_posted: Some(DatePosted::PastWeek),
        ..base_params()
    };
    let url = build_board_url(&linkedin_config(), &params, Some(0)).unwrap();
    assert_eq!(
        url,
        "https://www.linkedin.com/jobs-guest/jobs/api/seeMoreJobPostings/search?\
         keywords=dev+rust&location=Lyon&distance=25&start=0&f_JT=F&f_E=4&f_TPR=r604800"
    );
}

#[test]
fn boards_without_parameter_names_omit_supplied_filters() {
    // Hellowork names no optional parameters: supplied filters must not
    // leak into its URL.
    let params = JobSearchParams {
        job_type: Some(JobType::FullTime),
        date_posted: Some(DatePosted::PastDay),
        ..base_params()
    };
    let url = build_board_url(&hellowork_config(), &params, Some(0)).unwrap();
    assert_eq!(
        url,
        "https://www.hellowork.com/emploi/recherche.html?k=dev+rust&l=Lyon&p=0"
    );
}

#[test]
fn detail_url_substitutes_the_escaped_job_id() {
    let url = build_job_url(&hellowork_config(), "1234").unwrap();
    assert_eq!(url, "https://www.hellowork.com/emplois/1234.html");
    let url = build_job_url(&hellowork_config(), "a b/c").unwrap();
    assert_eq!(url, "https://www.hellowork.com/emplois/a%20b%2Fc.html");
}

#[test]
fn malformed_base_urls_are_fatal_for_the_board() {
    let mut config = hellowork_config();
    config.base_url = "not a url".to_string();
    assert!(matches!(
        build_board_url(&config, &base_params(), Some(0)),
        Err(ScraperError::InvalidUrl)
    ));
    assert!(matches!(
        build_job_url(&config, "1"),
        Err(ScraperError::InvalidUrl)
    ));
}

#[test]
fn form_encoding_matches_the_urlencoded_rules() {
    assert_eq!(form_encode("a b"), "a+b");
    assert_eq!(form_encode("a&b=c"), "a%26b%3Dc");
    assert_eq!(form_encode("x*-._z09AZ"), "x*-._z09AZ");
    assert_eq!(form_encode("é"), "%C3%A9");
}

#[test]
fn path_encoding_escapes_spaces_as_percent_sequences() {
    assert_eq!(path_encode("a b"), "a%20b");
    assert_eq!(path_encode("a~b-c._"), "a~b-c._");
    assert_eq!(path_encode("a/b"), "a%2Fb");
}

#[test]
fn page_queries_dispatch_to_the_right_builder() {
    let config = hellowork_config();
    let params = base_params();
    let listing = build_url(&config, PageQuery::Board(&params), Some(1)).unwrap();
    assert_eq!(
        listing,
        "https://www.hellowork.com/emploi/recherche.html?k=dev+rust&l=Lyon&p=1"
    );
    let detail = build_url(&config, PageQuery::Job("77"), None).unwrap();
    assert_eq!(detail, "https://www.hellowork.com/emplois/77.html");
}

#[test]
fn error_messages_name_the_failure() {
    assert_eq!(ScraperError::RateLimited.message(), "rate limited by the target");
    assert_eq!(ScraperError::Blocked.message(), "blocked by the target");
    assert_eq!(
        ScraperError::NetworkFailure(503).message(),
        "network failure (status 503)"
    );
    assert_eq!(
        ScraperError::InvalidUrl.message(),
        "malformed URL in board profile"
    );
    assert_eq!(
        ScraperError::ConfigurationError.message(),
        "invalid selector in board profile"
    );
}

#[test]
fn http_statuses_classify_per_the_taxonomy() {
    assert!(matches!(classify_status(429), Some(ScraperError::RateLimited)));
    assert!(matches!(classify_status(403), Some(ScraperError::Blocked)));
    assert!(classify_status(200).is_none());
    assert!(classify_status(204).is_none());
    assert!(matches!(
        classify_status(500),
        Some(ScraperError::NetworkFailure(500))
    ));
    assert!(matches!(
        classify_status(301),
        Some(ScraperError::NetworkFailure(301))
    ));
}

#[test]
fn board_code_tables_match_the_sites() {
    assert_eq!(linkedin::job_type_code(&JobType::FullTime), Some("F"));
    assert_eq!(linkedin::job_type_code(&JobType::Volunteer), Some("V"));
    assert_eq!(
        linkedin::experience_level_code(&ExperienceLevel::Director),
        Some("5")
    );
    assert_eq!(linkedin::date_posted_seconds(&DatePosted::PastWeek), Some(604800));
    assert_eq!(linkedin::date_posted_seconds(&DatePosted::Any), None);
    assert_eq!(indeed::job_type_code(&JobType::Volunteer), None);
    assert_eq!(indeed::job_type_code(&JobType::PartTime), Some("parttime"));
    assert_eq!(indeed::indeed_days(&DatePosted::PastMonth), Some("14"));
    assert_eq!(indeed::indeed_days(&DatePosted::Any), None);
}
