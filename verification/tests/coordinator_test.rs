use jobscraper::board::{finish_search, merge_results, BoardScraper};
use jobscraper::calendar::day_number_from_ymd;
use jobscraper::error::ScraperError;
use jobscraper::models::{Board, Job, JobSearchParams};

fn job(id: &str, source: &str) -> Job {
    Job {
        id: id.to_string(),
        title: format!("Job {id}"),
        company: "ACME".to_string(),
        location: "Lyon".to_string(),
        description: String::new(),
        date_posted: "2024-06-01".to_string(),
        url: format!("https://example.com/job/{id}"),
        source: source.to_string(),
    }
}

#[test]
fn a_failing_source_is_isolated_from_its_siblings() {
    // One board blocked, the other returning three jobs: the three jobs
    // come back, and exactly one failure is reported.
    let results = vec![
        ("A".to_string(), Err(ScraperError::Blocked)),
        (
            "B".to_string(),
            Ok(vec![job("1", "B"), job("2", "B"), job("3", "B")]),
        ),
    ];
    let (jobs, failures) = merge_results(results);
    assert_eq!(jobs.len(), 3);
    let ids: Vec<&str> = jobs.iter().map(|j| j.id.as_str()).collect();
    assert_eq!(ids, ["1", "2", "3"]);
    assert_eq!(failures.len(), 1);
    assert_eq!(failures[0].source, "A");
    assert!(matches!(failures[0].error, ScraperError::Blocked));
}

#[test]
fn merged_jobs_keep_source_then_card_order() {
    let results = vec![
        ("A".to_string(), Ok(vec![job("a1", "A"), job("a2", "A")])),
        ("B".to_string(), Ok(vec![job("b1", "B")])),
    ];
    let (jobs, failures) = merge_results(results);
    let ids: Vec<&str> = jobs.iter().map(|j| j.id.as_str()).collect();
    assert_eq!(ids, ["a1", "a2", "b1"]);
    assert!(failures.is_empty());
}

#[test]
fn the_call_fails_only_when_every_source_failed_empty() {
    let all_failed = vec![
        ("A".to_string(), Err(ScraperError::RateLimited)),
        ("B".to_string(), Err(ScraperError::Blocked)),
    ];
    assert!(matches!(
        finish_search(all_failed),
        Err(ScraperError::RateLimited)
    ));

    let partial = vec![
        ("A".to_string(), Err(ScraperError::Blocked)),
        ("B".to_string(), Ok(vec![job("1", "B")])),
    ];
    let jobs = finish_search(partial).expect("partial success is a success");
    assert_eq!(jobs.len(), 1);

    let all_empty_ok: Vec<(String, Result<Vec<Job>, ScraperError>)> =
        vec![("A".to_string(), Ok(vec![]))];
    assert!(finish_search(all_empty_ok).expect("empty success").is_empty());
}

#[test]
fn the_builder_binds_parameters_and_profile() {
    let scraper = BoardScraper::new()
        .query("développeur")
        .location("Lyon, France")
        .limit(5)
        .offset(3)
        .single_page(true)
        .board(Board::Linkedin);
    assert_eq!(scraper.params.query, "développeur");
    assert_eq!(scraper.params.location, "Lyon, France");
    assert_eq!(scraper.params.limit, 5);
    assert_eq!(scraper.params.offset, 3);
    assert!(scraper.params.single_page);
    assert_eq!(scraper.config.name, "Linkedin");
}

#[test]
fn a_search_over_all_boards_plans_one_session_each() {
    let today = day_number_from_ymd(2024, 6, 10).unwrap();
    let scraper = BoardScraper::new().query("rust").board(Board::All);
    let sessions = scraper.search_plan(today);
    assert_eq!(sessions.len(), 2);
    assert_eq!(sessions[0].config.name, "Hellowork");
    assert_eq!(sessions[1].config.name, "Linkedin");
    assert!(matches!(sessions[0].params.board, Board::Hellowork));
    assert!(matches!(sessions[1].params.board, Board::Linkedin));
    assert_eq!(sessions[0].params.query, "rust");
    assert_eq!(sessions[1].params.query, "rust");
}

#[test]
fn a_single_board_search_plans_one_session() {
    let today = day_number_from_ymd(2024, 6, 10).unwrap();
    let scraper = BoardScraper::new().query("rust").board(Board::Hellowork);
    let sessions = scraper.search_plan(today);
    assert_eq!(sessions.len(), 1);
    assert_eq!(sessions[0].config.name, "Hellowork");
}

#[test]
fn board_variants_cover_the_concrete_boards() {
    let variants = Board::variants();
    assert_eq!(variants.len(), 2);
    assert!(matches!(variants[0], Board::Hellowork));
    assert!(matches!(variants[1], Board::Linkedin));
    let defaults = JobSearchParams::default();
    assert_eq!(defaults.limit, 50);
    assert_eq!(defaults.offset, 0);
    assert!(matches!(defaults.board, Board::All));
    assert!(!defaults.single_page);
}
