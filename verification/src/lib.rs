//! A verified core for a multi-source job-listing scraper.
//!
//! The library models declarative extraction rules, per-source URL
//! construction, the pagination state machine that drives one source's
//! search, and the merge policy that combines several sources' outcomes.
//! Network transport and browser automation stay outside; the library
//! consumes their results as plain values.

pub mod board;
pub mod calendar;
pub mod constants;
pub mod dom;
pub mod error;
pub mod extract;
pub mod indeed;
pub mod linkedin;
pub mod models;
pub mod search;
pub mod strutil;
pub mod transforms;
pub mod urls;

pub use board::BoardScraper;
pub use error::ScraperError;
pub use models::{Board, Job, JobSearchParams};
