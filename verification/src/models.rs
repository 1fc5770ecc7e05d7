//! The data model: jobs, boards, search parameters, and the declarative
//! extraction rules that map a CSS selector plus a return kind to a
//! normalized string value.

use vstd::prelude::*;

verus! {

/// One job posting, assembled from a listing card and its detail page.
/// Never mutated after construction.
pub struct Job {
    pub id: String,
    pub title: String,
    pub company: String,
    pub location: String,
    pub description: String,
    pub date_posted: String,
    pub url: String,
    pub source: String,
}

/// The mathematical view of a job: each field as a character sequence.
pub ghost struct JobView {
    pub id: Seq<char>,
    pub title: Seq<char>,
    pub company: Seq<char>,
    pub location: Seq<char>,
    pub description: Seq<char>,
    pub date_posted: Seq<char>,
    pub url: Seq<char>,
    pub source: Seq<char>,
}

impl View for Job {
    type V = JobView;

    open spec fn view(&self) -> JobView {
        JobView {
            id: self.id@,
            title: self.title@,
            company: self.company@,
            location: self.location@,
            description: self.description@,
            date_posted: self.date_posted@,
            url: self.url@,
            source: self.source@,
        }
    }
}

/// The job boards a search can target. `All` fans the search out to every
/// concrete board.
#[derive(Clone, Copy, Debug, PartialEq, Eq, Structural)]
pub enum Board {
    Hellowork,
    Linkedin,
    All,
}

impl Board {
    /// The concrete boards, in the order a fan-out search runs them.
    pub fn variants() -> (r: Vec<Board>)
        ensures
            r@ =~= seq![Board::Hellowork, Board::Linkedin],
    {
        let mut v: Vec<Board> = Vec::new();
        v.push(Board::Hellowork);
        v.push(Board::Linkedin);
        v
    }
}

/// A job-type filter a caller may supply; each board maps it to its own
/// query-parameter code, or omits the parameter when it has none.
#[derive(Clone, Copy, Debug, PartialEq, Eq, Structural)]
pub enum JobType {
    FullTime,
    PartTime,
    Contract,
    Temporary,
    Internship,
    Volunteer,
}

/// An experience-level filter a caller may supply.
#[derive(Clone, Copy, Debug, PartialEq, Eq, Structural)]
pub enum ExperienceLevel {
    Internship,
    EntryLevel,
    Associate,
    MidSenior,
    Director,
    Executive,
}

/// A recency window for postings. `Any` stands for no filter and never
/// emits a query parameter.
#[derive(Clone, Copy, Debug, PartialEq, Eq, Structural)]
pub enum DatePosted {
    Any,
    PastDay,
    PastWeek,
    PastMonth,
}

/// Caller-supplied search parameters, immutable for the duration of one
/// search call. `offset` is a page index, and `limit` caps how many jobs
/// one source collects.
#[derive(Clone)]
pub struct JobSearchParams {
    pub query: String,
    pub board: Board,
    pub location: String,
    pub limit: u32,
    pub offset: u32,
    pub single_page: bool,
    pub radius: Option<u32>,
    pub job_type: Option<JobType>,
    pub experience_level: Option<ExperienceLevel>,
    pub date_posted: Option<DatePosted>,
}

impl Default for JobSearchParams {
    /// An empty query over all boards, capped at 50 results, first page,
    /// with no optional filters.
    fn default() -> (r: Self)
        ensures
            r.query@ == Seq::<char>::empty(),
            r.board is All,
            r.location@ == Seq::<char>::empty(),
            r.limit == 50,
            r.offset == 0,
            !r.single_page,
            r.radius is None,
            r.job_type is None,
            r.experience_level is None,
            r.date_posted is None,
    {
        JobSearchParams {
            query: String::new(),
            board: Board::All,
            location: String::new(),
            limit: 50,
            offset: 0,
            single_page: false,
            radius: None,
            job_type: None,
            experience_level: None,
            date_posted: None,
        }
    }
}

/// What a rule extracts from each matched element: its text nodes, a named
/// attribute's value, or its serialized inner markup.
#[derive(Clone)]
pub enum RuleReturns {
    Text,
    Attribute(String),
    Html,
}

/// A named value transform applied to each extracted value independently,
/// before joining. Keeping transforms as a tagged enumeration (instead of
/// function pointers) keeps rules plain data.
#[derive(Clone, Copy, Debug, PartialEq, Eq, Structural)]
pub enum Transform {
    Identity,
    RelativeFrenchDate,
    TrailingColonSegment,
}

/// One declarative extraction instruction: a CSS selector, an optional
/// element range (clamped to the match count), a return kind, and a value
/// transform.
#[derive(Clone)]
pub struct Rule {
    pub selects: String,
    pub n: Option<(usize, usize)>,
    pub returns: RuleReturns,
    pub transforms: Transform,
}

/// The named set of rules a board profile uses to pull each field of a job
/// out of a listing card or a detail page.
#[derive(Clone)]
pub struct Selectors {
    pub card: Rule,
    pub id: Rule,
    pub title: Rule,
    pub company: Rule,
    pub location: Rule,
    pub description: Rule,
    pub date_posted: Rule,
}

/// A board's query-parameter name mapping. The first three are always
/// defined; the optional filters get a parameter only where the board
/// names one.
#[derive(Clone)]
pub struct UrlParameters {
    pub query: String,
    pub location: String,
    pub offset: String,
    pub radius: Option<String>,
    pub job_type: Option<String>,
    pub experience_level: Option<String>,
    pub date_posted: Option<String>,
}

/// Which page a URL is built for: a board's listing page for given search
/// parameters, or one job's detail page.
pub enum PageQuery<'a> {
    Board(&'a JobSearchParams),
    Job(&'a str),
}

} // verus!
