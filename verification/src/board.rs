//! The search coordinator: a builder for one search over one board or all
//! of them, the plan of per-board sessions a fan-out search runs, and the
//! merge policy that combines the boards' outcomes. A failing board never
//! cancels its siblings: its jobs are omitted and the failure reported.

use vstd::prelude::*;

use crate::constants::{config_for_board, BoardConfig};
use crate::error::ScraperError;
use crate::models::{Board, Job, JobSearchParams};
use crate::search::SearchSession;

verus! {

/// A builder for one search: the target board's profile plus the caller's
/// parameters, with no transport attached. A driver turns the plan into
/// fetches.
pub struct BoardScraper {
    pub config: BoardConfig,
    pub params: JobSearchParams,
}

fn params_for_board(p: &JobSearchParams, board: Board) -> (r: JobSearchParams)
    ensures
        r.query@ == p.query@,
        r.board == board,
        r.location@ == p.location@,
        r.limit == p.limit,
        r.offset == p.offset,
        r.single_page == p.single_page,
        r.radius == p.radius,
        r.job_type == p.job_type,
        r.experience_level == p.experience_level,
        r.date_posted == p.date_posted,
{
    JobSearchParams {
        query: p.query.clone(),
        board,
        location: p.location.clone(),
        limit: p.limit,
        offset: p.offset,
        single_page: p.single_page,
        radius: p.radius,
        job_type: p.job_type,
        experience_level: p.experience_level,
        date_posted: p.date_posted,
    }
}

impl BoardScraper {
    /// A scraper over all boards with default parameters, starting from
    /// the first concrete board's profile.
    pub fn new() -> (r: Self)
        ensures
            r.config.board is Hellowork,
            r.params.query@ == Seq::<char>::empty(),
            r.params.board is All,
            r.params.location@ == Seq::<char>::empty(),
            r.params.limit == 50,
            r.params.offset == 0,
            !r.params.single_page,
            r.params.radius is None,
            r.params.job_type is None,
            r.params.experience_level is None,
            r.params.date_posted is None,
    {
        BoardScraper { config: config_for_board(&Board::All), params: Default::default() }
    }

    /// Sets the query text.
    pub fn query(self, query: &str) -> (r: Self)
        ensures
            r.params.query@ == query@,
            r.params.board == self.params.board,
            r.params.location@ == self.params.location@,
            r.params.limit == self.params.limit,
            r.params.offset == self.params.offset,
            r.params.single_page == self.params.single_page,
            r.params.radius == self.params.radius,
            r.params.job_type == self.params.job_type,
            r.params.experience_level == self.params.experience_level,
            r.params.date_posted == self.params.date_posted,
            r.config == self.config,
    {
        let params = JobSearchParams { query: query.to_owned(), ..self.params };
        BoardScraper { config: self.config, params }
    }

    /// Sets the location text.
    pub fn location(self, location: &str) -> (r: Self)
        ensures
            r.params.location@ == location@,
            r.params.board == self.params.board,
            r.params.query@ == self.params.query@,
            r.params.limit == self.params.limit,
            r.params.offset == self.params.offset,
            r.params.single_page == self.params.single_page,
            r.params.radius == self.params.radius,
            r.params.job_type == self.params.job_type,
            r.params.experience_level == self.params.experience_level,
            r.params.date_posted == self.params.date_posted,
            r.config == self.config,
    {
        let params = JobSearchParams { location: location.to_owned(), ..self.params };
        BoardScraper { config: self.config, params }
    }

    /// Caps how many jobs one board's search collects.
    pub fn limit(self, limit: u32) -> (r: Self)
        ensures
            r.params == (JobSearchParams { limit, ..self.params }),
            r.config == self.config,
    {
        let params = JobSearchParams { limit, ..self.params };
        BoardScraper { config: self.config, params }
    }

    /// Sets the page offset the search starts at.
    pub fn offset(self, offset: u32) -> (r: Self)
        ensures
            r.params == (JobSearchParams { offset, ..self.params }),
            r.config == self.config,
    {
        let params = JobSearchParams { offset, ..self.params };
        BoardScraper { config: self.config, params }
    }

    /// Restricts the search to a single listing page.
    pub fn single_page(self, single_page: bool) -> (r: Self)
        ensures
            r.params == (JobSearchParams { single_page, ..self.params }),
            r.config == self.config,
    {
        let params = JobSearchParams { single_page, ..self.params };
        BoardScraper { config: self.config, params }
    }

    /// Targets one board (or all), and selects its profile.
    pub fn board(self, board: Board) -> (r: Self)
        ensures
            r.params == (JobSearchParams { board, ..self.params }),
            board is Hellowork ==> r.config.board is Hellowork,
            board is Linkedin ==> r.config.board is Linkedin,
            board is All ==> r.config.board is Hellowork,
    {
        let config = config_for_board(&board);
        let params = JobSearchParams { board, ..self.params };
        BoardScraper { config, params }
    }

    /// The per-board sessions one search call runs: a single session for a
    /// concrete board, or one independent session per known board (each
    /// with its own parameter copy, its board bound) for a search over
    /// all. A driver runs them concurrently; they share nothing mutable.
    pub fn search_plan(self, today: i64) -> (r: Vec<SearchSession>)
        ensures
            forall|i: int|
                0 <= i < r@.len() ==> (#[trigger] r@[i]).wf() && r@[i].today == today
                    && r@[i].jobs@.len() == 0,
            self.params.board is All ==> {
                &&& r@.len() == 2
                &&& r@[0].config.board is Hellowork && r@[0].params.board is Hellowork
                &&& r@[1].config.board is Linkedin && r@[1].params.board is Linkedin
                &&& forall|i: int|
                    0 <= i < 2 ==> (#[trigger] r@[i]).params.query@ == self.params.query@
                        && r@[i].params.location@ == self.params.location@ && r@[i].params.limit
                        == self.params.limit && r@[i].params.offset == self.params.offset
                        && r@[i].params.single_page == self.params.single_page
                        && r@[i].params.radius == self.params.radius && r@[i].params.job_type
                        == self.params.job_type && r@[i].params.experience_level
                        == self.params.experience_level && r@[i].params.date_posted
                        == self.params.date_posted
            },
            !(self.params.board is All) ==> r@.len() == 1 && r@[0].config == self.config
                && r@[0].params == self.params,
    {
        match self.params.board {
            Board::All => {
                let mut out: Vec<SearchSession> = Vec::new();
                let hw = SearchSession::new(
                    config_for_board(&Board::Hellowork),
                    params_for_board(&self.params, Board::Hellowork),
                    today,
                );
                let li = SearchSession::new(
                    config_for_board(&Board::Linkedin),
                    params_for_board(&self.params, Board::Linkedin),
                    today,
                );
                out.push(hw);
                out.push(li);
                out
            },
            _ => {
                let mut out: Vec<SearchSession> = Vec::new();
                let session = SearchSession::new(self.config, self.params, today);
                out.push(session);
                out
            },
        }
    }
}

/// One board's failure, reported beside the surviving boards' results.
pub struct SourceFailure {
    pub source: String,
    pub error: ScraperError,
}

/// The merged job list: each successful board's jobs concatenated in
/// board order; a failing board contributes nothing.
pub open spec fn merged_jobs(rs: Seq<(String, Result<Vec<Job>, ScraperError>)>) -> Seq<Job>
    decreases rs.len(),
{
    if rs.len() == 0 {
        Seq::empty()
    } else {
        merged_jobs(rs.drop_last()) + (match rs.last().1 {
            Ok(js) => js@,
            Err(_) => Seq::empty(),
        })
    }
}

/// The failure report: the name and error of each failing board, in board
/// order; a successful board contributes nothing.
pub open spec fn failed_sources(rs: Seq<(String, Result<Vec<Job>, ScraperError>)>) -> Seq<
    (Seq<char>, ScraperError),
>
    decreases rs.len(),
{
    if rs.len() == 0 {
        Seq::empty()
    } else {
        failed_sources(rs.drop_last()) + (match rs.last().1 {
            Ok(_) => Seq::empty(),
            Err(e) => seq![(rs.last().0@, e)],
        })
    }
}

/// The views of a failure report.
pub open spec fn failure_views(fs: Seq<SourceFailure>) -> Seq<(Seq<char>, ScraperError)> {
    fs.map_values(|f: SourceFailure| (f.source@, f.error))
}

proof fn lemma_failure_views_push(fs: Seq<SourceFailure>, f: SourceFailure)
    ensures
        failure_views(fs.push(f)) =~= failure_views(fs).push((f.source@, f.error)),
{
    let a = failure_views(fs.push(f));
    let b = failure_views(fs).push((f.source@, f.error));
    assert forall|j: int| 0 <= j < a.len() implies a[j] == b[j] by {
        if j < fs.len() {
            assert(fs.push(f)[j] == fs[j]);
        } else {
            assert(fs.push(f)[j] == f);
        }
    }
}

/// Multi-source isolation: one board's failure changes nothing of the
/// merged job list — merging is the same as if the failing board had not
/// been queried — and adds exactly one entry to the failure report.
pub proof fn lemma_failing_source_isolated(
    rs: Seq<(String, Result<Vec<Job>, ScraperError>)>,
    i: int,
)
    requires
        0 <= i < rs.len(),
        rs[i].1 is Err,
    ensures
        merged_jobs(rs) == merged_jobs(rs.remove(i)),
        failed_sources(rs).len() == failed_sources(rs.remove(i)).len() + 1,
    decreases rs.len(),
{
    if i == rs.len() - 1 {
        assert(rs.remove(i) =~= rs.drop_last());
    } else {
        lemma_failing_source_isolated(rs.drop_last(), i);
        assert(rs.remove(i).drop_last() =~= rs.drop_last().remove(i));
        assert(rs.remove(i).last() == rs.last());
    }
}

/// Merges the boards' outcomes: waits on nothing and cancels nothing, it
/// concatenates the successful boards' job lists in board order and
/// reports each failing board's name and error beside them.
#[verifier::loop_isolation(false)]
pub fn merge_results(results: Vec<(String, Result<Vec<Job>, ScraperError>)>) -> (r: (
    Vec<Job>,
    Vec<SourceFailure>,
))
    ensures
        r.0@ == merged_jobs(results@),
        failure_views(r.1@) == failed_sources(results@),
{
    let ghost orig = results@;
    let mut rest = results;
    let mut jobs: Vec<Job> = Vec::new();
    let mut failures: Vec<SourceFailure> = Vec::new();
    let ghost k: int = 0;
    while rest.len() > 0
        invariant
            0 <= k <= orig.len(),
            rest@ =~= orig.skip(k),
            jobs@ =~= merged_jobs(orig.take(k)),
            failure_views(failures@) =~= failed_sources(orig.take(k)),
        decreases rest@.len(),
    {
        let (name, outcome) = rest.remove(0);
        proof {
            assert(orig.take(k + 1).drop_last() =~= orig.take(k));
            assert(orig.take(k + 1).last() == orig[k]);
            assert(orig.skip(k)[0] == orig[k]);
            assert(orig.skip(k).drop_first() =~= orig.skip(k + 1));
        }
        match outcome {
            Ok(mut js) => {
                jobs.append(&mut js);
            },
            Err(e) => {
                let ghost prev = failures@;
                let f = SourceFailure { source: name, error: e };
                failures.push(f);
                proof {
                    lemma_failure_views_push(prev, f);
                }
            },
        }
        proof {
            k = k + 1;
        }
    }
    proof {
        assert(orig.take(orig.len() as int) =~= orig);
    }
    (jobs, failures)
}

/// Finishes a search call from the boards' outcomes, with the documented
/// policy for the all-failed case: the call fails only when every queried
/// board failed and no job was produced, and then with the first board's
/// error; otherwise it returns the merged jobs, a partial (or empty)
/// result being a success.
pub fn finish_search(results: Vec<(String, Result<Vec<Job>, ScraperError>)>) -> (r: Result<
    Vec<Job>,
    ScraperError,
>)
    ensures
        match r {
            Ok(js) => js@ == merged_jobs(results@) && !(results@.len() > 0 && merged_jobs(
                results@,
            ).len() == 0 && failed_sources(results@).len() == results@.len()),
            Err(e) => results@.len() > 0 && merged_jobs(results@).len() == 0 && failed_sources(
                results@,
            ).len() == results@.len() && e == failed_sources(results@)[0].1,
        },
{
    let n = results.len();
    let (jobs, mut failures) = merge_results(results);
    if n > 0 && jobs.len() == 0 && failures.len() == n {
        proof {
            assert(failure_views(failures@)[0] == (failures@[0].source@, failures@[0].error));
        }
        let first = failures.remove(0);
        Err(first.error)
    } else {
        proof {
            if failures@.len() != failed_sources(results@).len() {
                assert(failure_views(failures@).len() == failures@.len());
            }
        }
        Ok(jobs)
    }
}

} // verus!
