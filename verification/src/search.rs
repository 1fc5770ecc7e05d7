//! The per-board search loop, as an explicit state machine: build the
//! listing URL for the current page, read the page, extract job cards,
//! read each card's detail page, and decide whether to paginate. The
//! driver that actually moves bytes performs one fetch per step and hands
//! the outcome back; every decision in between is verified.

use vstd::prelude::*;

use crate::calendar::{
    civil_string, clamp_today, clamp_today_spec, day_number_to_string, DAY_NUMBER_MAX,
    DAY_NUMBER_MIN,
};
use crate::constants::BoardConfig;
use crate::error::{classify_status, spec_classify_status, ScraperError};
use crate::extract::{
    card_fragments, cards_spec, extract, extract_fragment, spec_extract, spec_extract_fragment,
    string_views,
};
use crate::models::{Job, JobSearchParams, JobView, Rule, Selectors};
use crate::strutil::{replace_char, replace_char_spec};
use crate::transforms::{parse_date, parse_date_spec};
use crate::urls::{build_board_url, build_job_url, job_url_spec, listing_url_spec};

verus! {

/// An extracted value, or the empty string where the field was absent: a
/// missing field never aborts the job it belongs to.
pub open spec fn opt_or_empty(o: Option<Seq<char>>) -> Seq<char> {
    match o {
        Some(v) => v,
        None => Seq::empty(),
    }
}

fn or_empty(o: Option<String>) -> (r: String)
    ensures
        r@ == opt_or_empty(
            match o {
                Some(s) => Some(s@),
                None => None,
            },
        ),
{
    match o {
        Some(s) => s,
        None => String::new(),
    }
}

/// The fields of one job that come from its listing card, already
/// normalized; the description still awaits the detail page.
pub struct CardFields {
    pub id: String,
    pub title: String,
    pub company: String,
    pub location: String,
    pub date_posted: String,
}

/// The mathematical view of a card's extracted fields.
pub ghost struct CardFieldsView {
    pub id: Seq<char>,
    pub title: Seq<char>,
    pub company: Seq<char>,
    pub location: Seq<char>,
    pub date_posted: Seq<char>,
}

impl View for CardFields {
    type V = CardFieldsView;

    open spec fn view(&self) -> CardFieldsView {
        CardFieldsView {
            id: self.id@,
            title: self.title@,
            company: self.company@,
            location: self.location@,
            date_posted: self.date_posted@,
        }
    }
}

/// The normalized posting date of a card: the extracted date string parsed
/// into the library's day-number model (falling back to today), written
/// back as a calendar string.
pub open spec fn spec_card_date(card: Seq<char>, rule: Rule, today: int) -> Seq<char> {
    civil_string(
        match spec_extract_fragment(card, rule, today) {
            Some(d) => parse_date_spec(d, today),
            None => clamp_today_spec(today),
        },
    )
}

fn card_date_string(card: &str, rule: &Rule, today: i64) -> (r: String)
    ensures
        r@ == spec_card_date(card@, *rule, today as int),
{
    let day = match extract_fragment(card, rule, today) {
        Some(d) => parse_date(d.as_str(), today),
        None => clamp_today(today),
    };
    assert(DAY_NUMBER_MIN <= day <= DAY_NUMBER_MAX);
    match day_number_to_string(day) {
        Some(s) => s,
        None => {
            // Unreachable: the day number is always within the
            // formattable range.
            assert(false);
            String::new()
        },
    }
}

/// The fields a card fragment yields under a profile's rules: newlines in
/// the title and location are flattened to spaces, a missing field becomes
/// the empty string, and the posting date is normalized to a calendar
/// string.
pub open spec fn spec_card_fields(card: Seq<char>, sel: Selectors, today: int) -> CardFieldsView {
    CardFieldsView {
        id: opt_or_empty(spec_extract_fragment(card, sel.id, today)),
        title: replace_char_spec(
            opt_or_empty(spec_extract_fragment(card, sel.title, today)),
            '\n',
            ' ',
        ),
        company: opt_or_empty(spec_extract_fragment(card, sel.company, today)),
        location: replace_char_spec(
            opt_or_empty(spec_extract_fragment(card, sel.location, today)),
            '\n',
            ' ',
        ),
        date_posted: spec_card_date(card, sel.date_posted, today),
    }
}

fn build_card_fields(card: &str, sel: &Selectors, today: i64) -> (f: CardFields)
    ensures
        f@ == spec_card_fields(card@, *sel, today as int),
{
    let id = or_empty(extract_fragment(card, &sel.id, today));
    let title_raw = or_empty(extract_fragment(card, &sel.title, today));
    let title = replace_char(title_raw.as_str(), '\n', ' ');
    let company = or_empty(extract_fragment(card, &sel.company, today));
    let location_raw = or_empty(extract_fragment(card, &sel.location, today));
    let location = replace_char(location_raw.as_str(), '\n', ' ');
    let date_posted = card_date_string(card, &sel.date_posted, today);
    CardFields { id, title, company, location, date_posted }
}

/// The view of the job built from a card's fields, its detail page and its
/// detail URL.
pub open spec fn spec_job_view(
    fields: CardFieldsView,
    detail_html: Seq<char>,
    desc_rule: Rule,
    url: Seq<char>,
    source: Seq<char>,
    today: int,
) -> JobView {
    JobView {
        id: fields.id,
        title: fields.title,
        company: fields.company,
        location: fields.location,
        description: opt_or_empty(spec_extract(detail_html, desc_rule, today)),
        date_posted: fields.date_posted,
        url: url,
        source: source,
    }
}

/// Where the search loop stands: waiting for a listing page, waiting for
/// one card's detail page, finished, or failed with a classified error.
pub enum SearchPhase {
    FetchListing { url: String },
    FetchDetail { cards: Vec<String>, idx: usize, fields: CardFields, url: String },
    Done,
    Failed(ScraperError),
}

/// Whether `phase` is the correct continuation for processing card `idx`
/// of `cards`: its fields extracted and its detail URL built, or a failure
/// when the profile's detail URL does not resolve.
pub open spec fn phase_starts_card(
    phase: SearchPhase,
    config: BoardConfig,
    today: int,
    cards: Seq<Seq<char>>,
    idx: int,
) -> bool {
    let f = spec_card_fields(cards[idx], config.selectors, today);
    match job_url_spec(config, f.id) {
        Some(u) => phase matches SearchPhase::FetchDetail { cards: c, idx: i, fields, url }
            && string_views(c@) == cards && i == idx && fields@ == f && url@ == u,
        None => phase matches SearchPhase::Failed(e) && e is InvalidUrl,
    }
}

/// Whether `phase` is the correct continuation for fetching the listing
/// page at `offset`: its URL built, or a failure when the profile's
/// listing URL does not resolve.
pub open spec fn phase_for_listing(
    phase: SearchPhase,
    config: BoardConfig,
    params: JobSearchParams,
    offset: u32,
) -> bool {
    match listing_url_spec(config, params, Some(offset)) {
        Some(u) => phase matches SearchPhase::FetchListing { url } && url@ == u,
        None => phase matches SearchPhase::Failed(e) && e is InvalidUrl,
    }
}

fn start_card(config: &BoardConfig, today: i64, cards: Vec<String>, idx: usize) -> (p: SearchPhase)
    requires
        idx < cards@.len(),
    ensures
        phase_starts_card(p, *config, today as int, string_views(cards@), idx as int),
        p matches SearchPhase::FetchDetail { cards: c, idx: i, .. } ==> c@ == cards@ && i == idx,
{
    proof {
        assert(string_views(cards@)[idx as int] == cards@[idx as int]@);
    }
    let fields = build_card_fields(cards[idx].as_str(), &config.selectors, today);
    match build_job_url(config, fields.id.as_str()) {
        Ok(url) => SearchPhase::FetchDetail { cards, idx, fields, url },
        Err(_) => SearchPhase::Failed(ScraperError::InvalidUrl),
    }
}

/// One board's search, driven page by page: the state of the loop between
/// two fetches.
pub struct SearchSession {
    pub config: BoardConfig,
    pub params: JobSearchParams,
    pub today: i64,
    pub offset: u32,
    pub jobs: Vec<Job>,
    pub pre_search_done: bool,
    pub phase: SearchPhase,
}

impl SearchSession {
    /// The loop invariant: the collected jobs never exceed the caller's
    /// limit, and while a page or a card is being processed the quota is
    /// not yet full.
    pub open spec fn wf(self) -> bool {
        &&& self.jobs@.len() <= self.params.limit
        &&& (self.phase matches SearchPhase::FetchListing { .. } ==> self.jobs@.len()
            < self.params.limit)
        &&& (self.phase matches SearchPhase::FetchDetail { cards, idx, .. } ==> idx < cards@.len()
            && self.jobs@.len() < self.params.limit)
    }

    /// Whatever events arrive, a well-formed session never holds more jobs
    /// than the caller's limit.
    pub proof fn lemma_quota_respected(self)
        requires
            self.wf(),
        ensures
            self.jobs@.len() <= self.params.limit,
    {
    }

    /// Starts one board's search at the caller's page offset with no jobs
    /// collected: immediately done when the quota is zero, else fetching
    /// the first listing page.
    pub fn new(config: BoardConfig, params: JobSearchParams, today: i64) -> (s: Self)
        ensures
            s.wf(),
            s.config == config,
            s.params == params,
            s.today == today,
            s.offset == params.offset,
            s.jobs@.len() == 0,
            !s.pre_search_done,
            params.limit == 0 ==> s.phase is Done,
            params.limit > 0 ==> phase_for_listing(s.phase, config, params, params.offset),
    {
        let offset = params.offset;
        let phase = if params.limit == 0 {
            SearchPhase::Done
        } else {
            match build_board_url(&config, &params, Some(offset)) {
                Ok(url) => SearchPhase::FetchListing { url },
                Err(_) => SearchPhase::Failed(ScraperError::InvalidUrl),
            }
        };
        SearchSession {
            config,
            params,
            today,
            offset,
            jobs: Vec::new(),
            pre_search_done: false,
            phase,
        }
    }

    /// The URL the driver must fetch next, if the loop is still running.
    pub fn pending_url(&self) -> (r: Option<&String>)
        ensures
            self.phase matches SearchPhase::FetchListing { url } ==> (r matches Some(u) && u@
                == url@),
            self.phase matches SearchPhase::FetchDetail { url, .. } ==> (r matches Some(u) && u@
                == url@),
            self.phase is Done ==> r is None,
            self.phase matches SearchPhase::Failed(_) ==> r is None,
    {
        match &self.phase {
            SearchPhase::FetchListing { url } => Some(url),
            SearchPhase::FetchDetail { url, .. } => Some(url),
            SearchPhase::Done => None,
            SearchPhase::Failed(_) => None,
        }
    }

    /// Whether the driver should run the board's one-time pre-search
    /// action (dismissing a consent dialog) before reading the pending
    /// listing page: only on a listing fetch, only where the profile
    /// defines the action, and at most once per search.
    pub fn needs_pre_search(&self) -> (r: bool)
        ensures
            r == (self.phase matches SearchPhase::FetchListing { .. } && !self.pre_search_done
                && self.config.cookie_popup_selector is Some),
    {
        match &self.phase {
            SearchPhase::FetchListing { .. } => !self.pre_search_done
                && self.config.cookie_popup_selector.is_some(),
            _ => false,
        }
    }

    /// Marks the pre-search action as performed; the flag never resets, so
    /// the action runs at most once per search.
    pub fn note_pre_search_done(self) -> (r: Self)
        ensures
            r == (SearchSession { pre_search_done: true, ..self }),
            r.wf() == self.wf(),
    {
        SearchSession { pre_search_done: true, ..self }
    }

    /// Feeds the loop a transport-level fetch failure (no HTTP status):
    /// the search fails as a generic network failure; a finished or failed
    /// loop is unchanged.
    pub fn on_transport_failure(self) -> (r: Self)
        requires
            self.wf(),
        ensures
            r.wf(),
            self.phase is Done ==> r == self,
            self.phase matches SearchPhase::Failed(_) ==> r == self,
            (self.phase matches SearchPhase::FetchListing { .. } || self.phase
                matches SearchPhase::FetchDetail { .. }) ==> {
                &&& r.phase matches SearchPhase::Failed(e) && e matches ScraperError::NetworkFailure(st)
                    && st == 0
                &&& r.jobs == self.jobs
                &&& r.offset == self.offset
                &&& r.config == self.config
                &&& r.params == self.params
                &&& r.today == self.today
                &&& r.pre_search_done == self.pre_search_done
            },
    {
        match &self.phase {
            SearchPhase::Done => self,
            SearchPhase::Failed(_) => self,
            _ => SearchSession {
                phase: SearchPhase::Failed(ScraperError::NetworkFailure(0)),
                ..self
            },
        }
    }

    /// Feeds the loop the outcome of the pending fetch, and takes the next
    /// step, as [`step_spec`] describes: classify the status; on a listing
    /// page extract the cards and start the first one, or finish when the
    /// page is empty; on a detail page build the job, and then stop at the
    /// quota, start the next card, or turn the page.
    pub fn on_response(self, status: u16, body: &str) -> (r: Self)
        requires
            self.wf(),
        ensures
            r.wf(),
            step_spec(self, r, status, body@),
    {
        let SearchSession { config, params, today, offset, jobs, pre_search_done, phase } = self;
        match phase {
            SearchPhase::Done => SearchSession {
                config,
                params,
                today,
                offset,
                jobs,
                pre_search_done,
                phase: SearchPhase::Done,
            },
            SearchPhase::Failed(e) => SearchSession {
                config,
                params,
                today,
                offset,
                jobs,
                pre_search_done,
                phase: SearchPhase::Failed(e),
            },
            SearchPhase::FetchListing { url: _ } => {
                match classify_status(status) {
                    Some(e) => SearchSession {
                        config,
                        params,
                        today,
                        offset,
                        jobs,
                        pre_search_done,
                        phase: SearchPhase::Failed(e),
                    },
                    None => {
                        match card_fragments(body, config.selectors.card.selects.as_str()) {
                            None => SearchSession {
                                config,
                                params,
                                today,
                                offset,
                                jobs,
                                pre_search_done: true,
                                phase: SearchPhase::Failed(ScraperError::ConfigurationError),
                            },
                            Some(cards) => {
                                if cards.len() == 0 {
                                    SearchSession {
                                        config,
                                        params,
                                        today,
                                        offset,
                                        jobs,
                                        pre_search_done: true,
                                        phase: SearchPhase::Done,
                                    }
                                } else {
                                    let p = start_card(&config, today, cards, 0);
                                    SearchSession {
                                        config,
                                        params,
                                        today,
                                        offset,
                                        jobs,
                                        pre_search_done: true,
                                        phase: p,
                                    }
                                }
                            },
                        }
                    },
                }
            },
            SearchPhase::FetchDetail { cards, idx, fields, url } => {
                proof {
                    assert(self.phase matches SearchPhase::FetchDetail { cards: c, idx: i, .. }
                        && c == cards && i == idx);
                    assert(idx < cards@.len());
                    assert(jobs@.len() < params.limit);
                }
                let ncards = cards.len();
                match classify_status(status) {
                    Some(e) => SearchSession {
                        config,
                        params,
                        today,
                        offset,
                        jobs,
                        pre_search_done,
                        phase: SearchPhase::Failed(e),
                    },
                    None => {
                        let description = or_empty(
                            extract(body, &config.selectors.description, today),
                        );
                        let job = Job {
                            id: fields.id,
                            title: fields.title,
                            company: fields.company,
                            location: fields.location,
                            description,
                            date_posted: fields.date_posted,
                            url,
                            source: config.name.clone(),
                        };
                        let mut jobs2 = jobs;
                        let ghost pre_jobs = jobs2@;
                        jobs2.push(job);
                        proof {
                            assert(jobs2@.drop_last() =~= pre_jobs);
                        }
                        if (jobs2.len() as u64) >= (params.limit as u64) {
                            SearchSession {
                                config,
                                params,
                                today,
                                offset,
                                jobs: jobs2,
                                pre_search_done,
                                phase: SearchPhase::Done,
                            }
                        } else if idx + 1 < ncards {
                            let p = start_card(&config, today, cards, idx + 1);
                            SearchSession {
                                config,
                                params,
                                today,
                                offset,
                                jobs: jobs2,
                                pre_search_done,
                                phase: p,
                            }
                        } else if params.single_page {
                            SearchSession {
                                config,
                                params,
                                today,
                                offset,
                                jobs: jobs2,
                                pre_search_done,
                                phase: SearchPhase::Done,
                            }
                        } else if offset == u32::MAX {
                            SearchSession {
                                config,
                                params,
                                today,
                                offset,
                                jobs: jobs2,
                                pre_search_done,
                                phase: SearchPhase::Done,
                            }
                        } else {
                            let off2 = offset + 1;
                            let p = match build_board_url(&config, &params, Some(off2)) {
                                Ok(u) => SearchPhase::FetchListing { url: u },
                                Err(_) => SearchPhase::Failed(ScraperError::InvalidUrl),
                            };
                            SearchSession {
                                config,
                                params,
                                today,
                                offset: off2,
                                jobs: jobs2,
                                pre_search_done,
                                phase: p,
                            }
                        }
                    },
                }
            },
        }
    }
}

/// Whether the three fields a step never touches are preserved.
pub open spec fn same_core(pre: SearchSession, post: SearchSession) -> bool {
    post.config == pre.config && post.params == pre.params && post.today == pre.today
}

/// Whether `post` is the step the loop takes from `pre` on a fetch
/// outcome. A finished or failed loop never moves again. A rate limit
/// (429), a block (403) or any other non-success status fails the loop
/// with that classification and keeps the jobs collected so far. On a
/// successful listing page: an unparsable card selector is a
/// configuration failure; an empty card list finishes the loop (the
/// no-more-pages signal); otherwise the first card's processing starts,
/// and the one-time pre-search window is marked spent. On a successful
/// detail page the job is appended; then the loop finishes at the quota,
/// else starts the next card, else finishes on a single-page search, else
/// turns to the next page (offset grows by exactly one page).
pub open spec fn step_spec(
    pre: SearchSession,
    post: SearchSession,
    status: u16,
    body: Seq<char>,
) -> bool {
    match pre.phase {
        SearchPhase::Done => post == pre,
        SearchPhase::Failed(_) => post == pre,
        SearchPhase::FetchListing { url: _ } => match spec_classify_status(status) {
            Some(e) => {
                &&& same_core(pre, post)
                &&& post.jobs == pre.jobs
                &&& post.offset == pre.offset
                &&& post.pre_search_done == pre.pre_search_done
                &&& post.phase matches SearchPhase::Failed(e2) && e2 == e
            },
            None => {
                &&& same_core(pre, post)
                &&& post.jobs == pre.jobs
                &&& post.offset == pre.offset
                &&& post.pre_search_done
                &&& if !crate::dom::selector_ok(pre.config.selectors.card.selects@) {
                    post.phase matches SearchPhase::Failed(e) && e is ConfigurationError
                } else {
                    let cards = cards_spec(body, pre.config.selectors.card.selects@);
                    if cards.len() == 0 {
                        post.phase is Done
                    } else {
                        phase_starts_card(post.phase, pre.config, pre.today as int, cards, 0)
                    }
                }
            },
        },
        SearchPhase::FetchDetail { cards, idx, fields, url } => match spec_classify_status(
            status,
        ) {
            Some(e) => {
                &&& same_core(pre, post)
                &&& post.jobs == pre.jobs
                &&& post.offset == pre.offset
                &&& post.pre_search_done == pre.pre_search_done
                &&& post.phase matches SearchPhase::Failed(e2) && e2 == e
            },
            None => {
                &&& same_core(pre, post)
                &&& post.pre_search_done == pre.pre_search_done
                &&& post.jobs@.len() == pre.jobs@.len() + 1
                &&& post.jobs@.drop_last() == pre.jobs@
                &&& post.jobs@.last()@ == spec_job_view(
                    fields@,
                    body,
                    pre.config.selectors.description,
                    url@,
                    pre.config.name@,
                    pre.today as int,
                )
                &&& if post.jobs@.len() >= pre.params.limit {
                    post.phase is Done && post.offset == pre.offset
                } else if idx + 1 < cards@.len() {
                    phase_starts_card(
                        post.phase,
                        pre.config,
                        pre.today as int,
                        string_views(cards@),
                        idx + 1,
                    ) && post.offset == pre.offset
                } else if pre.params.single_page {
                    post.phase is Done && post.offset == pre.offset
                } else if pre.offset == u32::MAX {
                    post.phase is Done && post.offset == pre.offset
                } else {
                    post.offset == pre.offset + 1 && phase_for_listing(
                        post.phase,
                        pre.config,
                        pre.params,
                        (pre.offset + 1) as u32,
                    )
                }
            },
        },
    }
}

} // verus!
