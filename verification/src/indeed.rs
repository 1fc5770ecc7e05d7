//! Indeed's query-parameter code tables: how caller-supplied filters map
//! to the values its job search expects.

use vstd::prelude::*;

use crate::models::{DatePosted, JobType};

verus! {

/// The job-type value Indeed's search expects (`None` for a type it has no
/// filter for).
pub open spec fn spec_job_type_code(job_type: JobType) -> Option<Seq<char>> {
    match job_type {
        JobType::FullTime => Some("fulltime"@),
        JobType::PartTime => Some("parttime"@),
        JobType::Contract => Some("contract"@),
        JobType::Temporary => Some("temporary"@),
        JobType::Internship => Some("internship"@),
        JobType::Volunteer => None,
    }
}

/// The job-type value Indeed's search expects (`None` for a type it has no
/// filter for).
pub fn job_type_code(job_type: &JobType) -> (r: Option<&'static str>)
    ensures
        match r {
            Some(v) => spec_job_type_code(*job_type) == Some(v@),
            None => spec_job_type_code(*job_type) is None,
        },
{
    match job_type {
        JobType::FullTime => Some("fulltime"),
        JobType::PartTime => Some("parttime"),
        JobType::Contract => Some("contract"),
        JobType::Temporary => Some("temporary"),
        JobType::Internship => Some("internship"),
        JobType::Volunteer => None,
    }
}

/// The recency-window value (in days) Indeed's search expects (`None` for
/// no filter).
pub open spec fn spec_indeed_days(date: DatePosted) -> Option<Seq<char>> {
    match date {
        DatePosted::PastDay => Some("1"@),
        DatePosted::PastWeek => Some("7"@),
        DatePosted::PastMonth => Some("14"@),
        DatePosted::Any => None,
    }
}

/// The recency-window value (in days) Indeed's search expects (`None` for
/// no filter).
pub fn indeed_days(date: &DatePosted) -> (r: Option<&'static str>)
    ensures
        match r {
            Some(v) => spec_indeed_days(*date) == Some(v@),
            None => spec_indeed_days(*date) is None,
        },
{
    match date {
        DatePosted::PastDay => Some("1"),
        DatePosted::PastWeek => Some("7"),
        DatePosted::PastMonth => Some("14"),
        DatePosted::Any => None,
    }
}

} // verus!
