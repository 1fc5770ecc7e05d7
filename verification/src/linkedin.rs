//! LinkedIn's query-parameter code tables: how caller-supplied filters map
//! to the codes its listing endpoint expects.

use vstd::prelude::*;

use crate::models::{DatePosted, ExperienceLevel, JobType};

verus! {

/// The job-type code LinkedIn's listing endpoint expects.
pub open spec fn spec_job_type_code(job_type: JobType) -> Option<Seq<char>> {
    match job_type {
        JobType::FullTime => Some("F"@),
        JobType::PartTime => Some("P"@),
        JobType::Contract => Some("C"@),
        JobType::Temporary => Some("T"@),
        JobType::Internship => Some("I"@),
        JobType::Volunteer => Some("V"@),
    }
}

/// The job-type code LinkedIn's listing endpoint expects.
pub fn job_type_code(job_type: &JobType) -> (r: Option<&'static str>)
    ensures
        match r {
            Some(v) => spec_job_type_code(*job_type) == Some(v@),
            None => spec_job_type_code(*job_type) is None,
        },
{
    match job_type {
        JobType::FullTime => Some("F"),
        JobType::PartTime => Some("P"),
        JobType::Contract => Some("C"),
        JobType::Temporary => Some("T"),
        JobType::Internship => Some("I"),
        JobType::Volunteer => Some("V"),
    }
}

/// The experience-level code LinkedIn's listing endpoint expects.
pub open spec fn spec_experience_level_code(level: ExperienceLevel) -> Option<Seq<char>> {
    match level {
        ExperienceLevel::Internship => Some("1"@),
        ExperienceLevel::EntryLevel => Some("2"@),
        ExperienceLevel::Associate => Some("3"@),
        ExperienceLevel::MidSenior => Some("4"@),
        ExperienceLevel::Director => Some("5"@),
        ExperienceLevel::Executive => Some("6"@),
    }
}

/// The experience-level code LinkedIn's listing endpoint expects.
pub fn experience_level_code(level: &ExperienceLevel) -> (r: Option<&'static str>)
    ensures
        match r {
            Some(v) => spec_experience_level_code(*level) == Some(v@),
            None => spec_experience_level_code(*level) is None,
        },
{
    match level {
        ExperienceLevel::Internship => Some("1"),
        ExperienceLevel::EntryLevel => Some("2"),
        ExperienceLevel::Associate => Some("3"),
        ExperienceLevel::MidSenior => Some("4"),
        ExperienceLevel::Director => Some("5"),
        ExperienceLevel::Executive => Some("6"),
    }
}

/// How many seconds of recency a posting-date filter spans (`None` for no
/// filter).
pub open spec fn spec_date_posted_seconds(date: DatePosted) -> Option<u32> {
    match date {
        DatePosted::PastDay => Some(86400u32),
        DatePosted::PastWeek => Some(604800u32),
        DatePosted::PastMonth => Some(2592000u32),
        DatePosted::Any => None,
    }
}

/// How many seconds of recency a posting-date filter spans (`None` for no
/// filter).
pub fn date_posted_seconds(date: &DatePosted) -> (r: Option<u32>)
    ensures
        r == spec_date_posted_seconds(*date),
{
    match date {
        DatePosted::PastDay => Some(86400),
        DatePosted::PastWeek => Some(604800),
        DatePosted::PastMonth => Some(2592000),
        DatePosted::Any => None,
    }
}

} // verus!
