//! Supervision of one long-running worker process that speaks a
//! line-oriented protocol: the single-instance slot, the assembly of its
//! output into lines, the redaction of sensitive lines from diagnostic logs,
//! and the launch configuration.
use vstd::prelude::*;

pub mod config;
pub mod forward;
pub mod lines;
pub mod redact;
pub mod supervisor;

verus! {

/// The build identifier reported to the consumer: the one given at build time,
/// or `"development"` when none was given.
pub fn get_commit_hash_value(build_hash: Option<&'static str>) -> (r: &'static str)
    ensures
        r == match build_hash {
            Some(h) => h,
            None => "development",
        },
{
    match build_hash {
        Some(h) => h,
        None => "development",
    }
}

} // verus!
