//! The release-build resolution policy.
use vstd::prelude::*;

use crate::level::{release_level, Level};

verus! {

/// Minimum severity under the release-build policy: `quiet` has no effect,
/// and the verbosity, capped at four, indexes the ladder error, warn, info,
/// debug, trace.
pub fn get_effective_level(quiet: u8, verbose: u8) -> (r: Level)
    ensures
        r == release_level(verbose),
{
    match verbose {
        0 => Level::Error,
        1 => Level::Warn,
        2 => Level::Info,
        3 => Level::Debug,
        _ => Level::Trace,
    }
}

} // verus!
