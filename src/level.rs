//! Severity levels and the policy that turns quiet / verbose counters into a
//! minimum severity.
use vstd::prelude::*;

verus! {

/// Severity of a log record, from the most verbose to the most severe.
#[derive(Clone, Copy, Debug, PartialEq, Eq, Structural)]
pub enum Level {
    Trace,
    Debug,
    Info,
    Warn,
    Error,
}

impl Level {
    /// Position of the level on the ordering trace < debug < info < warn < error.
    pub open spec fn rank(self) -> nat {
        match self {
            Level::Trace => 0,
            Level::Debug => 1,
            Level::Info => 2,
            Level::Warn => 3,
            Level::Error => 4,
        }
    }

    /// Position of the level on the ordering trace < debug < info < warn < error.
    pub fn severity(&self) -> (r: u8)
        ensures
            r as nat == self.rank(),
    {
        match self {
            Level::Trace => 0,
            Level::Debug => 1,
            Level::Info => 2,
            Level::Warn => 3,
            Level::Error => 4,
        }
    }

    /// Whether a filter whose threshold is `self` lets a record of level
    /// `record` through: records below the threshold are suppressed.
    pub fn enables(&self, record: Level) -> (r: bool)
        ensures
            r == (record.rank() >= self.rank()),
    {
        record.severity() >= self.severity()
    }
}

/// The two resolution policies: one for builds with debug assertions, one for
/// optimised builds.
#[derive(Clone, Copy, Debug, PartialEq, Eq, Structural)]
pub enum BuildProfile {
    Debug,
    Release,
}

/// Debug-build policy: verbosity takes precedence over quietness, and the
/// base level is info.
pub open spec fn debug_level(quiet: u8, verbose: u8) -> Level {
    if verbose >= 2 {
        Level::Trace
    } else if verbose == 1 {
        Level::Debug
    } else if quiet == 1 {
        Level::Warn
    } else if quiet >= 2 {
        Level::Error
    } else {
        Level::Info
    }
}

/// The ladder that the release-build policy indexes by verbosity.
pub open spec fn release_ladder() -> Seq<Level> {
    seq![Level::Error, Level::Warn, Level::Info, Level::Debug, Level::Trace]
}

/// Release-build policy: quietness is ignored, and the verbosity, capped at
/// four, is an index into the ladder error, warn, info, debug, trace.
pub open spec fn release_level(verbose: u8) -> Level {
    release_ladder()[if verbose >= 4 { 4int } else { verbose as int }]
}

/// The level that `profile` gives for the counters.
pub open spec fn profile_level(profile: BuildProfile, quiet: u8, verbose: u8) -> Level {
    match profile {
        BuildProfile::Debug => debug_level(quiet, verbose),
        BuildProfile::Release => release_level(verbose),
    }
}

/// Minimum severity under the debug-build policy, the one that the layer
/// assemblers of this crate apply.
pub fn get_effective_level(quiet: u8, verbose: u8) -> (r: Level)
    ensures
        r == debug_level(quiet, verbose),
{
    if verbose > 0 {
        if verbose == 1 {
            Level::Debug
        } else {
            Level::Trace
        }
    } else if quiet > 0 {
        if quiet == 1 {
            Level::Warn
        } else {
            Level::Error
        }
    } else {
        Level::Info
    }
}

/// Minimum severity under the policy of `profile`.
pub fn resolve_level(profile: BuildProfile, quiet: u8, verbose: u8) -> (r: Level)
    ensures
        r == profile_level(profile, quiet, verbose),
{
    match profile {
        BuildProfile::Debug => get_effective_level(quiet, verbose),
        BuildProfile::Release => crate::release::get_effective_level(quiet, verbose),
    }
}

} // verus!
