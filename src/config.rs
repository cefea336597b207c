//! The configuration record that the layer assemblers read.
use tracing_subscriber::fmt::format::FmtSpan;
use vstd::prelude::*;

use crate::builder::full_span_events;

verus! {

/// Tracing configuration, normally filled from command-line arguments.
///
/// `Config::new` gives every option its documented default: colours and
/// levels shown, everything else hidden, no synthesized span events.
#[derive(Clone, Debug, PartialEq, Eq)]
pub struct Config {
    /// Number of quiet flags.
    pub quiet: u8,
    /// Number of verbose flags.
    pub verbose: u8,
    /// Whether the formatter emits ANSI escape codes for colours.
    pub ansi: bool,
    /// Whether an event's source file path is displayed.
    pub file: bool,
    /// Whether an event's source line number is displayed.
    pub line_number: bool,
    /// Whether an event's level is displayed.
    pub level: bool,
    /// Whether an event's target is displayed.
    pub target: bool,
    /// Whether the id of the current thread is displayed.
    pub thread_ids: bool,
    /// Whether the name of the current thread is displayed.
    pub thread_names: bool,
    /// Which points of a span's lifecycle synthesize events; `None` leaves
    /// the formatter's default, which synthesizes none.
    pub span_events: Option<FmtSpan>,
    /// JSON output only: whether the current span is included in events.
    pub current_span: bool,
    /// JSON output only: whether the list of entered spans, from root to
    /// leaf, is included in events.
    pub span_list: bool,
}

impl Config {
    /// The configuration with the given counters and every option at its default.
    pub open spec fn defaults(quiet: u8, verbose: u8) -> Config {
        Config {
            quiet,
            verbose,
            ansi: true,
            file: false,
            line_number: false,
            level: true,
            target: false,
            thread_ids: false,
            thread_names: false,
            span_events: None,
            current_span: false,
            span_list: false,
        }
    }

    /// A configuration with the given counters and every option at its default.
    pub fn new(quiet: u8, verbose: u8) -> (r: Config)
        ensures
            r == Config::defaults(quiet, verbose),
    {
        Config {
            quiet,
            verbose,
            ansi: true,
            file: false,
            line_number: false,
            level: true,
            target: false,
            thread_ids: false,
            thread_names: false,
            span_events: None,
            current_span: false,
            span_list: false,
        }
    }
}

impl Config {
    /// The number of quiet flags.
    pub fn quiet(&self) -> (r: u8)
        ensures
            r == self.quiet,
    {
        self.quiet
    }

    /// The number of verbose flags.
    pub fn verbose(&self) -> (r: u8)
        ensures
            r == self.verbose,
    {
        self.verbose
    }

    /// Whether ANSI escape codes are emitted.
    pub fn with_ansi(&self) -> (r: bool)
        ensures
            r == self.ansi,
    {
        self.ansi
    }

    /// Whether JSON events include the current span.
    pub fn with_current_span(&self) -> (r: bool)
        ensures
            r == self.current_span,
    {
        self.current_span
    }

    /// Whether an event's source file path is displayed.
    pub fn with_file(&self) -> (r: bool)
        ensures
            r == self.file,
    {
        self.file
    }

    /// Whether an event's source line number is displayed.
    pub fn with_line_number(&self) -> (r: bool)
        ensures
            r == self.line_number,
    {
        self.line_number
    }

    /// Whether an event's level is displayed.
    pub fn with_level(&self) -> (r: bool)
        ensures
            r == self.level,
    {
        self.level
    }

    /// Which span lifecycle points synthesize events, if set.
    pub fn with_span_events(&self) -> (r: Option<FmtSpan>)
        ensures
            r == self.span_events,
    {
        match &self.span_events {
            Some(kind) => Some(kind.clone()),
            None => None,
        }
    }

    /// Whether JSON events include the list of entered spans.
    pub fn with_span_list(&self) -> (r: bool)
        ensures
            r == self.span_list,
    {
        self.span_list
    }

    /// Whether an event's target is displayed.
    pub fn with_target(&self) -> (r: bool)
        ensures
            r == self.target,
    {
        self.target
    }

    /// Whether the id of the current thread is displayed.
    pub fn with_thread_ids(&self) -> (r: bool)
        ensures
            r == self.thread_ids,
    {
        self.thread_ids
    }

    /// Whether the name of the current thread is displayed.
    pub fn with_thread_names(&self) -> (r: bool)
        ensures
            r == self.thread_names,
    {
        self.thread_names
    }
}

impl Default for Config {
    fn default() -> (r: Config)
        ensures
            r == Config::defaults(0, 0),
    {
        Config::new(0, 0)
    }
}

/// A configuration that turns everything on: three verbose flags, every
/// display option, both JSON options, and span events at every lifecycle
/// point.
#[derive(Clone, Copy, Debug)]
pub struct TestAll;

impl TestAll {
    /// `config` with every field but the span events fixed.
    pub open spec fn is_all(config: Config) -> bool {
        &&& config.quiet == 0
        &&& config.verbose == 3
        &&& config.ansi
        &&& config.file
        &&& config.line_number
        &&& config.level
        &&& config.target
        &&& config.thread_ids
        &&& config.thread_names
        &&& config.span_events is Some
        &&& config.current_span
        &&& config.span_list
    }

    /// The configuration that this value stands for.
    pub fn config(&self) -> (r: Config)
        ensures
            TestAll::is_all(r),
    {
        Config {
            quiet: 0,
            verbose: 3,
            ansi: true,
            file: true,
            line_number: true,
            level: true,
            target: true,
            thread_ids: true,
            thread_names: true,
            span_events: Some(full_span_events()),
            current_span: true,
            span_list: true,
        }
    }
}

} // verus!
