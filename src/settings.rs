//! What a layer assembler applies: the plain-value record of the options a
//! layer carries and of the threshold of its filter, and the laws that relate
//! them to the configuration.
use tracing_subscriber::fmt::format::FmtSpan;
use vstd::prelude::*;

use crate::config::Config;
use crate::level::{debug_level, Level};

verus! {

/// The output shape of a formatting layer.
#[derive(Clone, Copy, Debug, PartialEq, Eq, Structural)]
pub enum Shape {
    /// The verbose human-readable default.
    Full,
    /// A terser human-readable rendering.
    Compact,
    /// A multi-line human-readable rendering.
    Pretty,
    /// Machine-readable JSON.
    Json,
}

/// Options that only the JSON shape has.
#[derive(Clone, Copy, Debug, PartialEq, Eq, Structural)]
pub struct JsonOptions {
    pub current_span: bool,
    pub span_list: bool,
}

/// The options of a formatting layer.
#[derive(Clone, Debug, PartialEq, Eq)]
pub struct LayerOptions {
    pub shape: Shape,
    pub ansi: bool,
    pub file: bool,
    pub level: bool,
    pub target: bool,
    pub thread_ids: bool,
    pub thread_names: bool,
    pub line_number: bool,
    /// `Some` for the JSON shape only.
    pub json: Option<JsonOptions>,
    /// `None` is the builder's default, which synthesizes no span events.
    pub span_events: Option<FmtSpan>,
}

/// The options of a formatting layer, and the threshold of the filter that
/// goes with it.
#[derive(Clone, Debug, PartialEq, Eq)]
pub struct LayerSettings {
    pub options: LayerOptions,
    /// Records below this level are suppressed.
    pub threshold: Level,
}

/// The options that a layer of `shape` assembled from `config` carries.
pub open spec fn options_of(shape: Shape, config: Config) -> LayerOptions {
    LayerOptions {
        shape,
        ansi: config.ansi,
        file: config.file,
        level: config.level,
        target: config.target,
        thread_ids: config.thread_ids,
        thread_names: config.thread_names,
        line_number: config.line_number,
        json: if shape == Shape::Json {
            Some(JsonOptions { current_span: config.current_span, span_list: config.span_list })
        } else {
            None
        },
        span_events: config.span_events,
    }
}

/// The settings of a layer of `shape` assembled from `config`.
pub open spec fn settings_of(shape: Shape, config: Config) -> LayerSettings {
    LayerSettings {
        options: options_of(shape, config),
        threshold: debug_level(config.quiet, config.verbose),
    }
}

/// The settings of a layer of `shape` assembled from `config`.
pub fn layer_settings(shape: Shape, config: &Config) -> (r: LayerSettings)
    ensures
        r == settings_of(shape, *config),
{
    let json = if shape == Shape::Json {
        Some(JsonOptions { current_span: config.current_span, span_list: config.span_list })
    } else {
        None
    };
    let span_events = match &config.span_events {
        Some(kind) => Some(kind.clone()),
        None => None,
    };
    let options = LayerOptions {
        shape,
        ansi: config.ansi,
        file: config.file,
        level: config.level,
        target: config.target,
        thread_ids: config.thread_ids,
        thread_names: config.thread_names,
        line_number: config.line_number,
        json,
        span_events,
    };
    LayerSettings {
        options,
        threshold: crate::level::get_effective_level(config.quiet, config.verbose),
    }
}

/// Two layers assembled from equal configurations carry equal options and
/// go with equal thresholds: the settings are a function of the
/// configuration alone, so nothing of one assembly carries over to the next.
pub proof fn lemma_assembly_repeatable(shape: Shape, first: Config, second: Config)
    requires
        first == second,
    ensures
        options_of(shape, first) == options_of(shape, second),
        settings_of(shape, first).threshold == settings_of(shape, second).threshold,
{
}

/// The JSON-only options reach the JSON shape alone: the options of every
/// other shape hold none of them, and two configurations that differ only in
/// those options give that shape the same settings.
pub proof fn lemma_json_options_only_reach_json(shape: Shape, a: Config, b: Config)
    requires
        shape != Shape::Json,
        (Config { current_span: b.current_span, span_list: b.span_list, ..a }) == b,
    ensures
        options_of(shape, a).json is None,
        settings_of(shape, a) == settings_of(shape, b),
{
}

} // verus!
