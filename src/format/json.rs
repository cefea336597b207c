//! The machine-readable JSON layer.
use tracing::Subscriber;
use tracing_subscriber::filter::{Filtered, LevelFilter};
use tracing_subscriber::fmt::format::{Json, JsonFields};
use tracing_subscriber::registry::LookupSpan;
use vstd::prelude::*;

use crate::builder::{
    filter_layer, into_json, level_filter, set_current_span, set_span_list, stdout_layer, Modeled,
    StdoutLayer,
};
use crate::config::Config;
use crate::format::{apply_display, apply_span_events};
use crate::level::{debug_level, Level};
use crate::settings::{layer_settings, options_of, settings_of, LayerOptions, LayerSettings, Shape};

verus! {

/// Builds a JSON layer that writes to standard output, and returns it with
/// the minimum severity that `config`'s counters select.
///
/// The layer receives the display options of `config` in the order colours,
/// file, level, target, thread id, thread name, line number, then the
/// JSON-only options current span and span list, then its span events when
/// they are set.
pub fn json<S>(config: &Config) -> (r: (Modeled<StdoutLayer<S, JsonFields, Json>, LayerOptions>, Level))
    where
        S: Subscriber + for<'a> LookupSpan<'a>,
    ensures
        r.0@ == options_of(Shape::Json, *config),
        r.1 == debug_level(config.quiet, config.verbose),
{
    let settings = layer_settings(Shape::Json, config);
    let layer = apply_display(into_json(stdout_layer()), &settings.options);
    let layer = set_current_span(layer, config.current_span);
    let layer = set_span_list(layer, config.span_list);
    let layer = apply_span_events(layer, &settings.options);
    (layer, settings.threshold)
}

/// Builds the layer of [`json`] and wraps it in a filter that suppresses the
/// records below the selected minimum severity.
pub fn filtered<S>(config: &Config) -> (r: Modeled<
    Filtered<StdoutLayer<S, JsonFields, Json>, LevelFilter, S>,
    LayerSettings,
>)
    where
        S: Subscriber + for<'a> LookupSpan<'a>,
    ensures
        r@ == settings_of(Shape::Json, *config),
{
    let (layer, level) = json(config);
    filter_layer(layer, level_filter(level))
}

} // verus!
