//! The compact human-readable layer.
use tracing::Subscriber;
use tracing_subscriber::filter::{Filtered, LevelFilter};
use tracing_subscriber::fmt::format::{Compact, DefaultFields};
use tracing_subscriber::registry::LookupSpan;
use vstd::prelude::*;

use crate::builder::{filter_layer, into_compact, level_filter, stdout_layer, Modeled, StdoutLayer};
use crate::config::Config;
use crate::format::{apply_display, apply_span_events};
use crate::level::{debug_level, Level};
use crate::settings::{layer_settings, options_of, settings_of, LayerOptions, LayerSettings, Shape};

verus! {

/// Builds a compact human-readable layer that writes to standard output, and returns it
/// with the minimum severity that `config`'s counters select.
///
/// The layer receives the display options of `config` in the order colours,
/// file, level, target, thread id, thread name, line number, then its span
/// events when they are set.
pub fn compact<S>(config: &Config) -> (r: (Modeled<StdoutLayer<S, DefaultFields, Compact>, LayerOptions>, Level))
    where
        S: Subscriber + for<'a> LookupSpan<'a>,
    ensures
        r.0@ == options_of(Shape::Compact, *config),
        r.1 == debug_level(config.quiet, config.verbose),
{
    let settings = layer_settings(Shape::Compact, config);
    let layer = apply_display(into_compact(stdout_layer()), &settings.options);
    let layer = apply_span_events(layer, &settings.options);
    (layer, settings.threshold)
}

/// Builds the layer of [`compact`] and wraps it in a filter that suppresses
/// the records below the selected minimum severity.
pub fn filtered<S>(config: &Config) -> (r: Modeled<
    Filtered<StdoutLayer<S, DefaultFields, Compact>, LevelFilter, S>,
    LayerSettings,
>)
    where
        S: Subscriber + for<'a> LookupSpan<'a>,
    ensures
        r@ == settings_of(Shape::Compact, *config),
{
    let (layer, level) = compact(config);
    filter_layer(layer, level_filter(level))
}

} // verus!
