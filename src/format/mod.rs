//! One assembler per output shape, and the builder steps they share.
use tracing::Subscriber;
use tracing_subscriber::fmt::format::FormatFields;
use tracing_subscriber::registry::LookupSpan;
use vstd::prelude::*;

use crate::builder::{
    set_ansi, set_file, set_level, set_line_number, set_span_events, set_target, set_thread_ids,
    set_thread_names, Modeled, StdoutLayer,
};
use crate::settings::LayerOptions;

pub mod compact;
pub mod full;
pub mod json;
pub mod pretty;

verus! {

/// Hands the display options of `options` to the builder, in the order
/// colours, file, level, target, thread id, thread name, line number.
pub(crate) fn apply_display<S, N, L>(
    layer: Modeled<StdoutLayer<S, N, L>, LayerOptions>,
    options: &LayerOptions,
) -> (r: Modeled<StdoutLayer<S, N, L>, LayerOptions>)
    where
        S: Subscriber + for<'a> LookupSpan<'a>,
        N: for<'w> FormatFields<'w> + 'static,
    ensures
        r@ == (LayerOptions {
            ansi: options.ansi,
            file: options.file,
            level: options.level,
            target: options.target,
            thread_ids: options.thread_ids,
            thread_names: options.thread_names,
            line_number: options.line_number,
            ..layer@
        }),
{
    let layer = set_ansi(layer, options.ansi);
    let layer = set_file(layer, options.file);
    let layer = set_level(layer, options.level);
    let layer = set_target(layer, options.target);
    let layer = set_thread_ids(layer, options.thread_ids);
    let layer = set_thread_names(layer, options.thread_names);
    set_line_number(layer, options.line_number)
}

/// Hands the span-event policy of `options` to the builder when it is set,
/// and leaves the builder's default otherwise.
pub(crate) fn apply_span_events<S, N, L>(
    layer: Modeled<StdoutLayer<S, N, L>, LayerOptions>,
    options: &LayerOptions,
) -> (r: Modeled<StdoutLayer<S, N, L>, LayerOptions>)
    where
        N: for<'w> FormatFields<'w> + 'static,
    ensures
        options.span_events is Some ==> r@ == (LayerOptions {
            span_events: options.span_events,
            ..layer@
        }),
        options.span_events is None ==> r@ == layer@,
{
    match &options.span_events {
        Some(kind) => set_span_events(layer, kind.clone()),
        None => layer,
    }
}

} // verus!
