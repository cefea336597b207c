//! The calls into tracing-subscriber's layer builder that the assemblers make.
//!
//! A layer of tracing-subscriber is opaque here. Each one travels in a
//! `Modeled` value beside a ghost record of what it holds, and each call below
//! states what it does to that record.
use tracing::Subscriber;
use tracing_subscriber::filter::{Filtered, LevelFilter};
use tracing_subscriber::fmt;
use tracing_subscriber::fmt::format::{
    Compact, DefaultFields, FmtSpan, Format, FormatEvent, FormatFields, Full, Json, JsonFields,
    Pretty,
};
use tracing_subscriber::fmt::time::SystemTime;
use tracing_subscriber::fmt::writer::BoxMakeWriter;
use tracing_subscriber::registry::LookupSpan;
use tracing_subscriber::Layer;
use vstd::prelude::*;

use crate::level::Level;
use crate::settings::{JsonOptions, LayerOptions, LayerSettings, Shape};

verus! {

#[verifier::external_type_specification]
#[verifier::external_body]
pub struct ExFmtSpan(FmtSpan);

#[verifier::external_type_specification]
#[verifier::external_body]
pub struct ExLevelFilter(LevelFilter);

#[verifier::external_type_specification]
#[verifier::external_body]
pub struct ExDefaultFields(DefaultFields);

#[verifier::external_type_specification]
#[verifier::external_body]
pub struct ExJsonFields(JsonFields);

#[verifier::external_type_specification]
#[verifier::external_body]
pub struct ExFull(Full);

#[verifier::external_type_specification]
#[verifier::external_body]
pub struct ExCompact(Compact);

#[verifier::external_type_specification]
#[verifier::external_body]
pub struct ExPretty(Pretty);

#[verifier::external_type_specification]
#[verifier::external_body]
pub struct ExJson(Json);

#[verifier::external_type_specification]
#[verifier::external_body]
pub struct ExSystemTime(SystemTime);

#[verifier::external_type_specification]
#[verifier::external_body]
pub struct ExBoxMakeWriter(BoxMakeWriter);

#[verifier::external_type_specification]
#[verifier::external_body]
#[verifier::reject_recursive_types(F)]
#[verifier::reject_recursive_types(T)]
pub struct ExFormat<F, T>(Format<F, T>);

#[verifier::external_type_specification]
#[verifier::external_body]
#[verifier::reject_recursive_types(S)]
#[verifier::reject_recursive_types(N)]
#[verifier::reject_recursive_types(E)]
#[verifier::reject_recursive_types(W)]
pub struct ExFmtLayer<S, N, E, W>(fmt::Layer<S, N, E, W>);

#[verifier::external_type_specification]
#[verifier::external_body]
#[verifier::reject_recursive_types(L)]
#[verifier::reject_recursive_types(F)]
#[verifier::reject_recursive_types(S)]
pub struct ExFiltered<L, F, S>(Filtered<L, F, S>);

/// A formatting layer of tracing-subscriber, writing to standard output.
pub type StdoutLayer<S, N, L> = fmt::Layer<S, N, Format<L>, BoxMakeWriter>;

/// A value of tracing-subscriber together with a record of what it holds: the
/// options of a layer, the threshold of a filter, or both.
pub struct Modeled<T, M> {
    inner: T,
    model: Ghost<M>,
}

impl<T, M> View for Modeled<T, M> {
    type V = M;

    closed spec fn view(&self) -> M {
        self.model@
    }
}

impl<T, M> Modeled<T, M> {
    /// The value of tracing-subscriber.
    pub closed spec fn value(&self) -> T {
        self.inner
    }

    /// The value of tracing-subscriber.
    pub fn inner(&self) -> (r: &T)
        ensures
            *r == self.value(),
    {
        &self.inner
    }

    /// The value of tracing-subscriber, to customise or install further.
    pub fn into_inner(self) -> (r: T)
        ensures
            r == self.value(),
    {
        self.inner
    }
}

/// Relies on the derived `Clone` of `FmtSpan`, a copy of its one `u8` field.
pub assume_specification[ <FmtSpan as Clone>::clone ](s: &FmtSpan) -> (r: FmtSpan)
    ensures
        r == *s,
;

/// Relies on `FmtSpan::FULL`: events at every point of a span's lifecycle.
#[verifier::external_body]
pub(crate) fn full_span_events() -> FmtSpan {
    FmtSpan::FULL
}

/// The options of a layer fresh from `fmt::layer`, by `Format::default` and
/// the default span configuration; whether it emits ANSI codes depends on the
/// environment.
pub open spec fn default_options(ansi: bool) -> LayerOptions {
    LayerOptions {
        shape: Shape::Full,
        ansi,
        file: false,
        level: true,
        target: true,
        thread_ids: false,
        thread_names: false,
        line_number: false,
        json: None,
        span_events: None,
    }
}

/// Relies on `fmt::layer`, `BoxMakeWriter::new` and `fmt::Layer::with_writer`:
/// a full-format layer with the default options that writes to standard
/// output.
#[verifier::external_body]
pub(crate) fn stdout_layer<S>() -> (r: Modeled<StdoutLayer<S, DefaultFields, Full>, LayerOptions>)
    ensures
        r@ == default_options(r@.ansi),
{
    Modeled {
        inner: fmt::layer().with_writer(BoxMakeWriter::new(std::io::stdout)),
        model: Ghost(default_options(arbitrary())),
    }
}

/// Relies on `fmt::Layer::compact`: switches to the compact format and keeps
/// every option.
#[verifier::external_body]
pub(crate) fn into_compact<S>(
    layer: Modeled<StdoutLayer<S, DefaultFields, Full>, LayerOptions>,
) -> (r: Modeled<StdoutLayer<S, DefaultFields, Compact>, LayerOptions>)
    ensures
        r@ == (LayerOptions { shape: Shape::Compact, ..layer@ }),
{
    Modeled { inner: layer.inner.compact(), model: Ghost(LayerOptions { shape: Shape::Compact, ..layer.model@ }) }
}

/// Relies on `fmt::Layer::pretty`: switches to the pretty format, which shows
/// the source file and line number, and keeps the other options.
#[verifier::external_body]
pub(crate) fn into_pretty<S>(
    layer: Modeled<StdoutLayer<S, DefaultFields, Full>, LayerOptions>,
) -> (r: Modeled<StdoutLayer<S, Pretty, Pretty>, LayerOptions>)
    ensures
        r@ == (LayerOptions { shape: Shape::Pretty, file: true, line_number: true, ..layer@ }),
{
    Modeled {
        inner: layer.inner.pretty(),
        model: Ghost(LayerOptions { shape: Shape::Pretty, file: true, line_number: true, ..layer.model@ }),
    }
}

/// Relies on `fmt::Layer::json`: switches to the JSON format with the
/// defaults of `Json::default` (current span and span list shown), turns ANSI
/// codes off, and keeps the other options.
#[verifier::external_body]
pub(crate) fn into_json<S>(
    layer: Modeled<StdoutLayer<S, DefaultFields, Full>, LayerOptions>,
) -> (r: Modeled<StdoutLayer<S, JsonFields, Json>, LayerOptions>)
    ensures
        r@ == (LayerOptions {
            shape: Shape::Json,
            ansi: false,
            json: Some(JsonOptions { current_span: true, span_list: true }),
            ..layer@
        }),
{
    Modeled {
        inner: layer.inner.json(),
        model: Ghost(
            LayerOptions {
                shape: Shape::Json,
                ansi: false,
                json: Some(JsonOptions { current_span: true, span_list: true }),
                ..layer.model@
            },
        ),
    }
}

/// Relies on `fmt::Layer::with_ansi`: sets whether ANSI escape codes are emitted.
#[verifier::external_body]
pub(crate) fn set_ansi<S, N, L>(
    layer: Modeled<StdoutLayer<S, N, L>, LayerOptions>,
    ansi: bool,
) -> (r: Modeled<StdoutLayer<S, N, L>, LayerOptions>)
    where
        S: Subscriber + for<'a> LookupSpan<'a>,
        N: for<'w> FormatFields<'w> + 'static,
    ensures
        r@ == (LayerOptions { ansi, ..layer@ }),
{
    Modeled { inner: layer.inner.with_ansi(ansi), model: Ghost(LayerOptions { ansi, ..layer.model@ }) }
}

/// Relies on `fmt::Layer::with_file`: sets whether the source file is displayed.
#[verifier::external_body]
pub(crate) fn set_file<S, N, L>(
    layer: Modeled<StdoutLayer<S, N, L>, LayerOptions>,
    file: bool,
) -> (r: Modeled<StdoutLayer<S, N, L>, LayerOptions>)
    where
        N: for<'w> FormatFields<'w> + 'static,
    ensures
        r@ == (LayerOptions { file, ..layer@ }),
{
    Modeled { inner: layer.inner.with_file(file), model: Ghost(LayerOptions { file, ..layer.model@ }) }
}

/// Relies on `fmt::Layer::with_level`: sets whether the level is displayed.
#[verifier::external_body]
pub(crate) fn set_level<S, N, L>(
    layer: Modeled<StdoutLayer<S, N, L>, LayerOptions>,
    level: bool,
) -> (r: Modeled<StdoutLayer<S, N, L>, LayerOptions>)
    where
        N: for<'w> FormatFields<'w> + 'static,
    ensures
        r@ == (LayerOptions { level, ..layer@ }),
{
    Modeled { inner: layer.inner.with_level(level), model: Ghost(LayerOptions { level, ..layer.model@ }) }
}

/// Relies on `fmt::Layer::with_target`: sets whether the target is displayed.
#[verifier::external_body]
pub(crate) fn set_target<S, N, L>(
    layer: Modeled<StdoutLayer<S, N, L>, LayerOptions>,
    target: bool,
) -> (r: Modeled<StdoutLayer<S, N, L>, LayerOptions>)
    where
        N: for<'w> FormatFields<'w> + 'static,
    ensures
        r@ == (LayerOptions { target, ..layer@ }),
{
    Modeled { inner: layer.inner.with_target(target), model: Ghost(LayerOptions { target, ..layer.model@ }) }
}

/// Relies on `fmt::Layer::with_thread_ids`: sets whether the thread id is displayed.
#[verifier::external_body]
pub(crate) fn set_thread_ids<S, N, L>(
    layer: Modeled<StdoutLayer<S, N, L>, LayerOptions>,
    thread_ids: bool,
) -> (r: Modeled<StdoutLayer<S, N, L>, LayerOptions>)
    where
        N: for<'w> FormatFields<'w> + 'static,
    ensures
        r@ == (LayerOptions { thread_ids, ..layer@ }),
{
    Modeled { inner: layer.inner.with_thread_ids(thread_ids), model: Ghost(LayerOptions { thread_ids, ..layer.model@ }) }
}

/// Relies on `fmt::Layer::with_thread_names`: sets whether the thread name is displayed.
#[verifier::external_body]
pub(crate) fn set_thread_names<S, N, L>(
    layer: Modeled<StdoutLayer<S, N, L>, LayerOptions>,
    thread_names: bool,
) -> (r: Modeled<StdoutLayer<S, N, L>, LayerOptions>)
    where
        N: for<'w> FormatFields<'w> + 'static,
    ensures
        r@ == (LayerOptions { thread_names, ..layer@ }),
{
    Modeled { inner: layer.inner.with_thread_names(thread_names), model: Ghost(LayerOptions { thread_names, ..layer.model@ }) }
}

/// Relies on `fmt::Layer::with_line_number`: sets whether the line number is displayed.
#[verifier::external_body]
pub(crate) fn set_line_number<S, N, L>(
    layer: Modeled<StdoutLayer<S, N, L>, LayerOptions>,
    line_number: bool,
) -> (r: Modeled<StdoutLayer<S, N, L>, LayerOptions>)
    where
        N: for<'w> FormatFields<'w> + 'static,
    ensures
        r@ == (LayerOptions { line_number, ..layer@ }),
{
    Modeled { inner: layer.inner.with_line_number(line_number), model: Ghost(LayerOptions { line_number, ..layer.model@ }) }
}

/// Relies on `fmt::Layer::with_current_span`: sets whether JSON events hold
/// the current span.
#[verifier::external_body]
pub(crate) fn set_current_span<S>(
    layer: Modeled<StdoutLayer<S, JsonFields, Json>, LayerOptions>,
    current_span: bool,
) -> (r: Modeled<StdoutLayer<S, JsonFields, Json>, LayerOptions>)
    requires
        layer@.json is Some,
    ensures
        r@ == (LayerOptions {
            json: Some(JsonOptions { current_span, ..layer@.json.unwrap() }),
            ..layer@
        }),
{
    Modeled {
        inner: layer.inner.with_current_span(current_span),
        model: Ghost(
            LayerOptions {
                json: Some(JsonOptions { current_span, ..layer.model@.json.unwrap() }),
                ..layer.model@
            },
        ),
    }
}

/// Relies on `fmt::Layer::with_span_list`: sets whether JSON events hold the
/// list of entered spans.
#[verifier::external_body]
pub(crate) fn set_span_list<S>(
    layer: Modeled<StdoutLayer<S, JsonFields, Json>, LayerOptions>,
    span_list: bool,
) -> (r: Modeled<StdoutLayer<S, JsonFields, Json>, LayerOptions>)
    requires
        layer@.json is Some,
    ensures
        r@ == (LayerOptions {
            json: Some(JsonOptions { span_list, ..layer@.json.unwrap() }),
            ..layer@
        }),
{
    Modeled {
        inner: layer.inner.with_span_list(span_list),
        model: Ghost(
            LayerOptions {
                json: Some(JsonOptions { span_list, ..layer.model@.json.unwrap() }),
                ..layer.model@
            },
        ),
    }
}

/// Relies on `fmt::Layer::with_span_events`: sets which span lifecycle
/// points synthesize events.
#[verifier::external_body]
pub(crate) fn set_span_events<S, N, L>(
    layer: Modeled<StdoutLayer<S, N, L>, LayerOptions>,
    kind: FmtSpan,
) -> (r: Modeled<StdoutLayer<S, N, L>, LayerOptions>)
    where
        N: for<'w> FormatFields<'w> + 'static,
    ensures
        r@ == (LayerOptions { span_events: Some(kind), ..layer@ }),
{
    Modeled {
        inner: layer.inner.with_span_events(kind.clone()),
        model: Ghost(LayerOptions { span_events: Some(kind), ..layer.model@ }),
    }
}

/// Relies on `LevelFilter::TRACE`: lets every record through.
#[verifier::external_body]
fn trace_filter() -> (r: Modeled<LevelFilter, Level>)
    ensures
        r@ == Level::Trace,
{
    Modeled { inner: LevelFilter::TRACE, model: Ghost(Level::Trace) }
}

/// Relies on `LevelFilter::DEBUG`: lets through debug records and above.
#[verifier::external_body]
fn debug_filter() -> (r: Modeled<LevelFilter, Level>)
    ensures
        r@ == Level::Debug,
{
    Modeled { inner: LevelFilter::DEBUG, model: Ghost(Level::Debug) }
}

/// Relies on `LevelFilter::INFO`: lets through info records and above.
#[verifier::external_body]
fn info_filter() -> (r: Modeled<LevelFilter, Level>)
    ensures
        r@ == Level::Info,
{
    Modeled { inner: LevelFilter::INFO, model: Ghost(Level::Info) }
}

/// Relies on `LevelFilter::WARN`: lets through warn and error records.
#[verifier::external_body]
fn warn_filter() -> (r: Modeled<LevelFilter, Level>)
    ensures
        r@ == Level::Warn,
{
    Modeled { inner: LevelFilter::WARN, model: Ghost(Level::Warn) }
}

/// Relies on `LevelFilter::ERROR`: lets through error records only.
#[verifier::external_body]
fn error_filter() -> (r: Modeled<LevelFilter, Level>)
    ensures
        r@ == Level::Error,
{
    Modeled { inner: LevelFilter::ERROR, model: Ghost(Level::Error) }
}

/// The tracing-subscriber filter that lets through records at `level` and above.
pub fn level_filter(level: Level) -> (r: Modeled<LevelFilter, Level>)
    ensures
        r@ == level,
{
    match level {
        Level::Trace => trace_filter(),
        Level::Debug => debug_filter(),
        Level::Info => info_filter(),
        Level::Warn => warn_filter(),
        Level::Error => error_filter(),
    }
}

/// Relies on `Layer::with_filter`: wraps the layer in the filter, so that it
/// keeps its options and sees only the records that the filter lets through.
#[verifier::external_body]
pub(crate) fn filter_layer<S, N, L>(
    layer: Modeled<StdoutLayer<S, N, L>, LayerOptions>,
    filter: Modeled<LevelFilter, Level>,
) -> (r: Modeled<Filtered<StdoutLayer<S, N, L>, LevelFilter, S>, LayerSettings>)
    where
        S: Subscriber + for<'a> LookupSpan<'a>,
        N: for<'w> FormatFields<'w> + 'static,
        L: 'static,
        Format<L>: FormatEvent<S, N>,
    ensures
        r@ == (LayerSettings { options: layer@, threshold: filter@ }),
{
    Modeled {
        inner: layer.inner.with_filter(filter.inner),
        model: Ghost(LayerSettings { options: layer.model@, threshold: filter.model@ }),
    }
}

} // verus!
