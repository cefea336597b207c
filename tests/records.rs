use std::io::Write;
use std::sync::{Arc, Mutex, OnceLock};

use tracing::callsite::{Callsite, Identifier};
use tracing::field::{FieldSet, Value};
use tracing::metadata::Kind;
use tracing::subscriber::Interest;
use tracing::{Event, Metadata, Span};
use tracing_subscriber::layer::SubscriberExt;
use tracing_subscriber::registry::Registry;
use tracing_subscriber::util::SubscriberInitExt;
use tracing_subscriber_init::{
    compact, full, json, level_filter, pretty, Config, Layer, TestAll,
};

struct TestCallsite {
    metadata: OnceLock<&'static Metadata<'static>>,
}

impl Callsite for TestCallsite {
    fn set_interest(&self, _interest: Interest) {}

    fn metadata(&self) -> &Metadata<'_> {
        self.metadata.get().expect("metadata is set when the callsite is made")
    }
}

fn callsite_metadata(
    name: &'static str,
    level: tracing::Level,
    kind: Kind,
) -> &'static Metadata<'static> {
    let callsite: &'static TestCallsite =
        Box::leak(Box::new(TestCallsite { metadata: OnceLock::new() }));
    let metadata: &'static Metadata<'static> = Box::leak(Box::new(Metadata::new(
        name,
        "records",
        level,
        Some("tests/records.rs"),
        Some(42),
        Some("records"),
        FieldSet::new(&["message"], Identifier(callsite)),
        kind,
    )));
    assert!(callsite.metadata.set(metadata).is_ok());
    metadata
}

fn log(level: tracing::Level, message: &'static str) {
    let metadata = callsite_metadata("event", level, Kind::EVENT);
    if tracing::dispatcher::get_default(|dispatch| dispatch.enabled(metadata)) {
        let values: [Option<&dyn Value>; 1] = [Some(&message)];
        Event::dispatch(metadata, &metadata.fields().value_set_all(&values));
    }
}

fn log_all_levels_in_span(span_level: tracing::Level) {
    let metadata = callsite_metadata("records_span", span_level, Kind::SPAN);
    let values: [Option<&dyn Value>; 1] = [None];
    let span = if tracing::dispatcher::get_default(|dispatch| dispatch.enabled(metadata)) {
        Span::new(metadata, &metadata.fields().value_set_all(&values))
    } else {
        Span::none()
    };
    let entered = span.enter();
    log(tracing::Level::ERROR, "error level");
    log(tracing::Level::WARN, "warn level");
    log(tracing::Level::INFO, "info level");
    log(tracing::Level::DEBUG, "debug level");
    log(tracing::Level::TRACE, "trace level");
    drop(entered);
    drop(span);
}

#[derive(Clone)]
struct Captured(Arc<Mutex<Vec<u8>>>);

impl Write for Captured {
    fn write(&mut self, buf: &[u8]) -> std::io::Result<usize> {
        self.0.lock().unwrap().extend_from_slice(buf);
        Ok(buf.len())
    }

    fn flush(&mut self) -> std::io::Result<()> {
        Ok(())
    }
}

impl Captured {
    fn new() -> Captured {
        Captured(Arc::new(Mutex::new(Vec::new())))
    }

    fn text(&self) -> String {
        String::from_utf8(self.0.lock().unwrap().clone()).unwrap()
    }
}

#[test]
fn full_layer_of_test_all_formats_every_record_and_span_event() {
    let out = Captured::new();
    let writer = out.clone();
    let (layer, level) = full::<Registry>(&TestAll.config());
    let layer = layer
        .into_inner()
        .with_ansi(false)
        .with_writer(move || writer.clone())
        .with_filter(level_filter(level).into_inner());
    let guard = tracing_subscriber::registry().with(layer).set_default();
    log_all_levels_in_span(tracing::Level::TRACE);
    drop(guard);
    let text = out.text();
    for message in ["error level", "warn level", "info level", "debug level", "trace level"] {
        assert!(text.contains(message), "{} missing from {}", message, text);
    }
    for level in ["ERROR", "WARN", "INFO", "DEBUG", "TRACE"] {
        assert!(text.contains(level), "{} missing from {}", level, text);
    }
    for annotation in ["tests/records.rs:42", "records:", "ThreadId("] {
        assert!(text.contains(annotation), "{} missing from {}", annotation, text);
    }
    assert!(text.contains("full_layer_of_test_all_formats_every_record_and_span_event"), "{}", text);
    for lifecycle in ["new", "enter", "exit", "close"] {
        assert!(text.contains(lifecycle), "{} missing from {}", lifecycle, text);
    }
}

#[test]
fn debug_threshold_drops_trace_records() {
    let out = Captured::new();
    let writer = out.clone();
    let (layer, level) = compact::<Registry>(&Config::new(0, 1));
    let layer = layer
        .into_inner()
        .with_writer(move || writer.clone())
        .with_filter(level_filter(level).into_inner());
    let guard = tracing_subscriber::registry().with(layer).set_default();
    log_all_levels_in_span(tracing::Level::INFO);
    drop(guard);
    let text = out.text();
    for message in ["error level", "warn level", "info level", "debug level"] {
        assert!(text.contains(message), "{} missing from {}", message, text);
    }
    assert!(!text.contains("trace level"), "{}", text);
}

#[test]
fn default_compact_layer_passes_info_and_above() {
    let out = Captured::new();
    let writer = out.clone();
    let (layer, level) = compact::<Registry>(&Config::default());
    let layer = layer
        .into_inner()
        .with_writer(move || writer.clone())
        .with_filter(level_filter(level).into_inner());
    let guard = tracing_subscriber::registry().with(layer).set_default();
    log_all_levels_in_span(tracing::Level::INFO);
    drop(guard);
    let text = out.text();
    for message in ["error level", "warn level", "info level"] {
        assert!(text.contains(message), "{} missing from {}", message, text);
    }
    assert!(!text.contains("debug level"), "{}", text);
    assert!(!text.contains("trace level"), "{}", text);
}

#[test]
fn json_layer_of_test_all_writes_json_with_spans() {
    let out = Captured::new();
    let writer = out.clone();
    let (layer, level) = json::<Registry>(&TestAll.config());
    let layer = layer
        .into_inner()
        .with_writer(move || writer.clone())
        .with_filter(level_filter(level).into_inner());
    let guard = tracing_subscriber::registry().with(layer).set_default();
    log_all_levels_in_span(tracing::Level::TRACE);
    drop(guard);
    let text = out.text();
    assert!(text.contains("\"message\":\"trace level\""), "{}", text);
    assert!(text.contains("\"span\":{\"name\":\"records_span\"}"), "{}", text);
    assert!(text.contains("\"spans\":[{\"name\":\"records_span\"}]"), "{}", text);
    assert!(text.contains("\"filename\":\"tests/records.rs\""), "{}", text);
    assert!(text.contains("\"line_number\":42"), "{}", text);
}

#[test]
fn pretty_layer_writes_location_lines() {
    let out = Captured::new();
    let writer = out.clone();
    let (layer, level) = pretty::<Registry>(&Config { file: true, line_number: true, ..Config::new(0, 0) });
    let layer = layer
        .into_inner()
        .with_writer(move || writer.clone())
        .with_filter(level_filter(level).into_inner());
    let guard = tracing_subscriber::registry().with(layer).set_default();
    log_all_levels_in_span(tracing::Level::INFO);
    drop(guard);
    let text = out.text();
    assert!(text.contains("info level"), "{}", text);
    assert!(text.contains("tests/records.rs:42"), "{}", text);
    assert!(!text.contains("debug level"), "{}", text);
}
