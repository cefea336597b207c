use tracing::level_filters::LevelFilter;
use tracing::Subscriber;
use tracing_subscriber::filter::Filtered;
use tracing_subscriber::fmt::format::{Compact, DefaultFields, Full};
use tracing_subscriber::layer::{Layered, SubscriberExt};
use tracing_subscriber::registry::Registry;
use tracing_subscriber::util::SubscriberInitExt;
use tracing_subscriber_init::{
    compact_filtered, full_filtered, Config, Layer, StdoutLayer, TestAll,
};

type Outer =
    Layered<Filtered<StdoutLayer<Registry, DefaultFields, Compact>, LevelFilter, Registry>, Registry>;
type Inner =
    Layered<Filtered<StdoutLayer<Registry, DefaultFields, Full>, LevelFilter, Registry>, Registry>;

fn current_outer_level() -> Option<Option<LevelFilter>> {
    tracing::dispatcher::get_default(|dispatch| {
        dispatch.downcast_ref::<Outer>().map(|subscriber| subscriber.max_level_hint())
    })
}

fn current_inner_level() -> Option<Option<LevelFilter>> {
    tracing::dispatcher::get_default(|dispatch| {
        dispatch.downcast_ref::<Inner>().map(|subscriber| subscriber.max_level_hint())
    })
}

#[test]
fn init_then_try_init_fails() {
    let config = TestAll.config();
    let layer = full_filtered::<Registry>(&config).into_inner();
    tracing_subscriber::registry().with(vec![layer.boxed()]).init();
    let layer = full_filtered::<Registry>(&config).into_inner();
    let res = tracing_subscriber::registry().with(vec![layer.boxed()]).try_init();
    assert!(res.is_err());
}

#[test]
fn nested_scoped_defaults_revert_innermost_first() {
    let outer_config = Config::new(1, 0);
    let outer = compact_filtered::<Registry>(&outer_config).into_inner();
    let outer_guard = tracing_subscriber::registry().with(outer).set_default();
    assert_eq!(Some(Some(LevelFilter::WARN)), current_outer_level());
    {
        let inner_config = TestAll.config();
        let inner = full_filtered::<Registry>(&inner_config).into_inner();
        let _inner_guard = tracing_subscriber::registry().with(inner).set_default();
        assert_eq!(Some(Some(LevelFilter::TRACE)), current_inner_level());
        assert_eq!(None, current_outer_level());
    }
    assert_eq!(Some(Some(LevelFilter::WARN)), current_outer_level());
    assert_eq!(None, current_inner_level());
    drop(outer_guard);
    assert_eq!(None, current_outer_level());
}
