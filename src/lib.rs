//! Builds preconfigured `tracing-subscriber` formatting layers from a
//! configuration record, together with the minimum severity they should
//! let through.
//!
//! The minimum severity follows the debug-build policy of [`get_effective_level`];
//! the release-build policy is [`release::get_effective_level`], also exported
//! as `get_release_level`.
mod builder;
pub mod config;
pub mod format;
pub mod level;
pub mod release;
pub mod settings;

pub use self::builder::{level_filter, Modeled, StdoutLayer};
pub use self::config::{Config, Config as TracingConfig, TestAll};
pub use self::format::compact::{compact, filtered as compact_filtered};
pub use self::format::full::{filtered as full_filtered, full};
pub use self::format::json::{filtered as json_filtered, json};
pub use self::format::pretty::{filtered as pretty_filtered, pretty};
pub use self::level::{get_effective_level, resolve_level, BuildProfile, Level};
pub use self::release::get_effective_level as get_release_level;
pub use self::settings::{layer_settings, JsonOptions, LayerOptions, LayerSettings, Shape};
pub use time::format_description::well_known::{Iso8601, Rfc2822, Rfc3339};
pub use tracing_subscriber::fmt::time::{OffsetTime, SystemTime, Uptime, UtcTime};
pub use tracing_subscriber::Layer;
