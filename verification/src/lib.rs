//! Client side of a multi-process Prometheus metrics pipeline: metric definitions are checked
//! and registered, each recorded observation is checked against its metric's labels, and
//! observations are gathered into batches for an aggregator process.
pub mod batch;
pub mod client;
pub mod collector;
pub mod counter;
pub mod error;
pub mod gauge;
pub mod histogram;
pub mod metric;
pub mod registry;
pub mod spec;
pub mod summary;
pub mod text;
pub mod validate;
pub mod writer;

pub use batch::{batch_result, Batch};
pub use client::{stripped_key, Client, Config, MetricHandle};
pub use collector::CollectorInner;
pub use counter::{BatchCounter, Counter};
pub use error::{Error, Result};
pub use gauge::{BatchGauge, Gauge};
pub use histogram::{BatchHistogram, Histogram};
pub use metric::{Metric, ONE};
pub use spec::MetricSpec;
pub use summary::{BatchSummary, Summary};
pub use validate::{apply_prefix, normalize_prefix, validate_label, validate_name, validate_prefix};
pub use writer::{Timeout, Writer};
