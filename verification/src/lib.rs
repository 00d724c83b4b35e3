//! A client-side metric store. Typed metrics commit their values into a
//! keyed store, and two switches stand before every write: the metric's
//! own recording policy and the session's upload flag. Storage offers a
//! plain overwrite and an atomic merge, so a metric type such as the UUID
//! metric can express "always replace" as well as "seed once, then keep"
//! purely through the function it hands to the merge operation. A small
//! reader for queued-ping records checks the two-line wire format that
//! committed values eventually reach on their way out.

pub mod common;
pub mod glean;
pub mod laws;
pub mod metric;
pub mod ping;
pub mod storage;
pub mod uuid_metric;
pub mod uuid_value;

pub use common::CommonMetricData;
pub use glean::Glean;
pub use metric::Metric;
pub use ping::QueuedPing;
pub use storage::MetricStore;
pub use uuid_metric::UuidMetric;
pub use uuid_value::UuidValue;
