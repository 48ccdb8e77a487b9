//! A synthetic log-traffic generator: rate-limited record producers, a
//! metadata merge applied to every record, a size/time batcher and the wire
//! body that carries a batch to a collector.

pub mod batcher;
pub mod clock;
pub mod generator;
pub mod metadata;
pub mod producer;
pub mod record;
pub mod sink;
pub mod text;

pub use batcher::{Batcher, Event};
pub use clock::{millis_from_micros, seconds_from_micros};
pub use generator::{Limiter, LimiterSettings, Rates, emit, limiter_settings, new_rate_limiter, planned_tasks, stamp_records};
pub use metadata::CommonMetadata;
pub use producer::{Category, Flow, apache_log_line, generate_apache_log_line, generate_vpc_flow_line, leak_line, message_record, random_flow, vpc_flow_line};
pub use record::{Datum, FieldValue, Record};
pub use sink::{batch_body, logs_endpoint};
pub use text::{push_decimal, push_signed_decimal};
