//! Typed binary codec for PostgreSQL values: the interval and point wire
//! layouts, the bridge between intervals and host duration types, the wire
//! type catalog, and the decisions of the query description pipeline.

pub mod bridge;
pub mod byte_order;
pub mod chrono_duration;
pub mod codec;
pub mod describe;
pub mod error;
pub mod interval;
pub mod pipeline;
pub mod point;
pub mod time_duration;
pub mod type_info;

pub use bridge::HostDuration;
pub use codec::Decode;
pub use codec::Encode;
pub use codec::IsNull;
pub use codec::PgValueFormat;
pub use codec::PgValueRef;
pub use describe::Backend;
pub use describe::Column;
pub use describe::Describe;
pub use describe::DescribeError;
pub use describe::Drivers;
pub use describe::QueryData;
pub use error::CodecError;
pub use error::RangeStep;
pub use error::WireField;
pub use interval::PgInterval;
pub use pipeline::Action;
pub use pipeline::Event;
pub use pipeline::PipelineState;
pub use point::PgPoint;
pub use type_info::PgTypeInfo;
pub use type_info::Type;
