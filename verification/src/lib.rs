//! A client for the Jaeger tracing system.
//!
//! A [`Tracer`] starts spans and decides with its sampler which new traces
//! are sampled. A [`Span`] collects tags and logs while it is active. When it
//! is finished, what is left of it goes into the channel of its tracer. The
//! reporters of [`reporter`] turn finished spans into the datagrams that an
//! agent reads, in the compact or in the binary encoding of thrift. The
//! functions of [`carrier`] take a span context across a process boundary.
//!
//! What each function does is stated in its contract and proved with Verus.
//! The modules [`thrift`] and [`channel`] describe the crates that this one
//! builds on; their contracts are taken on trust.

pub mod carrier;
pub mod channel;
pub mod constants;
pub mod encoder;
pub mod error;
pub mod hex;
pub mod jaeger;
pub mod limits;
pub mod log;
pub mod reporter;
pub mod sampler;
pub mod span;
pub mod tag;
pub mod text_map;
pub mod thrift;
pub mod time;
pub mod tracer;

pub use crate::error::ErrorKind;
pub use crate::error::TraceError;
pub use crate::span::Span;
pub use crate::tracer::Tracer;
