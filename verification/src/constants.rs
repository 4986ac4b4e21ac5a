//! Names and numbers that the Jaeger protocol fixes.

use vstd::prelude::*;

verus! {

/// The version that a reporter announces to the agent.
pub const JAEGER_CLIENT_VERSION: &'static str = "rustracing_jaeger-1.2.0";

/// The key of the process tag that holds the client version.
pub const JAEGER_CLIENT_VERSION_TAG_KEY: &'static str = "jaeger.version";

/// The key of the process tag that holds the host name.
pub const TRACER_HOSTNAME_TAG_KEY: &'static str = "hostname";

/// The key of the process tag that holds the local IP address.
pub const TRACER_IP_TAG_KEY: &'static str = "ip";

/// The carrier field that holds a span context.
pub const TRACER_CONTEXT_HEADER_NAME: &'static str = "uber-trace-id";

/// The bit of the flags byte that says that a trace is sampled.
pub const FLAG_SAMPLED: u8 = 1;

/// The largest payload of one UDP datagram over IPv4.
pub const MAX_DATAGRAM_SIZE: usize = 65_507;

} // verus!
