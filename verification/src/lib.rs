//! Verified core of an RPC echo latency benchmark.
//!
//! The library holds the logic of the benchmark: the echo service's
//! response rule, the driver that schedules one run as a state machine,
//! the construction of the request payloads, the wire framing of the
//! echo messages, and the latency statistics. The transport itself
//! (sockets, the RPC library, the async runtime) lives outside the
//! library and only performs the actions the driver hands out.

pub mod codec;
pub mod compare;
pub mod driver;
pub mod echo;
pub mod message;
pub mod stats;
