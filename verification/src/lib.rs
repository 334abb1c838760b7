//! Verified core of a UDP round-trip latency prober.
//!
//! The library holds the measurement engine: the probe ledger and its
//! running statistics, the sequence-number wire codec, the per-tick
//! decisions of the sender and receiver loops, and the shutdown phases.
//! The sockets, timers and terminal around it are ordinary unverified
//! glue that feeds this engine plain values (timestamps in nanoseconds
//! since the run's start, datagram bytes) and carries its decisions out.

pub mod action;
pub mod codec;
pub mod latency;
pub mod laws;
pub mod ledger;
pub mod server;
pub mod shutdown;
