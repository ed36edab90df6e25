//! A concurrent network latency probe, as a verified library.
//!
//! The library holds the logic of the probe: decoding a server's
//! four-byte reply into a dotted-decimal IPv4 string, building one
//! measurement record per client, and folding all records into the
//! run's aggregate statistics. The surrounding program opens the
//! sockets, spawns one thread per client and keeps the clocks; it
//! hands this library plain values and takes plain values back.

pub mod ipv4;
pub mod record;
pub mod stats;
