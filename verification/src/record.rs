//! The measurement record one client task produces per run.

use vstd::prelude::*;
use crate::ipv4::ipv4_dotted;
use crate::ipv4::ipv4_string;

verus! {

/// One client's measurement: the local endpoint it connected from, the
/// server identifier decoded from the four response bytes, and the
/// turnaround time of the exchange in milliseconds.
#[derive(Debug)]
pub struct BenchmarkInfo {
    pub client: String,
    pub server: String,
    pub turnaround_time: u64,
}

impl BenchmarkInfo {
    /// Builds the record of one completed exchange. The four response
    /// bytes, in network order, are rendered as the dotted-decimal
    /// string of the IPv4 address they encode.
    pub fn new(client: String, server_bytes: [u8; 4], turnaround_time: u64) -> (r: Self)
        ensures
            r.client == client,
            r.server@ == ipv4_dotted(server_bytes@),
            r.turnaround_time == turnaround_time,
    {
        let server = ipv4_string(&server_bytes);
        BenchmarkInfo { client, server, turnaround_time }
    }
}

} // verus!
