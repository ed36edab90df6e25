//! The run configuration, the aggregate statistics, and the fold of
//! all measurement records into one summary.

use vstd::prelude::*;
use vstd::arithmetic::div_mod::lemma_div_is_ordered;
use vstd::arithmetic::div_mod::lemma_div_multiples_vanish;
use crate::record::BenchmarkInfo;

verus! {

/// Why a run's inputs were rejected.
#[derive(Debug, Clone, Copy, PartialEq, Eq, Structural)]
pub enum RunError {
    /// The configured client count was zero.
    ZeroClients,
    /// The number of drained records differs from the client count.
    RecordCountMismatch,
}

/// The aggregate statistics of one run. `throughput` is the run's
/// wall-clock time divided by the client count: the average share of
/// wall-clock time per client, not a rate.
#[derive(Debug, Clone, Copy, PartialEq, Eq, Structural)]
pub struct Summary {
    pub total_time_ms: u64,
    pub throughput: u64,
    pub average_turnaround_ms: u64,
}

/// The immutable inputs of one run: the target endpoint, the number of
/// concurrent clients, and the probe byte each client sends.
pub struct RunConfig {
    pub host: String,
    pub clients: usize,
    pub probe_byte: u8,
}

impl RunConfig {
    /// Accepts the run inputs, rejecting a client count of zero.
    pub fn new(host: String, clients: usize, probe_byte: u8) -> (r: Result<Self, RunError>)
        ensures
            r is Ok <==> clients >= 1,
            clients == 0 ==> r == Err::<Self, RunError>(RunError::ZeroClients),
            r matches Ok(c) ==> c.host == host && c.clients == clients && c.probe_byte
                == probe_byte,
    {
        if clients == 0 {
            Err(RunError::ZeroClients)
        } else {
            Ok(RunConfig { host, clients, probe_byte })
        }
    }
}

/// The sum of the turnaround times of a sequence of records.
pub open spec fn sum_turnarounds(s: Seq<BenchmarkInfo>) -> int
    decreases s.len(),
{
    if s.len() == 0 {
        0
    } else {
        sum_turnarounds(s.drop_last()) + s.last().turnaround_time
    }
}

/// The turnaround times of a sequence of records.
pub open spec fn turnaround_seq(s: Seq<BenchmarkInfo>) -> Seq<int> {
    s.map_values(|r: BenchmarkInfo| r.turnaround_time as int)
}

/// The sum of the turnaround times lies between zero and the number of
/// records times the largest value a single record can hold.
pub proof fn lemma_sum_turnarounds_bounds(s: Seq<BenchmarkInfo>)
    ensures
        0 <= sum_turnarounds(s),
        sum_turnarounds(s) <= s.len() * u64::MAX,
    decreases s.len(),
{
    if s.len() > 0 {
        lemma_sum_turnarounds_bounds(s.drop_last());
    }
}

/// Sums the turnaround times of the drained records. The sum is exact:
/// it cannot overflow, since each summand fits in a machine word and
/// there are at most an address space's worth of records.
pub fn sum_turnaround_times(records: &Vec<BenchmarkInfo>) -> (s: u128)
    ensures
        s == sum_turnarounds(records@),
{
    let mut s: u128 = 0;
    let mut i: usize = 0;
    while i < records.len()
        invariant
            i <= records@.len(),
            s == sum_turnarounds(records@.subrange(0, i as int)),
            s <= i * u64::MAX,
        decreases records@.len() - i,
    {
        proof {
            assert(records@.subrange(0, i + 1).drop_last() =~= records@.subrange(0, i as int));
            assert(records@.subrange(0, i + 1).last() == records@[i as int]);
        }
        s = s + records[i].turnaround_time as u128;
        i = i + 1;
    }
    proof {
        assert(records@.subrange(0, records@.len() as int) =~= records@);
    }
    s
}

/// Folds the drained records into the run's summary.
///
/// A client count of zero is rejected as a configuration error, never
/// computed. A record count that differs from the client count means a
/// drained channel was empty or a task reported twice: an internal
/// invariant violation, reported as an error and never defaulted.
/// Otherwise the summary holds the wall-clock time, the per-client
/// wall-clock share, and the mean turnaround time, both quotients by
/// truncating integer division.
pub fn aggregate(clients: usize, total_time_ms: u64, records: &Vec<BenchmarkInfo>) -> (r: Result<
    Summary,
    RunError,
>)
    ensures
        r is Ok <==> (clients >= 1 && records@.len() == clients),
        clients == 0 ==> r == Err::<Summary, RunError>(RunError::ZeroClients),
        (clients >= 1 && records@.len() != clients) ==> r == Err::<Summary, RunError>(
            RunError::RecordCountMismatch,
        ),
        r matches Ok(s) ==> {
            &&& s.total_time_ms == total_time_ms
            &&& s.throughput == total_time_ms as int / clients as int
            &&& s.average_turnaround_ms == sum_turnarounds(records@) / clients as int
        },
{
    if clients == 0 {
        return Err(RunError::ZeroClients);
    }
    if records.len() != clients {
        return Err(RunError::RecordCountMismatch);
    }
    let throughput = total_time_ms / (clients as u64);
    let sum = sum_turnaround_times(records);
    proof {
        lemma_sum_turnarounds_bounds(records@);
        lemma_div_is_ordered(sum as int, clients as int * u64::MAX, clients as int);
        lemma_div_multiples_vanish(u64::MAX as int, clients as int);
    }
    let average_turnaround_ms = (sum / (clients as u128)) as u64;
    Ok(Summary { total_time_ms, throughput, average_turnaround_ms })
}

/// The run's wall-clock span covers every task's measured turnaround.
///
/// The run clock starts before any probe is sent and stops only after
/// every response has been received, and each record's turnaround time
/// is the span from its own send to its own receipt. The total time is
/// therefore at least every record's turnaround time, and in
/// particular at least the largest of them.
pub proof fn lemma_total_time_bounds_turnarounds(
    records: Seq<BenchmarkInfo>,
    send_times: Seq<int>,
    receive_times: Seq<int>,
    run_start: int,
    run_end: int,
)
    requires
        send_times.len() == records.len(),
        receive_times.len() == records.len(),
        forall|i: int| 0 <= i < records.len() ==> run_start <= #[trigger] send_times[i],
        forall|i: int|
            0 <= i < records.len() ==> #[trigger] send_times[i] <= receive_times[i],
        forall|i: int| 0 <= i < records.len() ==> #[trigger] receive_times[i] <= run_end,
        forall|i: int|
            0 <= i < records.len() ==> #[trigger] records[i].turnaround_time == receive_times[i]
                - send_times[i],
    ensures
        forall|i: int|
            0 <= i < records.len() ==> #[trigger] records[i].turnaround_time <= run_end
                - run_start,
        records.len() > 0 ==> turnaround_seq(records).max() <= run_end - run_start,
{
    if records.len() > 0 {
        let tats = turnaround_seq(records);
        tats.max_ensures();
        assert(tats.contains(tats.max()));
        let j = choose|j: int| 0 <= j < tats.len() && tats[j] == tats.max();
        assert(records[j].turnaround_time == tats.max());
    }
}

} // verus!
