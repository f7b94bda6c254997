//! Parallel counter collection.
//!
//! One tick reads the counter table once; extracting each interface's row is
//! independent pure work, so it is fanned out across a thread pool and joined
//! before anything is published. Attribution never crosses interfaces: the
//! result for a position is always the parse for the interface at that
//! position.

use vstd::prelude::*;
use rayon::iter::IndexedParallelIterator;
use rayon::iter::IntoParallelRefIterator;
use rayon::iter::ParallelIterator;
use crate::error::{error_payload, AppError};
use crate::interface::{spec_is_active, NetworkInterface};
use crate::linux_api::{
    parse_proc_net_dev, spec_interface_not_found_message, spec_parse_proc_net_dev,
};
use crate::stats::InterfaceStats;

verus! {

/// `r` is what `parse_proc_net_dev` returns for this interface on this
/// counter text: the extracted row on a match, a not-found report otherwise.
pub open spec fn parse_outcome_matches(
    r: Result<InterfaceStats, AppError>,
    iface: NetworkInterface,
    content: Seq<char>,
    captured_at: u64,
) -> bool {
    &&& (r is Ok <==> spec_parse_proc_net_dev(content, iface.name@, iface.index, captured_at)
        is Some)
    &&& (r is Ok ==> r->Ok_0 == spec_parse_proc_net_dev(
        content,
        iface.name@,
        iface.index,
        captured_at,
    )->Some_0)
    &&& (r is Err ==> r->Err_0 is NetworkInterface && error_payload(r->Err_0)
        == spec_interface_not_found_message(iface.name@))
}

/// Relies on rayon's `par_iter`, `map` and `collect_into_vec`: the closure
/// runs once per listed position and the results land in the positions'
/// order, as the indexed collect documents. The closure itself only calls
/// the verified `parse_proc_net_dev` on fields of the indexed interface, so
/// each element of the result is that function's outcome for its position.
#[verifier::external_body]
fn par_parse_at(
    interfaces: &Vec<NetworkInterface>,
    positions: &Vec<usize>,
    content: &str,
    captured_at: u64,
) -> (results: Vec<Result<InterfaceStats, AppError>>)
    requires
        forall|i: int| 0 <= i < positions@.len() ==> positions@[i] < interfaces@.len(),
    ensures
        results@.len() == positions@.len(),
        forall|i: int|
            0 <= i < results@.len() ==> parse_outcome_matches(
                results@[i],
                interfaces@[positions@[i] as int],
                content@,
                captured_at,
            ),
{
    let mut out = Vec::new();
    positions
        .par_iter()
        .map(|&p| {
            parse_proc_net_dev(&interfaces[p].name, content, interfaces[p].index, captured_at)
        })
        .collect_into_vec(&mut out);
    out
}

/// The positions `0` to `count - 1`, in order.
fn all_positions(count: usize) -> (positions: Vec<usize>)
    ensures
        positions@.len() == count,
        forall|i: int| 0 <= i < count ==> positions@[i] == i,
{
    let mut positions: Vec<usize> = Vec::new();
    let mut i: usize = 0;
    while i < count
        invariant
            i <= count,
            positions@.len() == i,
            forall|j: int| 0 <= j < i ==> positions@[j] == j,
        decreases count - i,
    {
        positions.push(i);
        i = i + 1;
    }
    positions
}

/// Collects one snapshot per interface concurrently, reading each row out of
/// the given counter text. Succeeds only when every interface's row is
/// found; the first missing interface's report is the error.
pub fn collect_all_stats_parallel(
    interfaces: &Vec<NetworkInterface>,
    content: &str,
    captured_at: u64,
) -> (result: Result<Vec<InterfaceStats>, AppError>)
    ensures
        result is Ok <==> (forall|i: int|
            0 <= i < interfaces@.len() ==> spec_parse_proc_net_dev(
                content@,
                (#[trigger] interfaces@[i]).name@,
                interfaces@[i].index,
                captured_at,
            ) is Some),
        result is Ok ==> result->Ok_0@.len() == interfaces@.len(),
        result is Ok ==> (forall|i: int|
            0 <= i < interfaces@.len() ==> result->Ok_0@[i] == spec_parse_proc_net_dev(
                content@,
                (#[trigger] interfaces@[i]).name@,
                interfaces@[i].index,
                captured_at,
            )->Some_0),
        result is Err ==> result->Err_0 is NetworkInterface && (exists|i: int|
            0 <= i < interfaces@.len() && spec_parse_proc_net_dev(
                content@,
                (#[trigger] interfaces@[i]).name@,
                interfaces@[i].index,
                captured_at,
            ) is None && error_payload(result->Err_0) == spec_interface_not_found_message(
                interfaces@[i].name@,
            )),
{
    let positions = all_positions(interfaces.len());
    let results = par_parse_at(interfaces, &positions, content, captured_at);
    let mut out: Vec<InterfaceStats> = Vec::new();
    let mut i: usize = 0;
    while i < results.len()
        invariant
            i <= results@.len(),
            results@.len() == interfaces@.len(),
            out@.len() == i,
            forall|j: int|
                0 <= j < results@.len() ==> parse_outcome_matches(
                    results@[j],
                    interfaces@[j],
                    content@,
                    captured_at,
                ),
            forall|j: int|
                0 <= j < i ==> (#[trigger] results@[j]) is Ok && out@[j] == results@[j]->Ok_0,
        decreases results@.len() - i,
    {
        match &results[i] {
            Ok(stats) => {
                out.push(*stats);
            },
            Err(e) => {
                return Err(e.clone());
            },
        }
        i = i + 1;
    }
    Ok(out)
}

/// Collects one snapshot per active interface concurrently, paired with the
/// interface's position in the set, positions strictly increasing. Succeeds
/// only when every active interface's row is found.
pub fn collect_active_stats_parallel(
    interfaces: &Vec<NetworkInterface>,
    content: &str,
    captured_at: u64,
) -> (result: Result<Vec<(usize, InterfaceStats)>, AppError>)
    ensures
        result is Ok <==> (forall|i: int|
            0 <= i < interfaces@.len() && spec_is_active(#[trigger] interfaces@[i])
                ==> spec_parse_proc_net_dev(
                content@,
                interfaces@[i].name@,
                interfaces@[i].index,
                captured_at,
            ) is Some),
        result is Ok ==> (forall|k: int|
            0 <= k < result->Ok_0@.len() ==> (#[trigger] result->Ok_0@[k]).0
                < interfaces@.len() && spec_is_active(interfaces@[result->Ok_0@[k].0 as int])
                && result->Ok_0@[k].1 == spec_parse_proc_net_dev(
                content@,
                interfaces@[result->Ok_0@[k].0 as int].name@,
                interfaces@[result->Ok_0@[k].0 as int].index,
                captured_at,
            )->Some_0),
        result is Ok ==> (forall|k1: int, k2: int|
            0 <= k1 < k2 < result->Ok_0@.len() ==> (#[trigger] result->Ok_0@[k1]).0 < (
            #[trigger] result->Ok_0@[k2]).0),
        result is Ok ==> (forall|p: int|
            0 <= p < interfaces@.len() && spec_is_active(#[trigger] interfaces@[p]) ==> (
            exists|k: int| 0 <= k < result->Ok_0@.len() && (#[trigger] result->Ok_0@[k]).0 == p)),
        result is Err ==> result->Err_0 is NetworkInterface && (exists|i: int|
            0 <= i < interfaces@.len() && spec_is_active(#[trigger] interfaces@[i])
                && spec_parse_proc_net_dev(
                content@,
                interfaces@[i].name@,
                interfaces@[i].index,
                captured_at,
            ) is None && error_payload(result->Err_0) == spec_interface_not_found_message(
                interfaces@[i].name@,
            )),
{
    let n = interfaces.len();
    let mut positions: Vec<usize> = Vec::new();
    let mut i: usize = 0;
    while i < n
        invariant
            i <= n,
            n == interfaces@.len(),
            forall|k: int|
                0 <= k < positions@.len() ==> (#[trigger] positions@[k]) < i && spec_is_active(
                    interfaces@[positions@[k] as int],
                ),
            forall|k1: int, k2: int|
                0 <= k1 < k2 < positions@.len() ==> (#[trigger] positions@[k1]) < (
                #[trigger] positions@[k2]),
            forall|p: int|
                0 <= p < i && spec_is_active(#[trigger] interfaces@[p]) ==> (exists|k: int|
                    0 <= k < positions@.len() && (#[trigger] positions@[k]) == p),
        decreases n - i,
    {
        let ghost old_positions = positions@;
        let iface = &interfaces[i];
        let active = iface.is_up && !iface.is_loopback;
        if active {
            positions.push(i);
        }
        proof {
            assert forall|p: int|
                0 <= p < i + 1 && spec_is_active(#[trigger] interfaces@[p]) implies (exists|k: int|
                0 <= k < positions@.len() && (#[trigger] positions@[k]) == p) by {
                if p == i {
                    assert(positions@[positions@.len() - 1] == p);
                } else {
                    let k = choose|k: int|
                        0 <= k < old_positions.len() && (#[trigger] old_positions[k]) == p;
                    assert(positions@[k] == p);
                }
            }
        }
        i = i + 1;
    }
    let results = par_parse_at(interfaces, &positions, content, captured_at);
    let mut out: Vec<(usize, InterfaceStats)> = Vec::new();
    let mut k: usize = 0;
    while k < results.len()
        invariant
            k <= results@.len(),
            results@.len() == positions@.len(),
            out@.len() == k,
            n == interfaces@.len(),
            forall|j: int|
                0 <= j < positions@.len() ==> (#[trigger] positions@[j]) < n && spec_is_active(
                    interfaces@[positions@[j] as int],
                ),
            forall|k1: int, k2: int|
                0 <= k1 < k2 < positions@.len() ==> (#[trigger] positions@[k1]) < (
                #[trigger] positions@[k2]),
            forall|p: int|
                0 <= p < n && spec_is_active(#[trigger] interfaces@[p]) ==> (exists|j: int|
                    0 <= j < positions@.len() && (#[trigger] positions@[j]) == p),
            forall|j: int|
                0 <= j < results@.len() ==> parse_outcome_matches(
                    #[trigger] results@[j],
                    interfaces@[positions@[j] as int],
                    content@,
                    captured_at,
                ),
            forall|j: int|
                0 <= j < k ==> (#[trigger] results@[j]) is Ok,
            forall|j: int|
                0 <= j < k ==> (#[trigger] out@[j]).0 == positions@[j] && out@[j].1 == results@[
                    j
                ]->Ok_0,
        decreases results@.len() - k,
    {
        match &results[k] {
            Ok(stats) => {
                out.push((positions[k], *stats));
            },
            Err(e) => {
                proof {
                    let p = positions@[k as int];
                    assert(parse_outcome_matches(
                        results@[k as int],
                        interfaces@[p as int],
                        content@,
                        captured_at,
                    ));
                    assert(spec_is_active(interfaces@[p as int]) && spec_parse_proc_net_dev(
                        content@,
                        interfaces@[p as int].name@,
                        interfaces@[p as int].index,
                        captured_at,
                    ) is None);
                }
                return Err(e.clone());
            },
        }
        k = k + 1;
    }
    proof {
        assert forall|p: int|
            0 <= p < interfaces@.len() && spec_is_active(#[trigger] interfaces@[p]) implies
            spec_parse_proc_net_dev(
            content@,
            interfaces@[p].name@,
            interfaces@[p].index,
            captured_at,
        ) is Some by {
            let j = choose|j: int| 0 <= j < positions@.len() && (#[trigger] positions@[j]) == p;
            assert(parse_outcome_matches(
                results@[j],
                interfaces@[p],
                content@,
                captured_at,
            ));
            assert(results@[j] is Ok);
        }
        assert forall|k0: int| 0 <= k0 < out@.len() implies (#[trigger] out@[k0]).0
            < interfaces@.len() && spec_is_active(interfaces@[out@[k0].0 as int]) && out@[k0].1
            == spec_parse_proc_net_dev(
            content@,
            interfaces@[out@[k0].0 as int].name@,
            interfaces@[out@[k0].0 as int].index,
            captured_at,
        )->Some_0 by {
            assert(out@[k0].0 == positions@[k0]);
            assert(parse_outcome_matches(
                results@[k0],
                interfaces@[positions@[k0] as int],
                content@,
                captured_at,
            ));
        }
        assert forall|p: int|
            0 <= p < interfaces@.len() && spec_is_active(#[trigger] interfaces@[p]) implies (
        exists|j: int| 0 <= j < out@.len() && (#[trigger] out@[j]).0 == p) by {
            let j = choose|j: int| 0 <= j < positions@.len() && (#[trigger] positions@[j]) == p;
            assert(out@[j].0 == p);
        }
    }
    Ok(out)
}

/// Collects one snapshot per interface in consecutive batches of at most
/// `batch_size` positions, each batch fanned out concurrently. The result is
/// the same as one full parallel collection.
pub fn collect_stats_in_batches(
    interfaces: &Vec<NetworkInterface>,
    content: &str,
    captured_at: u64,
    batch_size: usize,
) -> (result: Result<Vec<InterfaceStats>, AppError>)
    requires
        batch_size >= 1,
    ensures
        result is Ok <==> (forall|i: int|
            0 <= i < interfaces@.len() ==> spec_parse_proc_net_dev(
                content@,
                (#[trigger] interfaces@[i]).name@,
                interfaces@[i].index,
                captured_at,
            ) is Some),
        result is Ok ==> result->Ok_0@.len() == interfaces@.len(),
        result is Ok ==> (forall|i: int|
            0 <= i < interfaces@.len() ==> result->Ok_0@[i] == spec_parse_proc_net_dev(
                content@,
                (#[trigger] interfaces@[i]).name@,
                interfaces@[i].index,
                captured_at,
            )->Some_0),
        result is Err ==> result->Err_0 is NetworkInterface && (exists|i: int|
            0 <= i < interfaces@.len() && spec_parse_proc_net_dev(
                content@,
                (#[trigger] interfaces@[i]).name@,
                interfaces@[i].index,
                captured_at,
            ) is None && error_payload(result->Err_0) == spec_interface_not_found_message(
                interfaces@[i].name@,
            )),
{
    let n = interfaces.len();
    let mut out: Vec<InterfaceStats> = Vec::new();
    let mut start: usize = 0;
    while start < n
        invariant
            start <= n,
            n == interfaces@.len(),
            batch_size >= 1,
            out@.len() == start,
            forall|j: int|
                0 <= j < start ==> spec_parse_proc_net_dev(
                    content@,
                    (#[trigger] interfaces@[j]).name@,
                    interfaces@[j].index,
                    captured_at,
                ) is Some,
            forall|j: int|
                0 <= j < start ==> out@[j] == spec_parse_proc_net_dev(
                    content@,
                    (#[trigger] interfaces@[j]).name@,
                    interfaces@[j].index,
                    captured_at,
                )->Some_0,
        decreases n - start,
    {
        let end = if n - start < batch_size {
            n
        } else {
            start + batch_size
        };
        let mut positions: Vec<usize> = Vec::new();
        let mut i: usize = start;
        while i < end
            invariant
                start <= i <= end <= n,
                positions@.len() == i - start,
                forall|j: int| 0 <= j < positions@.len() ==> positions@[j] == start + j,
            decreases end - i,
        {
            positions.push(i);
            i = i + 1;
        }
        let results = par_parse_at(interfaces, &positions, content, captured_at);
        let mut k: usize = 0;
        while k < results.len()
            invariant
                k <= results@.len(),
                results@.len() == end - start,
                positions@.len() == end - start,
                start <= end <= n,
                n == interfaces@.len(),
                out@.len() == start + k,
                forall|j: int| 0 <= j < positions@.len() ==> positions@[j] == start + j,
                forall|j: int|
                    0 <= j < results@.len() ==> parse_outcome_matches(
                        results@[j],
                        interfaces@[positions@[j] as int],
                        content@,
                        captured_at,
                    ),
                forall|j: int|
                    0 <= j < start + k ==> spec_parse_proc_net_dev(
                        content@,
                        (#[trigger] interfaces@[j]).name@,
                        interfaces@[j].index,
                        captured_at,
                    ) is Some,
                forall|j: int|
                    0 <= j < start + k ==> out@[j] == spec_parse_proc_net_dev(
                        content@,
                        (#[trigger] interfaces@[j]).name@,
                        interfaces@[j].index,
                        captured_at,
                    )->Some_0,
            decreases results@.len() - k,
        {
            proof {
                assert(positions@[k as int] == start as int + k as int);
                assert(parse_outcome_matches(
                    results@[k as int],
                    interfaces@[start as int + k as int],
                    content@,
                    captured_at,
                ));
            }
            match &results[k] {
                Ok(stats) => {
                    out.push(*stats);
                },
                Err(e) => {
                    return Err(e.clone());
                },
            }
            k = k + 1;
        }
        start = end;
    }
    Ok(out)
}

/// Measures and drives collection over a fixed interface set, remembering
/// when the last collection happened.
pub struct StatsCollector {
    pub interfaces: Vec<NetworkInterface>,
    pub last_collection_time: Option<u64>,
    pub use_parallel: bool,
}

impl StatsCollector {
    /// A collector over the given interface set, preferring the parallel
    /// path and with no collection recorded yet.
    pub fn new(interfaces: Vec<NetworkInterface>) -> (result: Self)
        ensures
            result.interfaces == interfaces,
            result.last_collection_time is None,
            result.use_parallel,
    {
        StatsCollector { interfaces, last_collection_time: None, use_parallel: true }
    }

    /// Chooses between the parallel and the sequential path.
    pub fn set_parallel(&mut self, use_parallel: bool)
        ensures
            final(self).use_parallel == use_parallel,
            final(self).interfaces == old(self).interfaces,
            final(self).last_collection_time == old(self).last_collection_time,
    {
        self.use_parallel = use_parallel;
    }

    /// Collects one snapshot per interface from the given counter text,
    /// recording `now` as the collection time. The parallel and the
    /// sequential path extract the same rows.
    pub fn collect(&mut self, content: &str, now: u64) -> (result: Result<
        Vec<InterfaceStats>,
        AppError,
    >)
        ensures
            final(self).interfaces == old(self).interfaces,
            final(self).use_parallel == old(self).use_parallel,
            final(self).last_collection_time == Some(now),
            result is Ok <==> (forall|i: int|
                0 <= i < old(self).interfaces@.len() ==> spec_parse_proc_net_dev(
                    content@,
                    (#[trigger] old(self).interfaces@[i]).name@,
                    old(self).interfaces@[i].index,
                    now,
                ) is Some),
            result is Ok ==> result->Ok_0@.len() == old(self).interfaces@.len(),
            result is Ok ==> (forall|i: int|
                0 <= i < old(self).interfaces@.len() ==> result->Ok_0@[i]
                    == spec_parse_proc_net_dev(
                    content@,
                    (#[trigger] old(self).interfaces@[i]).name@,
                    old(self).interfaces@[i].index,
                    now,
                )->Some_0),
            result is Err ==> result->Err_0 is NetworkInterface && (exists|i: int|
                0 <= i < old(self).interfaces@.len() && spec_parse_proc_net_dev(
                    content@,
                    (#[trigger] old(self).interfaces@[i]).name@,
                    old(self).interfaces@[i].index,
                    now,
                ) is None && error_payload(result->Err_0) == spec_interface_not_found_message(
                    old(self).interfaces@[i].name@,
                )),
    {
        let result = if self.use_parallel {
            collect_all_stats_parallel(&self.interfaces, content, now)
        } else {
            self.collect_sequential(content, now)
        };
        self.last_collection_time = Some(now);
        result
    }

    /// Collects one snapshot per interface strictly sequentially: the
    /// fallback path, extracting exactly the rows the parallel path would.
    fn collect_sequential(&self, content: &str, captured_at: u64) -> (result: Result<
        Vec<InterfaceStats>,
        AppError,
    >)
        ensures
            result is Ok <==> (forall|i: int|
                0 <= i < self.interfaces@.len() ==> spec_parse_proc_net_dev(
                    content@,
                    (#[trigger] self.interfaces@[i]).name@,
                    self.interfaces@[i].index,
                    captured_at,
                ) is Some),
            result is Ok ==> result->Ok_0@.len() == self.interfaces@.len(),
            result is Ok ==> (forall|i: int|
                0 <= i < self.interfaces@.len() ==> result->Ok_0@[i] == spec_parse_proc_net_dev(
                    content@,
                    (#[trigger] self.interfaces@[i]).name@,
                    self.interfaces@[i].index,
                    captured_at,
                )->Some_0),
            result is Err ==> result->Err_0 is NetworkInterface && (exists|i: int|
                0 <= i < self.interfaces@.len() && spec_parse_proc_net_dev(
                    content@,
                    (#[trigger] self.interfaces@[i]).name@,
                    self.interfaces@[i].index,
                    captured_at,
                ) is None && error_payload(result->Err_0) == spec_interface_not_found_message(
                    self.interfaces@[i].name@,
                )),
    {
        let n = self.interfaces.len();
        let mut out: Vec<InterfaceStats> = Vec::new();
        let mut i: usize = 0;
        while i < n
            invariant
                i <= n,
                n == self.interfaces@.len(),
                out@.len() == i,
                forall|j: int|
                    0 <= j < i ==> spec_parse_proc_net_dev(
                        content@,
                        (#[trigger] self.interfaces@[j]).name@,
                        self.interfaces@[j].index,
                        captured_at,
                    ) is Some,
                forall|j: int|
                    0 <= j < i ==> out@[j] == spec_parse_proc_net_dev(
                        content@,
                        (#[trigger] self.interfaces@[j]).name@,
                        self.interfaces@[j].index,
                        captured_at,
                    )->Some_0,
            decreases n - i,
        {
            let iface = &self.interfaces[i];
            match parse_proc_net_dev(iface.name.as_str(), content, iface.index, captured_at) {
                Ok(stats) => {
                    out.push(stats);
                },
                Err(e) => {
                    return Err(e);
                },
            }
            i = i + 1;
        }
        Ok(out)
    }

    /// Milliseconds since the last collection, zero when `now` lies before
    /// it, and nothing when no collection happened yet.
    pub fn time_since_last_collection(&self, now: u64) -> (result: Option<u64>)
        ensures
            result == match self.last_collection_time {
                Some(t) => Some(if now >= t { (now - t) as u64 } else { 0u64 }),
                None => None::<u64>,
            },
    {
        match self.last_collection_time {
            Some(t) => {
                if now >= t {
                    Some(now - t)
                } else {
                    Some(0)
                }
            },
            None => None,
        }
    }
}

/// The thread count `optimal_thread_count` picks for an interface count and
/// a machine's pool size: at least two and at most the pool size, but never
/// more than half the interface count (and at least one).
pub open spec fn spec_optimal_thread_count(interface_count: int, cpu_count: int) -> int {
    let upper = if 2 >= cpu_count {
        2int
    } else {
        cpu_count
    };
    let lower = if interface_count / 2 >= 1 {
        interface_count / 2
    } else {
        1int
    };
    if upper <= lower {
        upper
    } else {
        lower
    }
}

/// The thread count for a given interface count and pool size.
pub fn optimal_thread_count_for(interface_count: usize, cpu_count: usize) -> (count: usize)
    ensures
        count == spec_optimal_thread_count(interface_count as int, cpu_count as int),
{
    let upper = if 2 >= cpu_count {
        2
    } else {
        cpu_count
    };
    let half = interface_count / 2;
    let lower = if half >= 1 {
        half
    } else {
        1
    };
    if upper <= lower {
        upper
    } else {
        lower
    }
}

/// Relies on rayon::current_num_threads: the current pool always holds at
/// least one thread (explicit builder counts must be positive, and the
/// default falls back to the machine's parallelism or one).
#[verifier::external_body]
fn current_thread_count() -> (count: usize)
    ensures
        count >= 1,
{
    rayon::current_num_threads()
}

/// A thread count for fanning a collection out: few threads for few
/// interfaces, and no more than the machine's own pool size when interfaces
/// abound.
pub fn optimal_thread_count(interface_count: usize) -> (count: usize)
    ensures
        count >= 1,
        interface_count >= 4 ==> count >= 2,
        interface_count / 2 >= 1 ==> count <= interface_count / 2,
        exists|cpu_count: int|
            cpu_count >= 1 && count == #[trigger] spec_optimal_thread_count(
                interface_count as int,
                cpu_count,
            ),
{
    let cpu_count = current_thread_count();
    optimal_thread_count_for(interface_count, cpu_count)
}

} // verus!
