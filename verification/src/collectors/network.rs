//! Traffic over all network interfaces.

use vstd::prelude::*;
use crate::collectors::{lemma_sum_by_next, lemma_sum_by_prefix, report, reported, sum_by};

verus! {

/// What one network interface has counted since the host came up.
#[derive(Debug, Clone, Copy, PartialEq, Eq, Structural)]
pub struct InterfaceCounters {
    /// Bytes received.
    pub received: u64,
    /// Bytes sent.
    pub transmitted: u64,
}

/// Traffic over all interfaces of a host.
#[derive(Debug, Clone, Copy, PartialEq, Eq, Structural)]
pub struct NetworkMetrics {
    /// Bytes received in all.
    pub bytes_in: i64,
    /// Bytes sent in all.
    pub bytes_out: i64,
}

/// Reads the bytes received off an interface.
pub open spec fn received() -> spec_fn(InterfaceCounters) -> u64 {
    |interface: InterfaceCounters| interface.received
}

/// Reads the bytes sent off an interface.
pub open spec fn transmitted() -> spec_fn(InterfaceCounters) -> u64 {
    |interface: InterfaceCounters| interface.transmitted
}

/// Adds up the counters of all interfaces. There is no result where a sum
/// does not fit into 64 bits.
pub fn collect(interfaces: &[InterfaceCounters]) -> (metrics: Option<NetworkMetrics>)
    ensures
        metrics is Some <==> sum_by(interfaces@, received()) <= u64::MAX && sum_by(
            interfaces@,
            transmitted(),
        ) <= u64::MAX,
        metrics matches Some(traffic) ==> traffic.bytes_in == reported(
            sum_by(interfaces@, received()) as u64,
        ) && traffic.bytes_out == reported(sum_by(interfaces@, transmitted()) as u64),
{
    let mut bytes_in: u64 = 0;
    let mut bytes_out: u64 = 0;
    let mut seen: usize = 0;
    while seen < interfaces.len()
        invariant
            seen <= interfaces@.len(),
            bytes_in == sum_by(interfaces@.take(seen as int), received()),
            bytes_out == sum_by(interfaces@.take(seen as int), transmitted()),
        decreases interfaces@.len() - seen,
    {
        let interface = interfaces[seen];
        proof {
            lemma_sum_by_next(interfaces@, received(), seen as int);
            lemma_sum_by_next(interfaces@, transmitted(), seen as int);
            lemma_sum_by_prefix(interfaces@, received(), seen + 1);
            lemma_sum_by_prefix(interfaces@, transmitted(), seen + 1);
        }
        bytes_in = match bytes_in.checked_add(interface.received) {
            Some(sum) => sum,
            None => {
                return None;
            },
        };
        bytes_out = match bytes_out.checked_add(interface.transmitted) {
            Some(sum) => sum,
            None => {
                return None;
            },
        };
        seen = seen + 1;
    }
    assert(interfaces@.take(seen as int) == interfaces@);
    Some(NetworkMetrics { bytes_in: report(bytes_in), bytes_out: report(bytes_out) })
}

} // verus!
