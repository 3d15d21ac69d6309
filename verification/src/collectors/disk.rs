//! Space over all mounted disks.

use vstd::prelude::*;
use crate::collectors::{lemma_sum_by_next, lemma_sum_by_prefix, sum_by};

verus! {

/// The size of one mounted disk and what is free on it, in bytes.
#[derive(Debug, Clone, Copy, PartialEq, Eq, Structural)]
pub struct DiskSpace {
    /// Size of the disk.
    pub total: u64,
    /// Space that is free.
    pub available: u64,
}

/// Space over all mounted disks of a host, in bytes.
#[derive(Debug, Clone, Copy, PartialEq, Eq, Structural)]
pub struct DiskTotals {
    /// Size of all disks.
    pub total: u64,
    /// Space in use on all disks.
    pub used: u64,
}

/// Reads the size off a disk.
pub open spec fn total_space() -> spec_fn(DiskSpace) -> u64 {
    |disk: DiskSpace| disk.total
}

/// Reads the free space off a disk.
pub open spec fn available_space() -> spec_fn(DiskSpace) -> u64 {
    |disk: DiskSpace| disk.available
}

/// Space in use where `total` bytes exist and `available` are free: the
/// difference, and 0 where more is reported free than exists.
pub open spec fn used_space(total: nat, available: nat) -> nat {
    if available <= total {
        (total - available) as nat
    } else {
        0
    }
}

/// Adds up the space of all disks. There is no result where a sum does not
/// fit into 64 bits.
pub fn collect(disks: &[DiskSpace]) -> (totals: Option<DiskTotals>)
    ensures
        totals is Some <==> sum_by(disks@, total_space()) <= u64::MAX && sum_by(
            disks@,
            available_space(),
        ) <= u64::MAX,
        totals matches Some(space) ==> {
            &&& space.total == sum_by(disks@, total_space())
            &&& space.used == used_space(
                sum_by(disks@, total_space()),
                sum_by(disks@, available_space()),
            )
        },
{
    let mut total: u64 = 0;
    let mut available: u64 = 0;
    let mut seen: usize = 0;
    while seen < disks.len()
        invariant
            seen <= disks@.len(),
            total == sum_by(disks@.take(seen as int), total_space()),
            available == sum_by(disks@.take(seen as int), available_space()),
        decreases disks@.len() - seen,
    {
        let disk = disks[seen];
        proof {
            lemma_sum_by_next(disks@, total_space(), seen as int);
            lemma_sum_by_next(disks@, available_space(), seen as int);
            lemma_sum_by_prefix(disks@, total_space(), seen + 1);
            lemma_sum_by_prefix(disks@, available_space(), seen + 1);
        }
        total = match total.checked_add(disk.total) {
            Some(sum) => sum,
            None => {
                return None;
            },
        };
        available = match available.checked_add(disk.available) {
            Some(sum) => sum,
            None => {
                return None;
            },
        };
        seen = seen + 1;
    }
    assert(disks@.take(seen as int) == disks@);
    Some(DiskTotals { total, used: total.saturating_sub(available) })
}

} // verus!
