//! Adding up what a host's devices have counted.

pub mod disk;
pub mod network;

use vstd::prelude::*;

verus! {

/// The sum of what `measure` reads from each of `items`.
pub open spec fn sum_by<T>(items: Seq<T>, measure: spec_fn(T) -> u64) -> nat
    decreases items.len(),
{
    if items.len() == 0 {
        0
    } else {
        sum_by(items.drop_last(), measure) + measure(items.last()) as nat
    }
}

/// The sum over the first `count + 1` items is the sum over the first
/// `count` and the measure of the next.
pub proof fn lemma_sum_by_next<T>(items: Seq<T>, measure: spec_fn(T) -> u64, count: int)
    requires
        0 <= count < items.len(),
    ensures
        sum_by(items.take(count + 1), measure) == sum_by(items.take(count), measure) + measure(
            items[count],
        ),
{
    assert(items.take(count + 1).drop_last() == items.take(count));
}

/// The sum over some first items never exceeds the sum over all.
pub proof fn lemma_sum_by_prefix<T>(items: Seq<T>, measure: spec_fn(T) -> u64, count: int)
    requires
        0 <= count <= items.len(),
    ensures
        sum_by(items.take(count), measure) <= sum_by(items, measure),
    decreases items.len() - count,
{
    if count < items.len() {
        lemma_sum_by_next(items, measure, count);
        lemma_sum_by_prefix(items, measure, count + 1);
    } else {
        assert(items.take(count) == items);
    }
}

/// The signed number with the bits of `count`, which is how a counter is
/// reported: `count` itself up to `i64::MAX`, and negative above.
pub open spec fn reported(count: u64) -> int {
    if count <= i64::MAX {
        count as int
    } else {
        count - 0x1_0000_0000_0000_0000
    }
}

/// Reports a counter as a signed number.
pub fn report(count: u64) -> (value: i64)
    ensures
        value == reported(count),
{
    let value = #[verifier::truncate]
    (count as i64);
    assert(count <= 0x7fff_ffff_ffff_ffffu64 ==> (count as i64) as i128 == count as i128)
        by (bit_vector);
    assert(count > 0x7fff_ffff_ffff_ffffu64 ==> (count as i64) as i128 == (count as i128)
        - 0x1_0000_0000_0000_0000i128) by (bit_vector);
    value
}

} // verus!
