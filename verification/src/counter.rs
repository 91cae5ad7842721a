//! The counter that tells apart identifiers of one millisecond.

use std::sync::atomic::{AtomicU8, Ordering};
use vstd::prelude::*;

verus! {

/// The reading that follows `current`: one more, and zero after 255.
pub open spec fn successor(current: u8) -> u8 {
    if current == u8::MAX {
        0
    } else {
        (current + 1) as u8
    }
}

/// The reading that the `calls`-th call observes, counted from zero, of a
/// counter that starts at zero.
pub open spec fn reading(calls: nat) -> u8
    decreases calls,
{
    if calls == 0 {
        0
    } else {
        successor(reading((calls - 1) as nat))
    }
}

/// Computes the reading that follows `current`. It always yields one.
pub fn step(current: u8) -> (next: Option<u8>)
    ensures
        next == Some(successor(current)),
{
    if current == u8::MAX {
        Some(0)
    } else {
        Some(current + 1)
    }
}

/// `AtomicU8::fetch_update` of the standard library replaces the cell's
/// value by what `step` makes of it, in one indivisible operation, and
/// hands back the value it replaced. That value depends on the other
/// callers, so nothing is claimed of it.
#[verifier::external_body]
fn fetch_and_step(cell: &AtomicU8) -> u8 {
    match cell.fetch_update(Ordering::SeqCst, Ordering::SeqCst, step) {
        Ok(seen) => seen,
        Err(seen) => seen,
    }
}

/// Reads the counter in `cell` and moves it on by one step, as one
/// indivisible operation that threads may run side by side.
pub fn counter(cell: &AtomicU8) -> u8 {
    fetch_and_step(cell)
}

/// The `calls`-th call observes `calls` modulo 256.
pub proof fn lemma_reading(calls: nat)
    ensures
        reading(calls) == calls % 256,
    decreases calls,
{
    if calls > 0 {
        lemma_reading((calls - 1) as nat);
    }
}

/// The first 256 calls observe 0, 1, ..., 255 in this order, and the call
/// after them observes 0 again.
pub proof fn lemma_counter_cycle()
    ensures
        forall|k: nat| k < 256 ==> #[trigger] reading(k) == k,
        reading(256) == 0,
{
    assert forall|k: nat| k < 256 implies #[trigger] reading(k) == k by {
        lemma_reading(k);
    }
    lemma_reading(256);
}

/// Within one round of 256 calls no reading comes twice.
pub proof fn lemma_readings_distinct(i: nat, j: nat)
    requires
        i < j < i + 256,
    ensures
        reading(i) != reading(j),
{
    lemma_reading(i);
    lemma_reading(j);
}

} // verus!
