//! The memory-pressure eviction policy.
//!
//! A background task samples host memory at a fixed interval. When usage
//! crosses the high watermark (70 percent of total memory), an eviction
//! cycle begins: the store's least recently used entries are removed in
//! growing batches, starting at 5 and doubling up to 1000, until usage
//! falls to the low-water target (half the high watermark) or the store is
//! empty. The sampling and sleeping live with the caller; the decisions and
//! the store work are here, verified.

use vstd::prelude::*;

use crate::cache::Cache;

verus! {

/// The memory level above which an eviction cycle begins: 70 percent of the
/// total host memory.
pub open spec fn high_watermark(total: u64) -> int {
    total * 70 / 100
}

/// The batch size of the next eviction round: double the current one,
/// capped at 1000.
pub open spec fn next_batch(batch: u64) -> u64 {
    if batch <= 500 {
        (batch * 2) as u64
    } else {
        1000u64
    }
}

/// How many entries a whole eviction cycle removes from a store of `n`
/// entries, fed one used-memory sample per round: each round stops at the
/// low-water target (half the threshold) or on an empty store, and
/// otherwise removes one batch and doubles the batch size.
pub open spec fn cycle_removed(n: nat, samples: Seq<u64>, threshold: u64, batch: u64) -> nat
    decreases samples.len(),
{
    if samples.len() == 0 {
        0
    } else if samples[0] <= threshold / 2 {
        0
    } else if n == 0 {
        0
    } else {
        let step: nat = if batch as nat <= n {
            batch as nat
        } else {
            n
        };
        step + cycle_removed((n - step) as nat, samples.drop_first(), threshold, next_batch(batch))
    }
}

/// The memory level that triggers eviction, 70 percent of `total`.
pub fn eviction_threshold(total: u64) -> (t: u64)
    ensures
        t == high_watermark(total),
{
    proof {
        assert((total as int) * 70 / 100 <= total as int) by (nonlinear_arith);
        assert((total as int) * 70 >= 0) by (nonlinear_arith);
    }
    ((total as u128) * 70 / 100) as u64
}

/// Whether used memory is over the high watermark, so that an eviction
/// cycle should begin.
pub fn memory_pressure(used: u64, total: u64) -> (r: bool)
    ensures
        r == (used > high_watermark(total)),
{
    used > eviction_threshold(total)
}

/// Whether used memory has fallen to the low-water target, half the
/// threshold that started the cycle, so that the cycle should stop.
pub fn reached_low_water(used: u64, threshold: u64) -> (r: bool)
    ensures
        r == (used <= threshold / 2),
{
    used <= threshold / 2
}

/// The batch-size state of one eviction cycle: it starts at 5 entries and
/// doubles after every round, capped at 1000.
pub struct EvictionCycle {
    batch_size: u64,
}

impl EvictionCycle {
    /// The number of entries the next round will ask the store to evict.
    pub closed spec fn batch(&self) -> u64 {
        self.batch_size
    }

    /// Starts a cycle with the initial batch size of 5.
    pub fn begin() -> (c: EvictionCycle)
        ensures
            c.batch() == 5,
    {
        EvictionCycle { batch_size: 5 }
    }

    /// The current batch size.
    pub fn current_batch(&self) -> (b: u64)
        ensures
            b == self.batch(),
    {
        self.batch_size
    }

    /// Doubles the batch size for the next round, capped at 1000.
    pub fn grow(&mut self)
        ensures
            final(self).batch() == next_batch(old(self).batch()),
    {
        if self.batch_size <= 500 {
            self.batch_size = self.batch_size * 2;
        } else {
            self.batch_size = 1000;
        }
    }
}

/// Runs one whole eviction cycle against the store, taking the used-memory
/// samples of its rounds as a sequence: each round stops at the low-water
/// target, or with the store empty, or when the samples run out; otherwise
/// it evicts one batch from the least recently used end and doubles the
/// batch size. Returns the number of entries removed, which never exceeds
/// what the store held.
pub fn run_eviction_cycle(store: &mut Cache, samples: &Vec<u64>, threshold: u64) -> (removed:
    usize)
    requires
        old(store).wf(),
    ensures
        final(store).wf(),
        final(store).same_limits(old(store)),
        removed as nat == cycle_removed(old(store)@.len(), samples@, threshold, 5),
        removed <= old(store)@.len(),
        final(store)@ == old(store)@.skip(removed as int),
{
    let initial_len = store.len();
    let mut cycle = EvictionCycle::begin();
    let mut removed: usize = 0;
    let mut i: usize = 0;
    proof {
        assert(samples@.skip(0) =~= samples@);
    }
    while i < samples.len()
        invariant
            store.wf(),
            store.same_limits(old(store)),
            initial_len == old(store)@.len(),
            removed <= old(store)@.len(),
            removed as nat + store@.len() == old(store)@.len(),
            store@ == old(store)@.skip(removed as int),
            5 <= cycle.batch() <= 1000,
            i <= samples.len(),
            cycle_removed(old(store)@.len(), samples@, threshold, 5) == removed + cycle_removed(
                store@.len(),
                samples@.skip(i as int),
                threshold,
                cycle.batch(),
            ),
        ensures
            removed as nat == cycle_removed(old(store)@.len(), samples@, threshold, 5),
        decreases samples.len() - i,
    {
        let ghost remaining = samples@.skip(i as int);
        proof {
            assert(remaining[0] == samples@[i as int]);
        }
        let used = samples[i];
        if reached_low_water(used, threshold) {
            break ;
        }
        let batch = cycle.current_batch();
        let step = store.evict_lru(batch as usize);
        if step == 0 {
            break ;
        }
        proof {
            assert(remaining.drop_first() =~= samples@.skip(i as int + 1));
        }
        removed = removed + step;
        cycle.grow();
        i = i + 1;
    }
    removed
}

} // verus!
