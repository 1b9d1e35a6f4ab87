//! A body's trail: the bounded, time-ordered history of where it has been.

use vstd::prelude::*;

verus! {

/// The largest number of samples a trail keeps.
pub const TRAIL_CAPACITY: usize = 2000;

/// The trail after `sample` has been recorded: `sample` comes last, and of
/// what was there before only the most recent entries stay, so that at most
/// `TRAIL_CAPACITY` are held. The order of what stays is unchanged.
pub open spec fn recorded<T>(trail: Seq<T>, sample: T) -> Seq<T> {
    let grown = trail.push(sample);
    if grown.len() <= TRAIL_CAPACITY {
        grown
    } else {
        grown.subrange(grown.len() - TRAIL_CAPACITY, grown.len() as int)
    }
}

/// Appends `sample` to `trail` and evicts from the front, oldest first, until
/// no more than `TRAIL_CAPACITY` samples are left.
pub fn record<T>(trail: &mut Vec<T>, sample: T)
    ensures
        final(trail)@ == recorded(old(trail)@, sample),
{
    trail.push(sample);
    let ghost grown = trail@;
    while trail.len() > TRAIL_CAPACITY
        invariant
            grown == old(trail)@.push(sample),
            trail@.len() <= grown.len(),
            grown.len() <= TRAIL_CAPACITY ==> trail@.len() == grown.len(),
            grown.len() > TRAIL_CAPACITY ==> trail@.len() >= TRAIL_CAPACITY,
            trail@ == grown.subrange(grown.len() - trail@.len(), grown.len() as int),
        decreases trail@.len(),
    {
        let ghost before = trail@;
        trail.remove(0);
        assert(trail@ =~= grown.subrange(grown.len() - (before.len() - 1), grown.len() as int));
    }
    assert(trail@ =~= recorded(old(trail)@, sample));
}

/// A trail never outgrows its capacity, and the newest sample is always its
/// last entry.
pub proof fn recorded_is_bounded<T>(trail: Seq<T>, sample: T)
    ensures
        recorded(trail, sample).len() <= TRAIL_CAPACITY,
        recorded(trail, sample).len() == if trail.len() < TRAIL_CAPACITY {
            trail.len() + 1
        } else {
            TRAIL_CAPACITY as nat
        },
        recorded(trail, sample).last() == sample,
{
}

/// Eviction is first in, first out: below capacity nothing is lost, and a
/// full trail gives up exactly its oldest entry.
pub proof fn recorded_is_fifo<T>(trail: Seq<T>, sample: T)
    ensures
        trail.len() < TRAIL_CAPACITY ==> recorded(trail, sample) == trail.push(sample),
        trail.len() == TRAIL_CAPACITY ==> recorded(trail, sample) == trail.skip(1).push(sample),
{
    if trail.len() == TRAIL_CAPACITY {
        assert(recorded(trail, sample) =~= trail.skip(1).push(sample));
    }
}

} // verus!
