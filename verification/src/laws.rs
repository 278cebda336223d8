//! Laws relating the counter operations, stated over the same spec functions
//! that the operations' contracts use.

use vstd::prelude::*;

use crate::counter_after_drain;
use crate::counter_after_write;
use crate::drained_value;
use crate::MAX_COUNTER;

verus! {

/// A write of `v` to a fresh (zero) counter followed by a drain yields `v`:
/// `write(v)` then `read()` returns exactly the written value.
pub proof fn lemma_write_then_read_returns_written(v: u64)
    ensures
        drained_value(counter_after_write(0, v)) == v,
{
}

/// Draining resets the counter to zero, whatever it held; an immediately
/// following non-blocking read therefore finds nothing to read.
pub proof fn lemma_drain_resets_counter(count: nat)
    ensures
        counter_after_drain(count) == 0,
{
}

/// After a write of a non-zero value the counter is non-zero, so a
/// non-blocking read takes the same draining path as a blocking read: both
/// return `drained_value` of the counter and leave `counter_after_drain`.
pub proof fn lemma_try_read_after_write_acts_as_read(count: nat, v: u64)
    requires
        v > 0,
    ensures
        counter_after_write(count, v) > 0,
{
}

/// Writes accumulate: writing `a` and then `b` to a fresh counter and
/// draining yields `a + b`, as long as the sum stays in the counter's range.
pub proof fn lemma_writes_accumulate(a: u64, b: u64)
    requires
        a + b <= MAX_COUNTER,
    ensures
        drained_value(counter_after_write(counter_after_write(0, a), b)) == a + b,
{
}

} // verus!
