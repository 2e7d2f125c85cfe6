//! Admission advisor: a stateless heuristic that, from the registry contents
//! and the pool capacity, suggests how many more units of work a label may
//! submit right now.  The hint is advisory, never enforced.

use vstd::prelude::*;
use crate::registry::count_of;

verus! {

/// The advisory hint for a label, over the registry map and the pool's
/// fixed thread count.  Idle capacity is what remains of the thread count
/// after one thread per active label; a label already holding at least the
/// idle share gets nothing more, and under saturation a label that is not
/// yet active is still granted a single slot so it is never starved.
pub open spec fn admission_hint_spec(m: Map<u32, u32>, max_threads: u32, label: u32) -> int {
    let num_queues = m.dom().len() as int;
    let idle = if max_threads <= num_queues {
        0int
    } else {
        max_threads - num_queues
    };
    if idle == 0 {
        if m.contains_key(label) {
            0int
        } else {
            1int
        }
    } else {
        if idle <= count_of(m, label) {
            0int
        } else {
            idle - count_of(m, label)
        }
    }
}

/// The admission hint is never negative, for any registry contents, pool
/// size and queried label.
pub proof fn lemma_admission_hint_nonneg(m: Map<u32, u32>, max_threads: u32, label: u32)
    ensures
        admission_hint_spec(m, max_threads, label) >= 0,
{
}

} // verus!
