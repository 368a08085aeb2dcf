//! Coherence: what holds of the record in every state that an execution can
//! reach, and the proof that it does.

use crate::protocol::{count_limit, execute, valid, Group, Record, Step};
use vstd::prelude::*;

verus! {

/// What holds of one group in every reachable state.
///
/// The counter equals the number of handles still in their owners' hands and
/// stays within one of the limit. Exactly one release finds the count at one,
/// and it does so when the last handle goes: from then on that release is
/// about to call `disconnect`, about to swap, or has swapped.
pub open spec fn group_coherent(g: Group) -> bool {
    &&& g.count == g.handles
    &&& g.count <= count_limit() + 1
    &&& g.disconnecting + g.swapping + g.swaps == if g.handles == 0 {
        1nat
    } else {
        0nat
    }
    &&& g.disconnects == g.swapping + g.swaps
}

/// What holds of the record in every reachable state.
///
/// The flag is set once a group has swapped it. The record is destroyed, or
/// about to be, by exactly one release once both groups have swapped, and by
/// none before.
pub open spec fn coherent(r: Record) -> bool {
    &&& group_coherent(r.senders)
    &&& group_coherent(r.receivers)
    &&& r.destroy == (r.senders.swaps + r.receivers.swaps >= 1)
    &&& r.senders.destroying + r.receivers.destroying + r.destroyed == if r.senders.swaps
        + r.receivers.swaps == 2 {
        1nat
    } else {
        0nat
    }
}

/// A fresh record is coherent.
pub proof fn fresh_is_coherent()
    ensures
        coherent(Record::fresh()),
{
}

/// Every enabled step takes a coherent record to a coherent record.
pub proof fn step_keeps_coherence(r: Record, step: Step)
    requires
        coherent(r),
        r.enabled(step),
    ensures
        coherent(r.apply(step)),
{
}

/// Every execution ends in a coherent record.
pub proof fn execution_is_coherent(steps: Seq<Step>)
    requires
        valid(steps),
    ensures
        coherent(execute(steps)),
    decreases steps.len(),
{
    if steps.len() == 0 {
        fresh_is_coherent();
    } else {
        execution_is_coherent(steps.drop_last());
        step_keeps_coherence(execute(steps.drop_last()), steps.last());
    }
}

} // verus!
