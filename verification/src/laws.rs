//! What the protocol guarantees, over every execution.
//!
//! Each law takes an arbitrary execution: any number of threads, any
//! interleaving of their steps. What it states holds of the state that the
//! execution has reached, and so at every point of every run.

use crate::coherence::execution_is_coherent;
use crate::protocol::{count_limit, execute, valid, Record, Side, Step};
use vstd::prelude::*;

verus! {

/// How often `step` occurs in `steps`.
pub open spec fn occurrences(steps: Seq<Step>, step: Step) -> nat
    decreases steps.len(),
{
    if steps.len() == 0 {
        0
    } else if steps.last() == step {
        occurrences(steps.drop_last(), step) + 1
    } else {
        occurrences(steps.drop_last(), step)
    }
}

/// The record keeps count of what has happened: a group's `disconnects` is
/// the number of times its `disconnect` ran, its `swaps` the number of times
/// it swapped the flag, and `destroyed` the number of times the payload was
/// destroyed, by either side.
pub proof fn history_counts_steps(steps: Seq<Step>, side: Side)
    ensures
        execute(steps).group(side).disconnects == occurrences(steps, Step::Disconnect(side)),
        execute(steps).group(side).swaps == occurrences(steps, Step::Swap(side)),
        execute(steps).destroyed == occurrences(steps, Step::Destroy(Side::Senders)) + occurrences(
            steps,
            Step::Destroy(Side::Receivers),
        ),
    decreases steps.len(),
{
    if steps.len() > 0 {
        history_counts_steps(steps.drop_last(), side);
    }
}

/// A group's outstanding handles are the one that `new` made and those that
/// were acquired, less those that were handed to `release`.
pub proof fn handles_count_steps(steps: Seq<Step>, side: Side)
    requires
        valid(steps),
    ensures
        execute(steps).group(side).handles + occurrences(steps, Step::Decrement(side)) == 1
            + occurrences(steps, Step::Acquire(side)),
    decreases steps.len(),
{
    if steps.len() > 0 {
        handles_count_steps(steps.drop_last(), side);
    }
}

/// A group's counter is the number of its handles that have not been
/// released, so it is at least one while a handle is outstanding. It never
/// wraps: it stays within one of the limit, which the machine's word can
/// hold, and it is not decremented at zero.
pub proof fn counter_tracks_handles(steps: Seq<Step>, side: Side)
    requires
        valid(steps),
    ensures
        ({
            let r = execute(steps);
            let g = r.group(side);
            &&& g.count == g.handles
            &&& g.count <= count_limit() + 1 <= usize::MAX
            &&& r.enabled(Step::Decrement(side)) ==> g.count >= 1
        }),
{
    execution_is_coherent(steps);
}

/// A group's `disconnect` runs exactly once, and it runs when the group's
/// last handle is released.
///
/// It never runs twice. While a handle of the group is outstanding it has not
/// run and no release is about to run it. Once the last handle has been
/// handed to `release`, it has run or is the next thing that release does;
/// when the group has finished, it has run. None of this depends on the
/// state of the other group.
pub proof fn disconnect_fires_once(steps: Seq<Step>, side: Side)
    requires
        valid(steps),
    ensures
        ({
            let r = execute(steps);
            let g = r.group(side);
            &&& g.disconnects <= 1
            &&& occurrences(steps, Step::Disconnect(side)) <= 1
            &&& g.handles >= 1 ==> g.disconnects == 0 && !r.enabled(Step::Disconnect(side))
            &&& g.handles == 0 ==> (g.disconnects == 1) != r.enabled(Step::Disconnect(side))
            &&& g.finished() ==> g.disconnects == 1
        }),
{
    execution_is_coherent(steps);
    history_counts_steps(steps, side);
}

/// Acquires matched by releases, in any order and on any number of threads,
/// leave the count where it began, and the one release more fires
/// `disconnect`.
///
/// Take an execution with `n` acquires in the group. The count is one, plus
/// `n`, less the handles that have been handed to `release`, of which there
/// are `n + 1` at most. As long as they are no more than `n`, `disconnect`
/// has not run and no release is about to run it. Once they are `n + 1`,
/// `disconnect` has run once or is the next thing that the last of these
/// releases does.
pub proof fn matched_releases_disconnect_once(steps: Seq<Step>, side: Side, n: nat)
    requires
        valid(steps),
        occurrences(steps, Step::Acquire(side)) == n,
    ensures
        ({
            let r = execute(steps);
            let released = occurrences(steps, Step::Decrement(side));
            let fired = occurrences(steps, Step::Disconnect(side));
            &&& r.group(side).count + released == n + 1
            &&& released <= n ==> fired == 0 && !r.enabled(Step::Disconnect(side))
            &&& released == n + 1 ==> (fired == 1) != r.enabled(Step::Disconnect(side))
        }),
{
    execution_is_coherent(steps);
    handles_count_steps(steps, side);
    history_counts_steps(steps, side);
}

/// A group whose last handle is gone stays that way: no handle can be
/// acquired from it, and none is left to release.
pub proof fn no_handle_after_the_last(steps: Seq<Step>, side: Side)
    requires
        valid(steps),
        execute(steps).group(side).count == 0,
    ensures
        !execute(steps).enabled(Step::Acquire(side)),
        !execute(steps).enabled(Step::Decrement(side)),
{
    execution_is_coherent(steps);
}

/// A step of one group leaves the state of the other group as it was, and
/// whether it can be taken does not depend on the other group.
pub proof fn groups_do_not_interfere(r: Record, q: Record, step: Step)
    ensures
        r.apply(step).group(step.side().other()) == r.group(step.side().other()),
        r.group(step.side()) == q.group(step.side()) ==> r.enabled(step) == q.enabled(step),
{
}

/// The flag rises once. It is set exactly when some group has swapped it, a
/// group swaps at most once, and no step clears it.
pub proof fn flag_rises_once(steps: Seq<Step>, step: Step)
    requires
        valid(steps),
    ensures
        ({
            let r = execute(steps);
            &&& r.destroy == (r.senders.swaps + r.receivers.swaps >= 1)
            &&& r.senders.swaps <= 1
            &&& r.receivers.swaps <= 1
            &&& r.destroy ==> r.apply(step).destroy
        }),
{
    execution_is_coherent(steps);
}

/// The payload is destroyed exactly once, and only after both groups'
/// `disconnect` have run.
///
/// It is never destroyed twice. When it is destroyed, or a release is about
/// to destroy it, each group's `disconnect` has run once. When both groups
/// have finished, it has been destroyed.
pub proof fn payload_destroyed_once(steps: Seq<Step>)
    requires
        valid(steps),
    ensures
        ({
            let r = execute(steps);
            let destroying = r.enabled(Step::Destroy(Side::Senders)) || r.enabled(
                Step::Destroy(Side::Receivers),
            );
            &&& r.destroyed <= 1
            &&& occurrences(steps, Step::Destroy(Side::Senders)) + occurrences(
                steps,
                Step::Destroy(Side::Receivers),
            ) <= 1
            &&& r.destroyed == 1 || destroying ==> r.senders.disconnects == 1
                && r.receivers.disconnects == 1
            &&& r.senders.finished() && r.receivers.finished() ==> r.destroyed == 1
        }),
{
    execution_is_coherent(steps);
    history_counts_steps(steps, Side::Senders);
}

/// The payload outlives every use of it.
///
/// While a handle of either group is outstanding, or a release has yet to
/// call `disconnect` or to swap the flag, the payload has not been destroyed
/// and no release is about to destroy it.
pub proof fn payload_outlives_use(steps: Seq<Step>, side: Side)
    requires
        valid(steps),
        execute(steps).group(side).handles >= 1 || execute(steps).enabled(Step::Disconnect(side))
            || execute(steps).enabled(Step::Swap(side)),
    ensures
        execute(steps).destroyed == 0,
        !execute(steps).enabled(Step::Destroy(Side::Senders)),
        !execute(steps).enabled(Step::Destroy(Side::Receivers)),
{
    execution_is_coherent(steps);
}

} // verus!
