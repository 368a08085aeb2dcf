//! The rendezvous protocol as a state machine.
//!
//! A record is shared by two groups of handles, the senders and the receivers.
//! Every operation on a handle is a short run of indivisible steps on the
//! record: one read-modify-write of a counter or of the flag, or one call of
//! `disconnect`. Threads interleave freely between steps, so an execution of
//! the whole system is a sequence of steps, each enabled in the state that the
//! steps before it produced.
//!
//! The handles in [`crate::counter`] take these steps and no others:
//! `acquire` is one [`Step::Acquire`]; `release` is one [`Step::Decrement`],
//! followed for the last handle of a group by [`Step::Disconnect`] and
//! [`Step::Swap`]. What their counters return is decided by [`within_limit`]
//! and [`is_last`], here as there.
//!
//! This module defines the states, the steps and the executions. What holds
//! of every state that an execution can reach is proved in
//! [`crate::coherence`]; what that means for users of the handles is stated
//! in [`crate::laws`].

use vstd::prelude::*;

verus! {

/// One of the two groups of handles.
#[derive(Clone, Copy, Debug, PartialEq, Eq, Structural)]
pub enum Side {
    Senders,
    Receivers,
}

impl Side {
    /// The opposite group.
    pub open spec fn other(self) -> Side {
        match self {
            Side::Senders => Side::Receivers,
            Side::Receivers => Side::Senders,
        }
    }
}

/// The largest count from which another handle may still be acquired.
pub open spec fn count_limit() -> nat {
    isize::MAX as nat
}

/// Whether an acquire that found the count at `prev` yields a handle.
pub open spec fn within_limit(prev: nat) -> bool {
    prev <= count_limit()
}

/// Whether a release that found the count at `prev` gave up the last handle
/// of its group.
pub open spec fn is_last(prev: nat) -> bool {
    prev == 1
}

/// What the record holds for one group, together with the bookkeeping that
/// the proofs need: where the releases under way stand, and what has
/// happened so far.
pub struct Group {
    /// The value of the group's counter.
    pub count: nat,
    /// Handles that exist and have not been handed to `release`.
    pub handles: nat,
    /// Releases that found the count at one and have yet to call `disconnect`.
    pub disconnecting: nat,
    /// Releases that have called `disconnect` and have yet to swap the flag.
    pub swapping: nat,
    /// Releases that found the flag set and have yet to destroy the record.
    pub destroying: nat,
    /// Calls of `disconnect` made for this group so far.
    pub disconnects: nat,
    /// Swaps of the flag made for this group so far.
    pub swaps: nat,
}

impl Group {
    /// A group right after creation: one handle, nothing under way.
    pub open spec fn fresh() -> Group {
        Group {
            count: 1,
            handles: 1,
            disconnecting: 0,
            swapping: 0,
            destroying: 0,
            disconnects: 0,
            swaps: 0,
        }
    }

    /// No release of the group's last handle is under way.
    pub open spec fn quiet(self) -> bool {
        self.disconnecting == 0 && self.swapping == 0 && self.destroying == 0
    }

    /// Every handle of the group has been released, and the releases have
    /// run to their end.
    pub open spec fn finished(self) -> bool {
        self.handles == 0 && self.quiet()
    }
}

/// The shared record: both groups, the destroy flag, and how often the
/// payload has been destroyed.
pub struct Record {
    pub senders: Group,
    pub receivers: Group,
    /// The value of the destroy flag.
    pub destroy: bool,
    /// Destructions of the payload so far.
    pub destroyed: nat,
}

/// One indivisible step of one thread.
pub enum Step {
    /// A handle is acquired from another: the counter goes up by one.
    Acquire(Side),
    /// A handle is handed to `release`: the counter goes down by one.
    Decrement(Side),
    /// The release that found the count at one calls `disconnect`.
    Disconnect(Side),
    /// That release swaps the destroy flag to true.
    Swap(Side),
    /// The release that found the flag already set lets the record go, and
    /// the payload with it. From here on nothing may touch either.
    Destroy(Side),
}

impl Step {
    /// The group whose handle takes the step.
    pub open spec fn side(self) -> Side {
        match self {
            Step::Acquire(s) => s,
            Step::Decrement(s) => s,
            Step::Disconnect(s) => s,
            Step::Swap(s) => s,
            Step::Destroy(s) => s,
        }
    }
}

impl Record {
    /// The record as `new` leaves it: one handle on each side, flag clear.
    pub open spec fn fresh() -> Record {
        Record { senders: Group::fresh(), receivers: Group::fresh(), destroy: false, destroyed: 0 }
    }

    /// The state of one group.
    pub open spec fn group(self, side: Side) -> Group {
        match side {
            Side::Senders => self.senders,
            Side::Receivers => self.receivers,
        }
    }

    /// The record with the state of one group replaced.
    pub open spec fn with_group(self, side: Side, g: Group) -> Record {
        match side {
            Side::Senders => Record { senders: g, ..self },
            Side::Receivers => Record { receivers: g, ..self },
        }
    }

    /// Whether some thread can take `step` in this state.
    ///
    /// Acquiring and releasing need a handle that is still in its owner's
    /// hands. The later steps of a release need a release that has come that
    /// far. An acquire that finds the count above the limit ends the process,
    /// so no step stands for it.
    pub open spec fn enabled(self, step: Step) -> bool {
        let g = self.group(step.side());
        match step {
            Step::Acquire(_) => g.handles >= 1 && within_limit(g.count),
            Step::Decrement(_) => g.handles >= 1,
            Step::Disconnect(_) => g.disconnecting >= 1,
            Step::Swap(_) => g.swapping >= 1,
            Step::Destroy(_) => g.destroying >= 1,
        }
    }

    /// The state after `step`.
    ///
    /// The counter follows the machine: a decrement at zero wraps around.
    pub open spec fn apply(self, step: Step) -> Record {
        let side = step.side();
        let g = self.group(side);
        match step {
            Step::Acquire(_) => self.with_group(
                side,
                Group { count: g.count + 1, handles: g.handles + 1, ..g },
            ),
            Step::Decrement(_) => self.with_group(
                side,
                Group {
                    count: if g.count >= 1 {
                        (g.count - 1) as nat
                    } else {
                        usize::MAX as nat
                    },
                    handles: (g.handles - 1) as nat,
                    disconnecting: if is_last(g.count) {
                        g.disconnecting + 1
                    } else {
                        g.disconnecting
                    },
                    ..g
                },
            ),
            Step::Disconnect(_) => self.with_group(
                side,
                Group {
                    disconnecting: (g.disconnecting - 1) as nat,
                    swapping: g.swapping + 1,
                    disconnects: g.disconnects + 1,
                    ..g
                },
            ),
            Step::Swap(_) => Record { destroy: true, ..self }.with_group(
                side,
                Group {
                    swapping: (g.swapping - 1) as nat,
                    swaps: g.swaps + 1,
                    destroying: if self.destroy {
                        g.destroying + 1
                    } else {
                        g.destroying
                    },
                    ..g
                },
            ),
            Step::Destroy(_) => Record { destroyed: self.destroyed + 1, ..self }.with_group(
                side,
                Group { destroying: (g.destroying - 1) as nat, ..g },
            ),
        }
    }
}

/// The state that `steps`, taken in order from a fresh record, lead to.
pub open spec fn execute(steps: Seq<Step>) -> Record
    decreases steps.len(),
{
    if steps.len() == 0 {
        Record::fresh()
    } else {
        execute(steps.drop_last()).apply(steps.last())
    }
}

/// Whether `steps` is an execution: each step is enabled where it is taken.
pub open spec fn valid(steps: Seq<Step>) -> bool
    decreases steps.len(),
{
    steps.len() == 0 || (valid(steps.drop_last()) && execute(steps.drop_last()).enabled(
        steps.last(),
    ))
}

} // verus!
