//! The decisions that a handle takes on what the record's counters and flag
//! gave back.
//!
//! What a counter returns depends on what other threads have done. The
//! operations on handles read the counters and leave every choice to the
//! functions here, which are fixed for every value that can come back.

use crate::protocol::{is_last, within_limit};
use vstd::prelude::*;

verus! {

/// An acquire found the count above the limit.
///
/// So many handles have been cloned and never released that the counter is
/// about to wrap. The count can no longer be trusted and there is nothing to
/// retry: the caller is expected to end the process.
#[derive(Clone, Copy, Debug, PartialEq, Eq)]
pub struct CountOverflow;

/// How a release ended.
#[derive(Clone, Copy, Debug, PartialEq, Eq, Structural)]
pub enum Outcome {
    /// Other handles of the group remain. `disconnect` was not called.
    Remaining,
    /// This was the group's last handle and the other group has not finished.
    /// `disconnect` was called and returned the value held here. The record
    /// stays for the other group.
    First(bool),
    /// This was the group's last handle and the other group had finished
    /// before. `disconnect` was called and returned the value held here. No
    /// handle is left on either side, and the record goes as soon as the
    /// releases that are still returning have let go of it.
    Second(bool),
}

impl Outcome {
    /// Whether the release called `disconnect`.
    pub open spec fn disconnected(self) -> bool {
        self != Outcome::Remaining
    }

    /// What `disconnect` returned, where it was called.
    pub open spec fn signal(self) -> bool {
        match self {
            Outcome::Remaining => false,
            Outcome::First(signal) => signal,
            Outcome::Second(signal) => signal,
        }
    }

    /// The outcome of the release of a group's last handle: `signal` is what
    /// `disconnect` returned, `was_set` what the destroy flag held when the
    /// release swapped it. The release that finds the flag clear is the first
    /// to finish, the one that finds it set the second.
    pub fn of_last(signal: bool, was_set: bool) -> (outcome: Outcome)
        ensures
            outcome == if was_set {
                Outcome::Second(signal)
            } else {
                Outcome::First(signal)
            },
    {
        if was_set {
            Outcome::Second(signal)
        } else {
            Outcome::First(signal)
        }
    }
}

/// Whether an acquire that found the count at `prev` is granted a handle.
pub open spec fn grants(prev: usize) -> bool {
    within_limit(prev as nat)
}

/// Whether a release that found the count at `prev` gave up the last handle
/// of its group.
pub open spec fn releases_last(prev: usize) -> bool {
    is_last(prev as nat)
}

/// Decides an acquire that found the count at `prev` before raising it: the
/// handle is granted while `prev` is within the limit, the largest value of
/// `isize`, and refused above it.
pub fn grant(prev: usize) -> (granted: Result<(), CountOverflow>)
    ensures
        granted is Ok <==> within_limit(prev as nat),
{
    if prev > isize::MAX as usize {
        Err(CountOverflow)
    } else {
        Ok(())
    }
}

/// Decides a release that found the count at `prev` before lowering it: the
/// handle was the last of its group when the count stood at one.
pub fn last_handle(prev: usize) -> (last: bool)
    ensures
        last == is_last(prev as nat),
{
    prev == 1
}

} // verus!
