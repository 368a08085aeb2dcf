//! The shared record and the two kinds of handle on it.
//!
//! The record lives on the heap and belongs to all its handles together.
//! Handing a handle to `release` gives up its share when the call returns, so
//! the record goes with the last release to return. That is never before the
//! second group has swapped the flag: until then a handle, or the release of
//! a group's last handle, still holds a share.

use crate::decision::{grant, grants, last_handle, releases_last, CountOverflow, Outcome};
use crate::protocol::Side;
use std::ops::Deref;
use std::sync::atomic::{AtomicBool, AtomicUsize, Ordering};
use std::sync::Arc;
use vstd::prelude::*;
use vstd::std_specs::cmp::PartialEqSpecImpl;

verus! {

/// The record that the handles of both groups share.
///
/// The two counters and the flag are cells whose contents change under a
/// shared reference. In a contract such a cell stands for itself, not for
/// what it holds at some moment. A record in a contract is therefore one
/// particular allocation together with its payload. A contract can say which
/// operation on which cell gave a value back, and what was decided on that
/// value; what the values can be, over all the threads at work, is the
/// subject of [`crate::protocol`].
pub struct Counter<C> {
    /// The number of senders that have not been released.
    senders: AtomicUsize,
    /// The number of receivers that have not been released.
    receivers: AtomicUsize,
    /// Set by the group that finishes first, found set by the second.
    destroy: AtomicBool,
    /// The payload.
    chan: C,
}

impl<C> Counter<C> {
    /// The payload that the record was created with.
    pub closed spec fn payload(&self) -> C {
        self.chan
    }

    /// The counter of one group.
    pub closed spec fn count_of(&self, side: Side) -> AtomicUsize {
        match side {
            Side::Senders => self.senders,
            Side::Receivers => self.receivers,
        }
    }

    /// Whether the record is as `new` makes it: each counter was made
    /// holding one, and the flag was made clear.
    pub closed spec fn created(&self) -> bool {
        &&& call_ensures(AtomicUsize::new, (1usize,), self.senders)
        &&& call_ensures(AtomicUsize::new, (1usize,), self.receivers)
        &&& call_ensures(AtomicBool::new, (false,), self.destroy)
    }

    /// Whether `prev` is what the counter of `side` gave back to a
    /// `fetch_add` of one with relaxed ordering: the count that an acquire
    /// found before raising it, in the step `Acquire` of the protocol.
    pub closed spec fn raised(&self, side: Side, prev: usize) -> bool {
        call_ensures(
            AtomicUsize::fetch_add,
            (&self.count_of(side), 1usize, Ordering::Relaxed),
            prev,
        )
    }

    /// Whether `prev` is what the counter of `side` gave back to a
    /// `fetch_sub` of one with acquire-release ordering: the count that a
    /// release found before lowering it, in the step `Decrement`.
    pub closed spec fn lowered(&self, side: Side, prev: usize) -> bool {
        call_ensures(
            AtomicUsize::fetch_sub,
            (&self.count_of(side), 1usize, Ordering::AcqRel),
            prev,
        )
    }

    /// Whether `was_set` is what the destroy flag gave back to a `swap` to
    /// true with acquire-release ordering: what a release found there, in
    /// the step `Swap`.
    pub closed spec fn swapped(&self, was_set: bool) -> bool {
        call_ensures(AtomicBool::swap, (&self.destroy, true, Ordering::AcqRel), was_set)
    }

    /// Whether `outcome` is how a release ends whose decrement found the
    /// count at `prev`.
    ///
    /// Unless the handle was the last of its group, nothing is left to do.
    /// For the last one, `disconnect` has run on the payload and returned the
    /// outcome's signal, the flag has been swapped to true, and the release
    /// is the second to finish exactly if it found the flag set.
    pub open spec fn settled<F: FnOnce(&C) -> bool>(
        &self,
        prev: usize,
        disconnect: F,
        outcome: Outcome,
    ) -> bool {
        if releases_last(prev) {
            &&& outcome.disconnected()
            &&& disconnect.ensures((&self.payload(),), outcome.signal())
            &&& self.swapped(outcome is Second)
        } else {
            outcome == Outcome::Remaining
        }
    }

    /// The counter of one group.
    fn count(&self, side: Side) -> (count: &AtomicUsize)
        ensures
            *count == self.count_of(side),
    {
        match side {
            Side::Senders => &self.senders,
            Side::Receivers => &self.receivers,
        }
    }

    /// Raises the count of one group by one and decides on what it was
    /// before.
    ///
    /// Relaxed ordering is enough: the caller holds a handle of the group, so
    /// the count cannot reach zero meanwhile.
    fn acquire(&self, side: Side) -> (verdict: Result<(), CountOverflow>)
        ensures
            exists|prev: usize| #[trigger]
                self.raised(side, prev) && (verdict is Ok <==> grants(prev)),
    {
        let prev: usize = self.count(side).fetch_add(1, Ordering::Relaxed);
        assert(self.raised(side, prev));
        grant(prev)
    }

    /// Lowers the count of one group by one and does what is left to do for
    /// the value that it had before.
    ///
    /// The decrement both releases and acquires: what this thread did to the
    /// payload is visible to whoever finds the count at one, and that thread
    /// sees what all the others did.
    fn release<F: FnOnce(&C) -> bool>(&self, side: Side, disconnect: F) -> (outcome: Outcome)
        requires
            disconnect.requires((&self.payload(),)),
        ensures
            exists|prev: usize| #[trigger]
                self.lowered(side, prev) && self.settled(prev, disconnect, outcome),
    {
        let prev: usize = self.count(side).fetch_sub(1, Ordering::AcqRel);
        assert(self.lowered(side, prev));
        self.settle(prev, disconnect)
    }

    /// The rest of a release whose decrement found the count at `prev`.
    ///
    /// Unless the handle was the last of its group, nothing is left. For the
    /// last one, `disconnect` is called on the payload, and then the flag is
    /// swapped, which tells whether the other group finished before.
    fn settle<F: FnOnce(&C) -> bool>(&self, prev: usize, disconnect: F) -> (outcome: Outcome)
        requires
            disconnect.requires((&self.payload(),)),
        ensures
            self.settled(prev, disconnect, outcome),
    {
        if last_handle(prev) {
            let signal = disconnect(&self.chan);
            let was_set = self.rendezvous();
            Outcome::of_last(signal, was_set)
        } else {
            Outcome::Remaining
        }
    }

    /// Sets the destroy flag and returns what it held. Of the two releases
    /// that come here, one for each group, exactly one finds the flag set.
    fn rendezvous(&self) -> (was_set: bool)
        ensures
            self.swapped(was_set),
    {
        self.destroy.swap(true, Ordering::AcqRel)
    }
}

/// `Arc::ptr_eq`, which tells whether two pointers lead to one allocation.
///
/// Trusted, not proved: the contract says that this is so exactly when the
/// two records are equal. That rests on what a record is in a contract. Its
/// counters and its flag stand for themselves there, never for what they
/// hold, and each of them lives in one record for good. So a record equals
/// itself and no other, however alike the payloads are.
#[verifier::external_body]
fn same_allocation<C>(a: &Arc<Counter<C>>, b: &Arc<Counter<C>>) -> (same: bool)
    ensures
        same == (**a == **b),
{
    Arc::ptr_eq(a, b)
}

/// A handle of the sending side.
pub struct Sender<C> {
    counter: Arc<Counter<C>>,
}

/// A handle of the receiving side.
pub struct Receiver<C> {
    counter: Arc<Counter<C>>,
}

/// Wraps `chan` into a new record and returns the first handle of each side.
///
/// Both handles lead to the one new record. Its counters start at one, its
/// flag starts clear, and it holds `chan`.
pub fn new<C>(chan: C) -> (handles: (Sender<C>, Receiver<C>))
    ensures
        handles.0.record() == handles.1.record(),
        handles.0.record().created(),
        handles.0.payload() == chan,
        handles.1.payload() == chan,
{
    let counter = Arc::new(
        Counter {
            senders: AtomicUsize::new(1),
            receivers: AtomicUsize::new(1),
            destroy: AtomicBool::new(false),
            chan,
        },
    );
    let s = Sender { counter: counter.clone() };
    let r = Receiver { counter };
    (s, r)
}

impl<C> Sender<C> {
    /// The record that the handle leads to.
    pub closed spec fn record(&self) -> Counter<C> {
        *self.counter
    }

    /// The payload of that record.
    pub open spec fn payload(&self) -> C {
        self.record().payload()
    }

    /// Whether both handles lead to one record: what `==` computes.
    pub open spec fn same_record(&self, other: &Self) -> bool {
        self.record() == other.record()
    }

    /// The record.
    fn counter(&self) -> (counter: &Counter<C>)
        ensures
            *counter == self.record(),
    {
        &self.counter
    }

    /// Acquires another handle of the sending side.
    ///
    /// The new handle leads to the same record. The sender count goes up by
    /// one either way, and a handle is made exactly if the count that was
    /// found is within the limit. Where it is not, the count stays raised: it
    /// has run away, and the caller is expected to end the process.
    pub fn acquire(&self) -> (acquired: Result<Self, CountOverflow>)
        ensures
            acquired matches Ok(handle) ==> handle.same_record(self) && handle.payload()
                == self.payload(),
            exists|prev: usize| #[trigger]
                self.record().raised(Side::Senders, prev) && (acquired is Ok <==> grants(prev)),
    {
        match self.counter().acquire(Side::Senders) {
            Ok(()) => Ok(Sender { counter: self.counter.clone() }),
            Err(overflow) => Err(overflow),
        }
    }

    /// Releases the handle.
    ///
    /// The sender count goes down by one. If the count that was found is
    /// one, this was the last sender: `disconnect` is called once on the
    /// payload, the destroy flag is set, and the outcome holds what
    /// `disconnect` returned and tells whether the flag was set before, that
    /// is, whether the receiving side had finished. Otherwise `disconnect` is
    /// not called and the flag is left alone.
    pub fn release<F: FnOnce(&C) -> bool>(self, disconnect: F) -> (outcome: Outcome)
        requires
            disconnect.requires((&self.payload(),)),
        ensures
            outcome.disconnected() ==> disconnect.ensures((&self.payload(),), outcome.signal()),
            exists|prev: usize| #[trigger]
                self.record().lowered(Side::Senders, prev) && self.record().settled(
                    prev,
                    disconnect,
                    outcome,
                ),
    {
        self.counter().release(Side::Senders, disconnect)
    }
}

impl<C> Deref for Sender<C> {
    type Target = C;

    /// The payload.
    fn deref(&self) -> (payload: &C)
        ensures
            *payload == self.payload(),
    {
        &self.counter().chan
    }
}

impl<C> PartialEq for Sender<C> {
    /// Whether both handles lead to one record.
    fn eq(&self, other: &Self) -> (same: bool) {
        same_allocation(&self.counter, &other.counter)
    }
}

impl<C> PartialEqSpecImpl for Sender<C> {
    open spec fn obeys_eq_spec() -> bool {
        true
    }

    open spec fn eq_spec(&self, other: &Self) -> bool {
        self.same_record(other)
    }
}

impl<C> Receiver<C> {
    /// The record that the handle leads to.
    pub closed spec fn record(&self) -> Counter<C> {
        *self.counter
    }

    /// The payload of that record.
    pub open spec fn payload(&self) -> C {
        self.record().payload()
    }

    /// Whether both handles lead to one record: what `==` computes.
    pub open spec fn same_record(&self, other: &Self) -> bool {
        self.record() == other.record()
    }

    /// The record.
    fn counter(&self) -> (counter: &Counter<C>)
        ensures
            *counter == self.record(),
    {
        &self.counter
    }

    /// Acquires another handle of the receiving side.
    ///
    /// The new handle leads to the same record. The receiver count goes up by
    /// one either way, and a handle is made exactly if the count that was
    /// found is within the limit. Where it is not, the count stays raised: it
    /// has run away, and the caller is expected to end the process.
    pub fn acquire(&self) -> (acquired: Result<Self, CountOverflow>)
        ensures
            acquired matches Ok(handle) ==> handle.same_record(self) && handle.payload()
                == self.payload(),
            exists|prev: usize| #[trigger]
                self.record().raised(Side::Receivers, prev) && (acquired is Ok <==> grants(prev)),
    {
        match self.counter().acquire(Side::Receivers) {
            Ok(()) => Ok(Receiver { counter: self.counter.clone() }),
            Err(overflow) => Err(overflow),
        }
    }

    /// Releases the handle.
    ///
    /// The receiver count goes down by one. If the count that was found is
    /// one, this was the last receiver: `disconnect` is called once on the
    /// payload, the destroy flag is set, and the outcome holds what
    /// `disconnect` returned and tells whether the flag was set before, that
    /// is, whether the sending side had finished. Otherwise `disconnect` is
    /// not called and the flag is left alone.
    pub fn release<F: FnOnce(&C) -> bool>(self, disconnect: F) -> (outcome: Outcome)
        requires
            disconnect.requires((&self.payload(),)),
        ensures
            outcome.disconnected() ==> disconnect.ensures((&self.payload(),), outcome.signal()),
            exists|prev: usize| #[trigger]
                self.record().lowered(Side::Receivers, prev) && self.record().settled(
                    prev,
                    disconnect,
                    outcome,
                ),
    {
        self.counter().release(Side::Receivers, disconnect)
    }
}

impl<C> Deref for Receiver<C> {
    type Target = C;

    /// The payload.
    fn deref(&self) -> (payload: &C)
        ensures
            *payload == self.payload(),
    {
        &self.counter().chan
    }
}

impl<C> PartialEq for Receiver<C> {
    /// Whether both handles lead to one record.
    fn eq(&self, other: &Self) -> (same: bool) {
        same_allocation(&self.counter, &other.counter)
    }
}

impl<C> PartialEqSpecImpl for Receiver<C> {
    open spec fn obeys_eq_spec() -> bool {
        true
    }

    open spec fn eq_spec(&self, other: &Self) -> bool {
        self.same_record(other)
    }
}

/// Identity of senders is an equivalence, and it is sameness of the record.
///
/// A handle equals itself; equality does not depend on the order of the two
/// handles; two handles equal to a third are equal. Handles are equal exactly
/// when they lead to one record, so every handle that `acquire` made, however
/// many steps away from the first, equals every other handle of its record.
pub proof fn sender_identity<C>(a: Sender<C>, b: Sender<C>, c: Sender<C>)
    ensures
        a.same_record(&a),
        a.same_record(&b) == b.same_record(&a),
        a.same_record(&b) && b.same_record(&c) ==> a.same_record(&c),
        a.same_record(&b) == (a.record() == b.record()),
{
}

/// Identity of receivers is an equivalence, and it is sameness of the record.
///
/// A handle equals itself; equality does not depend on the order of the two
/// handles; two handles equal to a third are equal. Handles are equal exactly
/// when they lead to one record, so every handle that `acquire` made, however
/// many steps away from the first, equals every other handle of its record.
pub proof fn receiver_identity<C>(a: Receiver<C>, b: Receiver<C>, c: Receiver<C>)
    ensures
        a.same_record(&a),
        a.same_record(&b) == b.same_record(&a),
        a.same_record(&b) && b.same_record(&c) ==> a.same_record(&c),
        a.same_record(&b) == (a.record() == b.record()),
{
}

/// Handles of one record show one payload, whatever their side: what a
/// handle dereferences to is the payload that its record was created with.
pub proof fn one_record_one_payload<C>(s: Sender<C>, t: Sender<C>, r: Receiver<C>, q: Receiver<C>)
    ensures
        s.record() == t.record() ==> s.payload() == t.payload(),
        s.record() == r.record() ==> s.payload() == r.payload(),
        r.record() == q.record() ==> r.payload() == q.payload(),
{
}

} // verus!
