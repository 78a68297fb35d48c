//! Per-instance shared interrupt state.
//!
//! One notification slot per peripheral instance, shared between the
//! interrupt dispatcher and the task that awaits peripheral activity.  The
//! slot holds at most one waiter at a time (last registrant wins), a
//! notification posted with no waiter present is kept pending and delivered
//! to the next registrant, and a hardware fault is latched until task code
//! collects it.
//!
//! The waiter type `W` is opaque to this module: the dispatcher never wakes a
//! waiter itself, it returns the waiter to be woken, and the embedding
//! performs the actual wake action.

use vstd::prelude::*;

verus! {

/// Ghost model of the shared interrupt state: the registered waiter, the
/// pending-notification flag and the latched fault flag.
pub struct SlotModel<W> {
    pub slot: Option<W>,
    pub pending: bool,
    pub fault: bool,
}

/// Effect of registering a waiter: with a notification pending, it is
/// delivered at once and nothing is stored; otherwise the waiter takes the
/// slot, displacing any earlier registrant (last registrant wins).
pub open spec fn spec_register<W>(m: SlotModel<W>, w: W) -> (SlotModel<W>, Option<W>) {
    if m.pending {
        (SlotModel { pending: false, ..m }, Some(w))
    } else {
        (SlotModel { slot: Some(w), ..m }, None)
    }
}

/// Effect of cancelling a wait: the registered waiter, if any, leaves the
/// slot without being woken; a pending notification stays pending.
pub open spec fn spec_deregister<W>(m: SlotModel<W>) -> (SlotModel<W>, Option<W>) {
    (SlotModel { slot: None, ..m }, m.slot)
}

/// Effect of posting a notification: a registered waiter is taken out of the
/// slot to be woken; with no waiter present the notification is kept pending.
pub open spec fn spec_wake<W>(m: SlotModel<W>) -> (SlotModel<W>, Option<W>) {
    match m.slot {
        Some(w) => (SlotModel { slot: None, ..m }, Some(w)),
        None => (SlotModel { pending: true, ..m }, None),
    }
}

/// Shared interrupt state of one peripheral instance: a single waiter slot
/// with last-registrant-wins semantics, plus a latched fault flag.
pub struct State<W> {
    slot: Option<W>,
    pending: bool,
    fault: bool,
}

impl<W> View for State<W> {
    type V = SlotModel<W>;

    closed spec fn view(&self) -> SlotModel<W> {
        SlotModel { slot: self.slot, pending: self.pending, fault: self.fault }
    }
}

impl<W> State<W> {
    /// At most one of "a waiter is registered" and "a notification is
    /// pending" holds: a notification arriving with a waiter present is
    /// delivered, never left pending beside it.
    pub open spec fn inv(self) -> bool {
        !(self@.slot is Some && self@.pending)
    }

    /// An empty slot: no waiter, no pending notification, no fault.
    pub fn new() -> (s: Self)
        ensures
            s@.slot is None,
            !s@.pending,
            !s@.fault,
            s.inv(),
    {
        State { slot: None, pending: false, fault: false }
    }

    /// Registers `w` as the waiter.  A pending notification is delivered to
    /// `w` at once (returned for the caller to wake); otherwise `w` takes
    /// the slot and any earlier registrant is displaced.
    pub fn register(&mut self, w: W) -> (deliver: Option<W>)
        requires
            old(self).inv(),
        ensures
            final(self).inv(),
            (final(self)@, deliver) == spec_register(old(self)@, w),
    {
        if self.pending {
            self.pending = false;
            Some(w)
        } else {
            self.slot = Some(w);
            None
        }
    }

    /// Cancels a wait: removes and returns the registered waiter, if any,
    /// without waking it, so that a notification arriving later can never
    /// wake it spuriously.  A pending notification is left pending.
    pub fn deregister(&mut self) -> (removed: Option<W>)
        requires
            old(self).inv(),
        ensures
            final(self).inv(),
            (final(self)@, removed) == spec_deregister(old(self)@),
    {
        self.slot.take()
    }

    /// Posts a notification: returns the registered waiter for the caller to
    /// wake, or keeps the notification pending when no waiter is registered.
    pub fn wake(&mut self) -> (woken: Option<W>)
        requires
            old(self).inv(),
        ensures
            final(self).inv(),
            (final(self)@, woken) == spec_wake(old(self)@),
    {
        match self.slot.take() {
            Some(w) => Some(w),
            None => {
                self.pending = true;
                None
            },
        }
    }

    /// Latches a hardware fault for task code to collect.
    pub fn set_fault(&mut self)
        ensures
            final(self)@ == (SlotModel { fault: true, ..old(self)@ }),
            old(self).inv() ==> final(self).inv(),
    {
        self.fault = true;
    }

    /// Collects and clears the latched fault flag.
    pub fn take_fault(&mut self) -> (f: bool)
        ensures
            f == old(self)@.fault,
            final(self)@ == (SlotModel { fault: false, ..old(self)@ }),
            old(self).inv() ==> final(self).inv(),
    {
        let f = self.fault;
        self.fault = false;
        f
    }
}

/// Law: the waiter slot is last-registrant-wins.  When no notification is
/// pending, registering `w1` and then `w2` without an intervening
/// notification stores `w2` alone; neither registration delivers, and the
/// next notification wakes exactly `w2` — the first registrant is never
/// woken.
pub proof fn lemma_register_last_wins<W>(m: SlotModel<W>, w1: W, w2: W)
    requires
        !m.pending,
    ensures
        ({
            let (m1, d1) = spec_register(m, w1);
            let (m2, d2) = spec_register(m1, w2);
            &&& d1 is None
            &&& d2 is None
            &&& m2.slot == Some(w2)
            &&& spec_wake(m2).1 == Some(w2)
        }),
{
}

} // verus!
