//! A single-slot, edge-triggered change notification: one pending-change
//! flag and at most one registered waiting task.
use vstd::prelude::*;

use core::task::Waker;
use embassy_sync::waitqueue::WakerRegistration;

verus! {

/// `core::task::Waker`: the handle that wakes a suspended task.
#[verifier::external_type_specification]
#[verifier::external_body]
pub struct ExWaker(Waker);

/// `embassy_sync::waitqueue::WakerRegistration`: a slot for at most one waker.
#[verifier::external_type_specification]
#[verifier::external_body]
pub struct ExWakerRegistration(WakerRegistration);

/// Whether a waker is held in the slot.
pub uninterp spec fn slot_occupied(w: WakerRegistration) -> bool;

/// Relies on `WakerRegistration::new`: the slot starts empty.
pub assume_specification[ WakerRegistration::new ]() -> (r: WakerRegistration)
    ensures
        !slot_occupied(r),
;

/// Relies on `WakerRegistration::register`: afterwards the slot holds a waker
/// (the given one, or the one already there that wakes the same task).
pub assume_specification[ WakerRegistration::register ](reg: &mut WakerRegistration, w: &Waker)
    ensures
        slot_occupied(*final(reg)),
;

/// Relies on `WakerRegistration::wake`: the held waker, if any, is taken out
/// and woken, leaving the slot empty.
pub assume_specification[ WakerRegistration::wake ](reg: &mut WakerRegistration)
    ensures
        !slot_occupied(*final(reg)),
;

/// The observable state of a gate.
pub struct GateView {
    /// A change was signalled and not yet consumed by the waiter.
    pub pending: bool,
    /// A task is registered to be woken on the next change.
    pub waiting: bool,
}

/// The state after a change is signalled: the flag is set and the registered
/// task, if any, has been woken (and is no longer registered).
pub open spec fn notified(g: GateView) -> GateView {
    GateView { pending: true, waiting: false }
}

/// One poll of the waiting side: whether it completes, and the state after it.
/// A pending change is consumed; otherwise the caller is registered.
pub open spec fn polled(g: GateView) -> (bool, GateView) {
    if g.pending {
        (true, GateView { pending: false, waiting: g.waiting })
    } else {
        (false, GateView { pending: false, waiting: true })
    }
}

/// A wait that finds no pending change does not complete: it registers its
/// task, and completes on its first poll after the next notification.
pub proof fn lemma_wait_until_notify(g: GateView)
    requires
        !g.pending,
    ensures
        !polled(g).0,
        polled(g).1.waiting,
        polled(notified(polled(g).1)).0,
{
}

/// A poll completes exactly when a change is pending at that poll, and each
/// notification lets at most one poll through: no spurious wake-up follows.
pub proof fn lemma_no_spurious_wakeup(g: GateView)
    ensures
        polled(g).0 == g.pending,
        !polled(polled(g).1).0,
        polled(notified(g)).0,
        !polled(polled(notified(g)).1).0,
{
}

/// Wakes one waiting task when a condition changes.
pub struct ChangeGate {
    pending: bool,
    waker: WakerRegistration,
}

impl View for ChangeGate {
    type V = GateView;

    closed spec fn view(&self) -> GateView {
        GateView { pending: self.pending, waiting: slot_occupied(self.waker) }
    }
}

impl ChangeGate {
    /// A gate with no pending change and no waiter.
    pub fn new() -> (r: ChangeGate)
        ensures
            r@ == (GateView { pending: false, waiting: false }),
    {
        ChangeGate { pending: false, waker: WakerRegistration::new() }
    }

    /// Signals a change: sets the flag and wakes the registered task, if any.
    pub fn notify(&mut self)
        ensures
            final(self)@ == notified(old(self)@),
    {
        self.pending = true;
        self.waker.wake();
    }

    /// One poll of `wait_for_change`: returns `true` (ready) after consuming a
    /// pending change, else registers `waker` and returns `false` (pending).
    pub fn poll_change(&mut self, waker: &Waker) -> (ready: bool)
        ensures
            (ready, final(self)@) == polled(old(self)@),
    {
        if self.pending {
            self.pending = false;
            true
        } else {
            self.waker.register(waker);
            false
        }
    }
}

} // verus!
