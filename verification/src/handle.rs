//! Revocable cross-thread callback handles.
//!
//! A `CallbackHandle` stands for an invocation target that delivers events
//! to the host control thread. Delivery is modelled by a mailbox: the
//! events that reached the host thread, in delivery order. Revocation
//! irreversibly disables delivery.

use vstd::prelude::*;

use crate::event::Event;

verus! {

/// Mathematical model of a callback handle: whether it still accepts
/// deliveries, and the events delivered to the host thread so far, in
/// delivery order.
#[verifier::ext_equal]
pub ghost struct HandleModel {
    pub active: bool,
    pub mailbox: Seq<Event>,
}

/// What revocation does to a handle: delivery is disabled for good, and
/// the events already delivered stay as they are.
pub open spec fn spec_revoke(h: HandleModel) -> HandleModel {
    HandleModel { active: false, mailbox: h.mailbox }
}

/// What one delivery does to a handle: an active handle appends the event
/// to its mailbox (FIFO); a revoked handle drops the event unchanged.
pub open spec fn spec_invoke(h: HandleModel, e: Event) -> HandleModel {
    if h.active {
        HandleModel { active: true, mailbox: h.mailbox.push(e) }
    } else {
        h
    }
}

/// Delivering a sequence of events one by one, front to back.
pub open spec fn spec_invoke_all(h: HandleModel, es: Seq<Event>) -> HandleModel
    decreases es.len(),
{
    if es.len() == 0 {
        h
    } else {
        spec_invoke_all(spec_invoke(h, es[0]), es.drop_first())
    }
}

/// A cross-thread invocation target wrapping a host-thread callback.
pub struct CallbackHandle {
    active: bool,
    mailbox: Vec<Event>,
}

impl View for CallbackHandle {
    type V = HandleModel;

    closed spec fn view(&self) -> HandleModel {
        HandleModel { active: self.active, mailbox: self.mailbox@ }
    }
}

impl CallbackHandle {
    /// A fresh handle accepts deliveries and has received nothing yet.
    pub fn new() -> (h: CallbackHandle)
        ensures
            h@.active,
            h@.mailbox == Seq::<Event>::empty(),
    {
        CallbackHandle { active: true, mailbox: Vec::new() }
    }

    /// Whether the handle still accepts deliveries.
    pub fn is_active(&self) -> (r: bool)
        ensures
            r == self@.active,
    {
        self.active
    }

    /// Schedules delivery of `e` to the host thread without blocking the
    /// caller. Returns whether the event was enqueued: a handle revoked
    /// concurrently drops the event, a non-fatal failure reported to the
    /// caller and never to the host.
    pub fn invoke(&mut self, e: Event) -> (enqueued: bool)
        ensures
            enqueued == old(self)@.active,
            final(self)@ == spec_invoke(old(self)@, e),
    {
        if self.active {
            self.mailbox.push(e);
            true
        } else {
            false
        }
    }

    /// Irreversibly disables further delivery. The registry removes an
    /// entry before revoking it, so no handle is ever revoked twice.
    pub fn revoke(&mut self)
        requires
            old(self)@.active,
        ensures
            final(self)@ == spec_revoke(old(self)@),
    {
        self.active = false;
    }

    /// How many events have been delivered to the host thread.
    pub fn delivered_count(&self) -> (n: usize)
        ensures
            n == self@.mailbox.len(),
    {
        self.mailbox.len()
    }

    /// The `i`-th event delivered to the host thread, in delivery order.
    pub fn delivered_at(&self, i: usize) -> (e: Event)
        requires
            i < self@.mailbox.len(),
        ensures
            e == self@.mailbox[i as int],
    {
        self.mailbox[i]
    }
}

/// Law: deliveries through one handle arrive in the host mailbox in the
/// order they were sent. Sending a whole sequence of events to an active
/// handle appends exactly that sequence, in order, and the handle stays
/// active throughout.
pub proof fn lemma_invoke_all_fifo(h: HandleModel, es: Seq<Event>)
    requires
        h.active,
    ensures
        spec_invoke_all(h, es).active,
        spec_invoke_all(h, es).mailbox == h.mailbox + es,
    decreases es.len(),
{
    if es.len() == 0 {
        assert(h.mailbox + es =~= h.mailbox);
    } else {
        let h1 = spec_invoke(h, es[0]);
        lemma_invoke_all_fifo(h1, es.drop_first());
        assert(h.mailbox.push(es[0]) + es.drop_first() =~= h.mailbox + es);
    }
}

/// Law: two deliveries through one active handle keep their order. A
/// delivery through a different handle in between acts on that other
/// handle's model alone, so it cannot reorder these two: the mailbox ends
/// with exactly `first` then `second`.
pub proof fn lemma_invoke_fifo_interleaved(h: HandleModel, first: Event, second: Event)
    requires
        h.active,
    ensures
        spec_invoke(spec_invoke(h, first), second).mailbox == h.mailbox + seq![first, second],
{
    assert(h.mailbox.push(first).push(second) =~= h.mailbox + seq![first, second]);
}

/// Law: a revoked handle never receives a delivery; invoking it leaves it
/// unchanged, whatever the event.
pub proof fn lemma_revoked_drops_delivery(h: HandleModel, e: Event)
    requires
        !h.active,
    ensures
        spec_invoke(h, e) == h,
{
}

} // verus!
