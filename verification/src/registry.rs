//! The listener registry: an owning map from registration id to callback
//! handle, with atomic register / unregister / drain operations.
//!
//! Invariant: every registered handle still accepts deliveries. Removal is
//! always paired with revocation, so a revoked handle never sits in the
//! map, and no handle is ever revoked twice. Registration ids come from a
//! monotonically increasing counter, so a fresh id never collides with a
//! currently registered one, nor with one that was ever handed out.

use vstd::prelude::*;

use crate::event::Event;
use crate::handle::{CallbackHandle, HandleModel, spec_invoke, spec_revoke};

verus! {

/// Mathematical model of the registry: the id the next registration will
/// receive, and the registered entries in registration order.
#[verifier::ext_equal]
pub ghost struct RegistryModel {
    pub next_id: u64,
    pub entries: Seq<(u64, HandleModel)>,
}

impl RegistryModel {
    /// Well-formedness: ids are pairwise distinct, every id lies below the
    /// counter, and every registered handle still accepts deliveries.
    pub open spec fn wf(self) -> bool {
        &&& (forall|i: int|
            0 <= i < self.entries.len() ==> (#[trigger] self.entries[i]).0 < self.next_id)
        &&& (forall|i: int, j: int|
            0 <= i < j < self.entries.len() ==> (#[trigger] self.entries[i]).0 != (
            #[trigger] self.entries[j]).0)
        &&& (forall|i: int|
            0 <= i < self.entries.len() ==> (#[trigger] self.entries[i]).1.active)
    }

    /// Whether some entry is registered under `id`.
    pub open spec fn contains_id(self, id: u64) -> bool {
        exists|i: int| 0 <= i < self.entries.len() && (#[trigger] self.entries[i]).0 == id
    }

    /// The position of the entry registered under `id` (meaningful only
    /// when `contains_id(id)` holds; under `wf` it is unique).
    pub open spec fn index_of(self, id: u64) -> int {
        choose|i: int| 0 <= i < self.entries.len() && (#[trigger] self.entries[i]).0 == id
    }
}

/// What `register` does: the entry is appended under the fresh id
/// `r.next_id`, and the counter moves past it.
pub open spec fn spec_register(r: RegistryModel, h: HandleModel) -> RegistryModel
    recommends
        r.next_id < u64::MAX,
{
    RegistryModel { next_id: (r.next_id + 1) as u64, entries: r.entries.push((r.next_id, h)) }
}

/// What `unregister` does: the entry under `id` leaves the map if present;
/// an absent id changes nothing. The counter never moves backwards.
pub open spec fn spec_unregister(r: RegistryModel, id: u64) -> RegistryModel {
    if r.contains_id(id) {
        RegistryModel { next_id: r.next_id, entries: r.entries.remove(r.index_of(id)) }
    } else {
        r
    }
}

/// The handle that `unregister` removes and revokes, if any.
pub open spec fn spec_unregistered_handle(r: RegistryModel, id: u64) -> Option<HandleModel> {
    if r.contains_id(id) {
        Some(spec_revoke(r.entries[r.index_of(id)].1))
    } else {
        None
    }
}

/// What `drain_all` does: every entry leaves the map; the counter stays,
/// so later registrations still receive fresh ids.
pub open spec fn spec_drain(r: RegistryModel) -> RegistryModel {
    RegistryModel { next_id: r.next_id, entries: Seq::empty() }
}

/// The handles that `drain_all` removes and revokes, in registration
/// order, each revoked exactly once.
pub open spec fn spec_drained_handles(r: RegistryModel) -> Seq<HandleModel> {
    r.entries.map(|i: int, p: (u64, HandleModel)| spec_revoke(p.1))
}

/// What dispatching one event does: every registered handle receives the
/// event; ids, order and the counter are untouched.
pub open spec fn spec_dispatch(r: RegistryModel, e: Event) -> RegistryModel {
    RegistryModel {
        next_id: r.next_id,
        entries: r.entries.map(|i: int, p: (u64, HandleModel)| (p.0, spec_invoke(p.1, e))),
    }
}

/// The owning map from registration id to callback handle.
pub struct ListenerRegistry {
    next_id: u64,
    entries: Vec<(u64, CallbackHandle)>,
}

impl View for ListenerRegistry {
    type V = RegistryModel;

    closed spec fn view(&self) -> RegistryModel {
        RegistryModel {
            next_id: self.next_id,
            entries: self.entries@.map(|i: int, p: (u64, CallbackHandle)| (p.0, p.1@)),
        }
    }
}

impl ListenerRegistry {
    /// A fresh registry holds no listeners and will hand out id 0 first.
    pub fn new() -> (r: ListenerRegistry)
        ensures
            r@.wf(),
            r@.next_id == 0,
            r@.entries == Seq::<(u64, HandleModel)>::empty(),
    {
        let r = ListenerRegistry { next_id: 0, entries: Vec::new() };
        proof {
            assert(r@.entries =~= Seq::<(u64, HandleModel)>::empty());
        }
        r
    }

    /// Registers a handle under a fresh id, guaranteed not to collide with
    /// any currently registered id, and returns that id. The counter bound
    /// is a machine limit: ids are never reused, so the registry can hand
    /// out at most `u64::MAX` of them.
    pub fn register(&mut self, handle: CallbackHandle) -> (id: u64)
        requires
            old(self)@.wf(),
            old(self)@.next_id < u64::MAX,
            handle@.active,
        ensures
            final(self)@.wf(),
            id == old(self)@.next_id,
            !old(self)@.contains_id(id),
            final(self)@ == spec_register(old(self)@, handle@),
            final(self)@.contains_id(id),
    {
        let ghost m0 = self@;
        let ghost hm = handle@;
        let id = self.next_id;
        self.next_id = self.next_id + 1;
        self.entries.push((id, handle));
        proof {
            let m1 = self@;
            assert(m1.entries =~= m0.entries.push((id, hm)));
            assert(m1 == spec_register(m0, hm));
            let n = m0.entries.len() as int;
            assert(m1.entries[n].0 == id);
            assert(m1.contains_id(id));
            assert forall|i: int| 0 <= i < m0.entries.len() implies (#[trigger] m0.entries[i]).0
                != id by {
                assert(m0.entries[i].0 < m0.next_id);
            }
            assert(!m0.contains_id(id));
            assert forall|i: int| 0 <= i < m1.entries.len() implies (#[trigger] m1.entries[i]).0
                < m1.next_id by {
                if i < n {
                    assert(m1.entries[i] == m0.entries[i]);
                }
            }
            assert forall|i: int, j: int| 0 <= i < j < m1.entries.len() implies (
            #[trigger] m1.entries[i]).0 != (#[trigger] m1.entries[j]).0 by {
                if j < n {
                    assert(m1.entries[i] == m0.entries[i]);
                    assert(m1.entries[j] == m0.entries[j]);
                } else {
                    assert(m1.entries[j].0 == id);
                    if i < n {
                        assert(m1.entries[i] == m0.entries[i]);
                        assert(m0.entries[i].0 < m0.next_id);
                    }
                }
            }
            assert forall|i: int| 0 <= i < m1.entries.len() implies (
            #[trigger] m1.entries[i]).1.active by {
                if i < n {
                    assert(m1.entries[i] == m0.entries[i]);
                }
            }
        }
        id
    }

    /// Removes the entry registered under `id`, if present, and revokes
    /// the removed handle exactly once; the revoked handle is returned so
    /// the caller can observe it. Removal of an absent id is a silent
    /// no-op, so a second `unregister` of the same id changes nothing.
    #[verifier::loop_isolation(false)]
    pub fn unregister(&mut self, id: u64) -> (removed: Option<CallbackHandle>)
        requires
            old(self)@.wf(),
        ensures
            final(self)@.wf(),
            final(self)@ == spec_unregister(old(self)@, id),
            !final(self)@.contains_id(id),
            match removed {
                Some(h) => old(self)@.contains_id(id) && Some(h@) == spec_unregistered_handle(
                    old(self)@,
                    id,
                ),
                None => !old(self)@.contains_id(id),
            },
    {
        let ghost m0 = self@;
        let n = self.entries.len();
        let mut i: usize = 0;
        while i < n
            invariant
                n == self.entries.len(),
                i <= n,
                self@ == m0,
                m0.wf(),
                forall|j: int| 0 <= j < i ==> (#[trigger] m0.entries[j]).0 != id,
            decreases n - i,
        {
            let found = self.entries[i].0 == id;
            proof {
                assert(m0.entries[i as int].0 == self.entries@[i as int].0);
            }
            if found {
                let (_, mut h) = self.entries.remove(i);
                proof {
                    assert(m0.contains_id(id));
                    let k = m0.index_of(id);
                    assert(0 <= k < m0.entries.len() && m0.entries[k].0 == id);
                    assert(k == i) by {
                        if k < i {
                            assert(m0.entries[k].0 != m0.entries[i as int].0);
                        } else if k > i {
                            assert(m0.entries[i as int].0 != m0.entries[k].0);
                        }
                    }
                    assert(h@ == m0.entries[i as int].1);
                    assert(h@.active);
                }
                h.revoke();
                proof {
                    let m1 = self@;
                    assert(m1.entries =~= m0.entries.remove(i as int));
                    assert(m1 == spec_unregister(m0, id));
                    lemma_wf_remove(m0, i as int);
                    assert(Some(h@) == spec_unregistered_handle(m0, id));
                    assert forall|j: int|
                        0 <= j < m1.entries.len() implies (#[trigger] m1.entries[j]).0 != id by {
                        if j < i {
                            assert(m1.entries[j] == m0.entries[j]);
                        } else {
                            assert(m1.entries[j] == m0.entries[j + 1]);
                            assert(m0.entries[i as int].0 != m0.entries[j + 1].0);
                        }
                    }
                    assert(!m1.contains_id(id));
                }
                return Some(h);
            }
            i += 1;
        }
        proof {
            assert(!m0.contains_id(id));
        }
        None
    }

    /// Removes every entry and revokes each removed handle exactly once,
    /// leaving the map empty; the revoked handles are returned in
    /// registration order. Draining an empty registry is a no-op, so a
    /// second `drain_all` changes nothing and returns nothing.
    pub fn drain_all(&mut self) -> (revoked: Vec<CallbackHandle>)
        requires
            old(self)@.wf(),
        ensures
            final(self)@.wf(),
            final(self)@ == spec_drain(old(self)@),
            revoked@.map(|i: int, h: CallbackHandle| h@) == spec_drained_handles(old(self)@),
            revoked@.len() == old(self)@.entries.len(),
    {
        let ghost m0 = self@;
        let mut revoked: Vec<CallbackHandle> = Vec::new();
        while self.entries.len() > 0
            invariant
                m0.wf(),
                self@.next_id == m0.next_id,
                revoked@.len() + self@.entries.len() == m0.entries.len(),
                self@.entries == m0.entries.skip(revoked@.len() as int),
                forall|j: int|
                    0 <= j < revoked@.len() ==> (#[trigger] revoked@[j])@ == spec_revoke(
                        m0.entries[j].1,
                    ),
            decreases self.entries.len(),
        {
            let ghost pre = self@;
            let ghost k = revoked@.len() as int;
            let (_, mut h) = self.entries.remove(0);
            proof {
                assert(h@ == pre.entries[0].1);
                assert(pre.entries[0] == m0.entries[k]);
                assert(m0.entries[k].1.active);
            }
            h.revoke();
            revoked.push(h);
            proof {
                assert(self@.entries =~= pre.entries.remove(0));
                assert(self@.entries =~= m0.entries.skip(k + 1));
            }
        }
        proof {
            assert(self@.entries =~= Seq::<(u64, HandleModel)>::empty());
            assert(self@ == spec_drain(m0));
            assert(revoked@.map(|i: int, h: CallbackHandle| h@) =~= spec_drained_handles(m0));
        }
        revoked
    }

    /// Delivers `e` to every registered handle, in registration order, and
    /// returns how many handles received it. Under the registry invariant
    /// every registered handle is active, so none drops the event.
    pub fn dispatch(&mut self, e: Event) -> (delivered: usize)
        requires
            old(self)@.wf(),
        ensures
            final(self)@.wf(),
            delivered == old(self)@.entries.len(),
            final(self)@ == spec_dispatch(old(self)@, e),
    {
        let ghost m0 = self@;
        let n = self.entries.len();
        let mut i: usize = 0;
        while i < n
            invariant
                n == self.entries.len(),
                i <= n,
                m0.wf(),
                n == m0.entries.len(),
                self@.next_id == m0.next_id,
                forall|j: int|
                    0 <= j < i ==> (#[trigger] self@.entries[j]) == (
                    m0.entries[j].0,
                    spec_invoke(m0.entries[j].1, e),
                    ),
                forall|j: int| i <= j < n ==> (#[trigger] self@.entries[j]) == m0.entries[j],
            decreases n - i,
        {
            let ghost pre = self@;
            let entry = &mut self.entries[i];
            entry.1.invoke(e);
            proof {
                assert(self@.entries =~= pre.entries.update(
                    i as int,
                    (pre.entries[i as int].0, spec_invoke(pre.entries[i as int].1, e)),
                ));
            }
            i += 1;
        }
        proof {
            assert(self@.entries =~= spec_dispatch(m0, e).entries);
            assert(self@ == spec_dispatch(m0, e));
            assert forall|j: int| 0 <= j < self@.entries.len() implies (
            #[trigger] self@.entries[j]).1.active by {
                assert(m0.entries[j].1.active);
            }
            assert forall|j: int| 0 <= j < self@.entries.len() implies (
            #[trigger] self@.entries[j]).0 < self@.next_id by {
                assert(m0.entries[j].0 < m0.next_id);
            }
            assert forall|i2: int, j2: int| 0 <= i2 < j2 < self@.entries.len() implies (
            #[trigger] self@.entries[i2]).0 != (#[trigger] self@.entries[j2]).0 by {
                assert(m0.entries[i2].0 != m0.entries[j2].0);
            }
        }
        n
    }

    /// How many listeners are currently registered.
    pub fn len(&self) -> (n: usize)
        ensures
            n == self@.entries.len(),
    {
        self.entries.len()
    }
}

/// Removing one entry from a well-formed registry keeps it well-formed.
proof fn lemma_wf_remove(m: RegistryModel, at: int)
    requires
        m.wf(),
        0 <= at < m.entries.len(),
    ensures
        (RegistryModel { next_id: m.next_id, entries: m.entries.remove(at) }).wf(),
{
    let r = RegistryModel { next_id: m.next_id, entries: m.entries.remove(at) };
    assert forall|i: int| 0 <= i < r.entries.len() implies (#[trigger] r.entries[i]).0
        < r.next_id && (#[trigger] r.entries[i]).1.active by {
        if i < at {
            assert(r.entries[i] == m.entries[i]);
        } else {
            assert(r.entries[i] == m.entries[i + 1]);
        }
    }
    assert forall|i: int, j: int| 0 <= i < j < r.entries.len() implies (
    #[trigger] r.entries[i]).0 != (#[trigger] r.entries[j]).0 by {
        let i0 = if i < at { i } else { i + 1 };
        let j0 = if j < at { j } else { j + 1 };
        assert(r.entries[i] == m.entries[i0]);
        assert(r.entries[j] == m.entries[j0]);
        assert(m.entries[i0].0 != m.entries[j0].0);
    }
}

/// Law: registering a handle and immediately unregistering the returned id
/// restores the entries exactly as they were (an empty registry stays
/// empty), the removed handle comes back revoked with its mailbox intact,
/// and a second unregister of the same id changes nothing.
pub proof fn lemma_register_then_unregister(r: RegistryModel, h: HandleModel)
    requires
        r.wf(),
        r.next_id < u64::MAX,
        h.active,
    ensures
        spec_unregister(spec_register(r, h), r.next_id).entries == r.entries,
        spec_unregistered_handle(spec_register(r, h), r.next_id) == Some(
            HandleModel { active: false, mailbox: h.mailbox },
        ),
        spec_unregister(spec_unregister(spec_register(r, h), r.next_id), r.next_id)
            == spec_unregister(spec_register(r, h), r.next_id),
{
    let id = r.next_id;
    let r1 = spec_register(r, h);
    let n = r.entries.len() as int;
    assert(r1.entries[n].0 == id);
    assert(r1.contains_id(id));
    assert forall|i: int| 0 <= i < n implies (#[trigger] r1.entries[i]).0 != id by {
        assert(r1.entries[i] == r.entries[i]);
        assert(r.entries[i].0 < r.next_id);
    }
    let k = r1.index_of(id);
    assert(0 <= k < r1.entries.len() && r1.entries[k].0 == id);
    assert(k == n);
    let r2 = spec_unregister(r1, id);
    assert(r2.entries =~= r.entries);
    assert forall|i: int| 0 <= i < r2.entries.len() implies (#[trigger] r2.entries[i]).0
        != id by {
        assert(r2.entries[i] == r.entries[i]);
        assert(r.entries[i].0 < r.next_id);
    }
    assert(!r2.contains_id(id));
}

/// Law: draining is idempotent. A second `drain_all` finds the registry
/// already empty, changes nothing, and revokes nothing.
pub proof fn lemma_drain_all_idempotent(r: RegistryModel)
    ensures
        spec_drain(spec_drain(r)) == spec_drain(r),
        spec_drained_handles(spec_drain(r)) == Seq::<HandleModel>::empty(),
{
    assert(spec_drained_handles(spec_drain(r)) =~= Seq::<HandleModel>::empty());
}

/// Law: once the registry is drained, dispatching any further event
/// changes nothing and reaches no handle; and every handle the drain
/// returned is revoked, so delivering to it directly is dropped too.
pub proof fn lemma_drained_registry_delivers_nothing(r: RegistryModel, e: Event)
    ensures
        spec_dispatch(spec_drain(r), e) == spec_drain(r),
        forall|j: int|
            0 <= j < spec_drained_handles(r).len() ==> spec_invoke(
                #[trigger] spec_drained_handles(r)[j],
                e,
            ) == spec_drained_handles(r)[j],
{
    assert(spec_dispatch(spec_drain(r), e).entries =~= spec_drain(r).entries);
}

} // verus!
