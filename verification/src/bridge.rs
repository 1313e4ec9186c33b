//! The handle bridge: the table that stands between opaque handles and the
//! long-lived objects behind them.
//!
//! Every object that crosses the boundary is parked in the bridge and known
//! to the caller by a handle only. A call that keeps the object alive looks
//! it up or borrows it for its own duration; a terminal call reclaims it, and
//! from then on the handle is dead. Handles are never issued twice, so a dead
//! handle stays dead.

use crate::client::DormantMode;
use crate::handle::{Handle, HandleKind};
use crate::progress::{ProgressReceiver, ProgressSender};
use crate::proxy::ProxyTask;
use vstd::prelude::*;

verus! {

/// An object in the bridge's custody. `C` is the client type.
pub enum Resource<C> {
    Client { client: C, mode: DormantMode },
    ProxyTask(ProxyTask),
    ProgressSend(ProgressSender),
    ProgressReceive(ProgressReceiver),
}

impl<C> Resource<C> {
    /// The tag under which this object is handed out.
    pub open spec fn kind(&self) -> HandleKind {
        match self {
            Resource::Client { .. } => HandleKind::Client,
            Resource::ProxyTask(_) => HandleKind::ProxyTask,
            Resource::ProgressSend(_) => HandleKind::ProgressSend,
            Resource::ProgressReceive(_) => HandleKind::ProgressReceive,
        }
    }

    /// Computes [`Resource::kind`].
    pub fn kind_of(&self) -> (kind: HandleKind)
        ensures
            kind == self.kind(),
    {
        match self {
            Resource::Client { .. } => HandleKind::Client,
            Resource::ProxyTask(_) => HandleKind::ProxyTask,
            Resource::ProgressSend(_) => HandleKind::ProgressSend,
            Resource::ProgressReceive(_) => HandleKind::ProgressReceive,
        }
    }
}

/// What the bridge knows of one handle.
pub enum Slot<C> {
    /// Nothing stands behind the handle: it was reclaimed, or never issued.
    Vacant,
    /// The object is parked in the bridge, in the caller's custody.
    Parked(Resource<C>),
    /// The object is out with a call in flight and will be brought back.
    Lent(HandleKind),
}

/// The slot of `handle` in the sequence `issued` of all slots handed out so
/// far. The first handle issued has the value one; the null handle and every
/// handle not yet issued are vacant.
pub open spec fn slot_of<C>(issued: Seq<Slot<C>>, handle: Handle) -> Slot<C> {
    if 1 <= handle.raw <= issued.len() {
        issued[handle.raw - 1]
    } else {
        Slot::Vacant
    }
}

/// `issued` with the slot of `handle` replaced by `slot`.
pub open spec fn with_slot<C>(issued: Seq<Slot<C>>, handle: Handle, slot: Slot<C>) -> Seq<Slot<C>> {
    issued.update(handle.raw - 1, slot)
}

/// Whether `handle` stands for a parked object of the given kind.
pub open spec fn parks<C>(issued: Seq<Slot<C>>, handle: Handle, kind: HandleKind) -> bool {
    slot_of(issued, handle) matches Slot::Parked(resource) && resource.kind() == kind
}

/// The table after `resource` is parked under a fresh handle.
pub open spec fn issued_with<C>(issued: Seq<Slot<C>>, resource: Resource<C>) -> Seq<Slot<C>> {
    issued.push(Slot::Parked(resource))
}

/// The handle that is issued next, and the ones after it, when `issued`
/// handles have been issued so far.
pub open spec fn next_handle(issued: nat, offset: nat) -> Handle {
    Handle { raw: (issued + 1 + offset) as usize }
}

/// The table after an object of the given kind is reclaimed through
/// `handle`: the slot is vacant if such an object was parked there, and
/// nothing changes otherwise.
pub open spec fn reclaimed<C>(issued: Seq<Slot<C>>, handle: Handle, kind: HandleKind) -> Seq<
    Slot<C>,
> {
    if parks(issued, handle, kind) {
        with_slot(issued, handle, Slot::Vacant)
    } else {
        issued
    }
}

/// The table after an object of the given kind is lent out through `handle`.
pub open spec fn lent_out<C>(issued: Seq<Slot<C>>, handle: Handle, kind: HandleKind) -> Seq<
    Slot<C>,
> {
    if parks(issued, handle, kind) {
        with_slot(issued, handle, Slot::Lent(kind))
    } else {
        issued
    }
}

/// Whether `handle` is out on loan for an object of the given kind.
pub open spec fn on_loan<C>(issued: Seq<Slot<C>>, handle: Handle, kind: HandleKind) -> bool {
    slot_of(issued, handle) == Slot::<C>::Lent(kind)
}

/// The table after `resource` is brought back under `handle`.
pub open spec fn restored<C>(issued: Seq<Slot<C>>, handle: Handle, resource: Resource<C>) -> Seq<
    Slot<C>,
> {
    if on_loan(issued, handle, resource.kind()) {
        with_slot(issued, handle, Slot::Parked(resource))
    } else {
        issued
    }
}

/// The shared runtime after `runtime` is offered for installation: the one
/// that was there, if any, and else the one offered.
pub open spec fn installed<R>(shared: Option<R>, runtime: R) -> Option<R> {
    match shared {
        Some(first) => Some(first),
        None => Some(runtime),
    }
}

/// The process-wide state of the boundary: the shared runtime, once it
/// exists, and the table of handles. `R` is the runtime type and `C` the
/// client type.
pub struct Bridge<R, C> {
    runtime: Option<R>,
    slots: Vec<Slot<C>>,
}

impl<R, C> Bridge<R, C> {
    /// The slots of all handles issued so far, in order of issue.
    pub closed spec fn issued(&self) -> Seq<Slot<C>> {
        self.slots@
    }

    /// The shared runtime, if it has been created.
    pub closed spec fn shared_runtime(&self) -> Option<R> {
        self.runtime
    }

    /// What the bridge knows of `handle`.
    pub open spec fn state(&self, handle: Handle) -> Slot<C> {
        slot_of(self.issued(), handle)
    }

    /// Whether `handle` stands for a parked object of the given kind.
    pub open spec fn holds(&self, handle: Handle, kind: HandleKind) -> bool {
        parks(self.issued(), handle, kind)
    }

    /// A bridge with no runtime and no handle issued.
    pub fn new() -> (bridge: Bridge<R, C>)
        ensures
            bridge.issued() == Seq::<Slot<C>>::empty(),
            bridge.shared_runtime() is None,
    {
        Bridge { runtime: None, slots: Vec::new() }
    }

    /// The shared runtime, if it has been created.
    pub fn runtime(&self) -> (runtime: Option<&R>)
        ensures
            match runtime {
                Some(shared) => self.shared_runtime() == Some(*shared),
                None => self.shared_runtime() is None,
            },
    {
        self.runtime.as_ref()
    }

    /// Installs the shared runtime, unless one is installed already: the
    /// runtime is created at most once. A runtime that comes second is handed
    /// back unused.
    pub fn install_runtime(&mut self, runtime: R) -> (surplus: Option<R>)
        ensures
            final(self).issued() == old(self).issued(),
            final(self).shared_runtime() == installed(old(self).shared_runtime(), runtime),
            surplus == if old(self).shared_runtime() is Some {
                Some(runtime)
            } else {
                None
            },
    {
        if self.runtime.is_some() {
            Some(runtime)
        } else {
            self.runtime = Some(runtime);
            None
        }
    }

    /// The number of handles issued so far.
    pub fn issued_count(&self) -> (count: usize)
        ensures
            count == self.issued().len(),
    {
        self.slots.len()
    }

    /// Parks `resource` and issues a fresh handle for it. The handle is not
    /// null and was never issued before.
    pub fn issue(&mut self, resource: Resource<C>) -> (handle: Handle)
        ensures
            handle == next_handle(old(self).issued().len(), 0),
            handle.raw == old(self).issued().len() + 1,
            final(self).issued() == issued_with(old(self).issued(), resource),
            final(self).shared_runtime() == old(self).shared_runtime(),
    {
        self.slots.push(Slot::Parked(resource));
        Handle { raw: self.slots.len() }
    }

    /// The kind of object that `handle` stands for, parked or lent; `None`
    /// for a handle with nothing behind it.
    pub fn kind_of(&self, handle: Handle) -> (kind: Option<HandleKind>)
        ensures
            kind == match self.state(handle) {
                Slot::Vacant => None,
                Slot::Parked(resource) => Some(resource.kind()),
                Slot::Lent(kind) => Some(kind),
            },
    {
        if 1 <= handle.raw && handle.raw <= self.slots.len() {
            match &self.slots[handle.raw - 1] {
                Slot::Vacant => None,
                Slot::Parked(resource) => Some(resource.kind_of()),
                Slot::Lent(kind) => Some(*kind),
            }
        } else {
            None
        }
    }

    /// Looks at the object parked behind `handle` without moving it.
    pub fn peek(&self, handle: Handle) -> (found: Option<&Resource<C>>)
        ensures
            match found {
                Some(resource) => self.state(handle) == Slot::Parked(*resource),
                None => !(self.state(handle) is Parked),
            },
    {
        if 1 <= handle.raw && handle.raw <= self.slots.len() {
            match &self.slots[handle.raw - 1] {
                Slot::Parked(resource) => Some(resource),
                _ => None,
            }
        } else {
            None
        }
    }

    /// Whether an object of the given kind is parked behind `handle`.
    pub fn is_parked(&self, handle: Handle, kind: HandleKind) -> (parked: bool)
        ensures
            parked == self.holds(handle, kind),
    {
        match self.peek(handle) {
            Some(resource) => resource.kind_of() == kind,
            None => false,
        }
    }

    /// Replaces the slot of `handle`, which must have been issued, and
    /// returns what was there.
    fn exchange(&mut self, handle: Handle, slot: Slot<C>) -> (previous: Slot<C>)
        requires
            1 <= handle.raw <= old(self).issued().len(),
        ensures
            previous == old(self).state(handle),
            final(self).issued() == with_slot(old(self).issued(), handle, slot),
            final(self).shared_runtime() == old(self).shared_runtime(),
    {
        let mut moved = slot;
        self.slots.set_and_swap(handle.raw - 1, &mut moved);
        moved
    }

    /// Takes the object of the given kind out of the bridge for good. The
    /// handle is dead afterwards. A handle that does not stand for a parked
    /// object of that kind is refused, and nothing changes.
    pub fn reclaim(&mut self, handle: Handle, kind: HandleKind) -> (taken: Option<Resource<C>>)
        ensures
            final(self).shared_runtime() == old(self).shared_runtime(),
            final(self).issued() == reclaimed(old(self).issued(), handle, kind),
            match taken {
                Some(resource) => old(self).holds(handle, kind) && old(self).state(handle)
                    == Slot::Parked(resource),
                None => !old(self).holds(handle, kind),
            },
    {
        if self.is_parked(handle, kind) {
            match self.exchange(handle, Slot::Vacant) {
                Slot::Parked(resource) => Some(resource),
                _ => None,
            }
        } else {
            None
        }
    }

    /// Takes the object of the given kind out of the bridge for the duration
    /// of one call. The handle stays alive but cannot be used again until the
    /// object is brought back with [`Bridge::restore`]. A handle that does
    /// not stand for a parked object of that kind is refused, and nothing
    /// changes.
    pub fn lend(&mut self, handle: Handle, kind: HandleKind) -> (lent: Option<Resource<C>>)
        ensures
            final(self).shared_runtime() == old(self).shared_runtime(),
            final(self).issued() == lent_out(old(self).issued(), handle, kind),
            match lent {
                Some(resource) => old(self).holds(handle, kind) && old(self).state(handle)
                    == Slot::Parked(resource),
                None => !old(self).holds(handle, kind),
            },
    {
        if self.is_parked(handle, kind) {
            match self.exchange(handle, Slot::Lent(kind)) {
                Slot::Parked(resource) => Some(resource),
                _ => None,
            }
        } else {
            None
        }
    }

    /// Brings a lent object back under its handle. An object of another kind
    /// than the one lent, or a handle that is not out on loan, is refused:
    /// the object is handed back and nothing changes.
    pub fn restore(&mut self, handle: Handle, resource: Resource<C>) -> (refused: Option<
        Resource<C>,
    >)
        ensures
            final(self).shared_runtime() == old(self).shared_runtime(),
            final(self).issued() == restored(old(self).issued(), handle, resource),
            refused == if on_loan(old(self).issued(), handle, resource.kind()) {
                None
            } else {
                Some(resource)
            },
    {
        let accepted = match self.kind_of(handle) {
            Some(kind) => kind == resource.kind_of() && self.peek(handle).is_none(),
            None => false,
        };
        if accepted {
            let _ = self.exchange(handle, Slot::Parked(resource));
            None
        } else {
            Some(resource)
        }
    }
}

/// The shared runtime is created at most once: the first runtime installed
/// stays, whatever is offered afterwards.
pub proof fn law_runtime_is_installed_once<R>(shared: Option<R>, first: R, second: R)
    ensures
        installed(shared, first) is Some,
        installed(installed(shared, first), second) == installed(shared, first),
{
}

/// The null handle never stands for anything, whatever has been issued.
pub proof fn law_null_handle_is_vacant<C>(issued: Seq<Slot<C>>)
    ensures
        slot_of(issued, Handle { raw: 0 }) is Vacant,
{
}

/// Every handle that is issued is new: it is not null, nothing stood behind
/// it before, and issuing it leaves every other handle as it was. So a
/// handle is never issued twice, and a dead handle is never revived.
pub proof fn law_issued_handle_is_fresh<C>(
    issued: Seq<Slot<C>>,
    resource: Resource<C>,
    other: Handle,
)
    requires
        issued.len() < usize::MAX,
    ensures
        !next_handle(issued.len(), 0).is_null(),
        slot_of(issued, next_handle(issued.len(), 0)) is Vacant,
        slot_of(issued_with(issued, resource), next_handle(issued.len(), 0)) == Slot::Parked(
            resource,
        ),
        other != next_handle(issued.len(), 0) ==> slot_of(issued_with(issued, resource), other)
            == slot_of(issued, other),
{
}

/// Reclaiming consumes: once an object has been reclaimed through a handle,
/// the handle stands for nothing, a second reclaim through it is refused and
/// changes nothing, and every other handle is as it was.
pub proof fn law_reclaim_is_final<C>(
    issued: Seq<Slot<C>>,
    handle: Handle,
    kind: HandleKind,
    again: HandleKind,
    other: Handle,
)
    requires
        parks(issued, handle, kind),
    ensures
        slot_of(reclaimed(issued, handle, kind), handle) is Vacant,
        !parks(reclaimed(issued, handle, kind), handle, again),
        reclaimed(reclaimed(issued, handle, kind), handle, again) == reclaimed(
            issued,
            handle,
            kind,
        ),
        other != handle ==> slot_of(reclaimed(issued, handle, kind), other) == slot_of(
            issued,
            other,
        ),
{
}

/// Lending preserves: an object that is lent out and brought back is parked
/// under the same handle again, and every other handle is as it was. While
/// it is out, a second loan through the same handle is refused.
pub proof fn law_loan_returns<C>(
    issued: Seq<Slot<C>>,
    handle: Handle,
    resource: Resource<C>,
    other: Handle,
)
    requires
        slot_of(issued, handle) == Slot::Parked(resource),
    ensures
        on_loan(lent_out(issued, handle, resource.kind()), handle, resource.kind()),
        !parks(lent_out(issued, handle, resource.kind()), handle, resource.kind()),
        restored(lent_out(issued, handle, resource.kind()), handle, resource) == issued,
        other != handle ==> slot_of(lent_out(issued, handle, resource.kind()), other) == slot_of(
            issued,
            other,
        ),
{
    assert(restored(lent_out(issued, handle, resource.kind()), handle, resource) =~= issued);
}

} // verus!
