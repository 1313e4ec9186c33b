//! The client: its dormancy mode, and the calls that consume or preserve its
//! handle.
//!
//! The two calls differ on purpose. A bootstrap is terminal for the handle:
//! the client leaves the bridge and the handle is dead. A change of dormancy
//! mode keeps the client parked under the same handle, any number of times.

use crate::bridge::{lent_out, parks, reclaimed, slot_of, with_slot, Bridge, Resource, Slot};
use crate::handle::{Handle, HandleKind};
use vstd::prelude::*;

verus! {

/// How much background activity a client keeps up.
#[derive(Clone, Copy, Debug, PartialEq, Eq, Structural)]
pub enum DormantMode {
    /// Full activity.
    Normal,
    /// Reduced background activity; existing connections are kept while they
    /// last.
    Soft,
}

/// The dormancy mode that the boundary flag `soft_mode` asks for.
pub open spec fn dormant_mode(soft_mode: bool) -> DormantMode {
    if soft_mode {
        DormantMode::Soft
    } else {
        DormantMode::Normal
    }
}

/// The table after a dormancy mode is applied through `handle`: a client
/// parked there stays parked, with the mode on record; nothing changes for a
/// handle that does not stand for a parked client.
pub open spec fn with_mode<C>(issued: Seq<Slot<C>>, handle: Handle, mode: DormantMode) -> Seq<
    Slot<C>,
> {
    match slot_of(issued, handle) {
        Slot::Parked(Resource::Client { client, .. }) => with_slot(
            issued,
            handle,
            Slot::Parked(Resource::Client { client, mode }),
        ),
        _ => issued,
    }
}

/// The table after a run of dormancy changes through `handle`, one for each
/// flag, in order.
pub open spec fn with_modes<C>(issued: Seq<Slot<C>>, handle: Handle, flags: Seq<bool>) -> Seq<
    Slot<C>,
>
    decreases flags.len(),
{
    if flags.len() == 0 {
        issued
    } else {
        with_mode(with_modes(issued, handle, flags.drop_last()), handle, dormant_mode(flags.last()))
    }
}

/// Computes [`dormant_mode`].
pub fn select_dormant_mode(soft_mode: bool) -> (mode: DormantMode)
    ensures
        mode == dormant_mode(soft_mode),
{
    if soft_mode {
        DormantMode::Soft
    } else {
        DormantMode::Normal
    }
}

/// Looks up the client behind `handle`, with the dormancy mode last applied
/// to it, for a call that keeps the client alive.
pub fn client_of<R, C>(bridge: &Bridge<R, C>, handle: Handle) -> (found: Option<(&C, DormantMode)>)
    ensures
        match found {
            Some((client, mode)) => bridge.state(handle) == Slot::Parked(
                Resource::Client { client: *client, mode },
            ),
            None => !bridge.holds(handle, HandleKind::Client),
        },
{
    match bridge.peek(handle) {
        Some(Resource::Client { client, mode }) => Some((client, *mode)),
        _ => None,
    }
}

/// Reconstitutes the client for a bootstrap and consumes its handle: the
/// client leaves the bridge for good, whether or not the bootstrap that
/// follows succeeds, and the handle is dead from here on. A handle that does
/// not stand for a parked client is refused, and nothing changes.
pub fn arti_client_bootstrap<R, C>(bridge: &mut Bridge<R, C>, client: Handle) -> (taken: Option<C>)
    ensures
        final(bridge).shared_runtime() == old(bridge).shared_runtime(),
        final(bridge).issued() == reclaimed(old(bridge).issued(), client, HandleKind::Client),
        match taken {
            Some(object) => old(bridge).state(client) matches Slot::Parked(
                Resource::Client { client: parked, .. },
            ) && parked == object,
            None => !old(bridge).holds(client, HandleKind::Client),
        },
{
    match bridge.reclaim(client, HandleKind::Client) {
        Some(Resource::Client { client: object, .. }) => Some(object),
        _ => None,
    }
}

/// Applies a dormancy mode to the client behind `client` and keeps the handle
/// alive: the client stays parked under the same handle, with the new mode
/// on record, and can be used again at once. Returns the mode to apply, or
/// `None`, with nothing changed, for a handle that does not stand for a
/// parked client.
pub fn arti_client_set_dormant<R, C>(
    bridge: &mut Bridge<R, C>,
    client: Handle,
    soft_mode: bool,
) -> (applied: Option<DormantMode>)
    ensures
        final(bridge).shared_runtime() == old(bridge).shared_runtime(),
        final(bridge).issued() == with_mode(old(bridge).issued(), client, dormant_mode(soft_mode)),
        applied == if old(bridge).holds(client, HandleKind::Client) {
            Some(dormant_mode(soft_mode))
        } else {
            None
        },
{
    let mode = select_dormant_mode(soft_mode);
    match bridge.lend(client, HandleKind::Client) {
        Some(Resource::Client { client: object, .. }) => {
            let _ = bridge.restore(client, Resource::Client { client: object, mode });
            assert(bridge.issued() =~= with_mode(old(bridge).issued(), client, mode));
            Some(mode)
        },
        _ => None,
    }
}

/// A bootstrap is one-shot: once it has taken the client, the handle stands
/// for nothing, so a second bootstrap through the same handle is refused and
/// so is a change of dormancy mode.
pub proof fn law_bootstrap_consumes<C>(issued: Seq<Slot<C>>, client: Handle, mode: DormantMode)
    requires
        parks(issued, client, HandleKind::Client),
    ensures
        !parks(reclaimed(issued, client, HandleKind::Client), client, HandleKind::Client),
        reclaimed(reclaimed(issued, client, HandleKind::Client), client, HandleKind::Client)
            == reclaimed(issued, client, HandleKind::Client),
        with_mode(reclaimed(issued, client, HandleKind::Client), client, mode) == reclaimed(
            issued,
            client,
            HandleKind::Client,
        ),
{
}

/// A change of dormancy mode preserves: after any run of changes through a
/// handle that stood for a parked client, the same client is parked under
/// the same handle, the mode on record is the one asked for last, and every
/// other handle is as it was.
pub proof fn law_set_dormant_preserves<C>(
    issued: Seq<Slot<C>>,
    client: Handle,
    flags: Seq<bool>,
    other: Handle,
)
    requires
        parks(issued, client, HandleKind::Client),
    ensures
        parks(with_modes(issued, client, flags), client, HandleKind::Client),
        slot_of(with_modes(issued, client, flags), client) matches Slot::Parked(
            Resource::Client { client: after, mode },
        ) && slot_of(issued, client) matches Slot::Parked(
            Resource::Client { client: before, mode: first },
        ) && after == before && mode == if flags.len() == 0 {
            first
        } else {
            dormant_mode(flags.last())
        },
        other != client ==> slot_of(with_modes(issued, client, flags), other) == slot_of(
            issued,
            other,
        ),
        with_modes(issued, client, flags).len() == issued.len(),
    decreases flags.len(),
{
    if flags.len() > 0 {
        law_set_dormant_preserves(issued, client, flags.drop_last(), other);
    }
}

} // verus!
