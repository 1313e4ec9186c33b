//! Opaque handles: the address-sized values that cross the boundary.
//!
//! A caller never looks inside a handle. It receives one from a call, passes
//! it back to a later call, and must treat the null handle as "nothing".

use vstd::prelude::*;

verus! {

/// What a handle stands for. Every handle that the bridge hands out carries
/// exactly one of these tags, and every call checks the tag of the handle it
/// is given before it touches the object behind it.
#[derive(Clone, Copy, Debug, PartialEq, Eq, Structural)]
pub enum HandleKind {
    Client,
    ProxyTask,
    ProgressSend,
    ProgressReceive,
}

/// An opaque handle. The value zero is the null handle.
#[derive(Clone, Copy, Debug, PartialEq, Eq, Structural)]
pub struct Handle {
    pub raw: usize,
}

impl Handle {
    /// Whether this is the null handle.
    pub open spec fn is_null(&self) -> bool {
        self.raw == 0
    }

    /// The null handle: the sentinel for "no object".
    pub fn null() -> (handle: Handle)
        ensures
            handle.is_null(),
            handle.raw == 0,
    {
        Handle { raw: 0 }
    }

    /// The handle with the given address-sized value.
    pub fn from_raw(raw: usize) -> (handle: Handle)
        ensures
            handle.raw == raw,
    {
        Handle { raw }
    }

    /// The address-sized value of this handle.
    pub fn raw(&self) -> (raw: usize)
        ensures
            raw == self.raw,
    {
        self.raw
    }

    /// Tests for the null handle.
    #[verifier::when_used_as_spec(is_null)]
    pub fn is_null_handle(&self) -> (null: bool)
        ensures
            null == self.is_null(),
    {
        self.raw == 0
    }
}

/// The bundle that a start-up returns: the client, the proxy task, and the
/// two ends of the progress channel.
#[derive(Clone, Copy, Debug, PartialEq, Eq, Structural)]
pub struct Tor {
    pub client: Handle,
    pub proxy: Handle,
    pub progress_sender: Handle,
    pub progress_receiver: Handle,
}

impl Tor {
    /// A successful start-up: all four handles are populated.
    pub open spec fn is_complete(&self) -> bool {
        &&& !self.client.is_null()
        &&& !self.proxy.is_null()
        &&& !self.progress_sender.is_null()
        &&& !self.progress_receiver.is_null()
    }

    /// A failed start-up: no client and no proxy, but both progress ends are
    /// populated and remain the caller's to release.
    pub open spec fn is_failed(&self) -> bool {
        &&& self.client.is_null()
        &&& self.proxy.is_null()
        &&& !self.progress_sender.is_null()
        &&& !self.progress_receiver.is_null()
    }

    /// Whether the bundle carries a client and a proxy task.
    pub fn has_client(&self) -> (present: bool)
        ensures
            present == (!self.client.is_null() && !self.proxy.is_null()),
    {
        self.client.raw != 0 && self.proxy.raw != 0
    }
}

} // verus!
