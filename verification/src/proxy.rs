//! The proxy task: a cancellable unit of background work that serves the
//! local proxy for one client on one port.

use crate::bridge::{reclaimed, Bridge, Resource};
use crate::handle::{Handle, HandleKind};
use vstd::prelude::*;

verus! {

/// tokio's handle on a spawned task, carried as an opaque value.
#[verifier::external_type_specification]
#[verifier::external_body]
#[verifier::reject_recursive_types(T)]
pub struct ExJoinHandle<T>(tokio::task::JoinHandle<T>);

/// The error with which tokio reports a task that did not run to its end. A
/// task handle is a future of it, so it has to be known; nothing here makes
/// or reads one.
#[verifier::external_type_specification]
#[verifier::external_body]
pub struct ExJoinError(tokio::task::JoinError);

/// The error with which the proxy service ends, carried as an opaque value.
#[verifier::external_type_specification]
#[verifier::external_body]
pub struct ExServiceError(anyhow::Error);

/// tor-config's specification of where to listen, carried as an opaque
/// value.
#[verifier::external_type_specification]
#[verifier::external_body]
pub struct ExListen(tor_config::Listen);

/// The running proxy service, as the executor hands it out.
pub type ProxyTask = tokio::task::JoinHandle<Result<(), anyhow::Error>>;

/// The localhost ports that a listening specification names, in order.
pub uninterp spec fn listen_ports(listen: tor_config::Listen) -> Seq<u16>;

/// The ports that the proxy for `port` listens on: the port itself on
/// localhost, or nothing at all for port zero.
pub open spec fn proxy_ports(port: u16) -> Seq<u16> {
    if port == 0 {
        Seq::empty()
    } else {
        seq![port]
    }
}

/// The text that the proxy task publishes before it starts serving.
pub open spec fn proxy_started() -> Seq<char> {
    "Proxy started"@
}

/// Calls `tor_config::Listen::new_localhost`. The claim, as its source has
/// it: the specification names the given port on localhost and nothing else,
/// and port zero gives the specification that listens nowhere.
#[verifier::external_body]
pub(crate) fn localhost_listen(port: u16) -> (listen: tor_config::Listen)
    ensures
        listen_ports(listen) == proxy_ports(port),
{
    tor_config::Listen::new_localhost(port)
}

/// Calls `tokio::task::JoinHandle::abort`, which flags the task for
/// cancellation and returns at once. Nothing is claimed of the task's state
/// afterwards: cancellation completes on the executor, in its own time.
#[verifier::external_body]
pub(crate) fn abort_task(task: &ProxyTask)
{
    task.abort()
}

/// Stops the proxy behind `proxy` and consumes its handle: the task is asked
/// to cancel, which does not wait for the service to wind down, and the
/// handle is dead from here on. Returns whether there was a task to stop; a
/// handle that does not stand for a parked proxy task changes nothing.
pub fn arti_proxy_stop<R, C>(bridge: &mut Bridge<R, C>, proxy: Handle) -> (stopped: bool)
    ensures
        final(bridge).shared_runtime() == old(bridge).shared_runtime(),
        final(bridge).issued() == reclaimed(old(bridge).issued(), proxy, HandleKind::ProxyTask),
        stopped == old(bridge).holds(proxy, HandleKind::ProxyTask),
{
    match bridge.reclaim(proxy, HandleKind::ProxyTask) {
        Some(Resource::ProxyTask(task)) => {
            abort_task(&task);
            true
        },
        _ => false,
    }
}

} // verus!
