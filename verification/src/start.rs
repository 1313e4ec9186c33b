//! Start-up: the sequence that takes a port and two directory paths to a
//! bootstrapped client with a running proxy.
//!
//! The work that needs an executor or a network is not done here. A start-up
//! is a [`StartSequence`] that says, step by step, what is to be done next
//! ([`StartAction`]) and is told how it went ([`StartEvent`]). The sequence
//! decides the order of the steps, what each step is given, which handles are
//! issued when, and what a failure at any step leaves behind.

use crate::bridge::{
    installed, issued_with, next_handle, reclaimed, Bridge, Resource, Slot,
};
use crate::client::DormantMode;
use crate::error::{
    diagnostic_lines, update_last_error, ErrorRecord, ErrorSlot, LogLine, Severity,
};
use crate::handle::{Handle, HandleKind, Tor};
use crate::progress::{
    channel_bound, clone_sender, open_progress_channel, ProgressSender, PROGRESS_CAPACITY,
};
use crate::proxy::{listen_ports, localhost_listen, proxy_ports, proxy_started, ProxyTask};
use crate::text::{decode_failure, decode_path};
use vstd::prelude::*;
use vstd::utf8::{decode_utf8, valid_utf8};

verus! {

/// The text published on the progress channel once the client is
/// bootstrapped.
pub open spec fn bootstrap_notice() -> Seq<char> {
    "Bootstrap complete"@
}

/// Where a start-up stands: which report it is waiting for.
#[derive(Clone, Copy, Debug, PartialEq, Eq, Structural)]
pub enum StartStage {
    /// Waiting for the shared runtime to be created.
    AwaitRuntime,
    /// Waiting for the client to be configured, created and bootstrapped.
    AwaitClient,
    /// Waiting for the bootstrap notice to be published.
    AwaitNotice,
    /// Waiting for the proxy task to be spawned.
    AwaitProxy,
    /// The bundle has been returned; nothing more is expected.
    Finished,
}

impl StartStage {
    /// How far along a stage is. A start-up never goes back.
    pub open spec fn rank(&self) -> nat {
        match self {
            StartStage::AwaitRuntime => 0,
            StartStage::AwaitClient => 1,
            StartStage::AwaitNotice => 2,
            StartStage::AwaitProxy => 3,
            StartStage::Finished => 4,
        }
    }
}

/// What the surroundings report back to a start-up.
pub enum StartEvent<R, C> {
    /// The runtime was created.
    RuntimeCreated(R),
    /// The client was created from the configuration and has bootstrapped.
    ClientBootstrapped(C),
    /// The notice was published on the progress channel.
    NoticePublished,
    /// The proxy was submitted to the runtime.
    ProxySpawned(ProxyTask),
    /// The step that was asked for failed.
    Failed(ErrorRecord),
}

/// What a start-up asks its surroundings to do next.
pub enum StartAction<R, C> {
    /// Create the shared runtime and report `RuntimeCreated`.
    CreateRuntime,
    /// Build a configuration with these directories and this address policy,
    /// create a client from it on the shared runtime, drive its bootstrap
    /// to completion, and report `ClientBootstrapped`.
    CreateClient { state_dir: String, cache_dir: String, allow_onion_addrs: bool },
    /// Publish `text` on `sender` and report `NoticePublished`.
    PublishNotice { sender: ProgressSender, text: String },
    /// Submit to the shared runtime a task that publishes `notice` on
    /// `sender` and then serves the proxy on `listen`; report `ProxySpawned`.
    SpawnProxy { listen: tor_config::Listen, sender: ProgressSender, notice: String },
    /// Hand `tor` to the caller, after emitting `log` to the diagnostic log.
    Return { tor: Tor, log: Vec<LogLine> },
    /// The event was not what the sequence is waiting for. It comes back
    /// untouched and nothing has changed.
    Refused(StartEvent<R, C>),
}

/// A start-up in progress.
pub struct StartSequence {
    stage: StartStage,
    socks_port: u16,
    state_dir: String,
    cache_dir: String,
    tor: Tor,
    sender: ProgressSender,
}

/// One step of a start-up: the sequence as it stands now, and what it asks
/// for.
pub struct StartStep<R, C> {
    pub sequence: StartSequence,
    pub action: StartAction<R, C>,
}

/// The bundle of a start-up that failed after issuing `tor`: the client and
/// proxy handles are null, the progress ends are kept.
pub open spec fn failed_bundle(tor: Tor) -> Tor {
    Tor {
        client: Handle { raw: 0 },
        proxy: Handle { raw: 0 },
        progress_sender: tor.progress_sender,
        progress_receiver: tor.progress_receiver,
    }
}

/// What a returned bundle promises, given the error slot at that moment:
/// either all four handles, or null client and proxy handles with both
/// progress ends and a failure to read.
pub open spec fn bundle_is_sound(tor: Tor, slot: ErrorSlot) -> bool {
    tor.is_complete() || (tor.is_failed() && slot@ is Some)
}

/// A step that refuses `event`: the event comes back untouched, and the
/// sequence, the bridge and the error slot are as they were.
pub open spec fn refuses<R, C>(
    step: StartStep<R, C>,
    before: StartSequence,
    event: StartEvent<R, C>,
    bridge_before: Bridge<R, C>,
    bridge_after: Bridge<R, C>,
    slot_before: ErrorSlot,
    slot_after: ErrorSlot,
) -> bool {
    &&& step.sequence == before
    &&& step.action == StartAction::Refused(event)
    &&& bridge_after.issued() == bridge_before.issued()
    &&& bridge_after.shared_runtime() == bridge_before.shared_runtime()
    &&& slot_after@ == slot_before@
}

/// A step that ends a start-up in failure: `record` is in the error slot,
/// and the bundle that goes back to the caller is `tor` without its client
/// and proxy, together with the lines to log.
pub open spec fn fails_with<R, C>(
    step: StartStep<R, C>,
    tor: Tor,
    record: crate::error::ErrorRecordView,
    slot_after: ErrorSlot,
) -> bool {
    &&& step.sequence.stage() == StartStage::Finished
    &&& step.sequence.tor() == failed_bundle(tor)
    &&& slot_after@ == Some(record)
    &&& step.action matches StartAction::Return { tor: returned, log }
    &&& returned == failed_bundle(tor)
    &&& log.deep_view() == diagnostic_lines(record)
}

/// A step that asks for the client to be created from the request of
/// `sequence`, with onion addresses allowed.
pub open spec fn asks_for_client<R, C>(step: StartStep<R, C>) -> bool {
    &&& step.sequence.stage() == StartStage::AwaitClient
    &&& step.action matches StartAction::CreateClient { state_dir, cache_dir, allow_onion_addrs }
    &&& state_dir@ == step.sequence.state_dir()
    &&& cache_dir@ == step.sequence.cache_dir()
    &&& allow_onion_addrs
}

impl StartSequence {
    #[verifier::type_invariant]
    spec fn coherent(&self) -> bool {
        &&& channel_bound(self.sender) == PROGRESS_CAPACITY
        &&& !self.tor.progress_sender.is_null()
        &&& !self.tor.progress_receiver.is_null()
        &&& self.tor.proxy.is_null() || self.stage == StartStage::Finished
        &&& match self.stage {
            StartStage::AwaitRuntime | StartStage::AwaitClient => self.tor.client.is_null(),
            StartStage::AwaitNotice | StartStage::AwaitProxy => !self.tor.client.is_null(),
            StartStage::Finished => self.tor.is_complete() || self.tor.is_failed(),
        }
    }

    /// Where the start-up stands.
    pub closed spec fn stage(&self) -> StartStage {
        self.stage
    }

    /// The port that the proxy is to listen on.
    pub closed spec fn socks_port(&self) -> u16 {
        self.socks_port
    }

    /// The decoded state directory.
    pub closed spec fn state_dir(&self) -> Seq<char> {
        self.state_dir@
    }

    /// The decoded cache directory.
    pub closed spec fn cache_dir(&self) -> Seq<char> {
        self.cache_dir@
    }

    /// The handles issued so far.
    pub closed spec fn tor(&self) -> Tor {
        self.tor
    }

    /// Whether `other` is this sequence at another stage and with another
    /// bundle: the request itself never changes.
    pub open spec fn same_request(&self, other: &StartSequence) -> bool {
        &&& other.socks_port() == self.socks_port()
        &&& other.state_dir() == self.state_dir()
        &&& other.cache_dir() == self.cache_dir()
    }

    /// Computes [`StartSequence::stage`].
    pub fn current_stage(&self) -> (stage: StartStage)
        ensures
            stage == self.stage(),
    {
        self.stage
    }

    /// Computes [`StartSequence::tor`].
    pub fn bundle(&self) -> (tor: Tor)
        ensures
            tor == self.tor(),
    {
        self.tor
    }

    /// Whether the start-up has returned its bundle.
    pub fn is_finished(&self) -> (finished: bool)
        ensures
            finished == (self.stage() == StartStage::Finished),
    {
        self.stage == StartStage::Finished
    }

    /// Takes a start-up one step further: `event` reports how the action that
    /// the sequence last asked for went, and the step returned says what is to
    /// be done next.
    ///
    /// - `RuntimeCreated`, while waiting for the runtime: the runtime becomes the
    ///   shared one, unless the bridge has one by now, and the client is asked
    ///   for.
    /// - `ClientBootstrapped`, while waiting for the client: the client is parked
    ///   in the bridge, in normal mode, under a fresh handle, and the bootstrap
    ///   notice is to be published.
    /// - `NoticePublished`, while waiting for the notice: the proxy is to be
    ///   spawned on localhost at the requested port, announcing itself with
    ///   `"Proxy started"`.
    /// - `ProxySpawned`, while waiting for the proxy: the task is parked under a
    ///   fresh handle and the complete bundle goes back to the caller.
    /// - `Failed`, at any stage but the last: the failure is recorded, a client
    ///   that was parked for this start-up is taken out of the bridge again, and
    ///   the bundle goes back with null client and proxy handles.
    /// - Any other event is refused.
    pub fn advance<R, C>(
        self,
        bridge: &mut Bridge<R, C>,
        slot: &mut ErrorSlot,
        event: StartEvent<R, C>,
    ) -> (step: StartStep<R, C>)
        ensures
            self.same_request(&step.sequence),
            step.sequence.stage().rank() >= self.stage().rank(),
            step.sequence.tor().progress_sender == self.tor().progress_sender,
            step.sequence.tor().progress_receiver == self.tor().progress_receiver,
            step.action is Return ==> step.sequence.stage() == StartStage::Finished,
            step.action matches StartAction::Return { tor, .. } ==> bundle_is_sound(
                tor,
                *final(slot),
            ),
            match event {
                StartEvent::RuntimeCreated(runtime) => if self.stage()
                    == StartStage::AwaitRuntime {
                    &&& asks_for_client(step)
                    &&& step.sequence.tor() == self.tor()
                    &&& final(bridge).issued() == old(bridge).issued()
                    &&& final(bridge).shared_runtime() == installed(
                        old(bridge).shared_runtime(),
                        runtime,
                    )
                    &&& final(slot)@ == old(slot)@
                } else {
                    refuses(step, self, event, *old(bridge), *final(bridge), *old(slot), *final(slot))
                },
                StartEvent::ClientBootstrapped(client) => if self.stage()
                    == StartStage::AwaitClient {
                    &&& step.sequence.stage() == StartStage::AwaitNotice
                    &&& step.sequence.tor() == Tor {
                        client: next_handle(old(bridge).issued().len(), 0),
                        ..self.tor()
                    }
                    &&& final(bridge).issued() == issued_with(
                        old(bridge).issued(),
                        Resource::Client { client, mode: DormantMode::Normal },
                    )
                    &&& final(bridge).shared_runtime() == old(bridge).shared_runtime()
                    &&& final(slot)@ == old(slot)@
                    &&& step.action matches StartAction::PublishNotice { sender, text }
                    &&& channel_bound(sender) == PROGRESS_CAPACITY
                    &&& text@ == bootstrap_notice()
                } else {
                    refuses(step, self, event, *old(bridge), *final(bridge), *old(slot), *final(slot))
                },
                StartEvent::NoticePublished => if self.stage() == StartStage::AwaitNotice {
                    &&& step.sequence.stage() == StartStage::AwaitProxy
                    &&& step.sequence.tor() == self.tor()
                    &&& final(bridge).issued() == old(bridge).issued()
                    &&& final(bridge).shared_runtime() == old(bridge).shared_runtime()
                    &&& final(slot)@ == old(slot)@
                    &&& step.action matches StartAction::SpawnProxy { listen, sender, notice }
                    &&& listen_ports(listen) == proxy_ports(self.socks_port())
                    &&& channel_bound(sender) == PROGRESS_CAPACITY
                    &&& notice@ == proxy_started()
                } else {
                    refuses(step, self, event, *old(bridge), *final(bridge), *old(slot), *final(slot))
                },
                StartEvent::ProxySpawned(task) => if self.stage() == StartStage::AwaitProxy {
                    &&& step.sequence.stage() == StartStage::Finished
                    &&& step.sequence.tor() == Tor {
                        proxy: next_handle(old(bridge).issued().len(), 0),
                        ..self.tor()
                    }
                    &&& step.sequence.tor().is_complete()
                    &&& final(bridge).issued() == issued_with(
                        old(bridge).issued(),
                        Resource::ProxyTask(task),
                    )
                    &&& final(bridge).shared_runtime() == old(bridge).shared_runtime()
                    &&& final(slot)@ == old(slot)@
                    &&& step.action matches StartAction::Return { tor, log }
                    &&& tor == step.sequence.tor()
                    &&& log.deep_view() == Seq::<(Severity, Seq<char>)>::empty()
                } else {
                    refuses(step, self, event, *old(bridge), *final(bridge), *old(slot), *final(slot))
                },
                StartEvent::Failed(record) => if self.stage() != StartStage::Finished {
                    &&& fails_with(step, self.tor(), record@, *final(slot))
                    &&& final(bridge).issued() == reclaimed(
                        old(bridge).issued(),
                        self.tor().client,
                        HandleKind::Client,
                    )
                    &&& final(bridge).shared_runtime() == old(bridge).shared_runtime()
                } else {
                    refuses(step, self, event, *old(bridge), *final(bridge), *old(slot), *final(slot))
                },
            },
    {
        proof {
            use_type_invariant(&self);
        }
        let stage = self.stage;
        match event {
            StartEvent::RuntimeCreated(runtime) => {
                if stage == StartStage::AwaitRuntime {
                    let _ = bridge.install_runtime(runtime);
                    let StartSequence { socks_port, state_dir, cache_dir, tor, sender, .. } = self;
                    ask_for_client(socks_port, state_dir, cache_dir, tor, sender)
                } else {
                    StartStep { sequence: self, action: StartAction::Refused(StartEvent::RuntimeCreated(runtime)) }
                }
            },
            StartEvent::ClientBootstrapped(client) => {
                if stage == StartStage::AwaitClient {
                    let StartSequence { socks_port, state_dir, cache_dir, tor, sender, .. } = self;
                    let handle = bridge.issue(Resource::Client { client, mode: DormantMode::Normal });
                    let action = StartAction::PublishNotice {
                        sender: clone_sender(&sender),
                        text: "Bootstrap complete".to_owned(),
                    };
                    StartStep {
                        sequence: StartSequence {
                            stage: StartStage::AwaitNotice,
                            socks_port,
                            state_dir,
                            cache_dir,
                            tor: Tor { client: handle, ..tor },
                            sender,
                        },
                        action,
                    }
                } else {
                    StartStep {
                        sequence: self,
                        action: StartAction::Refused(StartEvent::ClientBootstrapped(client)),
                    }
                }
            },
            StartEvent::NoticePublished => {
                if stage == StartStage::AwaitNotice {
                    let StartSequence { socks_port, state_dir, cache_dir, tor, sender, .. } = self;
                    let action = StartAction::SpawnProxy {
                        listen: localhost_listen(socks_port),
                        sender: clone_sender(&sender),
                        notice: "Proxy started".to_owned(),
                    };
                    StartStep {
                        sequence: StartSequence {
                            stage: StartStage::AwaitProxy,
                            socks_port,
                            state_dir,
                            cache_dir,
                            tor,
                            sender,
                        },
                        action,
                    }
                } else {
                    StartStep { sequence: self, action: StartAction::Refused(StartEvent::NoticePublished) }
                }
            },
            StartEvent::ProxySpawned(task) => {
                if stage == StartStage::AwaitProxy {
                    let StartSequence { socks_port, state_dir, cache_dir, tor, sender, .. } = self;
                    let handle = bridge.issue(Resource::ProxyTask(task));
                    let complete = Tor { proxy: handle, ..tor };
                    let log: Vec<LogLine> = Vec::new();
                    assert(log.deep_view() =~= Seq::<(Severity, Seq<char>)>::empty());
                    StartStep {
                        sequence: StartSequence {
                            stage: StartStage::Finished,
                            socks_port,
                            state_dir,
                            cache_dir,
                            tor: complete,
                            sender,
                        },
                        action: StartAction::Return { tor: complete, log },
                    }
                } else {
                    StartStep { sequence: self, action: StartAction::Refused(StartEvent::ProxySpawned(task)) }
                }
            },
            StartEvent::Failed(record) => {
                if stage != StartStage::Finished {
                    let StartSequence { socks_port, state_dir, cache_dir, tor, sender, .. } = self;
                    let _ = bridge.reclaim(tor.client, HandleKind::Client);
                    fail_start(slot, socks_port, state_dir, cache_dir, tor, sender, record)
                } else {
                    StartStep { sequence: self, action: StartAction::Refused(StartEvent::Failed(record)) }
                }
            },
        }
    }
}

/// Begins a start-up. Both ends of a fresh progress channel are parked in
/// the bridge and their handles issued before anything can fail, so that the
/// caller holds them whatever happens next. Then the two paths are decoded,
/// the state directory first. A path that is not valid UTF-8 ends the
/// start-up at once: the failure is recorded and the bundle goes back with
/// null client and proxy handles. Otherwise the sequence asks for the shared
/// runtime, if the bridge has none yet, or else for the client.
pub fn arti_start<R, C>(
    bridge: &mut Bridge<R, C>,
    slot: &mut ErrorSlot,
    socks_port: u16,
    state_dir: &[u8],
    cache_dir: &[u8],
) -> (step: StartStep<R, C>)
    ensures
        final(bridge).shared_runtime() == old(bridge).shared_runtime(),
        final(bridge).issued().len() == old(bridge).issued().len() + 2,
        final(bridge).issued().subrange(0, old(bridge).issued().len() as int) == old(
            bridge,
        ).issued(),
        final(bridge).state(step.sequence.tor().progress_sender) matches Slot::Parked(
            Resource::ProgressSend(sender),
        ) && channel_bound(sender) == PROGRESS_CAPACITY,
        final(bridge).holds(step.sequence.tor().progress_receiver, HandleKind::ProgressReceive),
        step.sequence.tor().progress_sender == next_handle(old(bridge).issued().len(), 0),
        step.sequence.tor().progress_receiver == next_handle(old(bridge).issued().len(), 1),
        step.sequence.tor().client.is_null(),
        step.sequence.tor().proxy.is_null(),
        step.sequence.socks_port() == socks_port,
        step.action matches StartAction::Return { tor, .. } ==> bundle_is_sound(
            tor,
            *final(slot),
        ),
        if !valid_utf8(state_dir@) {
            fails_with(step, step.sequence.tor(), decode_failure(state_dir@), *final(slot))
        } else if !valid_utf8(cache_dir@) {
            fails_with(step, step.sequence.tor(), decode_failure(cache_dir@), *final(slot))
        } else {
            &&& final(slot)@ == old(slot)@
            &&& step.sequence.state_dir() == decode_utf8(state_dir@)
            &&& step.sequence.cache_dir() == decode_utf8(cache_dir@)
            &&& if old(bridge).shared_runtime() is None {
                &&& step.sequence.stage() == StartStage::AwaitRuntime
                &&& step.action is CreateRuntime
            } else {
                asks_for_client(step)
            }
        },
{
    let (sender, receiver) = open_progress_channel();
    let kept = clone_sender(&sender);
    let progress_sender = bridge.issue(Resource::ProgressSend(sender));
    let progress_receiver = bridge.issue(Resource::ProgressReceive(receiver));
    let tor = Tor { client: Handle::null(), proxy: Handle::null(), progress_sender, progress_receiver };
    assert(bridge.issued().subrange(0, old(bridge).issued().len() as int) =~= old(
        bridge,
    ).issued());
    match decode_path(state_dir) {
        Err(record) => fail_start(slot, socks_port, String::new(), String::new(), tor, kept, record),
        Ok(state_dir) => match decode_path(cache_dir) {
            Err(record) => fail_start(slot, socks_port, state_dir, String::new(), tor, kept, record),
            Ok(cache_dir) => {
                if bridge.runtime().is_some() {
                    ask_for_client(socks_port, state_dir, cache_dir, tor, kept)
                } else {
                    StartStep {
                        sequence: StartSequence {
                            stage: StartStage::AwaitRuntime,
                            socks_port,
                            state_dir,
                            cache_dir,
                            tor,
                            sender: kept,
                        },
                        action: StartAction::CreateRuntime,
                    }
                }
            },
        },
    }
}

/// Ends a start-up in failure: records `record` and returns `tor` without
/// its client and proxy.
fn fail_start<R, C>(
    slot: &mut ErrorSlot,
    socks_port: u16,
    state_dir: String,
    cache_dir: String,
    tor: Tor,
    sender: ProgressSender,
    record: ErrorRecord,
) -> (step: StartStep<R, C>)
    requires
        channel_bound(sender) == PROGRESS_CAPACITY,
        !tor.progress_sender.is_null(),
        !tor.progress_receiver.is_null(),
    ensures
        fails_with(step, tor, record@, *final(slot)),
        step.sequence.socks_port() == socks_port,
        step.sequence.state_dir() == state_dir@,
        step.sequence.cache_dir() == cache_dir@,
{
    let log = update_last_error(slot, record);
    let returned = Tor {
        client: Handle::null(),
        proxy: Handle::null(),
        progress_sender: tor.progress_sender,
        progress_receiver: tor.progress_receiver,
    };
    StartStep {
        sequence: StartSequence {
            stage: StartStage::Finished,
            socks_port,
            state_dir,
            cache_dir,
            tor: returned,
            sender,
        },
        action: StartAction::Return { tor: returned, log },
    }
}

/// Moves a start-up to the stage that waits for the client.
fn ask_for_client<R, C>(
    socks_port: u16,
    state_dir: String,
    cache_dir: String,
    tor: Tor,
    sender: ProgressSender,
) -> (step: StartStep<R, C>)
    requires
        channel_bound(sender) == PROGRESS_CAPACITY,
        !tor.progress_sender.is_null(),
        !tor.progress_receiver.is_null(),
        tor.client.is_null(),
        tor.proxy.is_null(),
    ensures
        asks_for_client(step),
        step.sequence.tor() == tor,
        step.sequence.socks_port() == socks_port,
        step.sequence.state_dir() == state_dir@,
        step.sequence.cache_dir() == cache_dir@,
{
    let action = StartAction::CreateClient {
        state_dir: state_dir.clone(),
        cache_dir: cache_dir.clone(),
        allow_onion_addrs: true,
    };
    StartStep {
        sequence: StartSequence {
            stage: StartStage::AwaitClient,
            socks_port,
            state_dir,
            cache_dir,
            tor,
            sender,
        },
        action,
    }
}

} // verus!
