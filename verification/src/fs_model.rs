//! The abstract state of a virtio-fs device and the requests that each operation makes.
use crate::dirty_log::{DirtyLog, MemoryRange};
use crate::exchange::{Exchange, Plan, Reply, Request};
use crate::guest_memory::{GuestMemoryMmap, GuestRegion};
use crate::vhost_user::{
    Queue, QueueSetup, VhostTransferStateDirection, VhostTransferStatePhase, VhostUserError,
};
use crate::virtio_fs::{Stage, VirtioFsError};
use std::path::PathBuf;
use std::sync::Arc;
use vmm_sys_util::eventfd::EventFd;
use vstd::prelude::*;
use vstd::utf8::*;

verus! {

/// Everything that determines what a virtio-fs device does next.
#[verifier::ext_equal]
pub struct FsView<S, F> {
    /// Identifier of the device.
    pub id: Seq<char>,
    /// Path of the backend's socket.
    pub socket_path: Seq<char>,
    /// Path of the socket, as the session with the backend has it.
    pub handle_path: Seq<char>,
    /// The tag as the guest sees it, filled up with zeros.
    pub tag: Seq<u8>,
    /// The conversation with the backend so far.
    pub trace: Seq<Exchange<S, F>>,
    /// The guest has activated the device.
    pub activated: bool,
    /// The notifiers of the interrupts with which the device was activated, one for each queue.
    pub calls: Seq<EventFd>,
    /// The virtqueues.
    pub queues: Seq<Queue>,
    /// The notifiers by which the guest announces buffers, one for each queue.
    pub queue_evts: Seq<EventFd>,
    /// Features offered to the guest.
    pub avail_features: u64,
    /// Features accepted by the guest.
    pub acked_features: u64,
    /// Features negotiated with the backend.
    pub backend_features: u64,
    /// Protocol features negotiated with the backend.
    pub protocol_features: u64,
    /// File with the backend state that activation has to load.
    pub restore_state_path: Option<PathBuf>,
    /// The backend is stopped and its state saved.
    pub snapshot_prepared: bool,
    /// Shared memory in which the backend logs its writes.
    pub dirty_log: Option<DirtyLog>,
    /// The backend has accepted the log.
    pub dirty_logging_armed: bool,
    /// The device was activated again while it was stopped for a snapshot.
    pub reactivated: bool,
    /// What the backend has written since the log was last cleared.
    pub snapshot_dirty_ranges: Seq<MemoryRange>,
    /// The operation that waits for the program around the library.
    pub stage: Stage,
}

/// A text as a tag: its bytes, filled up with zeros.
pub open spec fn padded(text: Seq<char>) -> Seq<u8> {
    let bytes = encode_utf8(text);
    bytes + Seq::new((crate::fs_config::FS_TAG_MAX_LEN - bytes.len()) as nat, |i: int| 0u8)
}

/// A tag determines its text.
pub proof fn law_tag_determines_text(a: Seq<char>, b: Seq<char>)
    requires
        crate::fs_config::tag_valid(a),
        crate::fs_config::tag_valid(b),
        padded(a) == padded(b),
    ensures
        a == b,
{
    crate::fs_config::lemma_nul_byte(a);
    crate::fs_config::lemma_nul_byte(b);
    let x = encode_utf8(a);
    let y = encode_utf8(b);
    if x.len() < y.len() {
        assert(padded(a)[x.len() as int] == 0u8);
        assert(padded(b)[x.len() as int] == y[x.len() as int]);
        assert(y.contains(0u8));
    }
    if y.len() < x.len() {
        assert(padded(b)[y.len() as int] == 0u8);
        assert(padded(a)[y.len() as int] == x[y.len() as int]);
        assert(x.contains(0u8));
    }
    assert forall|i: int| 0 <= i < x.len() implies x[i] == y[i] by {
        assert(padded(a)[i] == x[i]);
        assert(padded(b)[i] == y[i]);
    }
    assert(x =~= y);
    encode_utf8_decode_utf8(a);
    encode_utf8_decode_utf8(b);
}

/// The features that a device can offer the guest, given what was negotiated with the backend, or
/// the reason why the backend cannot serve it. `acked` are features that the guest already uses.
pub open spec fn checked_features(backend: u64, protocol: u64, acked: u64) -> Result<
    u64,
    VirtioFsError,
> {
    let missing = crate::virtio_fs::REQUIRED_PROTOCOL_FEATURES & !protocol;
    let avail = backend & crate::virtio_fs::AVAILABLE_FEATURES
        & !crate::vhost_flags::VHOST_USER_F_PROTOCOL_FEATURES;
    if backend & crate::virtio_fs::VERSION_1_BIT == 0 {
        Err(VirtioFsError::MissingVirtioFeature("VIRTIO_F_VERSION_1"))
    } else if backend & crate::vhost_flags::VHOST_USER_F_PROTOCOL_FEATURES == 0 {
        Err(VirtioFsError::MissingVirtioFeature("VHOST_USER_F_PROTOCOL_FEATURES"))
    } else if missing != 0 {
        Err(VirtioFsError::MissingProtocolFeatures(missing))
    } else if backend & crate::vhost_flags::VHOST_F_LOG_ALL == 0 {
        Err(VirtioFsError::MissingLogAll)
    } else if acked & !avail != 0 {
        Err(VirtioFsError::IncompatibleBackendFeatures)
    } else {
        Ok(avail)
    }
}

/// A request that sets the header flags, which has no answer.
pub open spec fn header_exchange<S, F>(flags: u32) -> Exchange<S, F> {
    Exchange { request: Request::SetHdrFlags { flags }, reply: Reply::Silent }
}

impl<S, F> FsView<S, F> {
    /// What holds of every device between two operations.
    pub open spec fn wf(self) -> bool {
        &&& self.queues.len() == crate::virtio_fs::FS_NUM_QUEUES
        &&& self.queue_evts.len() == crate::virtio_fs::FS_NUM_QUEUES
        // The tag is a text that the configuration admits.
        &&& exists|text: Seq<char>| #[trigger]
            crate::fs_config::tag_valid(text) && self.tag == padded(text)
        // The backend has what the device needs.
        &&& checked_features(self.backend_features, self.protocol_features, 0) == Ok::<
            u64,
            VirtioFsError,
        >(self.avail_features)
        // An armed log exists.
        &&& self.dirty_logging_armed ==> self.dirty_log is Some
        &&& self.dirty_log matches Some(log) ==> log.wf()
        // Only an active device with an armed log is ever stopped for a snapshot.
        &&& self.snapshot_prepared ==> self.activated && self.dirty_logging_armed && (
        self.stage is Idle || self.stage.in_finish())
        &&& self.stage.in_finish() ==> self.snapshot_prepared
        &&& self.stage.in_snapshot() ==> self.activated && self.dirty_logging_armed
            && !self.snapshot_prepared
        // State is loaded once, before the device is active.
        &&& self.activated ==> self.restore_state_path is None
        &&& self.stage is Loading ==> !self.activated && self.restore_state_path is None
        // The session is that of the configured socket.
        &&& self.handle_path == self.socket_path
        // A device that may be restarted keeps the notifiers for it.
        &&& self.activated || self.stage is Loading ==> self.calls.len()
            == crate::virtio_fs::FS_NUM_QUEUES
        // All vrings are stopped from when a snapshot waits for its file until it is finished,
        // unless the guest activates the device once more in between.
        &&& (self.snapshot_prepared || self.stage.in_snapshot()) && !self.reactivated
            ==> self.vrings_stopped()
        &&& self.reactivated ==> self.snapshot_prepared
        // The device has a socket.
        &&& self.socket_path.len() > 0
        // At rest, requests do not ask for replies.
        &&& self.stage is Idle && !self.snapshot_prepared ==> crate::exchange::header_flags(
            self.trace,
        ) == 0
    }

    /// All vrings of the backend are stopped.
    pub open spec fn vrings_stopped(self) -> bool {
        &&& crate::exchange::vring_stopped(self.trace, 0)
        &&& crate::exchange::vring_stopped(self.trace, 1)
    }

    /// The two states are of the same device: what was configured and negotiated at its creation is
    /// as it was.
    pub open spec fn same_device(self, other: Self) -> bool {
        &&& self.id == other.id
        &&& self.socket_path == other.socket_path
        &&& self.handle_path == other.handle_path
        &&& self.tag == other.tag
        &&& self.queue_evts == other.queue_evts
        &&& self.avail_features == other.avail_features
        &&& self.backend_features == other.backend_features
        &&& self.protocol_features == other.protocol_features
    }

    /// The features of the session without the dirty log: those of the guest, and the protocol
    /// features.
    pub open spec fn session_features(self) -> u64 {
        self.acked_features | (self.backend_features
            & crate::vhost_flags::VHOST_USER_F_PROTOCOL_FEATURES)
    }

    /// The features that the backend is told: those of the session, and always the dirty log.
    pub open spec fn announced_features(self) -> u64 {
        self.session_features() | crate::vhost_flags::VHOST_F_LOG_ALL
    }

    /// The requests that attach a dirty log: the memory table comes first, since a backend
    /// attaches the log to the regions that it knows.
    pub open spec fn arming_plan(self, regions: Seq<GuestRegion>, log: DirtyLog) -> Plan<S, F> {
        let features = self.announced_features();
        Plan::single(Request::SetFeatures { features }).and(
            crate::vhost_user::protocol_features_plan(features, self.protocol_features),
        ).and(crate::vhost_user::mem_table_plan(regions)).and(
            Plan::single(Request::SetLogBase { log_base: 0, region: Some(log.shared_region()) }),
        )
    }

    /// The attempts that restart a stopped backend: the features are announced again, and each
    /// vring is restarted from the index that its queue holds.
    pub open spec fn resume_plans(self) -> Seq<Plan<S, F>> {
        seq![
            Plan::single(Request::SetFeatures { features: self.announced_features() }),
            self.restart_plan(0),
            self.restart_plan(1),
        ]
    }

    /// The requests that restart one vring, with the notifiers of the activation.
    pub open spec fn restart_plan(self, index: usize) -> Plan<S, F> {
        crate::vhost_user::restart_plan(
            index,
            self.queues[index as int].next_avail,
            self.calls[index as int],
            self.queue_evts[index as int],
        )
    }

    /// From this state the backend was restarted, with the given outcome, and requests went back
    /// to not asking for replies.
    pub open spec fn resumes(
        self,
        after: Seq<Exchange<S, F>>,
        outcome: Result<(), VhostUserError>,
    ) -> bool {
        &&& after.len() > 0
        &&& after.last() == header_exchange::<S, F>(0)
        &&& crate::exchange::attempts(self.trace, after.drop_last(), self.resume_plans(), outcome)
    }

    /// The snapshot that was prepared in this state is over: the backend was restarted, with the
    /// given outcome, and nothing is left of the snapshot.
    pub open spec fn ends_snapshot(self, after: Self, outcome: Result<(), VirtioFsError>) -> bool {
        &&& after == (FsView {
            trace: after.trace,
            snapshot_prepared: false,
            reactivated: false,
            snapshot_dirty_ranges: Seq::empty(),
            stage: Stage::Idle,
            ..self
        })
        &&& match outcome {
            Ok(_) => self.resumes(after.trace, Ok(())),
            Err(VirtioFsError::VhostUser(e)) => self.resumes(after.trace, Err(e)),
            Err(_) => false,
        }
    }

    /// A snapshot was given up in this state: the backend was restarted as well as it goes, and
    /// nothing else has changed.
    pub open spec fn gives_up(self, after: Self) -> bool {
        &&& after == (FsView { trace: after.trace, stage: Stage::Idle, ..self })
        &&& exists|outcome: Result<(), VhostUserError>| #[trigger]
            self.resumes(after.trace, outcome)
    }

    /// From this state all vrings were stopped, or those up to the first that failed. Each queue
    /// has taken over the index that the backend gave for its vring.
    pub open spec fn drains(self, after: Self, outcome: Result<(), VirtioFsError>) -> bool {
        let sent = after.trace.skip(self.trace.len() as int);
        let n = crate::virtio_fs::FS_NUM_QUEUES as nat;
        &&& after == (FsView {
            trace: after.trace,
            queues: stopped_queues(self.queues, sent),
            ..self
        })
        &&& match outcome {
            Ok(_) => {
                &&& crate::exchange::carries_out(self.trace, after.trace, stop_all_plan(n), Ok(()))
                &&& bases_fit(sent, n as int)
            },
            Err(VirtioFsError::VhostUser(e)) => {
                &&& crate::exchange::carries_out(self.trace, after.trace, stop_all_plan(n), Err(e))
                &&& bases_fit(sent, (sent.len() - 1) / 2)
            },
            Err(VirtioFsError::InvalidVringBase(base)) => {
                let k = sent.len() / 2;
                &&& 1 <= k <= n
                &&& crate::exchange::carries_out(self.trace, after.trace, stop_all_plan(k), Ok(()))
                &&& bases_fit(sent, k - 1)
                &&& base_answer(sent, k - 1) == Some(base)
                &&& base > u16::MAX
            },
            _ => false,
        }
    }

    /// The queues with their notifiers, as the backend is told about them.
    pub open spec fn setups<'a>(self, calls: Seq<EventFd>) -> Seq<QueueSetup<'a>> {
        seq![
            QueueSetup {
                index: 0,
                queue: &self.queues[0],
                kick: &self.queue_evts[0],
                call: &calls[0],
            },
            QueueSetup {
                index: 1,
                queue: &self.queues[1],
                kick: &self.queue_evts[1],
                call: &calls[1],
            },
        ]
    }

    /// The requests that configure a backend and leave it stopped. The memory table is the one
    /// with which the dirty log was attached, and is not replaced.
    pub open spec fn configure_plan(
        self,
        mem: GuestMemoryMmap,
        calls: Seq<EventFd>,
    ) -> Plan<S, F> {
        Plan::single(Request::SetFeatures { features: self.announced_features() }).and(
            crate::vhost_user::stopped_plan(mem, self.setups(calls)),
        )
    }

    /// The requests that activate a device without state to load.
    pub open spec fn activation_plan(
        self,
        mem: GuestMemoryMmap,
        calls: Seq<EventFd>,
    ) -> Plan<S, F> {
        let setups = self.setups(calls);
        Plan::single(Request::SetFeatures { features: self.announced_features() }).and(
            crate::vhost_user::stopped_plan(mem, setups).and(
                crate::vhost_user::enable_plan(setups, setups.len()),
            ),
        )
    }

    /// The requests that load backend state. Loading uses up the backend's premigration worker,
    /// which announcing the features again replaces.
    pub open spec fn load_plan(self, file: F) -> Plan<S, F> {
        transfer_plan(VhostTransferStateDirection::Load, file).and(
            Plan::single(Request::SetFeatures { features: self.announced_features() }),
        )
    }

    /// From this state backend state was loaded, and then all vrings were enabled as well as it
    /// goes.
    pub open spec fn loads(
        self,
        after: Seq<Exchange<S, F>>,
        file: F,
        outcome: Result<(), VhostUserError>,
    ) -> bool {
        ||| outcome is Err && crate::exchange::carries_out(
            self.trace,
            after,
            self.load_plan(file),
            outcome,
        )
        ||| exists|loaded: Seq<Exchange<S, F>>| #[trigger]
            crate::exchange::carries_out(self.trace, loaded, self.load_plan(file), Ok(()))
                && crate::exchange::attempts(loaded, after, enable_plans(), outcome)
    }

    /// Why a snapshot cannot be started in this state.
    pub open spec fn snapshot_refusal(self) -> Option<VirtioFsError> {
        if !self.activated {
            Some(VirtioFsError::NotActivated)
        } else if self.snapshot_prepared {
            Some(VirtioFsError::SnapshotAlreadyPrepared)
        } else if !self.dirty_logging_armed {
            Some(VirtioFsError::DirtyLogNotArmed)
        } else {
            None
        }
    }

    /// The device in which requests ask for replies or do not.
    pub open spec fn with_header(self, flags: u32) -> Self {
        FsView { trace: self.trace.push(header_exchange(flags)), ..self }
    }
}

/// The notifiers behind shared references.
pub open spec fn notifiers(calls: Seq<Arc<EventFd>>) -> Seq<EventFd> {
    Seq::new(calls.len(), |i: int| *calls[i])
}

/// Queues as a new device has them: all of the size that virtiofsd supports.
pub open spec fn full_sized(queues: Seq<Queue>) -> bool {
    forall|i: int|
        0 <= i < queues.len() ==> (#[trigger] queues[i]).max_size
            == crate::virtio_fs::FS_QUEUE_SIZE
}

/// A configuration with which a device can be created.
pub open spec fn config_valid(config: crate::fs_config::FsConfig) -> bool {
    config.socket_path@.len() > 0 && crate::fs_config::tag_valid(config.tag@)
}

/// The conversation by which the connection of a device is taken over.
pub open spec fn opened<S, F>(sock: S) -> Seq<Exchange<S, F>> {
    crate::vhost_user::opening(sock, crate::virtio_fs::FS_NUM_QUEUES as u64, Ok(()))
}

/// The negotiation of a device with its backend.
pub open spec fn negotiation<S, F>(
    sock: S,
    after: Seq<Exchange<S, F>>,
    outcome: Result<(u64, u64), VhostUserError>,
) -> bool {
    crate::vhost_user::negotiates(
        opened(sock),
        after,
        crate::virtio_fs::REQUESTED_FEATURES,
        crate::virtio_fs::REQUESTED_PROTOCOL_FEATURES,
        outcome,
    )
}

/// The conversation after which creating a device over a connection failed with an error: a
/// request was refused, or the negotiated features are not enough. Where they are, only the
/// notifiers of the queues can still fail.
pub open spec fn creation_failed<S, F>(
    trace: Seq<Exchange<S, F>>,
    sock: S,
    acked_features: u64,
    error: VirtioFsError,
) -> bool {
    match error {
        VirtioFsError::VhostUser(VhostUserError::VhostUserSetOwner(e)) => trace
            == crate::vhost_user::opening::<S, F>(
            sock,
            crate::virtio_fs::FS_NUM_QUEUES as u64,
            Err(e),
        ),
        VirtioFsError::VhostUser(e) => negotiation(sock, trace, Err(e)),
        _ => {
            &&& trace.len() > 0
            &&& trace.last() == header_exchange::<S, F>(0)
            &&& exists|backend: u64, protocol: u64| #[trigger]
                negotiation(sock, trace.drop_last(), Ok((backend, protocol)))
                    && match checked_features(backend, protocol, acked_features) {
                    Err(e) => error == e,
                    Ok(_) => error is EventFd,
                }
        },
    }
}

/// A device that was created over a connection: it has negotiated with the backend and then stopped
/// asking it for replies, and nothing else has happened to it.
pub open spec fn created<S, F>(
    device: FsView<S, F>,
    config: crate::fs_config::FsConfig,
    sock: S,
    queues: Seq<Queue>,
    acked_features: u64,
    restore_state_path: Option<PathBuf>,
) -> bool {
    &&& device == (FsView {
        id: config.fs_id@,
        socket_path: config.socket_path@,
        handle_path: config.socket_path@,
        tag: padded(config.tag@),
        activated: false,
        calls: Seq::empty(),
        queues,
        acked_features,
        restore_state_path,
        snapshot_prepared: false,
        dirty_log: None,
        dirty_logging_armed: false,
        reactivated: false,
        snapshot_dirty_ranges: Seq::empty(),
        stage: Stage::Idle,
        ..device
    })
    &&& device.trace.len() > 0
    &&& device.trace.last() == header_exchange::<S, F>(0)
    &&& negotiation(
        sock,
        device.trace.drop_last(),
        Ok((device.backend_features, device.protocol_features)),
    )
    &&& checked_features(device.backend_features, device.protocol_features, acked_features) == Ok::<
        u64,
        VirtioFsError,
    >(device.avail_features)
}

/// The requests that stop the first `n` vrings.
pub open spec fn stop_all_plan<S, F>(n: nat) -> Plan<S, F>
    decreases n,
{
    if n == 0 {
        Plan::nothing()
    } else {
        stop_all_plan((n - 1) as nat).and(crate::vhost_user::stop_plan((n - 1) as usize))
    }
}

/// The index that the backend gave for vring `i` when all vrings were stopped.
pub open spec fn base_answer<S, F>(sent: Seq<Exchange<S, F>>, i: int) -> Option<u32> {
    if 0 <= i && 2 * i + 1 < sent.len() {
        match sent[2 * i + 1].reply {
            Reply::Base(Ok(base)) => Some(base),
            _ => None,
        }
    } else {
        None
    }
}

/// The indices that the backend gave for the first `n` vrings are 16-bit numbers.
pub open spec fn bases_fit<S, F>(sent: Seq<Exchange<S, F>>, n: int) -> bool {
    forall|i: int|
        0 <= i < n ==> (#[trigger] base_answer(sent, i)) is Some && base_answer(sent, i)->0
            <= u16::MAX
}

/// A queue after its vring was stopped.
pub open spec fn stopped_queue<S, F>(queue: Queue, sent: Seq<Exchange<S, F>>, i: int) -> Queue {
    match base_answer(sent, i) {
        Some(base) if base <= u16::MAX => Queue { next_avail: base as u16, ..queue },
        _ => queue,
    }
}

/// The queues after the vrings were stopped.
pub open spec fn stopped_queues<S, F>(queues: Seq<Queue>, sent: Seq<Exchange<S, F>>) -> Seq<Queue> {
    Seq::new(queues.len(), |i: int| stopped_queue(queues[i], sent, i))
}

/// A failure while stopping the first `n` vrings is a failure of stopping them all.
proof fn lemma_stop_all_failed<S, F>(
    n: nat,
    all: nat,
    before: Seq<Exchange<S, F>>,
    after: Seq<Exchange<S, F>>,
    error: VhostUserError,
)
    requires
        n <= all,
        crate::exchange::carries_out(before, after, stop_all_plan(n), Err(error)),
    ensures
        crate::exchange::carries_out(before, after, stop_all_plan(all), Err(error)),
    decreases all - n,
{
    if n < all {
        crate::exchange::lemma_and_failed(
            before,
            after,
            stop_all_plan(n),
            crate::vhost_user::stop_plan(n as usize),
            error,
        );
        lemma_stop_all_failed(n + 1, all, before, after, error);
    }
}

/// After `index` vrings were stopped, stopping the next one adds its answer and leaves the others.
pub proof fn lemma_one_more_stopped<S, F>(
    start: FsView<S, F>,
    between: FsView<S, F>,
    after: Seq<Exchange<S, F>>,
    index: usize,
    outcome: Result<(), VhostUserError>,
)
    requires
        index < crate::virtio_fs::FS_NUM_QUEUES,
        start.queues.len() == crate::virtio_fs::FS_NUM_QUEUES,
        between.queues == stopped_queues(
            start.queues,
            between.trace.skip(start.trace.len() as int),
        ),
        crate::exchange::carries_out(
            start.trace,
            between.trace,
            stop_all_plan(index as nat),
            Ok(()),
        ),
        between.trace.len() == start.trace.len() + 2 * index,
        bases_fit(between.trace.skip(start.trace.len() as int), index as int),
        crate::exchange::carries_out(
            between.trace,
            after,
            crate::vhost_user::stop_plan(index),
            outcome,
        ),
        outcome is Ok ==> after.last().reply matches Reply::Base(Ok(_)),
    ensures
        ({
            let sent = after.skip(start.trace.len() as int);
            &&& after.len() <= start.trace.len() + 2 * index + 2
            &&& bases_fit(sent, index as int)
            &&& outcome is Ok ==> {
                &&& sent.len() == 2 * index + 2
                &&& base_answer(sent, index as int) == Some(after.last().reply->Base_0->Ok_0)
                &&& crate::exchange::carries_out(
                    start.trace,
                    after,
                    stop_all_plan((index + 1) as nat),
                    Ok(()),
                )
                &&& stopped_queues(start.queues, sent) == between.queues.update(
                    index as int,
                    stopped_queue(between.queues[index as int], sent, index as int),
                )
            }
            &&& outcome matches Err(e) ==> {
                &&& (sent.len() - 1) / 2 == index
                &&& stopped_queues(start.queues, sent) == between.queues
                &&& crate::exchange::carries_out(
                    start.trace,
                    after,
                    stop_all_plan(crate::virtio_fs::FS_NUM_QUEUES as nat),
                    Err(e),
                )
            }
        }),
{
    let one = between.trace.skip(start.trace.len() as int);
    let two = after.skip(between.trace.len() as int);
    let sent = after.skip(start.trace.len() as int);
    assert(sent =~= one + two);
    assert(one.len() == 2 * index);
    assert(two.len() <= 2);
    assert forall|i: int| 0 <= i < index implies (#[trigger] base_answer(sent, i)) is Some
        && base_answer(sent, i)->0 <= u16::MAX by {
        assert(base_answer(one, i) is Some);
        assert(sent[2 * i + 1] == one[2 * i + 1]);
    }
    assert forall|i: int| 0 <= i < index implies base_answer(sent, i) == base_answer(one, i) by {
        assert(sent[2 * i + 1] == one[2 * i + 1]);
    }
    crate::exchange::lemma_and_then(
        start.trace,
        between.trace,
        after,
        stop_all_plan(index as nat),
        crate::vhost_user::stop_plan(index),
        outcome,
    );
    if outcome is Ok {
        assert(two.len() == 2);
        assert(sent[2 * index + 1] == two[1]);
        assert(after.last() == two[1]);
        assert(stopped_queues(start.queues, sent) =~= between.queues.update(
            index as int,
            stopped_queue(between.queues[index as int], sent, index as int),
        ));
    } else {
        let e = outcome->Err_0;
        lemma_stop_all_failed(
            (index + 1) as nat,
            crate::virtio_fs::FS_NUM_QUEUES as nat,
            start.trace,
            after,
            e,
        );
        assert(two.len() > 0);
        assert(two.last().reply.error() is Some);
        if two.len() == 2 {
            assert(sent[2 * index + 1] == two.last());
        }
        assert(stopped_queues(start.queues, sent) =~= between.queues);
    }
}

/// Stopping all vrings with success leaves all of them stopped.
pub proof fn lemma_drained<S, F>(before: FsView<S, F>, after: FsView<S, F>)
    requires
        before.drains(after, Ok(())),
    ensures
        after.vrings_stopped(),
{
    let sent = after.trace.skip(before.trace.len() as int);
    reveal_with_fuel(stop_all_plan, 3);
    let plan = stop_all_plan::<S, F>(2);
    assert(plan.requests.len() == 4);
    assert(sent.len() == 4);
    assert forall|i: int| 0 <= i < 4 implies (#[trigger] sent[i]).request == plan.requests[i]
        && sent[i].reply.error() is None by {
        if i == 3 {
            assert(sent[i] == sent.last());
        }
    }
    let t0 = before.trace.push(sent[0]);
    let t1 = t0.push(sent[1]);
    let t2 = t1.push(sent[2]);
    assert(sent[0].request == plan.requests[0]);
    assert(sent[1].request == plan.requests[1]);
    assert(sent[2].request == plan.requests[2]);
    assert(sent[3].request == plan.requests[3]);
    assert(after.trace =~= t2.push(sent[3]));
    crate::exchange::lemma_switched_off(before.trace, sent[0]);
    crate::exchange::lemma_vring_stays(t0, seq![sent[1]], 0);
    assert(t0 + seq![sent[1]] =~= t1);
    crate::exchange::lemma_switched_off(t1, sent[2]);
    assert(t2 + seq![sent[3]] =~= after.trace);
    crate::exchange::lemma_vring_stays(t2, seq![sent[3]], 0);
    crate::exchange::lemma_vring_stays(t2, seq![sent[3]], 1);
}

/// Carrying out a plan that switches no vring keeps all vrings stopped.
pub proof fn lemma_stays_stopped<S, F>(
    before: FsView<S, F>,
    after: FsView<S, F>,
    plan: Plan<S, F>,
    outcome: Result<(), VhostUserError>,
)
    requires
        before.vrings_stopped(),
        crate::exchange::carries_out(before.trace, after.trace, plan, outcome),
        crate::exchange::switches_nothing(plan),
    ensures
        after.vrings_stopped(),
{
    crate::exchange::lemma_plan_keeps_vring(before.trace, after.trace, plan, outcome, 0);
    crate::exchange::lemma_plan_keeps_vring(before.trace, after.trace, plan, outcome, 1);
}

/// Setting header flags keeps all vrings stopped.
pub proof fn lemma_header_keeps_stopped<S, F>(device: FsView<S, F>, flags: u32)
    requires
        device.vrings_stopped(),
    ensures
        device.with_header(flags).vrings_stopped(),
{
    assert(device.with_header(flags).trace.drop_last() =~= device.trace);
}

/// Attaching the dirty log switches no vring.
pub proof fn lemma_arming_switches_nothing<S, F>(
    device: FsView<S, F>,
    regions: Seq<GuestRegion>,
    log: DirtyLog,
)
    ensures
        crate::exchange::switches_nothing(device.arming_plan(regions, log)),
{
}

/// The requests that transfer backend state through a file and wait for the result.
pub open spec fn transfer_plan<S, F>(direction: VhostTransferStateDirection, file: F) -> Plan<
    S,
    F,
> {
    Plan::single(
        Request::SetDeviceStateFd { direction, phase: VhostTransferStatePhase::Stopped, file },
    ).and(Plan::single(Request::CheckDeviceState))
}

/// Configuring vrings does not fail with the error for features.
pub proof fn lemma_stopped_plan_sets_no_features<'a, S, F>(
    mem: GuestMemoryMmap,
    queues: Seq<QueueSetup<'a>>,
    before: Seq<Exchange<S, F>>,
    after: Seq<Exchange<S, F>>,
    outcome: Result<(), VhostUserError>,
)
    requires
        crate::exchange::carries_out(
            before,
            after,
            crate::vhost_user::stopped_plan(mem, queues),
            outcome,
        ),
    ensures
        outcome matches Err(e) ==> !(e is VhostUserSetFeatures),
{
    let plan = crate::vhost_user::stopped_plan::<S, F>(mem, queues);
    crate::vhost_user::lemma_stopped_plan_requests::<S, F>(mem, queues, queues.len());
    let sent = after.skip(before.len() as int);
    if sent.len() > 0 {
        let last = sent[sent.len() - 1];
        assert(last.request == plan.requests[sent.len() - 1]);
    }
}

/// How state is loaded does not depend on the stage.
pub proof fn lemma_loads_at_any_stage<S, F>(
    device: FsView<S, F>,
    idle: FsView<S, F>,
    after: Seq<Exchange<S, F>>,
    file: F,
    outcome: Result<(), VhostUserError>,
)
    requires
        idle == (FsView { stage: Stage::Idle, ..device }),
        idle.loads(after, file, outcome),
    ensures
        device.loads(after, file, outcome),
{
    assert(device.announced_features() == idle.announced_features());
    assert(device.load_plan(file) =~= idle.load_plan(file));
}

/// A device whose backend did not take the dirty log.
pub open spec fn arming_failed<S, F>(
    before: FsView<S, F>,
    after: FsView<S, F>,
    regions: Seq<GuestRegion>,
    log: DirtyLog,
    error: VhostUserError,
) -> bool {
    &&& after.trace.len() > 0
    &&& after.trace.last() == header_exchange::<S, F>(0)
    &&& crate::exchange::carries_out(
        before.trace,
        after.trace.drop_last(),
        before.arming_plan(regions, log),
        Err(error),
    )
}

/// Activation without state to load announces the features and then configures and enables
/// vrings. None of that touches the header flags, so on a device at rest no request asks for a
/// reply, and none is of a kind that is always answered.
pub proof fn law_fresh_activation_is_one_way<S, F>(
    device: FsView<S, F>,
    mem: GuestMemoryMmap,
    calls: Seq<EventFd>,
)
    ensures
        crate::exchange::keeps_header(device.activation_plan(mem, calls)),
        forall|i: int|
            0 <= i < device.activation_plan(mem, calls).requests.len()
                ==> !always_answered(#[trigger] device.activation_plan(mem, calls).requests[i]),
{
    let setups = device.setups(calls);
    let plan = device.activation_plan(mem, calls);
    let stopped = crate::vhost_user::stopped_plan::<S, F>(mem, setups);
    let enable = crate::vhost_user::enable_plan::<S, F>(setups, setups.len());
    let rest = stopped.and(enable);
    crate::vhost_user::lemma_stopped_plan_requests::<S, F>(mem, setups, setups.len());
    crate::vhost_user::lemma_enable_plan_requests::<S, F>(setups, setups.len());
    assert forall|i: int| 0 <= i < plan.requests.len() implies !always_answered(
        #[trigger] plan.requests[i],
    ) && plan.requests[i] !is SetHdrFlags by {
        if i > 0 {
            assert(plan.requests[i] == rest.requests[i - 1]);
            if i - 1 < stopped.requests.len() {
                assert(rest.requests[i - 1] == stopped.requests[i - 1]);
                assert(crate::vhost_user::configures_vring(stopped.requests[i - 1]));
            } else {
                let j = i - 1 - stopped.requests.len();
                assert(rest.requests[i - 1] == enable.requests[j]);
            }
        }
    }
}

/// A request that the backend answers whatever the header flags are.
pub open spec fn always_answered<S, F>(request: Request<S, F>) -> bool {
    ||| request is GetFeatures
    ||| request is GetProtocolFeatures
    ||| request is GetVringBase
    ||| request is GetConfig
    ||| request is SetLogBase
    ||| request is SetDeviceStateFd
    ||| request is CheckDeviceState
}

/// The attempts that enable all vrings.
pub open spec fn enable_plans<S, F>() -> Seq<Plan<S, F>> {
    seq![
        Plan::single(Request::SetVringEnable { index: 0, enable: true }),
        Plan::single(Request::SetVringEnable { index: 1, enable: true }),
    ]
}

/// The configuration space of the device: the tag and the number of request queues.
pub open spec fn config_space(tag: Seq<u8>) -> Seq<u8> {
    tag + seq![1u8, 0u8, 0u8, 0u8]
}

/// What a read of the configuration space from `offset` on leaves in a buffer: the bytes of the
/// space as far as it reaches, and what was there before beyond its end.
pub open spec fn read_result(tag: Seq<u8>, offset: int, before: Seq<u8>) -> Seq<u8> {
    Seq::new(
        before.len(),
        |i: int|
            if offset + i < config_space(tag).len() {
                config_space(tag)[offset + i]
            } else {
                before[i]
            },
    )
}

} // verus!
