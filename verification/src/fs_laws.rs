//! What holds of a virtio-fs device across its operations.
use crate::dirty_log::DirtyLog;
use crate::exchange::{Exchange, Reply, Request};
use crate::fs_config::FsConfig;
use crate::fs_model::FsView;
use crate::guest_memory::{GuestMemoryMmap, GuestRegion};
use crate::persist::VirtioFsState;
use crate::vhost_user::{
    Queue, QueueSetup, VhostTransferStateDirection, VhostTransferStatePhase, VhostUserError,
    VhostUserHandleBackend,
};
use crate::virtio_fs::{
    ActivateError, Activation, FinishStep, SnapshotStep, Stage, SyncError, VirtioFs, VirtioFsError,
    FS_NUM_QUEUES,
};
use std::path::PathBuf;
use std::sync::Arc;
use vmm_sys_util::eventfd::EventFd;
use vstd::prelude::*;

verus! {

/// The guest is only offered features that the backend has and that the device knows, never the
/// bits that belong to the vhost-user session itself. Features that the guest already uses are
/// among them.
pub proof fn law_session_features_are_not_leaked_to_guest(backend: u64, protocol: u64, acked: u64)
    requires
        crate::fs_model::checked_features(backend, protocol, acked) is Ok,
    ensures
        ({
            let avail = crate::fs_model::checked_features(backend, protocol, acked)->Ok_0;
            &&& avail & crate::vhost_flags::VHOST_USER_F_PROTOCOL_FEATURES == 0
            &&& avail & crate::vhost_flags::VHOST_F_LOG_ALL == 0
            &&& avail & crate::virtio_fs::VERSION_1_BIT != 0
            &&& avail & !backend == 0
            &&& avail & !crate::virtio_fs::AVAILABLE_FEATURES == 0
            &&& acked & !avail == 0
        }),
{
    let avail = crate::fs_model::checked_features(backend, protocol, acked)->Ok_0;
    assert({
        let known: u64 = 0x1_0000_0000u64 | 0x2000_0000u64;
        let offered: u64 = backend & known & !0x4000_0000u64;
        &&& offered & 0x4000_0000 == 0
        &&& offered & 0x0400_0000 == 0
        &&& offered & !backend == 0
        &&& offered & !known == 0
        &&& backend & 0x1_0000_0000 != 0 ==> offered & 0x1_0000_0000 != 0
    }) by (bit_vector);
}

/// A backend that lacks one of the required protocol features is refused, and the error names
/// exactly the missing ones.
pub proof fn law_missing_protocol_features_are_named(backend: u64, protocol: u64, acked: u64)
    requires
        backend & crate::virtio_fs::VERSION_1_BIT != 0,
        backend & crate::vhost_flags::VHOST_USER_F_PROTOCOL_FEATURES != 0,
        protocol & crate::virtio_fs::REQUIRED_PROTOCOL_FEATURES
            != crate::virtio_fs::REQUIRED_PROTOCOL_FEATURES,
    ensures
        ({
            let checked = crate::fs_model::checked_features(backend, protocol, acked);
            &&& checked matches Err(VirtioFsError::MissingProtocolFeatures(missing))
            &&& missing & protocol == 0
            &&& missing | (protocol & crate::virtio_fs::REQUIRED_PROTOCOL_FEATURES)
                == crate::virtio_fs::REQUIRED_PROTOCOL_FEATURES
        }),
{
    let required = crate::virtio_fs::REQUIRED_PROTOCOL_FEATURES;
    assert((required & !protocol) & protocol == 0) by (bit_vector);
    assert((required & !protocol) | (protocol & required) == required) by (bit_vector);
    assert(protocol & required != required ==> required & !protocol != 0) by (bit_vector);
}

/// The backend is always told to log its writes, on top of the features that the guest accepted
/// and the protocol features.
pub proof fn law_logging_is_always_announced<S, F>(device: FsView<S, F>)
    requires
        device.wf(),
    ensures
        device.announced_features() & crate::vhost_flags::VHOST_F_LOG_ALL != 0,
        device.announced_features() & crate::vhost_flags::VHOST_USER_F_PROTOCOL_FEATURES != 0,
        device.acked_features & !device.announced_features() == 0,
{
    let acked = device.acked_features;
    let backend = device.backend_features;
    assert(backend & 0x4000_0000 != 0);
    assert(backend & 0x4000_0000 != 0 ==> {
        let announced: u64 = (acked | (backend & 0x4000_0000)) | 0x0400_0000;
        &&& announced & 0x0400_0000 != 0
        &&& announced & 0x4000_0000 != 0
        &&& acked & !announced == 0
    }) by (bit_vector);
}

/// The dirty log is attached after the memory table, to the regions that the backend then knows,
/// and not at all where a region cannot be shared.
pub proof fn law_log_is_attached_to_the_memory_table<S, F>(
    device: FsView<S, F>,
    regions: Seq<GuestRegion>,
    log: DirtyLog,
)
    ensures
        ({
            let plan = device.arming_plan(regions, log);
            let n = plan.requests.len();
            if exists|i: int|
                0 <= i < regions.len() && (#[trigger] regions[i]).file_offset is None {
                &&& plan.stop is Some
                &&& forall|i: int|
                    0 <= i < n ==> (#[trigger] plan.requests[i]) !is SetLogBase
            } else {
                &&& plan.stop is None
                &&& n >= 2
                &&& plan.requests[n - 2] is SetMemTable
                &&& plan.requests[n - 1] == Request::<S, F>::SetLogBase {
                    log_base: 0,
                    region: Some(log.shared_region()),
                }
            }
        }),
{
}

/// Neither way of activating a device replaces the memory table to which the log is attached.
pub proof fn law_activation_keeps_the_memory_table<S, F>(
    device: FsView<S, F>,
    mem: GuestMemoryMmap,
    calls: Seq<EventFd>,
)
    ensures
        forall|i: int|
            0 <= i < device.activation_plan(mem, calls).requests.len() ==> (
            #[trigger] device.activation_plan(mem, calls).requests[i]) !is SetMemTable,
        forall|i: int|
            0 <= i < device.configure_plan(mem, calls).requests.len() ==> (
            #[trigger] device.configure_plan(mem, calls).requests[i]) !is SetMemTable,
{
    let setups = device.setups(calls);
    let stopped = crate::vhost_user::stopped_plan::<S, F>(mem, setups);
    let enable = crate::vhost_user::enable_plan::<S, F>(setups, setups.len());
    let rest = stopped.and(enable);
    crate::vhost_user::lemma_stopped_plan_requests::<S, F>(mem, setups, setups.len());
    crate::vhost_user::lemma_enable_plan_requests::<S, F>(setups, setups.len());
    let fresh = device.activation_plan(mem, calls);
    assert forall|i: int| 0 <= i < fresh.requests.len() implies (
    #[trigger] fresh.requests[i]) !is SetMemTable by {
        if i > 0 {
            assert(fresh.requests[i] == rest.requests[i - 1]);
            if i - 1 < stopped.requests.len() {
                assert(rest.requests[i - 1] == stopped.requests[i - 1]);
                assert(crate::vhost_user::configures_vring(stopped.requests[i - 1]));
            } else {
                let j = i - 1 - stopped.requests.len();
                assert(rest.requests[i - 1] == enable.requests[j]);
            }
        }
    }
    let restored = device.configure_plan(mem, calls);
    assert forall|i: int| 0 <= i < restored.requests.len() implies (
    #[trigger] restored.requests[i]) !is SetMemTable by {
        if i > 0 {
            assert(restored.requests[i] == stopped.requests[i - 1]);
            assert(crate::vhost_user::configures_vring(stopped.requests[i - 1]));
        }
    }
}

/// When vrings that were stopped are restarted, each starts from the index that the backend gave
/// when it stopped, with the call notifier of the activation and its kick notifier reinstalled.
pub proof fn law_restart_continues_where_the_backend_stopped<S, F>(
    before: FsView<S, F>,
    stopped: FsView<S, F>,
    outcome: Result<(), VirtioFsError>,
    index: usize,
)
    requires
        before.queues.len() == crate::virtio_fs::FS_NUM_QUEUES,
        before.drains(stopped, outcome),
        index < crate::virtio_fs::FS_NUM_QUEUES,
    ensures
        ({
            let sent = stopped.trace.skip(before.trace.len() as int);
            let answer = crate::fs_model::base_answer(sent, index as int);
            let base = match answer {
                Some(base) if base <= u16::MAX => base as u16,
                _ => before.queues[index as int].next_avail,
            };
            stopped.resume_plans()[index + 1].requests == seq![
                Request::<S, F>::SetVringBase { index, base },
                Request::<S, F>::SetVringCall { index, fd: before.calls[index as int] },
                Request::<S, F>::SetVringKick { index, fd: before.queue_evts[index as int] },
                Request::<S, F>::SetVringEnable { index, enable: true },
            ]
        }),
{
    if index == 1 {
        assert(stopped.resume_plans()[2] == stopped.restart_plan(1));
    } else {
        assert(stopped.resume_plans()[1] == stopped.restart_plan(0));
    }
}

/// Stopping the vrings succeeds only with an index for each of them, which its queue then holds;
/// nothing else of the device changes.
pub proof fn law_stopping_captures_all_indices<S, F>(
    before: FsView<S, F>,
    stopped: FsView<S, F>,
    index: int,
)
    requires
        before.queues.len() == crate::virtio_fs::FS_NUM_QUEUES,
        before.drains(stopped, Ok(())),
        0 <= index < crate::virtio_fs::FS_NUM_QUEUES,
    ensures
        stopped == (FsView { trace: stopped.trace, queues: stopped.queues, ..before }),
        ({
            let sent = stopped.trace.skip(before.trace.len() as int);
            &&& crate::fs_model::base_answer(sent, index) == Some(
                stopped.queues[index].next_avail as u32,
            )
            &&& stopped.queues[index] == (Queue {
                next_avail: stopped.queues[index].next_avail,
                ..before.queues[index]
            })
        }),
{
    let sent = stopped.trace.skip(before.trace.len() as int);
    assert(crate::fs_model::base_answer(sent, index) is Some);
}

/// Backend state is saved only after every vring was stopped.
pub proof fn law_snapshot_saves_a_stopped_backend<S, F>(
    before: FsView<S, F>,
    stopped: FsView<S, F>,
    saved: Seq<Exchange<S, F>>,
    file: F,
    outcome: Result<(), VhostUserError>,
)
    requires
        before.drains(stopped, Ok(())),
        crate::exchange::carries_out(
            stopped.trace,
            saved,
            crate::fs_model::transfer_plan(VhostTransferStateDirection::Save, file),
            outcome,
        ),
    ensures
        crate::exchange::carries_out(
            before.trace,
            saved,
            crate::fs_model::stop_all_plan(crate::virtio_fs::FS_NUM_QUEUES as nat).and(
                crate::fs_model::transfer_plan(VhostTransferStateDirection::Save, file),
            ),
            outcome,
        ),
{
    crate::exchange::lemma_and_then(
        before.trace,
        stopped.trace,
        saved,
        crate::fs_model::stop_all_plan(crate::virtio_fs::FS_NUM_QUEUES as nat),
        crate::fs_model::transfer_plan(VhostTransferStateDirection::Save, file),
        outcome,
    );
}

/// A snapshot that is given up while the vrings are stopped, or later, leaves the device as it was,
/// but for the conversation, the indices from which its queues go on, and the ranges that were
/// collected.
pub proof fn law_given_up_snapshot_leaves_the_device<S, F>(
    before: FsView<S, F>,
    stopped: FsView<S, F>,
    outcome: Result<(), VirtioFsError>,
    failing: FsView<S, F>,
    given_up: FsView<S, F>,
    index: int,
)
    requires
        before.wf(),
        before.stage is Idle,
        before.snapshot_refusal() is None,
        before.with_header(crate::vhost_flags::HEADER_NEED_REPLY).drains(stopped, outcome),
        failing == (FsView {
            trace: failing.trace,
            snapshot_dirty_ranges: failing.snapshot_dirty_ranges,
            stage: failing.stage,
            ..stopped
        }),
        failing.gives_up(given_up),
        0 <= index < crate::virtio_fs::FS_NUM_QUEUES,
    ensures
        given_up == (FsView {
            trace: given_up.trace,
            queues: given_up.queues,
            snapshot_dirty_ranges: failing.snapshot_dirty_ranges,
            ..before
        }),
        given_up.queues[index] == (Queue {
            next_avail: given_up.queues[index].next_avail,
            ..before.queues[index]
        }),
{
}

/// A snapshot that is prepared and finished leaves the device as it was, but for the conversation,
/// the indices from which its queues go on, and the ranges, of which none are left.
pub proof fn law_finished_snapshot_leaves_the_device<S, F>(
    before: FsView<S, F>,
    stopped: FsView<S, F>,
    prepared: FsView<S, F>,
    stage: Stage,
    finished: FsView<S, F>,
    outcome: Result<(), VirtioFsError>,
    index: int,
)
    requires
        before.wf(),
        before.stage is Idle,
        before.snapshot_refusal() is None,
        before.with_header(crate::vhost_flags::HEADER_NEED_REPLY).drains(stopped, Ok(())),
        prepared == (FsView {
            trace: prepared.trace,
            snapshot_dirty_ranges: prepared.snapshot_dirty_ranges,
            snapshot_prepared: true,
            ..stopped
        }),
        (FsView { stage, ..prepared }).ends_snapshot(finished, outcome),
        0 <= index < crate::virtio_fs::FS_NUM_QUEUES,
    ensures
        finished == (FsView {
            trace: finished.trace,
            queues: finished.queues,
            snapshot_dirty_ranges: Seq::empty(),
            ..before
        }),
        finished.queues[index] == (Queue {
            next_avail: finished.queues[index].next_avail,
            ..before.queues[index]
        }),
{
}

/// The log is read and cleared only while every vring is stopped: whenever a snapshot waits for the
/// bytes of the log, to read or to clear them, the last request that switched each vring has
/// stopped it. A guest that activates a stopped device starts its vrings itself, and is left out.
pub proof fn law_log_is_touched_while_stopped<S, F>(device: FsView<S, F>)
    requires
        device.wf(),
        device.stage is Transferred || device.stage is Clearing,
        !device.reactivated,
    ensures
        device.vrings_stopped(),
{
}

/// A snapshot that succeeded is finished in three steps, of which only the last speaks to the
/// backend: when the log is cleared, the conversation is still the one in which the vrings were
/// stopped, and everything that restarts them comes after it.
pub proof fn law_log_is_cleared_before_the_restart<S, F>(
    prepared: FsView<S, F>,
    clearing: FsView<S, F>,
    cleared: FsView<S, F>,
    finished: FsView<S, F>,
    outcome: Result<(), VirtioFsError>,
)
    requires
        prepared.wf(),
        prepared.snapshot_prepared,
        !prepared.reactivated,
        clearing == (FsView { stage: Stage::Clearing, ..prepared }),
        cleared == (FsView { stage: Stage::Cleared, ..clearing }),
        cleared.ends_snapshot(finished, outcome),
    ensures
        clearing.trace == prepared.trace,
        cleared.trace == prepared.trace,
        clearing.vrings_stopped(),
        cleared.vrings_stopped(),
        finished.trace.len() > cleared.trace.len(),
        finished.trace.take(cleared.trace.len() as int) == cleared.trace,
{
    let sent = finished.trace.drop_last();
    let result = match outcome {
        Ok(_) => Ok(()),
        Err(e) => Err(e->VhostUser_0),
    };
    crate::exchange::lemma_attempts_extend(cleared.trace, sent, cleared.resume_plans(), result);
    let before = cleared.trace.len() as int;
    assert(finished.trace.take(before) =~= sent.take(before));
}

/// Being the same device carries over from step to step.
proof fn lemma_same_device<S, F>(states: Seq<FsView<S, F>>, n: int)
    requires
        0 <= n < states.len(),
        forall|i: int| 0 <= i < states.len() - 1 ==> (#[trigger] states[i]).same_device(
            states[i + 1],
        ),
    ensures
        states[0].same_device(states[n]),
    decreases n,
{
    if n > 0 {
        lemma_same_device(states, n - 1);
        assert(states[n - 1].same_device(states[n - 1 + 1]));
    }
}

/// A device gives back the configuration that it was created with after any calls. `states` are
/// its states, from creation on, each after one operation more; every operation leaves the same
/// device.
pub proof fn law_configuration_is_kept_by_all_calls<S, F>(
    states: Seq<FsView<S, F>>,
    config: FsConfig,
    sock: S,
    queues: Seq<Queue>,
    acked_features: u64,
    path: Option<PathBuf>,
    reported: FsConfig,
)
    requires
        states.len() > 0,
        crate::fs_model::config_valid(config),
        crate::fs_model::created(states[0], config, sock, queues, acked_features, path),
        forall|i: int| 0 <= i < states.len() - 1 ==> (#[trigger] states[i]).same_device(
            states[i + 1],
        ),
        reported.fs_id@ == states.last().id,
        reported.socket_path@ == states.last().socket_path,
        crate::fs_config::tag_valid(reported.tag@),
        crate::fs_model::padded(reported.tag@) == states.last().tag,
    ensures
        reported.fs_id@ == config.fs_id@,
        reported.socket_path@ == config.socket_path@,
        reported.tag@ == config.tag@,
        crate::fs_model::config_valid(reported),
{
    lemma_same_device(states, states.len() - 1);
    crate::fs_model::law_tag_determines_text(reported.tag@, config.tag@);
}

/// Saving a device and restoring it from that state leads to a device with the same saved
/// configuration.
pub proof fn law_saved_configuration_survives_restore<S, F>(
    saved: FsView<S, F>,
    state: VirtioFsState,
    restored: FsView<S, F>,
    again: VirtioFsState,
    sock: S,
    path: Option<PathBuf>,
)
    requires
        saved.wf(),
        state.captures(saved),
        crate::fs_model::created(
            restored,
            state.config,
            sock,
            state.virtio_state.queues@,
            state.virtio_state.acked_features,
            path,
        ),
        again.captures(restored),
    ensures
        again.config.fs_id@ == state.config.fs_id@,
        again.config.socket_path@ == state.config.socket_path@,
        again.config.tag@ == state.config.tag@,
        again.virtio_state.acked_features == state.virtio_state.acked_features,
        again.virtio_state.queues@ == state.virtio_state.queues@,
{
    crate::fs_model::law_tag_determines_text(again.config.tag@, state.config.tag@);
}

/// Reading the configuration space in two pieces gives the same bytes as reading it at once.
pub proof fn law_configuration_reads_compose(
    tag: Seq<u8>,
    offset: nat,
    first: Seq<u8>,
    second: Seq<u8>,
)
    ensures
        crate::fs_model::read_result(tag, offset as int, first + second)
            == crate::fs_model::read_result(tag, offset as int, first)
            + crate::fs_model::read_result(tag, (offset + first.len()) as int, second),
{
    let whole = crate::fs_model::read_result(tag, offset as int, first + second);
    let a = crate::fs_model::read_result(tag, offset as int, first);
    let b = crate::fs_model::read_result(tag, (offset + first.len()) as int, second);
    assert forall|i: int| 0 <= i < whole.len() implies whole[i] == (a + b)[i] by {
        if i >= first.len() {
            assert((a + b)[i] == b[i - first.len()]);
        }
    }
    assert(whole =~= a + b);
}

/// The whole configuration space is the tag and the number of request queues, and reads beyond it
/// change nothing.
pub proof fn law_configuration_space(tag: Seq<u8>, buffer: Seq<u8>)
    requires
        tag.len() == crate::fs_config::FS_TAG_MAX_LEN,
    ensures
        buffer.len() == crate::virtio_fs::FS_CONFIG_SPACE_SIZE ==> crate::fs_model::read_result(
            tag,
            0,
            buffer,
        ) == tag + seq![1u8, 0u8, 0u8, 0u8],
        crate::fs_model::read_result(
            tag,
            crate::virtio_fs::FS_CONFIG_SPACE_SIZE as int,
            buffer,
        ) == buffer,
{
    if buffer.len() == crate::virtio_fs::FS_CONFIG_SPACE_SIZE {
        assert(crate::fs_model::read_result(tag, 0, buffer) =~= tag + seq![1u8, 0u8, 0u8, 0u8]);
    }
    assert(crate::fs_model::read_result(
        tag,
        crate::virtio_fs::FS_CONFIG_SPACE_SIZE as int,
        buffer,
    ) =~= buffer);
}

/// A log of the computed size has a bit for every byte of guest memory.
pub proof fn law_log_covers_guest_memory(
    mem: GuestMemoryMmap,
    host_page_size: int,
    region: int,
    addr: int,
)
    requires
        mem.wf(),
        host_page_size > 0,
        0 <= region < mem@.len(),
        mem@[region].holds(addr),
    ensures
        0 <= addr / 4096 < crate::dirty_log::log_pages(mem@),
        addr / 4096 / 8 < crate::dirty_log::log_len(
            crate::dirty_log::log_pages(mem@),
            host_page_size,
        ),
{
    crate::dirty_log::law_memory_end_bounds_all_addresses(mem@, addr, region);
    let pages = crate::dirty_log::log_pages(mem@);
    crate::align::lemma_div_ceil(crate::dirty_log::memory_end(mem@), 4096);
    crate::align::lemma_div_ceil(pages, 8);
    let bytes = crate::align::div_ceil(pages, 8);
    crate::align::lemma_align_up(
        if bytes < 1 {
            1
        } else {
            bytes
        },
        host_page_size,
    );
}

/// Setting a backend up installs the memory table once, before everything else; setting it up
/// after the memory table does not install it again.
pub proof fn law_memory_table_is_installed_once<'a, S, F>(
    mem: GuestMemoryMmap,
    queues: Seq<crate::vhost_user::QueueSetup<'a>>,
)
    requires
        forall|i: int| 0 <= i < mem@.len() ==> (#[trigger] mem@[i]).file_offset is Some,
    ensures
        ({
            let table = crate::vhost_user::mem_table_plan::<S, F>(mem@);
            let stopped = crate::vhost_user::stopped_plan::<S, F>(mem, queues);
            let enable = crate::vhost_user::enable_plan::<S, F>(queues, queues.len());
            let whole = table.and(stopped).and(enable);
            let after = stopped.and(enable);
            &&& whole.requests.len() > 0
            &&& whole.requests[0] is SetMemTable
            &&& forall|i: int|
                1 <= i < whole.requests.len() ==> (#[trigger] whole.requests[i]) !is SetMemTable
            &&& forall|i: int|
                0 <= i < after.requests.len() ==> (#[trigger] after.requests[i]) !is SetMemTable
        }),
{
    let table = crate::vhost_user::mem_table_plan::<S, F>(mem@);
    let stopped = crate::vhost_user::stopped_plan::<S, F>(mem, queues);
    let enable = crate::vhost_user::enable_plan::<S, F>(queues, queues.len());
    let whole = table.and(stopped).and(enable);
    let after = stopped.and(enable);
    crate::vhost_user::lemma_stopped_plan_requests::<S, F>(mem, queues, queues.len());
    crate::vhost_user::lemma_enable_plan_requests::<S, F>(queues, queues.len());
    assert(table.requests.len() == 1);
    assert forall|i: int| 0 <= i < after.requests.len() implies (
    #[trigger] after.requests[i]) !is SetMemTable by {
        if i < stopped.requests.len() {
            assert(after.requests[i] == stopped.requests[i]);
            assert(crate::vhost_user::configures_vring(stopped.requests[i]));
        } else {
            assert(after.requests[i] == enable.requests[i - stopped.requests.len()]);
        }
    }
    assert forall|i: int| 1 <= i < whole.requests.len() implies (
    #[trigger] whole.requests[i]) !is SetMemTable by {
        assert(whole.requests[i] == after.requests[i - 1]);
    }
}

/// Features come out of a negotiation only where both sides have them, and protocol features only
/// where the feature that stands for them was negotiated.
pub proof fn law_negotiated_features_are_common<S, F>(
    before: Seq<Exchange<S, F>>,
    after: Seq<Exchange<S, F>>,
    avail: u64,
    avail_protocol: u64,
    acked: u64,
    acked_protocol: u64,
)
    requires
        crate::vhost_user::negotiates(
            before,
            after,
            avail,
            avail_protocol,
            Ok((acked, acked_protocol)),
        ),
    ensures
        ({
            let sent = after.skip(before.len() as int);
            let offered = sent[0].reply->Features_0->Ok_0;
            &&& sent[0].reply matches crate::exchange::Reply::Features(Ok(_))
            &&& acked == avail & offered
            &&& acked & !avail == 0
            &&& acked & !offered == 0
            &&& acked_protocol & !avail_protocol == 0
            &&& acked_protocol != 0 ==> {
                let protocol = sent[1].reply->Features_0->Ok_0;
                &&& acked & crate::vhost_flags::VHOST_USER_F_PROTOCOL_FEATURES != 0
                &&& acked_protocol == avail_protocol & protocol
            }
        }),
{
    let sent = after.skip(before.len() as int);
    let offered = sent[0].reply->Features_0->Ok_0;
    assert((avail & offered) & !avail == 0) by (bit_vector);
    assert((avail & offered) & !offered == 0) by (bit_vector);
    let protocol = sent[1].reply->Features_0->Ok_0;
    assert((avail_protocol & protocol) & !avail_protocol == 0) by (bit_vector);
    assert(0u64 & !avail_protocol == 0) by (bit_vector);
}

/// A queue of a device with the notifiers that belong to it: the one by which the guest announces
/// buffers, and that of the interrupt.
pub open spec fn own_queue<'a, S, F>(
    device: FsView<S, F>,
    calls: Seq<EventFd>,
    i: int,
) -> QueueSetup<'a> {
    QueueSetup {
        index: i as usize,
        queue: &device.queues[i],
        kick: &device.queue_evts[i],
        call: &calls[i],
    }
}

/// The backend is told the features that the guest has accepted, the protocol features and the
/// dirty log, and nothing else.
proof fn lemma_announced<S, F>(device: FsView<S, F>)
    requires
        device.wf(),
    ensures
        device.announced_features() == device.acked_features | 0x4400_0000,
{
    let acked = device.acked_features;
    let backend = device.backend_features;
    assert(backend & 0x4000_0000 != 0 ==> (acked | (backend & 0x4000_0000)) | 0x0400_0000 == acked
        | 0x4400_0000) by (bit_vector);
}

/// The requests that describe the queues of a device, and those that enable them.
#[verifier::spinoff_prover]
#[verifier::rlimit(60)]
proof fn lemma_own_queues<S, F>(device: FsView<S, F>, mem: GuestMemoryMmap, calls: Seq<EventFd>)
    requires
        mem.wf(),
    ensures
        ({
            let setups = device.setups(calls);
            let stopped = crate::vhost_user::stopped_plan::<S, F>(mem, setups);
            let enable = crate::vhost_user::enable_plan::<S, F>(setups, setups.len());
            &&& stopped.requests.len() <= 10
            &&& stopped.stop is None ==> stopped.requests.len() == 10
            &&& forall|j: int|
                0 <= j < stopped.requests.len() ==> {
                    let request = #[trigger] stopped.requests[j];
                    &&& crate::vhost_user::tells_queue(
                        request,
                        mem@,
                        own_queue(device, calls, if j < 2 { j } else { (j - 2) / 4 }),
                    )
                    &&& j < 2 ==> request is SetVringNum
                    &&& j >= 2 && (j - 2) % 4 == 0 ==> request is SetVringAddr
                    &&& j >= 2 && (j - 2) % 4 == 1 ==> request is SetVringBase
                    &&& j >= 2 && (j - 2) % 4 == 2 ==> request is SetVringCall
                    &&& j >= 2 && (j - 2) % 4 == 3 ==> request is SetVringKick
                }
            &&& enable.stop is None
            &&& enable.requests == seq![
                Request::<S, F>::SetVringEnable { index: 0, enable: true },
                Request::<S, F>::SetVringEnable { index: 1, enable: true },
            ]
        }),
{
    let setups = device.setups(calls);
    crate::vhost_user::lemma_stopped_plan_tells::<S, F>(mem, setups);
    crate::vhost_user::lemma_enable_plan_requests::<S, F>(setups, setups.len());
    assert(setups[0] == own_queue(device, calls, 0));
    assert(setups[1] == own_queue(device, calls, 1));
    let enable = crate::vhost_user::enable_plan::<S, F>(setups, setups.len());
    assert(enable.requests =~= seq![
        Request::<S, F>::SetVringEnable { index: 0, enable: true },
        Request::<S, F>::SetVringEnable { index: 1, enable: true },
    ]);
}

/// Activating a device without state to load announces the features, then tells the backend of each
/// vring the truth about its own queue, and then enables both vrings. Each vring gets the notifier
/// by which the guest announces the buffers of its queue, and the notifier of its interrupt.
#[verifier::spinoff_prover]
#[verifier::rlimit(60)]
pub proof fn law_activation_gives_each_vring_its_own<T: VhostUserHandleBackend, E>(
    device: &mut VirtioFs<T>,
    mem: GuestMemoryMmap,
    calls: [Arc<EventFd>; FS_NUM_QUEUES],
    outcome: Result<Activation, ActivateError<E>>,
)
    requires
        old(device).wf(),
        old(device)@.restore_state_path is None,
        mem.wf(),
        call_ensures(VirtioFs::<T>::activate::<E>, (device, Ok(()), &mem, calls), outcome),
    ensures
        ({
            let d = old(device)@;
            let start = d.trace.len() as int;
            let after = final(device)@.trace;
            let notifiers = Seq::new(2, |i: int| *calls@[i]);
            &&& start < after.len() <= start + 13
            &&& after.take(start) == d.trace
            &&& after[start].request == Request::<T::Stream, T::File>::SetFeatures {
                features: d.acked_features | 0x4400_0000,
            }
            &&& forall|j: int|
                0 <= j < after.len() - start - 1 ==> {
                    let request = (#[trigger] after[start + 1 + j]).request;
                    let i = if j < 2 {
                        j
                    } else if j < 10 {
                        (j - 2) / 4
                    } else {
                        j - 10
                    };
                    &&& crate::vhost_user::tells_queue(request, mem@, own_queue(d, notifiers, i))
                    &&& request is SetVringNum <==> j < 2
                    &&& request is SetVringEnable <==> j >= 10
                    &&& request is SetVringAddr <==> j == 2 || j == 6
                    &&& request is SetVringBase <==> j == 3 || j == 7
                    &&& request is SetVringCall <==> j == 4 || j == 8
                    &&& request is SetVringKick <==> j == 5 || j == 9
                    &&& request matches Request::SetVringKick { index, fd } ==> fd
                        == d.queue_evts[index as int]
                    &&& request matches Request::SetVringCall { index, fd } ==> fd
                        == *calls@[index as int]
                }
            &&& outcome is Ok ==> {
                &&& after.len() == start + 13
                &&& after.last().reply.error() is None
                &&& outcome->Ok_0 is Done
                &&& final(device)@.activated
                &&& final(device)@.calls == notifiers
            }
            &&& outcome is Err ==> final(device)@.activated == d.activated
        }),
{
    let d = old(device)@;
    let after = final(device)@.trace;
    let start = d.trace.len() as int;
    let notifiers = crate::fs_model::notifiers(calls@);
    assert(notifiers =~= Seq::new(2, |i: int| *calls@[i]));
    lemma_announced(d);
    lemma_own_queues(d, mem, notifiers);
    let setups = d.setups(notifiers);
    let stopped = crate::vhost_user::stopped_plan::<T::Stream, T::File>(mem, setups);
    let enable = crate::vhost_user::enable_plan::<T::Stream, T::File>(setups, setups.len());
    let plan = d.activation_plan(mem, notifiers);
    let result = match outcome {
        Ok(_) => Ok(()),
        Err(e) => Err(e->VirtioFs_0->VhostUser_0),
    };
    crate::exchange::law_plans_are_carried_out_in_order(d.trace, after, plan, result);
    assert(after[start].request == plan.requests[start - d.trace.len()]);
    assert forall|j: int| 0 <= j < after.len() - start - 1 implies (
    #[trigger] after[start + 1 + j]).request == if j < stopped.requests.len() {
        stopped.requests[j]
    } else {
        enable.requests[j - stopped.requests.len()]
    } by {
        assert(after[start + 1 + j].request == plan.requests[start + 1 + j - d.trace.len()]);
    }
}

/// Activating a device that has state to load asks for replies, announces the features and tells
/// the backend of each vring the truth about its own queue. No vring is enabled. It is the file of
/// this state that is asked for.
#[verifier::spinoff_prover]
#[verifier::rlimit(60)]
pub proof fn law_a_restored_device_is_configured_and_left_stopped<T: VhostUserHandleBackend, E>(
    device: &mut VirtioFs<T>,
    mem: GuestMemoryMmap,
    calls: [Arc<EventFd>; FS_NUM_QUEUES],
    outcome: Result<Activation, ActivateError<E>>,
)
    requires
        old(device).wf(),
        old(device)@.restore_state_path is Some,
        mem.wf(),
        call_ensures(VirtioFs::<T>::activate::<E>, (device, Ok(()), &mem, calls), outcome),
        outcome is Ok,
    ensures
        ({
            let d = old(device)@;
            let start = d.trace.len() as int;
            let after = final(device)@.trace;
            let notifiers = Seq::new(2, |i: int| *calls@[i]);
            &&& outcome->Ok_0 matches Activation::LoadState(path) && Some(path)
                == d.restore_state_path
            &&& final(device)@.restore_state_path is None
            &&& !final(device)@.activated
            &&& final(device)@.calls == notifiers
            &&& after.len() == start + 12
            &&& after.take(start) == d.trace
            &&& after[start].request == Request::<T::Stream, T::File>::SetHdrFlags { flags: 0x8 }
            &&& after[start + 1].request == Request::<T::Stream, T::File>::SetFeatures {
                features: d.acked_features | 0x4400_0000,
            }
            &&& forall|j: int|
                0 <= j < 10 ==> {
                    let request = (#[trigger] after[start + 2 + j]).request;
                    let i = if j < 2 {
                        j
                    } else {
                        (j - 2) / 4
                    };
                    &&& crate::vhost_user::tells_queue(request, mem@, own_queue(d, notifiers, i))
                    &&& request is SetVringNum <==> j < 2
                    &&& request is SetVringAddr <==> j == 2 || j == 6
                    &&& request is SetVringBase <==> j == 3 || j == 7
                    &&& request is SetVringCall <==> j == 4 || j == 8
                    &&& request is SetVringKick <==> j == 5 || j == 9
                    &&& request matches Request::SetVringKick { index, fd } ==> fd
                        == d.queue_evts[index as int]
                    &&& request matches Request::SetVringCall { index, fd } ==> fd
                        == *calls@[index as int]
                }
        }),
{
    let d = old(device)@;
    let after = final(device)@.trace;
    let start = d.trace.len() as int;
    let notifiers = crate::fs_model::notifiers(calls@);
    assert(notifiers =~= Seq::new(2, |i: int| *calls@[i]));
    lemma_announced(d);
    lemma_own_queues(d, mem, notifiers);
    let setups = d.setups(notifiers);
    let stopped = crate::vhost_user::stopped_plan::<T::Stream, T::File>(mem, setups);
    let plan = d.configure_plan(mem, notifiers);
    let asking = d.with_header(crate::vhost_flags::HEADER_NEED_REPLY).trace;
    crate::exchange::law_plans_are_carried_out_in_order(asking, after, plan, Ok(()));
    assert(after.take(start + 1) == asking);
    assert(after.take(start) =~= asking.take(start));
    assert(asking.take(start) =~= d.trace);
    assert(after[start] == after.take(start + 1)[start]);
    assert(after[start + 1].request == plan.requests[start + 1 - asking.len()]);
    assert forall|j: int| 0 <= j < 10 implies (#[trigger] after[start + 2 + j]).request
        == stopped.requests[j] by {
        assert(after[start + 2 + j].request == plan.requests[start + 2 + j - asking.len()]);
    }
}

/// What a vring is told, step by step, to go on from where its queue stands.
pub open spec fn restart_request<S, F>(device: FsView<S, F>, i: int, step: int) -> Request<S, F> {
    let index = i as usize;
    if step == 0 {
        Request::SetVringBase { index, base: device.queues[i].next_avail }
    } else if step == 1 {
        Request::SetVringCall { index, fd: device.calls[i] }
    } else if step == 2 {
        Request::SetVringKick { index, fd: device.queue_evts[i] }
    } else {
        Request::SetVringEnable { index, enable: true }
    }
}

/// The conversation went on from a stopped device by resuming its backend: the features are
/// announced again, both vrings are told to go on, each whatever became of the other and up to the
/// first request that fails, and requests stop asking for replies. The outcome is the error of the
/// first request that failed, if any did.
pub open spec fn goes_on_resumed<S, F>(
    device: FsView<S, F>,
    after: Seq<Exchange<S, F>>,
    outcome: Result<(), VhostUserError>,
) -> bool {
    let start = device.trace.len() as int;
    let last = after.len() - 1;
    &&& start + 3 <= last <= start + 9
    &&& after.take(start) == device.trace
    &&& after[start].request == Request::<S, F>::SetFeatures {
        features: device.acked_features | 0x4400_0000,
    }
    &&& after[last].request == Request::<S, F>::SetHdrFlags { flags: 0 }
    &&& exists|middle: int| #[trigger]
        restarts_vring(device, after, 0, start + 1, middle) && restarts_vring(
            device,
            after,
            1,
            middle,
            last,
        )
    &&& first_failure(after, start, last, outcome)
}

/// The outcome of a part of a conversation: the error of the first request that failed in it, if
/// any did.
pub open spec fn first_failure<S, F>(
    trace: Seq<Exchange<S, F>>,
    from: int,
    to: int,
    outcome: Result<(), VhostUserError>,
) -> bool {
    match outcome {
        Ok(_) => forall|k: int| from <= k < to ==> (#[trigger] trace[k]).reply.error() is None,
        Err(e) => exists|k: int|
            {
                &&& from <= k < to
                &&& (#[trigger] trace[k]).reply.error() is Some
                &&& e == trace[k].request.error(trace[k].reply.error()->0)
                &&& forall|j: int| from <= j < k ==> (#[trigger] trace[j]).reply.error() is None
            },
    }
}

/// Part of a conversation tells one vring to go on, up to the first request that fails.
pub open spec fn restarts_vring<S, F>(
    device: FsView<S, F>,
    after: Seq<Exchange<S, F>>,
    i: int,
    from: int,
    to: int,
) -> bool {
    &&& from < to <= from + 4
    &&& forall|k: int|
        from <= k < to ==> (#[trigger] after[k]).request == restart_request(device, i, k - from)
    &&& forall|k: int| from <= k < to - 1 ==> (#[trigger] after[k]).reply.error() is None
    &&& to < from + 4 ==> after[to - 1].reply.error() is Some
}

/// A part of a conversation that restarts a vring does so in the whole conversation.
proof fn lemma_restarted<S, F>(
    device: FsView<S, F>,
    before: Seq<Exchange<S, F>>,
    part: Seq<Exchange<S, F>>,
    whole: Seq<Exchange<S, F>>,
    index: usize,
    outcome: Result<(), VhostUserError>,
)
    requires
        crate::exchange::carries_out(before, part, device.restart_plan(index), outcome),
        part.len() <= whole.len(),
        whole.take(part.len() as int) == part,
    ensures
        restarts_vring(device, whole, index as int, before.len() as int, part.len() as int),
        outcome is Err <==> whole[part.len() - 1].reply.error() is Some,
        outcome matches Err(e) ==> e == whole[part.len() - 1].request.error(
            whole[part.len() - 1].reply.error()->0,
        ),
{
    let plan = device.restart_plan(index);
    crate::exchange::law_plans_are_carried_out_in_order(before, part, plan, outcome);
    let from = before.len() as int;
    let to = part.len() as int;
    assert forall|k: int| from <= k < to implies (#[trigger] whole[k]).request
        == restart_request(device, index as int, k - from) by {
        assert(whole[k] == whole.take(to)[k]);
        assert(part[k].request == plan.requests[k - before.len()]);
    }
    assert forall|k: int| from <= k < to - 1 implies (
    #[trigger] whole[k]).reply.error() is None by {
        assert(whole[k] == whole.take(to)[k]);
        assert(part[k].reply.error() is None);
    }
    assert(whole[to - 1] == whole.take(to)[to - 1]);
    assert(part[to - 1] == part.last());
}

/// Resuming a backend goes on as it should.
proof fn lemma_resumed<S, F>(
    device: FsView<S, F>,
    after: Seq<Exchange<S, F>>,
    outcome: Result<(), VhostUserError>,
)
    requires
        device.wf(),
        device.resumes(after, outcome),
    ensures
        goes_on_resumed(device, after, outcome),
{
    lemma_resumed_from(device, device, after, outcome);
}

/// Resuming goes on as it should from any state with the features and queues of a device.
#[verifier::spinoff_prover]
#[verifier::rlimit(60)]
proof fn lemma_resumed_from<S, F>(
    origin: FsView<S, F>,
    device: FsView<S, F>,
    after: Seq<Exchange<S, F>>,
    outcome: Result<(), VhostUserError>,
)
    requires
        origin.wf(),
        device.acked_features == origin.acked_features,
        device.backend_features == origin.backend_features,
        device.resumes(after, outcome),
    ensures
        goes_on_resumed(device, after, outcome),
{
    let start = device.trace.len() as int;
    let last = after.len() - 1;
    let sent = after.drop_last();
    let plans = device.resume_plans();
    let (m1, m2, o1, o2, o3) = crate::exchange::lemma_three_attempts(
        device.trace,
        sent,
        plans,
        outcome,
    );
    lemma_announced(origin);
    assert(device.announced_features() == origin.announced_features());
    crate::exchange::law_plans_are_carried_out_in_order(device.trace, m1, plans[0], o1);
    crate::exchange::law_plans_are_carried_out_in_order(m1, m2, plans[1], o2);
    crate::exchange::law_plans_are_carried_out_in_order(m2, sent, plans[2], o3);
    assert(m1.len() == start + 1);
    let middle = m2.len() as int;
    assert(after.take(last) =~= sent);
    assert(after.take(middle) =~= sent.take(middle));
    assert(after.take(start + 1) =~= m2.take(start + 1));
    assert(after.take(start) =~= m1.take(start));
    lemma_restarted(device, m1, m2, after, 0, o2);
    lemma_restarted(device, m2, sent, after, 1, o3);
    assert(after[start] == after.take(start + 1)[start]);
    assert(m1[start].request == plans[0].requests[start - device.trace.len()]);
    assert(m1.last() == m1[start]);
    assert(restarts_vring(device, after, 0, start + 1, middle));
    assert(restarts_vring(device, after, 1, middle, last));
    if outcome is Err {
        if o1 is Err {
            assert(after[start].reply.error() is Some);
        } else if o2 is Err {
            assert(after[middle - 1].reply.error() is Some);
        } else {
            assert(after[middle - 1].reply.error() is None);
            assert(after[last - 1].reply.error() is Some);
        }
    } else {
        assert(after[middle - 1].reply.error() is None);
        assert(after[last - 1].reply.error() is None);
    }
    assert(first_failure(after, start, last, outcome));
}

/// Finishing a snapshot that failed resumes the backend at once: the features, then both vrings
/// from where their queues stand, with their own notifiers. Nothing is left of the snapshot, and
/// the outcome is an error exactly where a request failed.
pub proof fn law_a_failed_snapshot_resumes_the_backend<T: VhostUserHandleBackend>(
    device: &mut VirtioFs<T>,
    step: Result<FinishStep, VirtioFsError>,
)
    requires
        old(device).wf(),
        old(device)@.snapshot_prepared,
        call_ensures(VirtioFs::<T>::finish_snapshot, (device, false), step),
    ensures
        step matches Ok(next) ==> next is Finished && goes_on_resumed(
            old(device)@,
            final(device)@.trace,
            Ok(()),
        ),
        step matches Err(e) ==> e is VhostUser && goes_on_resumed(
            old(device)@,
            final(device)@.trace,
            Err(e->VhostUser_0),
        ),
        !final(device)@.snapshot_prepared,
        final(device)@.snapshot_dirty_ranges.len() == 0,
        final(device)@.stage is Idle,
        final(device)@.activated,
{
    let d = old(device)@;
    let result = match step {
        Ok(_) => Ok(()),
        Err(e) => Err(e->VhostUser_0),
    };
    lemma_resumed(d, final(device)@.trace, result);
}

/// Finishing a snapshot that succeeded asks for the log to be cleared first, and tells the backend
/// nothing until then. Without a prepared snapshot there is nothing to do.
pub proof fn law_a_successful_snapshot_clears_the_log_first<T: VhostUserHandleBackend>(
    device: &mut VirtioFs<T>,
    step: Result<FinishStep, VirtioFsError>,
)
    requires
        old(device).wf(),
        call_ensures(VirtioFs::<T>::finish_snapshot, (device, true), step),
    ensures
        step is Ok,
        step->Ok_0 is ClearLog <==> old(device)@.snapshot_prepared,
        final(device)@.trace == old(device)@.trace,
        final(device)@.snapshot_prepared == old(device)@.snapshot_prepared,
        final(device)@.stage is Clearing <==> old(device)@.snapshot_prepared
            || old(device)@.stage is Clearing,
{
}

/// Clearing the log of a snapshot sets every byte of it to zero, and tells the backend nothing.
pub proof fn law_clearing_a_snapshot_log_is_silent<T: VhostUserHandleBackend>(
    device: &mut VirtioFs<T>,
    bitmap: &mut [u8],
)
    requires
        call_ensures(VirtioFs::<T>::clear_snapshot_log, (device, bitmap), ()),
    ensures
        final(bitmap)@.len() == old(bitmap)@.len(),
        forall|i: int| 0 <= i < final(bitmap)@.len() ==> #[trigger] final(bitmap)@[i] == 0,
        final(device)@.trace == old(device)@.trace,
        final(device)@.queues == old(device)@.queues,
        final(device)@.snapshot_prepared == old(device)@.snapshot_prepared,
        final(device)@.stage is Cleared,
{
}

/// Once the log is cleared, the backend is resumed like after a snapshot that failed.
pub proof fn law_a_cleared_snapshot_resumes_the_backend<T: VhostUserHandleBackend>(
    device: &mut VirtioFs<T>,
    outcome: Result<(), VirtioFsError>,
)
    requires
        old(device).wf(),
        old(device)@.stage is Cleared,
        call_ensures(VirtioFs::<T>::resume_after_snapshot, (device,), outcome),
    ensures
        outcome is Ok ==> goes_on_resumed(old(device)@, final(device)@.trace, Ok(())),
        outcome matches Err(e) ==> e is VhostUser && goes_on_resumed(
            old(device)@,
            final(device)@.trace,
            Err(e->VhostUser_0),
        ),
        !final(device)@.snapshot_prepared,
        final(device)@.snapshot_dirty_ranges.len() == 0,
        final(device)@.stage is Idle,
        final(device)@.activated,
{
    let d = old(device)@;
    let result = match outcome {
        Ok(_) => Ok(()),
        Err(e) => Err(e->VhostUser_0),
    };
    lemma_resumed(d, final(device)@.trace, result);
}

/// Preparing a snapshot asks for replies and stops both vrings, one after the other: each is
/// disabled and then asked for its index, with which its queue goes on. Nothing else of the queues
/// changes.
#[verifier::spinoff_prover]
#[verifier::rlimit(60)]
pub proof fn law_preparing_stops_every_vring<T: VhostUserHandleBackend>(
    device: &mut VirtioFs<T>,
    deferred_sync: bool,
    step: Result<SnapshotStep, VirtioFsError>,
)
    requires
        old(device).wf(),
        call_ensures(VirtioFs::<T>::prepare_snapshot, (device, deferred_sync), step),
        step is Ok,
    ensures
        old(device)@.activated,
        old(device)@.dirty_logging_armed,
        !old(device)@.snapshot_prepared,
        step->Ok_0 is OpenStateFile,
        final(device)@.stage == (Stage::Stopped { deferred_sync }),
        ({
            let d = old(device)@;
            let start = d.trace.len() as int;
            let after = final(device)@.trace;
            &&& after.len() == start + 5
            &&& after.take(start) == d.trace
            &&& after[start].request == Request::<T::Stream, T::File>::SetHdrFlags { flags: 0x8 }
            &&& after[start + 1].request == Request::<T::Stream, T::File>::SetVringEnable {
                index: 0,
                enable: false,
            }
            &&& after[start + 2].request == Request::<T::Stream, T::File>::GetVringBase {
                index: 0,
            }
            &&& after[start + 3].request == Request::<T::Stream, T::File>::SetVringEnable {
                index: 1,
                enable: false,
            }
            &&& after[start + 4].request == Request::<T::Stream, T::File>::GetVringBase {
                index: 1,
            }
            &&& after[start + 2].reply == Reply::<T::File>::Base(
                Ok(final(device)@.queues[0].next_avail as u32),
            )
            &&& after[start + 4].reply == Reply::<T::File>::Base(
                Ok(final(device)@.queues[1].next_avail as u32),
            )
            &&& final(device)@.queues.len() == 2
            &&& forall|i: int|
                0 <= i < 2 ==> final(device)@.queues[i] == (Queue {
                    next_avail: final(device)@.queues[i].next_avail,
                    ..#[trigger] d.queues[i]
                })
            &&& final(device)@.calls == d.calls
            &&& final(device)@.queue_evts == d.queue_evts
        }),
{
    let d = old(device)@;
    let start = d.trace.len() as int;
    let after = final(device)@.trace;
    let asking = d.with_header(crate::vhost_flags::HEADER_NEED_REPLY);
    let plan = crate::fs_model::stop_all_plan::<T::Stream, T::File>(2);
    reveal_with_fuel(crate::fs_model::stop_all_plan, 3);
    assert(plan.requests.len() == 4);
    crate::exchange::law_plans_are_carried_out_in_order(asking.trace, after, plan, Ok(()));
    assert(after.take(start + 1) == asking.trace);
    assert(after.take(start) =~= asking.trace.take(start));
    assert(asking.trace.take(start) =~= d.trace);
    assert(after[start] == after.take(start + 1)[start]);
    assert(after[start + 1].request == plan.requests[start + 1 - asking.trace.len()]);
    assert(after[start + 2].request == plan.requests[start + 2 - asking.trace.len()]);
    assert(after[start + 3].request == plan.requests[start + 3 - asking.trace.len()]);
    assert(after[start + 4].request == plan.requests[start + 4 - asking.trace.len()]);
    let sent = after.skip(asking.trace.len() as int);
    assert(crate::fs_model::base_answer(sent, 0) is Some);
    assert(crate::fs_model::base_answer(sent, 1) is Some);
    assert(sent[1] == after[start + 2]);
    assert(sent[3] == after[start + 4]);
}

/// A snapshot is refused exactly on a device that is not active, that is already stopped for one,
/// or whose log is not armed. A refusal changes nothing.
#[verifier::spinoff_prover]
#[verifier::rlimit(60)]
pub proof fn law_snapshots_need_an_armed_active_device<T: VhostUserHandleBackend>(
    device: &mut VirtioFs<T>,
    deferred_sync: bool,
    step: Result<SnapshotStep, VirtioFsError>,
)
    requires
        old(device).wf(),
        call_ensures(VirtioFs::<T>::prepare_snapshot, (device, deferred_sync), step),
    ensures
        !old(device)@.activated ==> step is Err && step->Err_0 is NotActivated,
        old(device)@.activated && old(device)@.snapshot_prepared ==> step is Err
            && step->Err_0 is SnapshotAlreadyPrepared,
        old(device)@.activated && !old(device)@.snapshot_prepared
            && !old(device)@.dirty_logging_armed ==> step is Err
            && step->Err_0 is DirtyLogNotArmed,
        !old(device)@.activated || old(device)@.snapshot_prepared
            || !old(device)@.dirty_logging_armed ==> final(device)@ == old(device)@,
        old(device)@.activated && !old(device)@.snapshot_prepared
            && old(device)@.dirty_logging_armed ==> {
            &&& final(device)@.trace.len() > old(device)@.trace.len()
            &&& step matches Err(e) ==> e is VhostUser || e is InvalidVringBase
        },
{
    let d = old(device)@;
    if d.snapshot_refusal() is None {
        let asking = d.with_header(crate::vhost_flags::HEADER_NEED_REPLY);
        if step is Err {
            let at = choose|at: FsView<T::Stream, T::File>| #[trigger]
                asking.drains(at, Err(step->Err_0)) && at.gives_up(final(device)@);
            let outcome = choose|outcome: Result<(), VhostUserError>| #[trigger]
                at.resumes(final(device)@.trace, outcome);
            crate::exchange::lemma_attempts_extend(
                at.trace,
                final(device)@.trace.drop_last(),
                at.resume_plans(),
                outcome,
            );
        }
    }
}

/// The state of the backend is saved into the file that was opened, and the backend's word is
/// waited for.
pub proof fn law_state_is_saved_into_the_file<T: VhostUserHandleBackend>(
    device: &mut VirtioFs<T>,
    file: T::File,
    step: Result<SnapshotStep, VirtioFsError>,
)
    requires
        old(device).wf(),
        call_ensures(VirtioFs::<T>::snapshot_file_opened, (device, Ok(file)), step),
        step is Ok,
    ensures
        step->Ok_0 is CollectDirtyLog,
        ({
            let start = old(device)@.trace.len() as int;
            let after = final(device)@.trace;
            &&& after.len() == start + 2
            &&& after.take(start) == old(device)@.trace
            &&& after[start].request == Request::<T::Stream, T::File>::SetDeviceStateFd {
                direction: VhostTransferStateDirection::Save,
                phase: VhostTransferStatePhase::Stopped,
                file,
            }
            &&& after[start + 1].request == Request::<T::Stream, T::File>::CheckDeviceState
            &&& after[start].reply.error() is None
            &&& after[start + 1].reply.error() is None
        }),
        final(device)@.queues == old(device)@.queues,
        final(device)@.activated == old(device)@.activated,
{
    let d = old(device)@;
    let after = final(device)@.trace;
    let start = d.trace.len() as int;
    let plan = crate::fs_model::transfer_plan::<T::Stream, T::File>(
        VhostTransferStateDirection::Save,
        file,
    );
    crate::exchange::law_plans_are_carried_out_in_order(d.trace, after, plan, Ok(()));
    assert(after[start].request == plan.requests[start - d.trace.len()]);
    assert(after[start + 1].request == plan.requests[start + 1 - d.trace.len()]);
}

/// A snapshot takes with it every guest byte whose page has its bit set in the log, and no other:
/// bit `page % 8` of byte `page / 8`. Only a file that the caller writes back itself is done then.
pub proof fn law_a_snapshot_collects_the_written_pages<T: VhostUserHandleBackend>(
    device: &mut VirtioFs<T>,
    bitmap: &[u8],
    step: SnapshotStep,
    addr: int,
)
    requires
        old(device).wf(),
        call_ensures(VirtioFs::<T>::snapshot_log_read, (device, bitmap), step),
        0 <= addr < old(device)@.dirty_log->0.layout.guest_pages * 4096,
    ensures
        (exists|i: int|
            0 <= i < final(device)@.snapshot_dirty_ranges.len() && (
            #[trigger] final(device)@.snapshot_dirty_ranges[i]).gpa <= addr
                < final(device)@.snapshot_dirty_ranges[i].gpa
                + final(device)@.snapshot_dirty_ranges[i].length) <==> bitmap@[addr / 4096 / 8] & (
        1u8 << ((addr / 4096 % 8) as u8)) != 0,
        step is Finished <==> old(device)@.stage->Transferred_deferred_sync,
        step is Finished || step is SyncStateFile,
        final(device)@.snapshot_prepared <==> step is Finished,
        final(device)@.trace == old(device)@.trace,
{
    let ranges = final(device)@.snapshot_dirty_ranges;
    crate::dirty_log::law_ranges_hold_the_dirty_bytes(
        ranges,
        bitmap@,
        old(device)@.dirty_log->0.layout.guest_pages as int,
        addr,
    );
    if exists|i: int| 0 <= i < ranges.len() && (#[trigger] ranges[i]).holds(addr) {
        let i = choose|i: int| 0 <= i < ranges.len() && (#[trigger] ranges[i]).holds(addr);
        assert(ranges[i].gpa <= addr < ranges[i].gpa + ranges[i].length);
    }
    if exists|i: int|
        0 <= i < ranges.len() && (#[trigger] ranges[i]).gpa <= addr < ranges[i].gpa
            + ranges[i].length {
        let i = choose|i: int|
            0 <= i < ranges.len() && (#[trigger] ranges[i]).gpa <= addr < ranges[i].gpa
                + ranges[i].length;
        assert(ranges[i].holds(addr));
    }
}

/// A state file that reached the disk completes the preparation; one that did not has the backend
/// resumed and the device at rest, with an error that says what failed.
pub proof fn law_an_unsynced_file_gives_the_snapshot_up<T: VhostUserHandleBackend>(
    device: &mut VirtioFs<T>,
    synced: Result<(), SyncError>,
    outcome: Result<(), VirtioFsError>,
)
    requires
        old(device).wf(),
        old(device)@.stage is Written,
        call_ensures(VirtioFs::<T>::snapshot_file_synced, (device, synced), outcome),
    ensures
        outcome is Ok <==> synced is Ok,
        final(device)@.snapshot_prepared <==> synced is Ok,
        final(device)@.stage is Idle,
        synced is Ok ==> final(device)@.trace == old(device)@.trace,
        synced is Err ==> exists|result: Result<(), VhostUserError>| #[trigger]
            goes_on_resumed(old(device)@, final(device)@.trace, result),
        synced matches Err(SyncError::Reopen(cause)) ==> outcome->Err_0 is StateFile
            && outcome->Err_0->source == cause,
        synced matches Err(SyncError::Sync(cause)) ==> outcome->Err_0 is StateFile
            && outcome->Err_0->source == cause,
        final(device)@.snapshot_dirty_ranges == old(device)@.snapshot_dirty_ranges,
{
    if synced is Err {
        let result = choose|result: Result<(), VhostUserError>| #[trigger]
            old(device)@.resumes(final(device)@.trace, result);
        lemma_resumed(old(device)@, final(device)@.trace, result);
    }
}

/// What the backend of a restored device is told, step by step, once its state is there.
pub open spec fn load_request<S, F>(device: FsView<S, F>, file: F, step: int) -> Request<S, F> {
    if step == 0 {
        Request::SetDeviceStateFd {
            direction: VhostTransferStateDirection::Load,
            phase: VhostTransferStatePhase::Stopped,
            file,
        }
    } else if step == 1 {
        Request::CheckDeviceState
    } else if step == 2 {
        Request::SetFeatures { features: device.acked_features | 0x4400_0000 }
    } else if step == 3 {
        Request::SetVringEnable { index: 0, enable: true }
    } else {
        Request::SetVringEnable { index: 1, enable: true }
    }
}

/// Loading goes on step by step.
#[verifier::spinoff_prover]
#[verifier::rlimit(60)]
proof fn lemma_loaded<S, F>(
    device: FsView<S, F>,
    after: Seq<Exchange<S, F>>,
    file: F,
    outcome: Result<(), VhostUserError>,
)
    requires
        device.wf(),
        device.loads(after, file, outcome),
    ensures
        ({
            let start = device.trace.len() as int;
            &&& start < after.len() <= start + 5
            &&& after.take(start) == device.trace
            &&& forall|k: int|
                0 <= k < after.len() - start ==> (#[trigger] after[start + k]).request
                    == load_request(device, file, k)
            &&& after.len() < start + 5 ==> after.len() <= start + 3
                && after.last().reply.error() is Some
            &&& outcome is Ok ==> after.len() == start + 5
            &&& first_failure(after, start, after.len() as int, outcome)
        }),
{
    let start = device.trace.len() as int;
    let plan = device.load_plan(file);
    lemma_announced(device);
    if outcome is Err && crate::exchange::carries_out(device.trace, after, plan, outcome) {
        crate::exchange::law_plans_are_carried_out_in_order(device.trace, after, plan, outcome);
        assert forall|k: int| 0 <= k < after.len() - start implies (
        #[trigger] after[start + k]).request == load_request(device, file, k) by {
            assert(after[start + k].request == plan.requests[start + k - device.trace.len()]);
        }
        assert(after[after.len() - 1].reply.error() is Some);
        assert(first_failure(after, start, after.len() as int, outcome));
    } else {
        let loaded = choose|loaded: Seq<Exchange<S, F>>| #[trigger]
            crate::exchange::carries_out(device.trace, loaded, plan, Ok(()))
                && crate::exchange::attempts(
                loaded,
                after,
                crate::fs_model::enable_plans(),
                outcome,
            );
        let enable = crate::fs_model::enable_plans::<S, F>();
        let (m, o1, o2) = crate::exchange::lemma_two_attempts(loaded, after, enable, outcome);
        crate::exchange::law_plans_are_carried_out_in_order(device.trace, loaded, plan, Ok(()));
        crate::exchange::law_plans_are_carried_out_in_order(loaded, m, enable[0], o1);
        crate::exchange::law_plans_are_carried_out_in_order(m, after, enable[1], o2);
        assert(loaded.len() == start + 3);
        assert(m.len() == start + 4);
        assert(after.len() == start + 5);
        assert(after.take(start + 3) =~= m.take(start + 3));
        assert(after.take(start) =~= loaded.take(start));
        assert(after[start + 3] == after.take(start + 4)[start + 3]);
        assert(m[start + 3].request == enable[0].requests[start + 3 - loaded.len()]);
        assert(after[start + 4].request == enable[1].requests[start + 4 - m.len()]);
        assert forall|k: int| 0 <= k < 3 implies (#[trigger] after[start + k]).request
            == load_request(device, file, k) && after[start + k].reply.error() is None by {
            assert(after[start + k] == after.take(start + 3)[start + k]);
            assert(loaded[start + k].request == plan.requests[start + k - device.trace.len()]);
            assert(k == 2 ==> loaded[start + k] == loaded.last());
        }
        assert(m.last() == m[start + 3]);
        assert(after.last() == after[start + 4]);
        assert forall|k: int| start <= k < start + 3 implies (
        #[trigger] after[k]).reply.error() is None by {
            assert(after[start + (k - start)].reply.error() is None);
        }
        if outcome is Err {
            if o1 is Err {
                assert(after[start + 3].reply.error() is Some);
            } else {
                assert(after[start + 3].reply.error() is None);
                assert(after[start + 4].reply.error() is Some);
            }
        } else {
            assert(after[start + 3].reply.error() is None);
            assert(after[start + 4].reply.error() is None);
        }
        assert(first_failure(after, start, after.len() as int, outcome));
    }
}

/// A restored device loads the state in the file that was opened, waits for the backend's word,
/// announces the features again and only then enables both vrings, each whatever became of the
/// other. It is active exactly where every request succeeded.
#[verifier::spinoff_prover]
#[verifier::rlimit(60)]
pub proof fn law_a_restored_device_loads_before_it_runs<T: VhostUserHandleBackend>(
    device: &mut VirtioFs<T>,
    file: T::File,
    outcome: Result<(), VirtioFsError>,
)
    requires
        old(device).wf(),
        call_ensures(VirtioFs::<T>::load_state, (device, Ok(file)), outcome),
    ensures
        final(device)@.activated <==> outcome is Ok,
        final(device)@.stage is Idle,
        ({
            let d = old(device)@;
            let start = d.trace.len() as int;
            let after = final(device)@.trace;
            let last = after.len() - 1;
            &&& start < last <= start + 5
            &&& after.take(start) == d.trace
            &&& after[last].request == Request::<T::Stream, T::File>::SetHdrFlags { flags: 0 }
            &&& forall|k: int|
                0 <= k < last - start ==> (#[trigger] after[start + k]).request == load_request(
                    d,
                    file,
                    k,
                )
            &&& last < start + 5 ==> last <= start + 3 && after[last - 1].reply.error() is Some
            &&& outcome is Ok ==> last == start + 5 && first_failure(after, start, last, Ok(()))
            &&& outcome matches Err(e) ==> e is VhostUser && first_failure(
                after,
                start,
                last,
                Err(e->VhostUser_0),
            )
        }),
{
    let d = old(device)@;
    let after = final(device)@.trace;
    let sent = after.drop_last();
    let start = d.trace.len() as int;
    let result = match outcome {
        Ok(_) => Ok(()),
        Err(e) => Err(e->VhostUser_0),
    };
    lemma_loaded(d, sent, file, result);
    assert(after.take(start) =~= sent.take(start));
    assert forall|k: int| 0 <= k < sent.len() - start implies #[trigger] after[start + k]
        == sent[start + k] by {}
    assert(sent.last() == after[after.len() - 2]);
    let last = after.len() - 1;
    assert forall|k: int| 0 <= k < last implies #[trigger] after[k] == sent[k] by {}
    if outcome is Err {
        let e = result->Err_0;
        let k = choose|k: int|
            {
                &&& start <= k < last
                &&& (#[trigger] sent[k]).reply.error() is Some
                &&& e == sent[k].request.error(sent[k].reply.error()->0)
                &&& forall|j: int| start <= j < k ==> (#[trigger] sent[j]).reply.error() is None
            };
        assert(after[k].reply.error() is Some);
        assert forall|j: int| start <= j < k implies (
        #[trigger] after[j]).reply.error() is None by {
            assert(sent[j].reply.error() is None);
        }
    } else {
        assert forall|j: int| start <= j < last implies (
        #[trigger] after[j]).reply.error() is None by {
            assert(sent[j].reply.error() is None);
        }
    }
}

/// Where the file with the state could not be opened, the device stays inactive and requests stop
/// asking for replies; nothing else is said.
pub proof fn law_state_that_is_missing_is_not_loaded<T: VhostUserHandleBackend>(
    device: &mut VirtioFs<T>,
    cause: std::io::Error,
    outcome: Result<(), VirtioFsError>,
)
    requires
        old(device).wf(),
        call_ensures(VirtioFs::<T>::load_state, (device, Err(cause)), outcome),
    ensures
        outcome is Err,
        outcome->Err_0 is StateFile,
        outcome->Err_0->source == cause,
        !final(device)@.activated,
        final(device)@.trace == old(device)@.trace.push(final(device)@.trace.last()),
        final(device)@.trace.last().request == (Request::<T::Stream, T::File>::SetHdrFlags {
            flags: 0,
        }),
{
    let after = final(device)@.trace;
    assert(after =~= after.drop_last().push(after.last()));
}

/// Arming the dirty log tells the backend, in this order: the features with the log among them, the
/// protocol features, the memory table of the guest, and the memory of the log. Requests do not ask
/// for replies after it. Only then is the log armed. The log is the one that was made for it, or
/// the one that the device already has.
#[verifier::spinoff_prover]
#[verifier::rlimit(60)]
pub proof fn law_the_log_is_armed_on_guest_memory<T: VhostUserHandleBackend>(
    device: &mut VirtioFs<T>,
    mem: GuestMemoryMmap,
    created: Option<Result<DirtyLog, VirtioFsError>>,
    log: DirtyLog,
    outcome: Result<(), VirtioFsError>,
)
    requires
        old(device).wf(),
        match created {
            Some(made) => made == Ok::<DirtyLog, VirtioFsError>(log),
            None => old(device)@.dirty_log == Some(log),
        },
        old(device)@.protocol_features & !0x003f_ffffu64 == 0,
        call_ensures(VirtioFs::<T>::prepare_dirty_log, (device, &mem, created), outcome),
        outcome is Ok,
    ensures
        final(device)@.dirty_logging_armed,
        final(device)@.dirty_log == Some(log),
        ({
            let d = old(device)@;
            let start = d.trace.len() as int;
            let after = final(device)@.trace;
            &&& after.len() == start + 6
            &&& after.take(start) == d.trace
            &&& after[start].request == Request::<T::Stream, T::File>::SetFeatures {
                features: d.acked_features | 0x4400_0000,
            }
            &&& after[start + 1].request == Request::<T::Stream, T::File>::SetProtocolFeatures {
                features: d.protocol_features,
            }
            &&& after[start + 2].request == Request::<T::Stream, T::File>::SetHdrFlags {
                flags: 0x8,
            }
            &&& after[start + 3].request is SetMemTable
            &&& after[start + 3].request->regions.len() == mem@.len()
            &&& forall|i: int|
                0 <= i < mem@.len() ==> {
                    let entry = after[start + 3].request->regions[i];
                    &&& (#[trigger] mem@[i]).file_offset is Some
                    &&& entry.guest_phys_addr == mem@[i].start_addr
                    &&& entry.memory_size == mem@[i].len
                    &&& entry.userspace_addr == mem@[i].host_addr
                    &&& entry.mmap_offset == mem@[i].file_offset->0.start
                    &&& entry.mmap_handle == mem@[i].file_offset->0.fd
                }
            &&& after[start + 4].request matches Request::SetLogBase { log_base, region }
                && log_base == 0 && region is Some && region->0.mmap_size == log.layout.mmap_len
                && region->0.mmap_offset == 0 && region->0.mmap_handle == log.mmap_handle
            &&& after[start + 5].request == Request::<T::Stream, T::File>::SetHdrFlags { flags: 0 }
        }),
{
    let d = old(device)@;
    let after = final(device)@.trace;
    let sent = after.drop_last();
    let start = d.trace.len() as int;
    lemma_announced(d);
    let acked = d.acked_features;
    let protocol = d.protocol_features;
    assert((acked | 0x4400_0000) & 0x4000_0000 != 0) by (bit_vector);
    assert(protocol & !0x003f_ffffu64 == 0 ==> protocol & 0x003f_ffff == protocol) by (bit_vector);
    assert(0x0008_000bu64 & !protocol == 0 ==> protocol & 0x8 == 0x8) by (bit_vector);
    assert(crate::virtio_fs::REQUIRED_PROTOCOL_FEATURES == 0x0008_000bu64) by {
        assert(0x1u64 | 0x8 | 0x2 | 0x0008_0000 == 0x0008_000b) by (bit_vector);
    }
    let plan = d.arming_plan(mem@, log);
    assert(plan.stop is None);
    assert(plan.requests.len() == 5);
    crate::exchange::law_plans_are_carried_out_in_order(d.trace, sent, plan, Ok(()));
    assert(after.take(start) =~= sent.take(start));
    assert(sent[start].request == plan.requests[start - d.trace.len()]);
    assert(sent[start + 1].request == plan.requests[start + 1 - d.trace.len()]);
    assert(sent[start + 2].request == plan.requests[start + 2 - d.trace.len()]);
    assert(sent[start + 3].request == plan.requests[start + 3 - d.trace.len()]);
    assert(sent[start + 4].request == plan.requests[start + 4 - d.trace.len()]);
    assert forall|k: int| 0 <= k < sent.len() implies after[k] == #[trigger] sent[k] by {}
}

/// What a device offers the guest: exactly the two features that it knows, as far as the backend
/// has them. It can be made exactly where the backend has what is needed and the guest uses nothing
/// that is not offered.
pub proof fn law_the_guest_is_offered_what_the_backend_has(
    backend: u64,
    protocol: u64,
    acked: u64,
    avail: Result<u64, VirtioFsError>,
)
    requires
        call_ensures(
            crate::virtio_fs::check_features,
            (backend, protocol, acked),
            avail,
        ),
    ensures
        avail matches Ok(features) ==> features == backend & 0x1_2000_0000,
        avail is Ok <==> {
            &&& backend & 0x1_4400_0000 == 0x1_4400_0000
            &&& protocol & 0x0008_000b == 0x0008_000b
            &&& acked & !(backend & 0x1_2000_0000) == 0
        },
        avail matches Err(e) ==> match e {
            VirtioFsError::MissingVirtioFeature(name) => {
                ||| name@ == "VIRTIO_F_VERSION_1"@ && backend & 0x1_0000_0000 == 0
                ||| name@ == "VHOST_USER_F_PROTOCOL_FEATURES"@ && backend & 0x4000_0000 == 0
                    && backend & 0x1_0000_0000 != 0
            },
            VirtioFsError::MissingProtocolFeatures(missing) => missing != 0 && missing
                == 0x0008_000b & !protocol,
            VirtioFsError::MissingLogAll => backend & 0x0400_0000 == 0,
            VirtioFsError::IncompatibleBackendFeatures => acked & !(backend & 0x1_2000_0000) != 0,
            _ => false,
        },
{
    assert(crate::virtio_fs::REQUIRED_PROTOCOL_FEATURES == 0x0008_000bu64) by {
        assert(0x1u64 | 0x8 | 0x2 | 0x0008_0000 == 0x0008_000b) by (bit_vector);
    }
    assert(backend & (0x1_0000_0000u64 | 0x2000_0000) & !0x4000_0000u64 == backend
        & 0x1_2000_0000) by (bit_vector);
    assert(backend & 0x1_4400_0000 == 0x1_4400_0000 <==> (backend & 0x1_0000_0000 != 0 && backend
        & 0x4000_0000 != 0 && backend & 0x0400_0000 != 0)) by (bit_vector);
    assert(protocol & 0x0008_000b == 0x0008_000b <==> 0x0008_000b & !protocol == 0)
        by (bit_vector);
}

/// A new device has taken over the connection for two queues, owns the session, and has negotiated:
/// it has the features, and the protocol features, that it asks for and the backend offers.
/// Requests do not ask for replies. The device holds what it was made of, and nothing has happened
/// to it.
#[verifier::spinoff_prover]
#[verifier::rlimit(60)]
pub proof fn law_a_new_device_has_negotiated<T: VhostUserHandleBackend>(
    config: FsConfig,
    sock: T::Stream,
    queues: [Queue; FS_NUM_QUEUES],
    acked: u64,
    path: Option<PathBuf>,
    device: Result<VirtioFs<T>, VirtioFsError>,
)
    requires
        call_ensures(
            VirtioFs::<T>::new_with_state,
            (config, Ok(sock), queues, acked, path),
            device,
        ),
        device is Ok,
    ensures
        ({
            let d = device->Ok_0@;
            let trace = d.trace;
            &&& config.socket_path@.len() > 0
            &&& d.id == config.fs_id@
            &&& d.socket_path == config.socket_path@
            &&& d.queues == queues@
            &&& d.acked_features == acked
            &&& d.restore_state_path == path
            &&& !d.activated && !d.snapshot_prepared && !d.dirty_logging_armed
            &&& d.dirty_log is None
            &&& d.snapshot_dirty_ranges.len() == 0
            &&& d.stage is Idle
            &&& trace.len() == 7
            &&& trace[0].request == Request::<T::Stream, T::File>::FromStream {
                sock,
                max_queue_num: 2,
            }
            &&& trace[1].request == Request::<T::Stream, T::File>::SetOwner
            &&& trace[2].request == Request::<T::Stream, T::File>::GetFeatures
            &&& trace[3].request == Request::<T::Stream, T::File>::GetProtocolFeatures
            &&& trace[4].request == Request::<T::Stream, T::File>::SetProtocolFeatures {
                features: d.protocol_features,
            }
            &&& trace[5].request == Request::<T::Stream, T::File>::SetHdrFlags { flags: 0x8 }
            &&& trace[6].request == Request::<T::Stream, T::File>::SetHdrFlags { flags: 0 }
            &&& trace[2].reply matches Reply::Features(Ok(offered)) && d.backend_features
                == offered & 0x1_6400_0000
            &&& trace[3].reply matches Reply::Features(Ok(offered)) && d.protocol_features
                == offered & 0x0008_000b
            &&& d.avail_features == d.backend_features & 0x1_2000_0000
            &&& acked & !d.avail_features == 0
        }),
{
    let d = device->Ok_0@;
    let sent = d.trace.drop_last();
    let opened = crate::fs_model::opened::<T::Stream, T::File>(sock);
    let rest = sent.skip(opened.len() as int);
    assert(sent == opened + rest);
    assert(crate::virtio_fs::REQUESTED_FEATURES == 0x1_6400_0000u64) by {
        assert((0x1_0000_0000u64 | 0x2000_0000) | 0x4000_0000 | 0x0400_0000 == 0x1_6400_0000)
            by (bit_vector);
    }
    assert(crate::virtio_fs::REQUESTED_PROTOCOL_FEATURES == 0x0008_000bu64) by {
        assert(0x1u64 | 0x8 | 0x2 | 0x0008_0000 == 0x0008_000b) by (bit_vector);
    }
    let backend = d.backend_features;
    let protocol = d.protocol_features;
    assert(0x0008_000bu64 & !protocol == 0 ==> protocol & 0x8 == 0x8) by (bit_vector);
    assert(backend & (0x1_0000_0000u64 | 0x2000_0000) & !0x4000_0000u64 == backend
        & 0x1_2000_0000) by (bit_vector);
    assert forall|x: u64, y: u64| #[trigger] (x & y) == y & x by {
        assert(x & y == y & x) by (bit_vector);
    }
    assert(opened.len() == 2);
    assert(sent[0] == opened[0]);
    assert(sent[1] == opened[1]);
    assert(d.trace[0] == sent[0]);
    assert(d.trace[1] == sent[1]);
    assert(d.trace[2] == rest[0]);
    assert(d.trace[3] == rest[1]);
    assert(d.trace[4] == rest[2]);
    assert(d.trace[5] == rest[3]);
}

/// The guest reads the bytes of the tag, filled up with zeros to its full length, then the number
/// of request queues, which is one, as a little-endian number. What lies beyond is not touched.
pub proof fn law_the_guest_reads_the_tag<T: VhostUserHandleBackend>(
    device: VirtioFs<T>,
    offset: u64,
    data: &mut [u8],
    i: int,
)
    requires
        device.wf(),
        call_ensures(VirtioFs::<T>::read_config, (&device, offset, data), ()),
        0 <= i < old(data)@.len(),
    ensures
        final(data)@.len() == old(data)@.len(),
        final(data)@[i] == if offset + i < 36 {
            device@.tag[offset + i]
        } else if offset + i == 36 {
            1
        } else if offset + i < 40 {
            0
        } else {
            old(data)@[i]
        },
{
    let text = choose|text: Seq<char>| #[trigger]
        crate::fs_config::tag_valid(text) && device@.tag == crate::fs_model::padded(text);
    assert(device@.tag.len() == 36);
}

/// The tag that the guest sees is the text of the configuration, byte for byte, and zeros after it.
pub proof fn law_the_tag_is_the_text<T: VhostUserHandleBackend>(
    device: VirtioFs<T>,
    config: FsConfig,
    i: int,
)
    requires
        device.wf(),
        call_ensures(VirtioFs::<T>::config, (&device,), config),
        0 <= i < 36,
    ensures
        config.fs_id@ == device@.id,
        config.socket_path@ == device@.socket_path,
        device@.tag.len() == 36,
        0 < vstd::utf8::encode_utf8(config.tag@).len() <= 36,
        device@.tag[i] == if i < vstd::utf8::encode_utf8(config.tag@).len() {
            vstd::utf8::encode_utf8(config.tag@)[i]
        } else {
            0
        },
{
}

/// A device gives back the configuration that it was made with.
pub proof fn law_a_new_device_has_its_configuration<T: VhostUserHandleBackend>(
    config: FsConfig,
    sock: Result<T::Stream, std::io::Error>,
    queues: [Queue; FS_NUM_QUEUES],
    acked: u64,
    path: Option<PathBuf>,
    device: VirtioFs<T>,
    reported: FsConfig,
)
    requires
        call_ensures(
            VirtioFs::<T>::new_with_state,
            (config, sock, queues, acked, path),
            Ok(device),
        ),
        call_ensures(VirtioFs::<T>::config, (&device,), reported),
    ensures
        reported.fs_id@ == config.fs_id@,
        reported.socket_path@ == config.socket_path@,
        reported.tag@ == config.tag@,
{
    crate::fs_model::law_tag_determines_text(reported.tag@, config.tag@);
}

/// A device at another point of its conversation.
pub open spec fn having_said<S, F>(device: FsView<S, F>, said: Seq<Exchange<S, F>>) -> FsView<
    S,
    F,
> {
    FsView { trace: said, ..device }
}

/// A state file that cannot be opened, or a backend that cannot save its state, gives the snapshot
/// up: the backend is resumed after what was said, and the device is at rest, unprepared. The error
/// says what failed.
#[verifier::spinoff_prover]
#[verifier::rlimit(60)]
pub proof fn law_an_unsaved_state_gives_the_snapshot_up<T: VhostUserHandleBackend>(
    device: &mut VirtioFs<T>,
    opened: Result<T::File, std::io::Error>,
    step: Result<SnapshotStep, VirtioFsError>,
)
    requires
        old(device).wf(),
        old(device)@.stage is Stopped,
        call_ensures(VirtioFs::<T>::snapshot_file_opened, (device, opened), step),
        step is Err,
    ensures
        final(device)@.stage is Idle,
        !final(device)@.snapshot_prepared,
        final(device)@.activated,
        final(device)@.queues == old(device)@.queues,
        opened matches Err(cause) ==> step->Err_0 is StateFile && step->Err_0->source == cause,
        opened is Ok ==> step->Err_0 is VhostUser,
        exists|
            said: Seq<Exchange<T::Stream, T::File>>,
            result: Result<(), VhostUserError>,
        | #[trigger]
            goes_on_resumed(
                having_said(old(device)@, said),
                final(device)@.trace,
                result,
            ) && said.len() <= old(device)@.trace.len() + 2 && (opened is Err ==> said
                == old(device)@.trace),
{
    let d = old(device)@;
    let said = match opened {
        Err(_) => d.trace,
        Ok(file) => choose|failed: Seq<Exchange<T::Stream, T::File>>| #[trigger]
            crate::exchange::carries_out(
                d.trace,
                failed,
                crate::fs_model::transfer_plan(VhostTransferStateDirection::Save, file),
                Err(step->Err_0->VhostUser_0),
            ) && (FsView { trace: failed, ..d }).gives_up(final(device)@),
    };
    let at = having_said(d, said);
    assert(at =~= d || opened is Ok);
    assert(at.gives_up(final(device)@));
    let result = choose|result: Result<(), VhostUserError>| #[trigger]
        at.resumes(final(device)@.trace, result);
    lemma_resumed_from(d, at, final(device)@.trace, result);
    if opened is Ok {
        crate::exchange::law_plans_are_carried_out_in_order(
            d.trace,
            said,
            crate::fs_model::transfer_plan(VhostTransferStateDirection::Save, opened->Ok_0),
            Err(step->Err_0->VhostUser_0),
        );
    }
    assert(goes_on_resumed(having_said(d, said), final(device)@.trace, result));
}

/// A guest whose queues are not in order does not get the device started: nothing is said to the
/// backend, and nothing changes.
pub proof fn law_broken_queues_are_not_activated<T: VhostUserHandleBackend, E>(
    device: &mut VirtioFs<T>,
    cause: E,
    mem: GuestMemoryMmap,
    calls: [Arc<EventFd>; FS_NUM_QUEUES],
    outcome: Result<Activation, ActivateError<E>>,
)
    requires
        call_ensures(VirtioFs::<T>::activate::<E>, (device, Err(cause), &mem, calls), outcome),
    ensures
        outcome is Err,
        outcome->Err_0 is QueueMemoryError,
        outcome->Err_0->QueueMemoryError_0 == cause,
        final(device)@ == old(device)@,
{
}

/// A log that could not be made leaves the device as it was; a backend that does not take the log
/// leaves it unarmed. Either way requests do not ask for replies.
pub proof fn law_arming_can_fail<T: VhostUserHandleBackend>(
    device: &mut VirtioFs<T>,
    mem: GuestMemoryMmap,
    created: Option<Result<DirtyLog, VirtioFsError>>,
    outcome: Result<(), VirtioFsError>,
)
    requires
        old(device).wf(),
        old(device)@.dirty_log is None <==> created is Some,
        call_ensures(VirtioFs::<T>::prepare_dirty_log, (device, &mem, created), outcome),
    ensures
        created matches Some(Err(e)) ==> outcome == Err::<(), _>(e) && final(device)@
            == old(device)@,
        outcome is Err ==> final(device)@.dirty_logging_armed == old(device)@.dirty_logging_armed,
        outcome is Ok ==> final(device)@.dirty_logging_armed,
        created matches Some(Ok(log)) ==> final(device)@.dirty_log == Some(log),
        created is None ==> final(device)@.dirty_log == old(device)@.dirty_log,
        !(created matches Some(Err(_))) ==> final(device)@.trace.len() > 0
            && final(device)@.trace.last().request == (Request::<
            T::Stream,
            T::File,
        >::SetHdrFlags { flags: 0 }),
        (exists|i: int| 0 <= i < mem@.len() && (#[trigger] mem@[i]).file_offset is None)
            ==> outcome is Err,
        final(device)@.queues == old(device)@.queues,
        final(device)@.activated == old(device)@.activated,
        final(device)@.acked_features == old(device)@.acked_features,
{
    let d = old(device)@;
    if !(created matches Some(Err(_))) && outcome is Ok {
        let log = if created is Some {
            created->0->Ok_0
        } else {
            d.dirty_log->0
        };
        let plan = d.arming_plan(mem@, log);
        crate::exchange::law_plans_are_carried_out_in_order(
            d.trace,
            final(device)@.trace.drop_last(),
            plan,
            Ok(()),
        );
        law_log_is_attached_to_the_memory_table(d, mem@, log);
    }
}

/// What the guest accepts is what the device knows of it, bit for bit; nothing else changes.
pub proof fn law_accepted_features_are_kept<T: VhostUserHandleBackend>(
    device: &mut VirtioFs<T>,
    features: u64,
)
    requires
        call_ensures(VirtioFs::<T>::set_acked_features, (device, features), ()),
    ensures
        final(device)@.acked_features == features,
        final(device)@.avail_features == old(device)@.avail_features,
        final(device)@.trace == old(device)@.trace,
        final(device)@.queues == old(device)@.queues,
        final(device)@.activated == old(device)@.activated,
{
}

/// Writing the configuration space changes nothing.
pub proof fn law_the_configuration_space_is_read_only<T: VhostUserHandleBackend>(
    device: &mut VirtioFs<T>,
    offset: u64,
    data: &[u8],
)
    requires
        call_ensures(VirtioFs::<T>::write_config, (device, offset, data), ()),
    ensures
        final(device)@ == old(device)@,
{
}

/// A device over a session needs both notifiers, and each belongs to its own queue: the first to
/// the high-priority queue, the second to the request queue.
pub proof fn law_each_queue_has_its_notifier<T: VhostUserHandleBackend>(
    config: FsConfig,
    session: crate::vhost_user::VhostUserHandleImpl<T>,
    backend: u64,
    protocol: u64,
    queues: [Queue; FS_NUM_QUEUES],
    acked: u64,
    path: Option<PathBuf>,
    hiprio: Result<EventFd, std::io::Error>,
    request: Result<EventFd, std::io::Error>,
    device: Result<VirtioFs<T>, VirtioFsError>,
)
    requires
        crate::fs_model::checked_features(backend, protocol, acked) is Ok,
        call_ensures(
            VirtioFs::<T>::from_session,
            (config, session, backend, protocol, queues, acked, path, hiprio, request),
            device,
        ),
    ensures
        device is Ok <==> hiprio is Ok && request is Ok,
        device is Ok ==> {
            &&& device->Ok_0@.queue_evts.len() == 2
            &&& device->Ok_0@.queue_evts[0] == hiprio->Ok_0
            &&& device->Ok_0@.queue_evts[1] == request->Ok_0
            &&& device->Ok_0@.backend_features == backend
            &&& device->Ok_0@.protocol_features == protocol
            &&& device->Ok_0@.trace == session.vu.trace()
        },
        hiprio is Err ==> device == Err::<VirtioFs<T>, _>(
            VirtioFsError::EventFd(hiprio->Err_0),
        ),
        hiprio is Ok && request is Err ==> device == Err::<VirtioFs<T>, _>(
            VirtioFsError::EventFd(request->Err_0),
        ),
{
}

/// A snapshot whose vrings do not all stop is given up: the backend is resumed after what was said,
/// with the indices that it has given until then, and the device is at rest. An index that is no
/// 16-bit number is named as the backend gave it.
#[verifier::spinoff_prover]
#[verifier::rlimit(60)]
pub proof fn law_a_vring_that_does_not_stop_gives_the_snapshot_up<T: VhostUserHandleBackend>(
    device: &mut VirtioFs<T>,
    deferred_sync: bool,
    step: Result<SnapshotStep, VirtioFsError>,
)
    requires
        old(device).wf(),
        old(device)@.stage is Idle,
        old(device)@.activated,
        !old(device)@.snapshot_prepared,
        old(device)@.dirty_logging_armed,
        call_ensures(VirtioFs::<T>::prepare_snapshot, (device, deferred_sync), step),
        step is Err,
    ensures
        final(device)@.stage is Idle,
        !final(device)@.snapshot_prepared,
        final(device)@.activated,
        final(device)@.calls == old(device)@.calls,
        final(device)@.queue_evts == old(device)@.queue_evts,
        exists|
            said: Seq<Exchange<T::Stream, T::File>>,
            result: Result<(), VhostUserError>,
        | #[trigger]
            goes_on_resumed(having_said(final(device)@, said), final(device)@.trace, result) && {
                let start = old(device)@.trace.len() as int;
                &&& start + 1 < said.len() <= start + 5
                &&& said[start].request == Request::<T::Stream, T::File>::SetHdrFlags {
                    flags: 0x8,
                }
                &&& step->Err_0 matches VirtioFsError::InvalidVringBase(base) ==> base > 0xffff
                    && said.last().request is GetVringBase && said.last().reply == Reply::<
                    T::File,
                >::Base(Ok(base))
                &&& step->Err_0 matches VirtioFsError::VhostUser(e) ==> said.last().reply.error()
                    is Some && e == said.last().request.error(said.last().reply.error()->0)
                &&& step->Err_0 is InvalidVringBase || step->Err_0 is VhostUser
            },
{
    let d = old(device)@;
    let asking = d.with_header(crate::vhost_flags::HEADER_NEED_REPLY);
    let at = choose|at: FsView<T::Stream, T::File>| #[trigger]
        asking.drains(at, Err(step->Err_0)) && at.gives_up(final(device)@);
    lemma_not_drained(d, at, step->Err_0);
    let result = lemma_given_up(d, at, final(device)@);
    let said = at.trace;
    assert(goes_on_resumed(having_said(final(device)@, said), final(device)@.trace, result));
}

/// Giving a snapshot up resumes the backend of the device as it is then.
proof fn lemma_given_up<S, F>(
    origin: FsView<S, F>,
    at: FsView<S, F>,
    after: FsView<S, F>,
) -> (result: Result<(), VhostUserError>)
    requires
        origin.wf(),
        at.acked_features == origin.acked_features,
        at.backend_features == origin.backend_features,
        at.gives_up(after),
    ensures
        goes_on_resumed(having_said(after, at.trace), after.trace, result),
{
    let result = choose|result: Result<(), VhostUserError>| #[trigger]
        at.resumes(after.trace, result);
    lemma_resumed_from(origin, at, after.trace, result);
    lemma_resumed_stage(at, having_said(after, at.trace), after.trace, result);
    result
}

/// Where vrings were not all stopped, the last answer says why.
#[verifier::spinoff_prover]
#[verifier::rlimit(60)]
proof fn lemma_not_drained<S, F>(device: FsView<S, F>, at: FsView<S, F>, error: VirtioFsError)
    requires
        device.with_header(crate::vhost_flags::HEADER_NEED_REPLY).drains(at, Err(error)),
    ensures
        ({
            let start = device.trace.len() as int;
            let said = at.trace;
            &&& start + 1 < said.len() <= start + 5
            &&& said[start].request == Request::<S, F>::SetHdrFlags { flags: 0x8 }
            &&& error matches VirtioFsError::InvalidVringBase(base) ==> base > 0xffff
                && said.last().request is GetVringBase && said.last().reply == Reply::<F>::Base(
                Ok(base),
            )
            &&& error matches VirtioFsError::VhostUser(e) ==> said.last().reply.error() is Some && e
                == said.last().request.error(said.last().reply.error()->0)
            &&& error is InvalidVringBase || error is VhostUser
        }),
{
    let start = device.trace.len() as int;
    let asking = device.with_header(crate::vhost_flags::HEADER_NEED_REPLY);
    let said = at.trace;
    let sent = said.skip(asking.trace.len() as int);
    reveal_with_fuel(crate::fs_model::stop_all_plan, 3);
    if error is VhostUser {
        crate::exchange::law_plans_are_carried_out_in_order(
            asking.trace,
            said,
            crate::fs_model::stop_all_plan(2),
            Err(error->VhostUser_0),
        );
    } else {
        let k = sent.len() / 2;
        let plan = crate::fs_model::stop_all_plan::<S, F>(k);
        assert(k == 1 || k == 2);
        crate::exchange::law_plans_are_carried_out_in_order(asking.trace, said, plan, Ok(()));
        assert(plan.requests.len() == 2 * k);
        assert(said.last() == sent[2 * (k - 1) + 1]);
        assert(said[said.len() - 1].request == plan.requests[said.len() - 1 - asking.trace.len()]);
    }
    assert(said.take(start + 1) == asking.trace);
    assert(said[start] == said.take(start + 1)[start]);
}

/// How a backend is resumed does not depend on the stage.
proof fn lemma_resumed_stage<S, F>(
    device: FsView<S, F>,
    other: FsView<S, F>,
    after: Seq<Exchange<S, F>>,
    outcome: Result<(), VhostUserError>,
)
    requires
        other == (FsView { stage: other.stage, ..device }),
        goes_on_resumed(device, after, outcome),
    ensures
        goes_on_resumed(other, after, outcome),
{
    let start = device.trace.len() as int;
    let last = after.len() - 1;
    let middle = choose|middle: int| #[trigger]
        restarts_vring(device, after, 0, start + 1, middle) && restarts_vring(
            device,
            after,
            1,
            middle,
            last,
        );
    assert(restarts_vring(other, after, 0, start + 1, middle));
    assert(restarts_vring(other, after, 1, middle, last));
}

/// What a device says of itself is what it is.
pub proof fn law_a_device_tells_what_it_is<T: VhostUserHandleBackend>(
    device: VirtioFs<T>,
    id: &str,
    avail: u64,
    acked: u64,
    queues: &[Queue],
    events: &[EventFd],
    ranges: &[crate::dirty_log::MemoryRange],
    activated: bool,
    prepared: bool,
    logged: bool,
)
    requires
        call_ensures(VirtioFs::<T>::id, (&device,), id),
        call_ensures(VirtioFs::<T>::avail_features, (&device,), avail),
        call_ensures(VirtioFs::<T>::acked_features, (&device,), acked),
        call_ensures(VirtioFs::<T>::queues, (&device,), queues),
        call_ensures(VirtioFs::<T>::queue_events, (&device,), events),
        call_ensures(VirtioFs::<T>::snapshot_dirty_ranges, (&device,), ranges),
        call_ensures(VirtioFs::<T>::is_activated, (&device,), activated),
        call_ensures(VirtioFs::<T>::is_snapshot_prepared, (&device,), prepared),
        call_ensures(VirtioFs::<T>::has_dirty_log, (&device,), logged),
    ensures
        id@ == device@.id,
        avail == device@.avail_features,
        acked == device@.acked_features,
        queues@ == device@.queues,
        events@ == device@.queue_evts,
        ranges@ == device@.snapshot_dirty_ranges,
        activated == device@.activated,
        prepared == device@.snapshot_prepared,
        logged == (device@.dirty_log is Some),
{
}

/// What the driver makes of the queues is what the device has, and nothing else of it changes.
pub proof fn law_the_driver_sets_the_queues<T: VhostUserHandleBackend>(
    device: &mut VirtioFs<T>,
    queues: &mut [Queue],
)
    requires
        call_ensures(VirtioFs::<T>::queues_mut, (device,), queues),
    ensures
        old(queues)@ == old(device)@.queues,
        final(device)@.queues == final(queues)@,
        final(device)@.trace == old(device)@.trace,
        final(device)@.queue_evts == old(device)@.queue_evts,
        final(device)@.activated == old(device)@.activated,
        final(device)@.acked_features == old(device)@.acked_features,
{
}

/// A device is only made from a valid configuration, and that is looked at first; then comes a
/// connection that failed.
pub proof fn law_devices_need_a_configuration_and_a_connection<T: VhostUserHandleBackend>(
    config: FsConfig,
    sock: Result<T::Stream, std::io::Error>,
    queues: [Queue; FS_NUM_QUEUES],
    acked: u64,
    path: Option<PathBuf>,
    checked: Result<(), VirtioFsError>,
    device: Result<VirtioFs<T>, VirtioFsError>,
)
    requires
        call_ensures(VirtioFs::<T>::check_config, (&config,), checked),
        call_ensures(
            VirtioFs::<T>::new_with_state,
            (config, sock, queues, acked, path),
            device,
        ),
    ensures
        checked is Ok <==> config.socket_path@.len() > 0 && 1 <= vstd::utf8::encode_utf8(
            config.tag@,
        ).len() <= 36 && !vstd::utf8::encode_utf8(config.tag@).contains(0u8),
        checked is Err ==> checked->Err_0 is StateFile && device is Err
            && device->Err_0 is StateFile,
        checked is Ok && sock is Err ==> device == Err::<VirtioFs<T>, _>(
            VirtioFsError::VhostUser(VhostUserError::Connect(sock->Err_0)),
        ),
{
    crate::fs_config::lemma_nul_byte(config.tag@);
}

/// A device that is not restored starts without features of the guest and without state to load.
pub proof fn law_a_fresh_device_has_no_past<T: VhostUserHandleBackend>(
    config: FsConfig,
    sock: Result<T::Stream, std::io::Error>,
    queues: [Queue; FS_NUM_QUEUES],
    device: VirtioFs<T>,
)
    requires
        call_ensures(VirtioFs::<T>::new, (config, sock, queues), Ok(device)),
    ensures
        device@.acked_features == 0,
        device@.restore_state_path is None,
        device@.queues == queues@,
        device@.id == config.fs_id@,
        device@.socket_path == config.socket_path@,
        !device@.activated,
        device@.dirty_log is None,
{
}

} // verus!
