//! Snapshot state for the virtio-fs frontend.
use crate::dirty_log::DirtyLog;
use crate::fs_config::FsConfig;
use crate::fs_model::FsView;
use crate::guest_memory::GuestMemoryMmap;
use crate::vhost_user::{Queue, VhostUserHandleBackend};
use crate::virtio_fs::{SnapshotStep, VirtioFs, VirtioFsError, FS_NUM_QUEUES};
use std::path::PathBuf;
use vstd::prelude::*;

verus! {

/// Generic virtio feature and queue state.
#[derive(Debug)]
pub struct VirtioDeviceState {
    /// Features offered to the guest.
    pub avail_features: u64,
    /// Features accepted by the guest.
    pub acked_features: u64,
    /// The virtqueues.
    pub queues: Vec<Queue>,
    /// The guest has activated the device.
    pub activated: bool,
}

/// State of one virtio-fs device in a snapshot.
#[derive(Debug)]
pub struct VirtioFsState {
    /// Generic virtio feature and queue state.
    pub virtio_state: VirtioDeviceState,
    /// Device and backend configuration captured at snapshot time.
    pub config: FsConfig,
    /// Backend state sidecar supplied by the load request.
    pub backend_state_path: Option<PathBuf>,
}

/// Arguments required to restore a virtio-fs device.
#[derive(Clone, Debug)]
pub struct VirtioFsConstructorArgs {
    /// Restored guest memory.
    pub mem: GuestMemoryMmap,
}

/// Errors raised while restoring virtio-fs frontend state. `P` is the error of generic virtio
/// state that is not valid.
#[derive(Debug)]
pub enum VirtioFsPersistError<P> {
    /// Invalid generic virtio state.
    Virtio(P),
    /// Invalid number of queues in virtio-fs state.
    QueueCount,
    /// Failed to reconnect to the virtio-fs backend.
    Backend(VirtioFsError),
    /// Activated virtio-fs snapshot has no backend state sidecar.
    MissingBackendState,
}

impl VirtioDeviceState {
    /// The state is that of a device.
    pub open spec fn captures<S, F>(self, device: FsView<S, F>) -> bool {
        &&& self.avail_features == device.avail_features
        &&& self.acked_features == device.acked_features
        &&& self.queues@ == device.queues
        &&& self.activated == device.activated
    }

    /// Captures the generic state of a device.
    pub fn from_device<T: VhostUserHandleBackend>(device: &VirtioFs<T>) -> (state: Self)
        ensures
            state.captures(device@),
    {
        let source = device.queues();
        let mut queues: Vec<Queue> = Vec::new();
        let mut i: usize = 0;
        while i < source.len()
            invariant
                i <= source@.len(),
                queues@ =~= source@.take(i as int),
            decreases source@.len() - i,
        {
            queues.push(source[i]);
            i += 1;
        }
        assert(source@.take(i as int) =~= source@);
        VirtioDeviceState {
            avail_features: device.avail_features(),
            acked_features: device.acked_features(),
            queues,
            activated: device.is_activated(),
        }
    }
}

impl VirtioFsState {
    /// The state is that of a device: its configuration and its generic state, without a sidecar.
    pub open spec fn captures<S, F>(self, device: FsView<S, F>) -> bool {
        &&& self.virtio_state.captures(device)
        &&& self.config.fs_id@ == device.id
        &&& self.config.socket_path@ == device.socket_path
        &&& crate::fs_config::tag_valid(self.config.tag@)
        &&& crate::fs_model::padded(self.config.tag@) == device.tag
        &&& self.backend_state_path is None
    }

    /// An active device cannot be restored without the state of its backend.
    pub open spec fn lacks_backend_state(self) -> bool {
        self.virtio_state.activated && self.backend_state_path is None
    }

    /// Whether the state of the backend is missing. A program tests this before it opens a
    /// connection for `restore`, which refuses such a state.
    pub fn missing_backend_state(&self) -> (missing: bool)
        ensures
            missing == self.lacks_backend_state(),
    {
        self.virtio_state.activated && self.backend_state_path.is_none()
    }

    /// The queues of the restored device, or why there can be none. `built` are the queues that
    /// were built from the generic state in guest memory.
    pub fn restore_queues<P>(&self, built: Result<Vec<Queue>, P>) -> (queues: Result<
        [Queue; FS_NUM_QUEUES],
        VirtioFsPersistError<P>,
    >)
        ensures
            match self.queues_refusal(built) {
                Some(e) => queues == Err::<[Queue; FS_NUM_QUEUES], _>(e),
                None => queues is Ok && queues->Ok_0@ == built->Ok_0@,
            },
    {
        if self.missing_backend_state() {
            return Err(VirtioFsPersistError::MissingBackendState);
        }
        let queues = match built {
            Ok(queues) => queues,
            Err(e) => {
                return Err(VirtioFsPersistError::Virtio(e));
            },
        };
        if queues.len() != FS_NUM_QUEUES {
            return Err(VirtioFsPersistError::QueueCount);
        }
        let pair: [Queue; FS_NUM_QUEUES] = [queues[0], queues[1]];
        assert(pair@ =~= queues@);
        Ok(pair)
    }

    /// Why the queues of this state cannot be used.
    pub open spec fn queues_refusal<P>(self, built: Result<Vec<Queue>, P>) -> Option<
        VirtioFsPersistError<P>,
    > {
        if self.lacks_backend_state() {
            Some(VirtioFsPersistError::MissingBackendState)
        } else {
            match built {
                Err(e) => Some(VirtioFsPersistError::Virtio(e)),
                Ok(queues) => if queues@.len() != FS_NUM_QUEUES {
                    Some(VirtioFsPersistError::QueueCount)
                } else {
                    None
                },
            }
        }
    }
}

impl<T: VhostUserHandleBackend> VirtioFs<T> {
    /// Captures the state of the device for a snapshot.
    pub fn save(&self) -> (state: VirtioFsState)
        requires
            self.wf(),
        ensures
            state.captures(self@),
    {
        VirtioFsState {
            virtio_state: VirtioDeviceState::from_device(self),
            config: self.config(),
            backend_state_path: None,
        }
    }

    /// Restores a device from a snapshot. `built` are the queues that were built from the generic
    /// state in guest memory, `sock` is the outcome of connecting to the configured socket. The
    /// dirty log comes next.
    pub fn restore<P>(
        state: VirtioFsState,
        built: Result<Vec<Queue>, P>,
        sock: Result<T::Stream, std::io::Error>,
    ) -> (device: Result<Self, VirtioFsPersistError<P>>)
        ensures
            match state.queues_refusal(built) {
                Some(e) => device == Err::<Self, _>(e),
                None => match device {
                    Ok(d) => {
                        &&& crate::fs_model::config_valid(state.config)
                        &&& sock is Ok
                        &&& d.wf()
                        &&& crate::fs_model::created(
                            d@,
                            state.config,
                            sock->Ok_0,
                            built->Ok_0@,
                            state.virtio_state.acked_features,
                            state.backend_state_path,
                        )
                    },
                    Err(VirtioFsPersistError::Backend(e)) => Self::creation_error(
                        state.config,
                        sock,
                        state.virtio_state.acked_features,
                        e,
                    ),
                    Err(_) => false,
                },
            },
    {
        let queues = match state.restore_queues(built) {
            Ok(queues) => queues,
            Err(e) => {
                return Err(e);
            },
        };
        match Self::new_with_state(
            state.config,
            sock,
            queues,
            state.virtio_state.acked_features,
            state.backend_state_path,
        ) {
            Ok(device) => Ok(device),
            Err(e) => Err(VirtioFsPersistError::Backend(e)),
        }
    }

    /// Ends a restore: arms the dirty log of the new device. `created` is the outcome of creating
    /// the shared memory for it.
    pub fn restore_dirty_log<P>(
        device: Self,
        args: &VirtioFsConstructorArgs,
        created: Result<DirtyLog, VirtioFsError>,
    ) -> (armed: Result<Self, VirtioFsPersistError<P>>)
        requires
            device.wf(),
            device@.stage is Idle,
            device@.dirty_log is None,
            args.mem.wf(),
            created matches Ok(log) ==> log.wf() && log.layout.guest_pages
                == crate::dirty_log::log_pages(args.mem@),
        ensures
            match created {
                Err(e) => armed == Err::<Self, _>(VirtioFsPersistError::<P>::Backend(e)),
                Ok(log) => match armed {
                    Ok(d) => {
                        &&& d.wf()
                        &&& device@.same_device(d@)
                        &&& d@ == (FsView {
                            trace: d@.trace,
                            dirty_log: Some(log),
                            dirty_logging_armed: true,
                            ..device@
                        })
                        &&& d@.trace.len() > 0
                        &&& d@.trace.last() == crate::fs_model::header_exchange::<
                            T::Stream,
                            T::File,
                        >(0)
                        &&& crate::exchange::carries_out(
                            device@.trace,
                            d@.trace.drop_last(),
                            device@.arming_plan(args.mem@, log),
                            Ok(()),
                        )
                    },
                    Err(VirtioFsPersistError::Backend(VirtioFsError::VhostUser(e))) => exists|
                        failed: Self,
                    |
                        crate::fs_model::arming_failed(
                            device@,
                            #[trigger] failed@,
                            args.mem@,
                            log,
                            e,
                        ),
                    Err(_) => false,
                },
            },
    {
        let ghost start = device@;
        let mut device = device;
        match device.prepare_dirty_log(&args.mem, Some(created)) {
            Ok(_) => Ok(device),
            Err(e) => {
                assert(created is Ok ==> crate::fs_model::arming_failed(
                    start,
                    device@,
                    args.mem@,
                    created->Ok_0,
                    e->VhostUser_0,
                ));
                Err(VirtioFsPersistError::Backend(e))
            },
        }
    }
}

/// A device that is restored from the state of another one presents the same device to the guest:
/// the same identifier, tag and queues, the features that the guest has accepted, and a socket at
/// the same path.
pub proof fn law_restore_keeps_the_device<S, F>(
    saved: FsView<S, F>,
    state: VirtioFsState,
    restored: FsView<S, F>,
    sock: S,
    path: Option<PathBuf>,
)
    requires
        saved.wf(),
        state.captures(saved),
        crate::fs_model::created(
            restored,
            state.config,
            sock,
            state.virtio_state.queues@,
            state.virtio_state.acked_features,
            path,
        ),
    ensures
        restored.id == saved.id,
        restored.socket_path == saved.socket_path,
        restored.tag == saved.tag,
        restored.queues == saved.queues,
        restored.acked_features == saved.acked_features,
        saved.acked_features & !restored.avail_features == 0,
{
}

/// Saving a device keeps what the guest knows of it: the features, the queues, the configuration,
/// and whether it is active. The state of an active device cannot be restored until the state of
/// its backend is supplied.
pub proof fn law_saving_keeps_the_device<T: VhostUserHandleBackend>(
    device: VirtioFs<T>,
    state: VirtioFsState,
    missing: bool,
)
    requires
        device.wf(),
        call_ensures(VirtioFs::<T>::save, (&device,), state),
        call_ensures(VirtioFsState::missing_backend_state, (&state,), missing),
    ensures
        state.virtio_state.activated == device@.activated,
        state.virtio_state.avail_features == device@.avail_features,
        state.virtio_state.acked_features == device@.acked_features,
        state.virtio_state.queues@ == device@.queues,
        state.config.fs_id@ == device@.id,
        state.config.socket_path@ == device@.socket_path,
        forall|i: int|
            0 <= i < 36 ==> #[trigger] device@.tag[i] == if i < vstd::utf8::encode_utf8(
                state.config.tag@,
            ).len() {
                vstd::utf8::encode_utf8(state.config.tag@)[i]
            } else {
                0
            },
        state.backend_state_path is None,
        missing == device@.activated,
{
}

/// A device that is active stays so while it is stopped for a snapshot, and so does what is saved
/// of it then: such a state is not restored without the state of the backend.
#[verifier::spinoff_prover]
#[verifier::rlimit(60)]
pub proof fn law_a_snapshot_is_saved_as_active<T: VhostUserHandleBackend, P>(
    stopping: &mut VirtioFs<T>,
    saving: &mut VirtioFs<T>,
    collecting: &mut VirtioFs<T>,
    deferred_sync: bool,
    file: T::File,
    bitmap: &[u8],
    stopped: SnapshotStep,
    saved: SnapshotStep,
    collected: SnapshotStep,
    device: VirtioFs<T>,
    state: VirtioFsState,
    built: Result<Vec<Queue>, P>,
    sock: Result<T::Stream, std::io::Error>,
    restored: Result<VirtioFs<T>, VirtioFsPersistError<P>>,
)
    requires
        old(stopping).wf(),
        call_ensures(VirtioFs::<T>::prepare_snapshot, (stopping, deferred_sync), Ok(stopped)),
        old(saving)@ == final(stopping)@,
        call_ensures(VirtioFs::<T>::snapshot_file_opened, (saving, Ok(file)), Ok(saved)),
        old(collecting)@ == final(saving)@,
        call_ensures(VirtioFs::<T>::snapshot_log_read, (collecting, bitmap), collected),
        device@ == final(collecting)@,
        call_ensures(VirtioFs::<T>::save, (&device,), state),
        call_ensures(VirtioFs::<T>::restore::<P>, (state, built, sock), restored),
    ensures
        state.virtio_state.activated,
        state.virtio_state.queues@ == final(stopping)@.queues,
        restored is Err,
        restored->Err_0 is MissingBackendState,
{
}

/// Restoring refuses, in this order, an active device without the state of its backend, queues
/// that could not be built, and another number of queues than two.
pub proof fn law_restore_refuses_what_is_incomplete<T: VhostUserHandleBackend, P>(
    state: VirtioFsState,
    built: Result<Vec<Queue>, P>,
    sock: Result<T::Stream, std::io::Error>,
    device: Result<VirtioFs<T>, VirtioFsPersistError<P>>,
)
    requires
        call_ensures(VirtioFs::<T>::restore::<P>, (state, built, sock), device),
    ensures
        (device is Err && device->Err_0 is MissingBackendState) <==> (state.virtio_state.activated
            && state.backend_state_path is None),
        (device is Err && device->Err_0 is Virtio) <==> (built is Err && !(
        state.virtio_state.activated && state.backend_state_path is None)),
        device is Err && device->Err_0 is Virtio ==> device->Err_0->Virtio_0 == built->Err_0,
        (device is Err && device->Err_0 is QueueCount) <==> (built is Ok && built->Ok_0@.len() != 2
            && !(state.virtio_state.activated && state.backend_state_path is None)),
        sock is Err && built is Ok && built->Ok_0@.len() == 2 && !(state.virtio_state.activated
            && state.backend_state_path is None) ==> device is Err && device->Err_0 is Backend,
{
}

/// A restored device is made of what was saved: the configuration, the queues that were built, the
/// features that the guest has accepted, and the state of the backend, which it has yet to load. It
/// is not active until then.
pub proof fn law_a_restored_device_is_what_was_saved<T: VhostUserHandleBackend, P>(
    state: VirtioFsState,
    built: Result<Vec<Queue>, P>,
    sock: Result<T::Stream, std::io::Error>,
    device: VirtioFs<T>,
)
    requires
        call_ensures(VirtioFs::<T>::restore::<P>, (state, built, sock), Ok(device)),
    ensures
        device@.id == state.config.fs_id@,
        device@.socket_path == state.config.socket_path@,
        device@.queues == built->Ok_0@,
        device@.acked_features == state.virtio_state.acked_features,
        device@.acked_features & !device@.avail_features == 0,
        device@.restore_state_path == state.backend_state_path,
        !device@.activated,
        !device@.snapshot_prepared,
        device@.dirty_log is None,
{
}

/// The queues of a restored device are the two that were built, in their order.
pub proof fn law_restored_queues_are_those_that_were_built<P>(
    state: VirtioFsState,
    built: Vec<Queue>,
    queues: Result<[Queue; FS_NUM_QUEUES], VirtioFsPersistError<P>>,
)
    requires
        call_ensures(VirtioFsState::restore_queues::<P>, (&state, Ok(built)), queues),
    ensures
        queues is Ok <==> built@.len() == 2 && !(state.virtio_state.activated
            && state.backend_state_path is None),
        queues is Ok ==> queues->Ok_0@[0] == built@[0] && queues->Ok_0@[1] == built@[1],
{
}

/// A restored device has the dirty log that was made for it, armed, and is otherwise unchanged.
pub proof fn law_a_restored_device_is_armed<T: VhostUserHandleBackend, P>(
    device: VirtioFs<T>,
    args: VirtioFsConstructorArgs,
    created: Result<DirtyLog, VirtioFsError>,
    armed: Result<VirtioFs<T>, VirtioFsPersistError<P>>,
)
    requires
        call_ensures(VirtioFs::<T>::restore_dirty_log::<P>, (device, &args, created), armed),
    ensures
        created is Err ==> armed == Err::<VirtioFs<T>, _>(
            VirtioFsPersistError::<P>::Backend(created->Err_0),
        ),
        armed is Ok ==> {
            &&& created is Ok
            &&& armed->Ok_0@.dirty_log == Some(created->Ok_0)
            &&& armed->Ok_0@.dirty_logging_armed
            &&& armed->Ok_0@.queues == device@.queues
            &&& armed->Ok_0@.id == device@.id
            &&& armed->Ok_0@.tag == device@.tag
            &&& armed->Ok_0@.acked_features == device@.acked_features
            &&& armed->Ok_0@.restore_state_path == device@.restore_state_path
        },
{
}

} // verus!
