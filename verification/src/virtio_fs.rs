//! A vhost-user virtio-fs frontend.
use crate::dirty_log::{DirtyLog, MemoryRange};
use crate::exchange::{Exchange, Plan, Request};
use crate::fs_config::{FsConfig, FS_TAG_MAX_LEN};
use crate::fs_model::FsView;
use crate::guest_memory::GuestMemoryMmap;
use crate::vhost_user::{
    Queue, QueueSetup, VhostTransferStateDirection, VhostUserError, VhostUserHandleBackend,
    VhostUserHandleImpl,
};
use std::path::PathBuf;
use std::sync::Arc;
use vmm_sys_util::eventfd::EventFd;
use vstd::prelude::*;
use vstd::utf8::*;

verus! {

/// One high-priority queue and one request queue.
pub const FS_NUM_QUEUES: usize = 2;

/// Queue size supported by virtiofsd.
pub const FS_QUEUE_SIZE: u16 = 1024;

/// Number of request queues that the guest is told.
pub const NUM_REQUEST_QUEUES: u32 = 1;

/// Size of the configuration space: the tag and the number of request queues.
pub const FS_CONFIG_SPACE_SIZE: usize = 40;

/// The feature bit of VIRTIO_F_VERSION_1.
pub const VERSION_1_BIT: u64 = 0x1_0000_0000;

/// The feature bit of VIRTIO_RING_F_EVENT_IDX.
pub const EVENT_IDX_BIT: u64 = 0x2000_0000;

/// Features that can be offered to the guest.
pub const AVAILABLE_FEATURES: u64 = VERSION_1_BIT | EVENT_IDX_BIT;

/// Features requested from the backend.
pub const REQUESTED_FEATURES: u64 = AVAILABLE_FEATURES
    | crate::vhost_flags::VHOST_USER_F_PROTOCOL_FEATURES | crate::vhost_flags::VHOST_F_LOG_ALL;

/// Protocol features requested from the backend.
pub const REQUESTED_PROTOCOL_FEATURES: u64 = crate::vhost_flags::PROTOCOL_F_MQ
    | crate::vhost_flags::PROTOCOL_F_REPLY_ACK | crate::vhost_flags::PROTOCOL_F_LOG_SHMFD
    | crate::vhost_flags::PROTOCOL_F_DEVICE_STATE;

/// Protocol features without which the device cannot work.
pub const REQUIRED_PROTOCOL_FEATURES: u64 = crate::vhost_flags::PROTOCOL_F_MQ
    | crate::vhost_flags::PROTOCOL_F_REPLY_ACK | crate::vhost_flags::PROTOCOL_F_LOG_SHMFD
    | crate::vhost_flags::PROTOCOL_F_DEVICE_STATE;

/// Errors raised while creating or operating a virtio-fs device.
#[derive(Debug)]
pub enum VirtioFsError {
    /// Vhost-user operation failed.
    VhostUser(VhostUserError),
    /// Failed to create a queue eventfd.
    EventFd(std::io::Error),
    /// Backend does not provide a required virtio feature.
    MissingVirtioFeature(&'static str),
    /// Backend does not provide the required protocol features of this mask.
    MissingProtocolFeatures(u64),
    /// Backend does not provide VHOST_F_LOG_ALL.
    MissingLogAll,
    /// Snapshot operation requires an activated virtio-fs device.
    NotActivated,
    /// A virtio-fs snapshot operation is already in progress.
    SnapshotAlreadyPrepared,
    /// The virtio-fs dirty log was not armed before snapshot creation.
    DirtyLogNotArmed,
    /// Invalid vring base returned by backend.
    InvalidVringBase(u32),
    /// An operation on the virtio-fs state file failed.
    StateFile {
        /// Operation that failed.
        operation: &'static str,
        /// Underlying I/O error.
        source: std::io::Error,
    },
    /// Restored guest features are not supported by the replacement backend.
    IncompatibleBackendFeatures,
    /// Cannot create the vhost dirty-log memfd.
    DirtyLogMemfd(memfd::Error),
    /// Cannot resize the vhost dirty-log memfd.
    DirtyLogResize(std::io::Error),
    /// Cannot mmap the vhost dirty-log memfd.
    DirtyLogMmap(std::io::Error),
    /// Guest address space is too large for the host dirty-log bitmap.
    DirtyLogSize,
}

/// An operation that waits for the program around the library to work on a file.
#[derive(Clone, Copy, Debug, PartialEq, Eq, Structural)]
pub enum Stage {
    /// No operation is under way.
    Idle,
    /// Activation waits for the file with the restored backend state.
    Loading,
    /// A snapshot waits for its state file.
    Stopped {
        /// The caller writes the file back to disk itself.
        deferred_sync: bool,
    },
    /// A snapshot waits for the bytes of the dirty log.
    Transferred {
        /// The caller writes the file back to disk itself.
        deferred_sync: bool,
    },
    /// A snapshot waits for its state file to reach the disk.
    Written,
    /// A snapshot that succeeded waits for the dirty log to be cleared.
    Clearing,
    /// A snapshot that succeeded waits for the backend to be resumed.
    Cleared,
}

impl Stage {
    /// A snapshot is under way.
    pub open spec fn in_snapshot(self) -> bool {
        self is Stopped || self is Transferred || self is Written
    }

    /// A prepared snapshot is being finished.
    pub open spec fn in_finish(self) -> bool {
        self is Clearing || self is Cleared
    }
}

/// What a snapshot needs next.
#[derive(Clone, Copy, Debug, PartialEq, Eq, Structural)]
pub enum SnapshotStep {
    /// Create the state file and hand it to `snapshot_file_opened`.
    OpenStateFile,
    /// Read the dirty log and hand its bytes to `snapshot_log_read`.
    CollectDirtyLog,
    /// Reopen the state file, write it back to disk and tell `snapshot_file_synced`. The backend
    /// has completed its writes by then.
    SyncStateFile,
    /// Nothing: the snapshot is prepared.
    Finished,
}

/// What finishing a snapshot needs next.
#[derive(Clone, Copy, Debug, PartialEq, Eq, Structural)]
pub enum FinishStep {
    /// Hand the bytes of the dirty log to `clear_snapshot_log`, then call `resume_after_snapshot`.
    ClearLog,
    /// Nothing: the backend is resumed.
    Finished,
}

/// Why the state file did not reach the disk.
#[derive(Debug)]
pub enum SyncError {
    /// It could not be opened again.
    Reopen(std::io::Error),
    /// It could not be written back.
    Sync(std::io::Error),
}

/// What an activation needs next.
#[derive(Debug)]
pub enum Activation {
    /// Nothing: the device is active.
    Done,
    /// Open the file at this path and hand it to `load_state`.
    LoadState(PathBuf),
}

/// Why a device cannot be activated. `E` is the error of a queue whose memory is not valid.
#[derive(Debug)]
pub enum ActivateError<E> {
    /// The memory of a queue is not valid.
    QueueMemoryError(E),
    /// The backend cannot be configured.
    VirtioFs(VirtioFsError),
}

/// `EventFd::new` of the `vmm-sys-util` crate with the flag for non-blocking reads. It asks the
/// operating system for a new notifier, so nothing is claimed of the result.
#[verifier::external_body]
fn nonblocking_eventfd() -> (event: Result<EventFd, std::io::Error>) {
    EventFd::new(libc::EFD_NONBLOCK)
}

/// `std::io::Error::new` with the kind for invalid input. The error is opaque, so nothing is
/// claimed of it.
#[verifier::external_body]
fn invalid_input(text: &str) -> (error: std::io::Error) {
    std::io::Error::new(std::io::ErrorKind::InvalidInput, text)
}

/// `String::from_utf8_lossy`, which gives the text that valid UTF-8 encodes. What it makes of
/// other bytes is left unsaid.
#[verifier::external_body]
fn text_from_utf8(bytes: &[u8]) -> (text: String)
    ensures
        valid_utf8(bytes@) ==> text@ == decode_utf8(bytes@),
{
    String::from_utf8_lossy(bytes).into_owned()
}

/// Decides which features a device can offer the guest, given what was negotiated with the
/// backend. `acked_features` are features that the guest already uses.
pub fn check_features(backend_features: u64, protocol_features: u64, acked_features: u64) -> (avail:
    Result<u64, VirtioFsError>)
    ensures
        avail == crate::fs_model::checked_features(
            backend_features,
            protocol_features,
            acked_features,
        ),
{
    if backend_features & VERSION_1_BIT == 0 {
        return Err(VirtioFsError::MissingVirtioFeature("VIRTIO_F_VERSION_1"));
    }
    if backend_features & crate::vhost_flags::protocol_features_bit() == 0 {
        return Err(VirtioFsError::MissingVirtioFeature("VHOST_USER_F_PROTOCOL_FEATURES"));
    }
    let missing: u64 = required_protocol_features() & !protocol_features;
    if missing != 0 {
        return Err(VirtioFsError::MissingProtocolFeatures(missing));
    }
    if backend_features & crate::vhost_flags::log_all_bit() == 0 {
        return Err(VirtioFsError::MissingLogAll);
    }
    let avail_features: u64 = backend_features & AVAILABLE_FEATURES
        & !crate::vhost_flags::protocol_features_bit();
    if acked_features & !avail_features != 0 {
        return Err(VirtioFsError::IncompatibleBackendFeatures);
    }
    Ok(avail_features)
}

/// The features requested from the backend.
fn requested_features() -> (features: u64)
    ensures
        features == REQUESTED_FEATURES,
{
    AVAILABLE_FEATURES | crate::vhost_flags::protocol_features_bit()
        | crate::vhost_flags::log_all_bit()
}

/// The protocol features requested from the backend, all of which are required.
fn required_protocol_features() -> (features: u64)
    ensures
        features == REQUESTED_PROTOCOL_FEATURES,
        features == REQUIRED_PROTOCOL_FEATURES,
{
    crate::vhost_flags::mq_bit() | crate::vhost_flags::reply_ack_bit()
        | crate::vhost_flags::log_shmfd_bit() | crate::vhost_flags::device_state_bit()
}

/// A text as a tag of fixed length.
fn padded_tag(text: &str) -> (tag: [u8; FS_TAG_MAX_LEN])
    requires
        encode_utf8(text@).len() <= FS_TAG_MAX_LEN,
    ensures
        tag@ == crate::fs_model::padded(text@),
{
    let bytes = text.as_bytes();
    let mut tag: [u8; FS_TAG_MAX_LEN] = [0u8; FS_TAG_MAX_LEN];
    let mut i: usize = 0;
    while i < bytes.len()
        invariant
            i <= bytes@.len() <= FS_TAG_MAX_LEN,
            forall|k: int| 0 <= k < i ==> tag@[k] == bytes@[k],
            forall|k: int| i <= k < FS_TAG_MAX_LEN ==> tag@[k] == 0u8,
        decreases bytes@.len() - i,
    {
        tag[i] = bytes[i];
        i += 1;
    }
    assert(tag@ =~= crate::fs_model::padded(text@));
    tag
}

/// A single virtio-fs device backed by one virtiofsd process.
pub struct VirtioFs<T: VhostUserHandleBackend> {
    id: String,
    socket_path: String,
    tag: [u8; FS_TAG_MAX_LEN],
    vu_handle: VhostUserHandleImpl<T>,
    activated: bool,
    calls: Option<[Arc<EventFd>; FS_NUM_QUEUES]>,
    queues: [Queue; FS_NUM_QUEUES],
    queue_evts: [EventFd; FS_NUM_QUEUES],
    avail_features: u64,
    acked_features: u64,
    backend_features: u64,
    protocol_features: u64,
    restore_state_path: Option<PathBuf>,
    snapshot_prepared: bool,
    dirty_log: Option<DirtyLog>,
    dirty_logging_armed: bool,
    reactivated: Ghost<bool>,
    snapshot_dirty_ranges: Vec<MemoryRange>,
    stage: Stage,
}

impl<T: VhostUserHandleBackend> View for VirtioFs<T> {
    type V = FsView<T::Stream, T::File>;

    closed spec fn view(&self) -> FsView<T::Stream, T::File> {
        FsView {
            id: self.id@,
            socket_path: self.socket_path@,
            handle_path: self.vu_handle.socket_path@,
            tag: self.tag@,
            trace: self.vu_handle.vu.trace(),
            activated: self.activated,
            calls: match self.calls {
                Some(calls) => crate::fs_model::notifiers(calls@),
                None => Seq::empty(),
            },
            queues: self.queues@,
            queue_evts: self.queue_evts@,
            avail_features: self.avail_features,
            acked_features: self.acked_features,
            backend_features: self.backend_features,
            protocol_features: self.protocol_features,
            restore_state_path: self.restore_state_path,
            snapshot_prepared: self.snapshot_prepared,
            dirty_log: self.dirty_log,
            dirty_logging_armed: self.dirty_logging_armed,
            reactivated: self.reactivated@,
            snapshot_dirty_ranges: self.snapshot_dirty_ranges@,
            stage: self.stage,
        }
    }
}

impl<T: VhostUserHandleBackend> VirtioFs<T> {
    /// What holds of every device between two operations.
    pub open spec fn wf(&self) -> bool {
        self@.wf()
    }

    /// Checks a configuration as `new` does, so that a connection is only made for a valid one.
    pub fn check_config(config: &FsConfig) -> (checked: Result<(), VirtioFsError>)
        ensures
            match checked {
                Ok(_) => crate::fs_model::config_valid(*config),
                Err(e) => {
                    &&& !crate::fs_model::config_valid(*config)
                    &&& e matches VirtioFsError::StateFile { operation, .. } && operation@
                        == "validate configuration"@
                },
            },
    {
        match config.validate() {
            Ok(_) => Ok(()),
            Err(_) => Err(
                VirtioFsError::StateFile {
                    operation: "validate configuration",
                    source: invalid_input("invalid virtio-fs configuration"),
                },
            ),
        }
    }

    /// Negotiates the migration-capable protocol with virtiofsd. `sock` is the outcome of
    /// connecting to the configured socket, `queues` are new queues of the size that virtiofsd
    /// supports.
    pub fn new(
        config: FsConfig,
        sock: Result<T::Stream, std::io::Error>,
        queues: [Queue; FS_NUM_QUEUES],
    ) -> (device: Result<Self, VirtioFsError>)
        requires
            crate::fs_model::full_sized(queues@),
        ensures
            match device {
                Ok(d) => {
                    &&& crate::fs_model::config_valid(config)
                    &&& sock is Ok
                    &&& d.wf()
                    &&& crate::fs_model::full_sized(d@.queues)
                    &&& crate::fs_model::created(d@, config, sock->Ok_0, queues@, 0, None)
                },
                Err(e) => Self::creation_error(config, sock, 0, e),
            },
    {
        Self::new_with_state(config, sock, queues, 0, None)
    }

    /// The errors with which creating a device fails. A bad configuration comes first, then a
    /// connection that failed, then what the conversation with a backend leads to.
    pub open spec fn creation_error(
        config: FsConfig,
        sock: Result<T::Stream, std::io::Error>,
        acked_features: u64,
        error: VirtioFsError,
    ) -> bool {
        if !crate::fs_model::config_valid(config) {
            error matches VirtioFsError::StateFile { operation, .. } && operation@
                == "validate configuration"@
        } else {
            match sock {
                Err(e) => error == VirtioFsError::VhostUser(VhostUserError::Connect(e)),
                Ok(stream) => exists|vu: T|
                    crate::fs_model::creation_failed(
                        #[trigger] vu.trace(),
                        stream,
                        acked_features,
                        error,
                    ),
            }
        }
    }

    /// Creates a device whose guest already uses some features, and which loads backend state from
    /// a file when it is activated, if one is given.
    pub fn new_with_state(
        config: FsConfig,
        sock: Result<T::Stream, std::io::Error>,
        queues: [Queue; FS_NUM_QUEUES],
        acked_features: u64,
        restore_state_path: Option<PathBuf>,
    ) -> (device: Result<Self, VirtioFsError>)
        ensures
            match device {
                Ok(d) => {
                    &&& crate::fs_model::config_valid(config)
                    &&& sock is Ok
                    &&& d.wf()
                    &&& crate::fs_model::created(
                        d@,
                        config,
                        sock->Ok_0,
                        queues@,
                        acked_features,
                        restore_state_path,
                    )
                },
                Err(e) => Self::creation_error(config, sock, acked_features, e),
            },
    {
        match Self::check_config(&config) {
            Ok(_) => {},
            Err(e) => {
                return Err(e);
            },
        }
        let mut vu_handle = match VhostUserHandleImpl::<T>::new(
            config.socket_path.as_str(),
            sock,
            FS_NUM_QUEUES as u64,
        ) {
            Ok(handle) => handle,
            Err(e) => {
                return Err(VirtioFsError::VhostUser(e));
            },
        };
        let ghost stream = sock->Ok_0;
        assert(vu_handle.vu.trace() == crate::fs_model::opened::<T::Stream, T::File>(stream));
        let (backend_features, protocol_features) = match vu_handle.negotiate_features(
            requested_features(),
            required_protocol_features(),
        ) {
            Ok(features) => features,
            Err(e) => {
                assert(crate::fs_model::creation_failed(
                    vu_handle.vu.trace(),
                    stream,
                    acked_features,
                    VirtioFsError::VhostUser(e),
                ));
                return Err(VirtioFsError::VhostUser(e));
            },
        };
        let ghost negotiated = vu_handle.vu.trace();
        // Negotiation makes requests ask for replies. A fresh device is activated on a thread that
        // may not wait for them, so requests stay one-way except for migration.
        vu_handle.set_reply_ack_requests(false);
        proof {
            assert(vu_handle.vu.trace().drop_last() =~= negotiated);
            assert(crate::fs_model::negotiation(
                stream,
                negotiated,
                Ok((backend_features, protocol_features)),
            ));
        }
        let ghost settled = vu_handle.vu;
        let device = Self::from_session(
            config,
            vu_handle,
            backend_features,
            protocol_features,
            queues,
            acked_features,
            restore_state_path,
            nonblocking_eventfd(),
            nonblocking_eventfd(),
        );
        proof {
            if device is Ok {
                assert(device->Ok_0@.trace.drop_last() =~= negotiated);
            } else {
                assert(crate::fs_model::creation_failed(
                    settled.trace(),
                    stream,
                    acked_features,
                    device->Err_0,
                ));
            }
        }
        device
    }

    /// Puts a device together over a session that has negotiated these features. The features are
    /// checked first. `hiprio` and `request` are the outcomes of creating the notifiers by which
    /// the guest announces buffers, one for each queue.
    pub fn from_session(
        config: FsConfig,
        session: VhostUserHandleImpl<T>,
        backend_features: u64,
        protocol_features: u64,
        queues: [Queue; FS_NUM_QUEUES],
        acked_features: u64,
        restore_state_path: Option<PathBuf>,
        hiprio: Result<EventFd, std::io::Error>,
        request: Result<EventFd, std::io::Error>,
    ) -> (device: Result<Self, VirtioFsError>)
        requires
            crate::fs_model::config_valid(config),
            session.socket_path@ == config.socket_path@,
            crate::exchange::header_flags(session.vu.trace()) == 0,
        ensures
            match crate::fs_model::checked_features(
                backend_features,
                protocol_features,
                acked_features,
            ) {
                Err(e) => device == Err::<Self, _>(e),
                Ok(avail_features) => match (hiprio, request) {
                    (Err(e), _) => device == Err::<Self, _>(VirtioFsError::EventFd(e)),
                    (Ok(_), Err(e)) => device == Err::<Self, _>(VirtioFsError::EventFd(e)),
                    (Ok(hiprio_evt), Ok(request_evt)) => {
                        &&& device is Ok
                        &&& device->Ok_0.wf()
                        &&& device->Ok_0@ == (FsView {
                            id: config.fs_id@,
                            socket_path: config.socket_path@,
                            handle_path: config.socket_path@,
                            tag: crate::fs_model::padded(config.tag@),
                            trace: session.vu.trace(),
                            activated: false,
                            calls: Seq::empty(),
                            queues: queues@,
                            queue_evts: seq![hiprio_evt, request_evt],
                            avail_features,
                            acked_features,
                            backend_features,
                            protocol_features,
                            restore_state_path,
                            snapshot_prepared: false,
                            dirty_log: None,
                            dirty_logging_armed: false,
                            reactivated: false,
                            snapshot_dirty_ranges: Seq::empty(),
                            stage: Stage::Idle,
                        })
                    },
                },
            },
    {
        let avail_features: u64 = match check_features(
            backend_features,
            protocol_features,
            acked_features,
        ) {
            Ok(features) => features,
            Err(e) => {
                return Err(e);
            },
        };
        let tag = padded_tag(config.tag.as_str());
        let hiprio_evt = match hiprio {
            Ok(event) => event,
            Err(e) => {
                return Err(VirtioFsError::EventFd(e));
            },
        };
        let request_evt = match request {
            Ok(event) => event,
            Err(e) => {
                return Err(VirtioFsError::EventFd(e));
            },
        };
        let device = VirtioFs {
            id: config.fs_id,
            socket_path: config.socket_path,
            tag,
            vu_handle: session,
            activated: false,
            calls: None,
            queues,
            queue_evts: [hiprio_evt, request_evt],
            avail_features,
            acked_features,
            backend_features,
            protocol_features,
            restore_state_path,
            snapshot_prepared: false,
            dirty_log: None,
            dirty_logging_armed: false,
            reactivated: Ghost(false),
            snapshot_dirty_ranges: Vec::new(),
            stage: Stage::Idle,
        };
        proof {
            let avail = avail_features;
            assert(0u64 & !avail == 0) by (bit_vector);
            assert(crate::fs_config::tag_valid(config.tag@));
            assert(device@.queue_evts =~= seq![hiprio_evt, request_evt]);
        }
        Ok(device)
    }

    /// The configuration represented by this device, which is valid.
    pub fn config(&self) -> (config: FsConfig)
        requires
            self.wf(),
        ensures
            config.fs_id@ == self@.id,
            config.socket_path@ == self@.socket_path,
            crate::fs_model::padded(config.tag@) == self@.tag,
            crate::fs_model::config_valid(config),
    {
        let ghost text = choose|text: Seq<char>| #[trigger]
            crate::fs_config::tag_valid(text) && self@.tag == crate::fs_model::padded(text);
        let ghost bytes = encode_utf8(text);
        proof {
            crate::fs_config::lemma_nul_byte(text);
        }
        let mut tag_len: usize = 0;
        while tag_len < FS_TAG_MAX_LEN && self.tag[tag_len] != 0
            invariant
                tag_len <= FS_TAG_MAX_LEN,
                self.tag@ == crate::fs_model::padded(text),
                bytes == encode_utf8(text),
                bytes.len() <= FS_TAG_MAX_LEN,
                !bytes.contains(0u8),
                tag_len <= bytes.len(),
            decreases FS_TAG_MAX_LEN - tag_len,
        {
            tag_len += 1;
        }
        proof {
            if tag_len < bytes.len() {
                assert(self.tag@[tag_len as int] == bytes[tag_len as int]);
            }
            assert(tag_len == bytes.len());
            assert(self.tag@.subrange(0, tag_len as int) =~= bytes);
            encode_utf8_valid_utf8(text);
            encode_utf8_decode_utf8(text);
        }
        let used = vstd::slice::slice_subrange(self.tag.as_slice(), 0, tag_len);
        FsConfig {
            fs_id: self.id.clone(),
            socket_path: self.socket_path.clone(),
            tag: text_from_utf8(used),
        }
    }

    /// Reads the configuration space from `offset` on, as far as it reaches. Bytes of `data`
    /// beyond its end stay as they are.
    pub fn read_config(&self, offset: u64, data: &mut [u8])
        requires
            self.wf(),
        ensures
            final(data)@ == crate::fs_model::read_result(self@.tag, offset as int, old(data)@),
    {
        let mut config: [u8; FS_CONFIG_SPACE_SIZE] = [0u8; FS_CONFIG_SPACE_SIZE];
        let mut i: usize = 0;
        while i < FS_TAG_MAX_LEN
            invariant
                i <= FS_TAG_MAX_LEN,
                self@.tag == self.tag@,
                forall|k: int| 0 <= k < i ==> config@[k] == self.tag@[k],
                forall|k: int| i <= k < FS_CONFIG_SPACE_SIZE ==> config@[k] == 0u8,
            decreases FS_TAG_MAX_LEN - i,
        {
            config[i] = self.tag[i];
            i += 1;
        }
        config[FS_TAG_MAX_LEN] = NUM_REQUEST_QUEUES as u8;
        assert(config@ =~= crate::fs_model::config_space(self@.tag));
        if offset >= FS_CONFIG_SPACE_SIZE as u64 {
            assert(data@ =~= crate::fs_model::read_result(self@.tag, offset as int, old(data)@));
            return ;
        }
        let start: usize = offset as usize;
        let available: usize = FS_CONFIG_SPACE_SIZE - start;
        let count: usize = if data.len() < available {
            data.len()
        } else {
            available
        };
        let mut i: usize = 0;
        while i < count
            invariant
                i <= count <= data@.len(),
                data@.len() == old(data)@.len(),
                start + count <= FS_CONFIG_SPACE_SIZE,
                forall|k: int| 0 <= k < i ==> data@[k] == config@[start + k],
                forall|k: int| i <= k < data@.len() ==> data@[k] == old(data)@[k],
            decreases count - i,
        {
            data[i] = config[start + i];
            i += 1;
        }
        assert(data@ =~= crate::fs_model::read_result(self@.tag, offset as int, old(data)@));
    }

    /// The guest cannot change the configuration space.
    pub fn write_config(&mut self, _offset: u64, _data: &[u8])
        ensures
            *final(self) == *old(self),
    {
    }

    /// Identifier of the device.
    pub fn id(&self) -> (id: &str)
        ensures
            id@ == self@.id,
    {
        self.id.as_str()
    }

    /// Features offered to the guest.
    pub fn avail_features(&self) -> (features: u64)
        ensures
            features == self@.avail_features,
    {
        self.avail_features
    }

    /// Features accepted by the guest.
    pub fn acked_features(&self) -> (features: u64)
        ensures
            features == self@.acked_features,
    {
        self.acked_features
    }

    /// Records the features accepted by the guest.
    pub fn set_acked_features(&mut self, acked_features: u64)
        ensures
            final(self)@ == (FsView { acked_features, ..old(self)@ }),
            old(self)@.same_device(final(self)@),
    {
        self.acked_features = acked_features;
    }

    /// The virtqueues.
    pub fn queues(&self) -> (queues: &[Queue])
        ensures
            queues@ == self@.queues,
    {
        self.queues.as_slice()
    }

    /// The virtqueues, for the driver to configure.
    pub fn queues_mut(&mut self) -> (queues: &mut [Queue])
        ensures
            queues@ == old(self)@.queues,
            final(self)@ == (FsView { queues: final(queues)@, ..old(self)@ }),
            old(self)@.same_device(final(self)@),
    {
        &mut self.queues
    }

    /// The notifiers by which the guest announces buffers.
    pub fn queue_events(&self) -> (events: &[EventFd])
        ensures
            events@ == self@.queue_evts,
    {
        self.queue_evts.as_slice()
    }

    /// Whether the guest has activated the device.
    pub fn is_activated(&self) -> (activated: bool)
        ensures
            activated == self@.activated,
    {
        self.activated
    }

    /// Whether the device has a dirty log.
    pub fn has_dirty_log(&self) -> (has: bool)
        ensures
            has == (self@.dirty_log is Some),
    {
        self.dirty_log.is_some()
    }

    /// Whether a snapshot is prepared and waits to be finished.
    pub fn is_snapshot_prepared(&self) -> (prepared: bool)
        ensures
            prepared == self@.snapshot_prepared,
    {
        self.snapshot_prepared
    }

    /// The operation that waits for the program around the library.
    pub fn stage(&self) -> (stage: Stage)
        ensures
            stage == self@.stage,
    {
        self.stage
    }

    /// Dirty guest-memory ranges written by virtiofsd in the current window.
    pub fn snapshot_dirty_ranges(&self) -> (ranges: &[MemoryRange])
        ensures
            ranges@ == self@.snapshot_dirty_ranges,
    {
        self.snapshot_dirty_ranges.as_slice()
    }

    /// The features of the session without the dirty log.
    fn session_features(&self) -> (features: u64)
        ensures
            features == self@.session_features(),
    {
        self.acked_features | (self.backend_features & crate::vhost_flags::protocol_features_bit())
    }

    /// The features that the backend is told. Vhost-user backends write guest memory unseen by the
    /// hypervisor, so the dirty log stays on for the whole life of the device.
    fn announced_features(&self) -> (features: u64)
        ensures
            features == self@.announced_features(),
    {
        self.session_features() | crate::vhost_flags::log_all_bit()
    }

    /// Enables all vrings, each whatever came of the others.
    fn enable_all_vrings(&mut self) -> (outcome: Result<(), VhostUserError>)
        ensures
            final(self)@ == (FsView { trace: final(self)@.trace, ..old(self)@ }),
            crate::exchange::attempts(
                old(self)@.trace,
                final(self)@.trace,
                crate::fs_model::enable_plans(),
                outcome,
            ),
    {
        let ghost before = self@.trace;
        let hiprio = self.vu_handle.set_vring_enabled(0, true);
        let ghost between = self@.trace;
        let request = self.vu_handle.set_vring_enabled(1, true);
        proof {
            let plans = crate::fs_model::enable_plans();
            crate::exchange::lemma_no_attempts(before);
            crate::exchange::lemma_one_more_attempt(
                before,
                before,
                between,
                Seq::empty(),
                plans[0],
                Ok(()),
                hiprio,
            );
            crate::exchange::lemma_one_more_attempt(
                before,
                between,
                self@.trace,
                Seq::empty().push(plans[0]),
                plans[1],
                hiprio,
                request,
            );
            assert(Seq::empty().push(plans[0]).push(plans[1]) =~= plans);
        }
        match hiprio {
            Ok(_) => request,
            Err(e) => Err(e),
        }
    }

    /// Restarts all vrings from the indices that their queues hold, each whatever came of the
    /// others, with the notifiers of the activation.
    fn restart_all_vrings(&mut self) -> (outcome: Result<(), VhostUserError>)
        requires
            old(self)@.calls.len() == FS_NUM_QUEUES,
        ensures
            final(self)@ == (FsView { trace: final(self)@.trace, ..old(self)@ }),
            crate::exchange::attempts(
                old(self)@.trace,
                final(self)@.trace,
                seq![old(self)@.restart_plan(0), old(self)@.restart_plan(1)],
                outcome,
            ),
    {
        let ghost start = *self;
        let ghost mut plans: Seq<Plan<T::Stream, T::File>> = Seq::empty();
        let mut first: Result<(), VhostUserError> = Ok(());
        proof {
            crate::exchange::lemma_no_attempts(start@.trace);
        }
        let mut index: usize = 0;
        while index < FS_NUM_QUEUES
            invariant
                index <= FS_NUM_QUEUES,
                self@ == (FsView { trace: self@.trace, ..start@ }),
                plans.len() == index,
                forall|i: int|
                    0 <= i < index ==> #[trigger] plans[i] == start@.restart_plan(i as usize),
                start@.calls.len() == FS_NUM_QUEUES,
                crate::exchange::attempts(start@.trace, self@.trace, plans, first),
            decreases FS_NUM_QUEUES - index,
        {
            let ghost between = self@.trace;
            let ghost plan = start@.restart_plan(index);
            assert(self@.queues == start@.queues);
            assert(self@.queue_evts == start@.queue_evts);
            assert(self@.calls == start@.calls);
            let calls = self.calls.as_ref().unwrap();
            let outcome = self.vu_handle.restart_vring(
                index,
                self.queues[index].next_avail,
                &calls[index],
                &self.queue_evts[index],
            );
            proof {
                crate::exchange::lemma_one_more_attempt(
                    start@.trace,
                    between,
                    self@.trace,
                    plans,
                    plan,
                    first,
                    outcome,
                );
                plans = plans.push(plan);
            }
            first = match first {
                Ok(_) => outcome,
                Err(e) => Err(e),
            };
            index += 1;
        }
        proof {
            assert(plans =~= seq![start@.restart_plan(0), start@.restart_plan(1)]);
        }
        first
    }

    /// Restarts a stopped backend as well as it goes and stops asking it for replies. Saving and
    /// loading state use up the backend's premigration worker; announcing the features again
    /// starts the next one, and changes nothing where the worker is still there.
    fn resume_backend(&mut self) -> (outcome: Result<(), VhostUserError>)
        requires
            old(self)@.calls.len() == FS_NUM_QUEUES,
        ensures
            final(self)@ == (FsView { trace: final(self)@.trace, ..old(self)@ }),
            old(self)@.resumes(final(self)@.trace, outcome),
            crate::exchange::header_flags(final(self)@.trace) == 0,
    {
        let ghost start = self@;
        let features: u64 = self.announced_features();
        let announced = self.vu_handle.set_features(features);
        let ghost between = self@;
        let restarted = self.restart_all_vrings();
        let ghost after = self@.trace;
        self.vu_handle.set_reply_ack_requests(false);
        proof {
            let announce = Plan::single(Request::SetFeatures { features });
            let restarts = seq![between.restart_plan(0), between.restart_plan(1)];
            crate::exchange::lemma_no_attempts(start.trace);
            crate::exchange::lemma_one_more_attempt(
                start.trace,
                start.trace,
                between.trace,
                Seq::empty(),
                announce,
                Ok(()),
                announced,
            );
            crate::exchange::lemma_attempts_concat(
                start.trace,
                between.trace,
                after,
                Seq::empty().push(announce),
                restarts,
                announced,
                restarted,
            );
            assert(Seq::empty().push(announce) + restarts =~= start.resume_plans());
            assert(self@.trace.drop_last() =~= after);
        }
        match announced {
            Ok(_) => restarted,
            Err(e) => Err(e),
        }
    }

    /// Transfers backend state through a file and waits for the result.
    fn transfer_state(&mut self, direction: VhostTransferStateDirection, file: T::File) -> (outcome:
        Result<(), VhostUserError>)
        ensures
            final(self)@ == (FsView { trace: final(self)@.trace, ..old(self)@ }),
            crate::exchange::carries_out(
                old(self)@.trace,
                final(self)@.trace,
                crate::fs_model::transfer_plan(direction, file),
                outcome,
            ),
    {
        let ghost start = self@.trace;
        let ghost send = crate::fs_model::transfer_plan::<T::Stream, T::File>(direction, file);
        let ghost first = Plan::single(send.requests[0]);
        let ghost second = Plan::single(Request::<T::Stream, T::File>::CheckDeviceState);
        match self.vu_handle.set_device_state_fd(direction, file) {
            Ok(_) => {},
            Err(e) => {
                proof {
                    crate::exchange::lemma_and_failed(start, self@.trace, first, second, e);
                }
                return Err(e);
            },
        }
        let ghost between = self@.trace;
        let outcome = self.vu_handle.check_device_state();
        proof {
            crate::exchange::lemma_and_then(
                start,
                between,
                self@.trace,
                first,
                second,
                outcome,
            );
        }
        outcome
    }

    /// Gives the backend the memory of the dirty log.
    fn install_dirty_log(&mut self) -> (outcome: Result<(), VhostUserError>)
        requires
            old(self)@.dirty_log is Some,
        ensures
            final(self)@ == (FsView { trace: final(self)@.trace, ..old(self)@ }),
            crate::exchange::carries_out(
                old(self)@.trace,
                final(self)@.trace,
                Plan::single(
                    Request::SetLogBase {
                        log_base: 0,
                        region: Some(old(self)@.dirty_log->0.shared_region()),
                    },
                ),
                outcome,
            ),
    {
        let log: DirtyLog = self.dirty_log.unwrap();
        let region = log.region();
        self.vu_handle.set_log_base(0, region)
    }

    /// Sends the requests that attach the dirty log.
    fn attach_dirty_log(&mut self, mem: &GuestMemoryMmap) -> (outcome: Result<(), VhostUserError>)
        requires
            mem.wf(),
            old(self)@.dirty_log is Some,
        ensures
            final(self)@ == (FsView { trace: final(self)@.trace, ..old(self)@ }),
            crate::exchange::carries_out(
                old(self)@.trace,
                final(self)@.trace,
                old(self)@.arming_plan(mem@, old(self)@.dirty_log->0),
                outcome,
            ),
    {
        let ghost start = self@;
        let features: u64 = self.announced_features();
        let ghost p1: Plan<T::Stream, T::File> = Plan::single(Request::SetFeatures { features });
        let ghost p2 = crate::vhost_user::protocol_features_plan::<T::Stream, T::File>(
            features,
            self.protocol_features,
        );
        let ghost p3 = crate::vhost_user::mem_table_plan::<T::Stream, T::File>(mem@);
        let ghost p4: Plan<T::Stream, T::File> = Plan::single(
            Request::SetLogBase {
                log_base: 0,
                region: Some(self@.dirty_log->0.shared_region()),
            },
        );
        match self.vu_handle.set_features(features) {
            Ok(_) => {},
            Err(e) => {
                proof {
                    crate::exchange::lemma_and_failed(start.trace, self@.trace, p1, p2, e);
                    crate::exchange::lemma_and_failed(start.trace, self@.trace, p1.and(p2), p3, e);
                    crate::exchange::lemma_and_failed(
                        start.trace,
                        self@.trace,
                        p1.and(p2).and(p3),
                        p4,
                        e,
                    );
                }
                return Err(e);
            },
        }
        let ghost t1 = self@.trace;
        let outcome = self.vu_handle.set_protocol_features(features, self.protocol_features);
        let ghost t2 = self@.trace;
        proof {
            crate::exchange::lemma_and_then(start.trace, t1, t2, p1, p2, outcome);
        }
        match outcome {
            Ok(_) => {},
            Err(e) => {
                proof {
                    crate::exchange::lemma_and_failed(start.trace, t2, p1.and(p2), p3, e);
                    crate::exchange::lemma_and_failed(start.trace, t2, p1.and(p2).and(p3), p4, e);
                }
                return Err(e);
            },
        }
        let outcome = self.vu_handle.update_mem_table(mem);
        let ghost t3 = self@.trace;
        proof {
            crate::exchange::lemma_and_then(start.trace, t2, t3, p1.and(p2), p3, outcome);
        }
        match outcome {
            Ok(_) => {},
            Err(e) => {
                proof {
                    crate::exchange::lemma_and_failed(start.trace, t3, p1.and(p2).and(p3), p4, e);
                }
                return Err(e);
            },
        }
        let outcome = self.install_dirty_log();
        proof {
            crate::exchange::lemma_and_then(
                start.trace,
                t3,
                self@.trace,
                p1.and(p2).and(p3),
                p4,
                outcome,
            );
        }
        outcome
    }

    /// Configures lifetime dirty logging while the machine is built. `created` is the outcome of
    /// creating the shared memory for the log, where the device does not have it yet.
    ///
    /// Installing the log is always answered, so it happens here and not on activation, which runs
    /// on a thread that may not wait for answers.
    pub fn prepare_dirty_log(
        &mut self,
        mem: &GuestMemoryMmap,
        created: Option<Result<DirtyLog, VirtioFsError>>,
    ) -> (outcome: Result<(), VirtioFsError>)
        requires
            old(self).wf(),
            old(self)@.stage is Idle,
            mem.wf(),
            old(self)@.dirty_log is None <==> created is Some,
            created matches Some(Ok(log)) ==> log.wf() && log.layout.guest_pages
                == crate::dirty_log::log_pages(mem@),
        ensures
            final(self).wf(),
            old(self)@.same_device(final(self)@),
            match created {
                Some(Err(e)) => outcome == Err::<(), _>(e) && final(self)@ == old(self)@,
                _ => {
                    let log = if created is Some {
                        created->0->Ok_0
                    } else {
                        old(self)@.dirty_log->0
                    };
                    let before = old(self)@.trace;
                    let after = final(self)@.trace;
                    &&& final(self)@ == (FsView {
                        trace: after,
                        dirty_log: Some(log),
                        dirty_logging_armed: old(self)@.dirty_logging_armed || outcome is Ok,
                        ..old(self)@
                    })
                    &&& after.len() > 0
                    &&& after.last() == crate::fs_model::header_exchange::<T::Stream, T::File>(0)
                    &&& outcome is Ok ==> crate::exchange::carries_out(
                        before,
                        after.drop_last(),
                        old(self)@.arming_plan(mem@, log),
                        Ok(()),
                    )
                    &&& outcome matches Err(e) ==> e matches VirtioFsError::VhostUser(cause)
                        && crate::exchange::carries_out(
                        before,
                        after.drop_last(),
                        old(self)@.arming_plan(mem@, log),
                        Err(cause),
                    )
                },
            },
    {
        match created {
            Some(Ok(log)) => {
                self.dirty_log = Some(log);
            },
            Some(Err(e)) => {
                return Err(e);
            },
            None => {},
        }
        let ghost start = self@;
        let outcome = self.attach_dirty_log(mem);
        let ghost attached = self@;
        self.vu_handle.set_reply_ack_requests(false);
        proof {
            assert(self@.trace.drop_last() =~= attached.trace);
            if start.snapshot_prepared && !start.reactivated {
                crate::fs_model::lemma_arming_switches_nothing(start, mem@, start.dirty_log->0);
                crate::fs_model::lemma_stays_stopped(
                    start,
                    attached,
                    start.arming_plan(mem@, start.dirty_log->0),
                    outcome,
                );
                crate::fs_model::lemma_header_keeps_stopped(attached, 0);
            }
        }
        match outcome {
            Ok(_) => {
                self.dirty_logging_armed = true;
                Ok(())
            },
            Err(e) => Err(VirtioFsError::VhostUser(e)),
        }
    }

    /// Stops all vrings and takes over the indices that the backend gives for them.
    #[verifier::spinoff_prover]
    #[verifier::rlimit(50)]
    fn drain_vrings(&mut self) -> (outcome: Result<(), VirtioFsError>)
        ensures
            old(self)@.drains(final(self)@, outcome),
    {
        let ghost start = self@;
        proof {
            crate::exchange::lemma_nothing(start.trace);
            crate::exchange::lemma_grown(start.trace, start.trace, Seq::empty());
            assert(crate::fs_model::stopped_queues(
                start.queues,
                Seq::<Exchange<T::Stream, T::File>>::empty(),
            ) =~= start.queues);
        }
        let mut index: usize = 0;
        while index < FS_NUM_QUEUES
            invariant
                index <= FS_NUM_QUEUES,
                start == old(self)@,
                start.queues.len() == FS_NUM_QUEUES,
                self@ == (FsView {
                    trace: self@.trace,
                    queues: crate::fs_model::stopped_queues(
                        start.queues,
                        self@.trace.skip(start.trace.len() as int),
                    ),
                    ..start
                }),
                crate::exchange::carries_out(
                    start.trace,
                    self@.trace,
                    crate::fs_model::stop_all_plan(index as nat),
                    Ok(()),
                ),
                self@.trace.len() == start.trace.len() + 2 * index,
                crate::fs_model::bases_fit(
                    self@.trace.skip(start.trace.len() as int),
                    index as int,
                ),
            decreases FS_NUM_QUEUES - index,
        {
            let ghost between = self@;
            let stopped = self.vu_handle.stop_vring(index);
            proof {
                crate::fs_model::lemma_one_more_stopped(
                    start,
                    between,
                    self@.trace,
                    index,
                    crate::exchange::valueless(stopped),
                );
            }
            let base: u32 = match stopped {
                Ok(base) => base,
                Err(e) => {
                    return Err(VirtioFsError::VhostUser(e));
                },
            };
            if base > u16::MAX as u32 {
                assert(between.queues.update(index as int, between.queues[index as int])
                    =~= between.queues);
                return Err(VirtioFsError::InvalidVringBase(base));
            }
            self.queues[index].next_avail = base as u16;
            index += 1;
        }
        Ok(())
    }

    /// Gives a snapshot up: restarts the backend as well as it goes.
    fn give_up_snapshot(&mut self)
        requires
            old(self)@.calls.len() == FS_NUM_QUEUES,
        ensures
            old(self)@.gives_up(final(self)@),
            crate::exchange::header_flags(final(self)@.trace) == 0,
    {
        let ghost start = self@;
        self.stage = Stage::Idle;
        let ghost idle = self@;
        let outcome = self.resume_backend();
        proof {
            assert(start.resume_plans() =~= idle.resume_plans());
            assert(start.resumes(self@.trace, outcome));
        }
    }

    /// Starts a snapshot: stops and drains the vrings. The state file comes next.
    pub fn prepare_snapshot(&mut self, deferred_sync: bool) -> (step: Result<
        SnapshotStep,
        VirtioFsError,
    >)
        requires
            old(self).wf(),
            old(self)@.stage is Idle,
        ensures
            final(self).wf(),
            old(self)@.same_device(final(self)@),
            match old(self)@.snapshot_refusal() {
                Some(e) => step == Err::<SnapshotStep, _>(e) && final(self)@ == old(self)@,
                None => {
                    let asking = old(self)@.with_header(crate::vhost_flags::HEADER_NEED_REPLY);
                    match step {
                        Ok(next) => {
                            &&& next is OpenStateFile
                            &&& final(self)@.stage == Stage::Stopped { deferred_sync }
                            &&& asking.drains(
                                FsView { stage: Stage::Idle, ..final(self)@ },
                                Ok(()),
                            )
                        },
                        Err(e) => exists|at: FsView<T::Stream, T::File>| #[trigger]
                            asking.drains(at, Err(e)) && at.gives_up(final(self)@),
                    }
                },
            },
    {
        if !self.activated {
            return Err(VirtioFsError::NotActivated);
        }
        if self.snapshot_prepared {
            return Err(VirtioFsError::SnapshotAlreadyPrepared);
        }
        if !self.dirty_logging_armed {
            return Err(VirtioFsError::DirtyLogNotArmed);
        }
        let ghost start = self@;
        self.vu_handle.set_reply_ack_requests(true);
        let ghost asking = self@;
        assert(asking =~= start.with_header(crate::vhost_flags::HEADER_NEED_REPLY));
        match self.drain_vrings() {
            Ok(_) => {
                let ghost drained = self@;
                proof {
                    crate::fs_model::lemma_drained(asking, drained);
                }
                self.stage = Stage::Stopped { deferred_sync };
                assert((FsView { stage: Stage::Idle, ..self@ }) =~= drained);
                Ok(SnapshotStep::OpenStateFile)
            },
            Err(e) => {
                let ghost at = self@;
                self.give_up_snapshot();
                assert(asking.drains(at, Err(e)));
                Err(e)
            },
        }
    }

    /// Goes on with a snapshot once its state file was opened, or could not be: saves the backend
    /// state into the file. The dirty log comes next.
    pub fn snapshot_file_opened(&mut self, opened: Result<T::File, std::io::Error>) -> (step:
        Result<SnapshotStep, VirtioFsError>)
        requires
            old(self).wf(),
            old(self)@.stage is Stopped,
        ensures
            final(self).wf(),
            old(self)@.same_device(final(self)@),
            match opened {
                Err(source) => {
                    &&& step == Err::<SnapshotStep, _>(
                        VirtioFsError::StateFile { operation: "open", source },
                    )
                    &&& old(self)@.gives_up(final(self)@)
                },
                Ok(file) => {
                    let plan = crate::fs_model::transfer_plan(
                        VhostTransferStateDirection::Save,
                        file,
                    );
                    match step {
                        Ok(next) => {
                            &&& next is CollectDirtyLog
                            &&& crate::exchange::carries_out(
                                old(self)@.trace,
                                final(self)@.trace,
                                plan,
                                Ok(()),
                            )
                            &&& final(self)@ == (FsView {
                                trace: final(self)@.trace,
                                stage: Stage::Transferred {
                                    deferred_sync: old(self)@.stage->Stopped_deferred_sync,
                                },
                                ..old(self)@
                            })
                        },
                        Err(VirtioFsError::VhostUser(e)) => exists|
                            failed: Seq<Exchange<T::Stream, T::File>>,
                        | #[trigger]
                            crate::exchange::carries_out(old(self)@.trace, failed, plan, Err(e))
                                && (FsView { trace: failed, ..old(self)@ }).gives_up(
                                final(self)@,
                            ),
                        Err(_) => false,
                    }
                },
            },
    {
        let deferred_sync: bool = match self.stage {
            Stage::Stopped { deferred_sync } => deferred_sync,
            _ => false,
        };
        let file = match opened {
            Ok(file) => file,
            Err(source) => {
                self.give_up_snapshot();
                return Err(VirtioFsError::StateFile { operation: "open", source });
            },
        };
        let ghost start = self@;
        match self.transfer_state(VhostTransferStateDirection::Save, file) {
            Ok(_) => {
                proof {
                    crate::fs_model::lemma_stays_stopped(
                        start,
                        self@,
                        crate::fs_model::transfer_plan(VhostTransferStateDirection::Save, file),
                        Ok(()),
                    );
                }
                self.stage = Stage::Transferred { deferred_sync };
                Ok(SnapshotStep::CollectDirtyLog)
            },
            Err(e) => {
                let ghost at = self@;
                assert(at =~= (FsView { trace: at.trace, ..start }));
                self.give_up_snapshot();
                Err(VirtioFsError::VhostUser(e))
            },
        }
    }

    /// Goes on with a snapshot once the bytes of the dirty log were read. The snapshot is then
    /// prepared, unless its file has to reach the disk first.
    pub fn snapshot_log_read(&mut self, bitmap: &[u8]) -> (step: SnapshotStep)
        requires
            old(self).wf(),
            old(self)@.stage is Transferred,
            bitmap@.len() == old(self)@.dirty_log->0.layout.mmap_len,
            old(self)@.dirty_log->0.ranges_fit(bitmap@),
        ensures
            final(self).wf(),
            old(self)@.same_device(final(self)@),
            ({
                let deferred_sync = old(self)@.stage->Transferred_deferred_sync;
                &&& step == if deferred_sync {
                    SnapshotStep::Finished
                } else {
                    SnapshotStep::SyncStateFile
                }
                &&& final(self)@ == (FsView {
                    snapshot_dirty_ranges: final(self)@.snapshot_dirty_ranges,
                    snapshot_prepared: deferred_sync,
                    stage: if deferred_sync {
                        Stage::Idle
                    } else {
                        Stage::Written
                    },
                    ..old(self)@
                })
            }),
            crate::dirty_log::describes(
                final(self)@.snapshot_dirty_ranges,
                bitmap@,
                old(self)@.dirty_log->0.layout.guest_pages as int,
            ),
    {
        let log: DirtyLog = self.dirty_log.unwrap();
        self.snapshot_dirty_ranges = log.ranges(bitmap);
        let deferred_sync: bool = match self.stage {
            Stage::Transferred { deferred_sync } => deferred_sync,
            _ => false,
        };
        if deferred_sync {
            self.snapshot_prepared = true;
            self.stage = Stage::Idle;
            SnapshotStep::Finished
        } else {
            self.stage = Stage::Written;
            SnapshotStep::SyncStateFile
        }
    }

    /// Ends the preparation of a snapshot once its file has reached the disk, or has not.
    pub fn snapshot_file_synced(&mut self, synced: Result<(), SyncError>) -> (outcome: Result<
        (),
        VirtioFsError,
    >)
        requires
            old(self).wf(),
            old(self)@.stage is Written,
        ensures
            final(self).wf(),
            old(self)@.same_device(final(self)@),
            match synced {
                Ok(_) => {
                    &&& outcome is Ok
                    &&& final(self)@ == (FsView {
                        snapshot_prepared: true,
                        stage: Stage::Idle,
                        ..old(self)@
                    })
                },
                Err(e) => {
                    &&& outcome == Err::<(), _>(
                        match e {
                            SyncError::Reopen(source) => VirtioFsError::StateFile {
                                operation: "reopen for sync",
                                source,
                            },
                            SyncError::Sync(source) => VirtioFsError::StateFile {
                                operation: "sync",
                                source,
                            },
                        },
                    )
                    &&& old(self)@.gives_up(final(self)@)
                },
            },
    {
        match synced {
            Ok(_) => {
                self.snapshot_prepared = true;
                self.stage = Stage::Idle;
                Ok(())
            },
            Err(SyncError::Reopen(source)) => {
                self.give_up_snapshot();
                Err(VirtioFsError::StateFile { operation: "reopen for sync", source })
            },
            Err(SyncError::Sync(source)) => {
                self.give_up_snapshot();
                Err(VirtioFsError::StateFile { operation: "sync", source })
            },
        }
    }

    /// Resumes a backend that was stopped for a snapshot, and forgets the snapshot.
    fn end_snapshot(&mut self) -> (outcome: Result<(), VirtioFsError>)
        requires
            old(self).wf(),
            old(self)@.snapshot_prepared,
        ensures
            final(self).wf(),
            old(self)@.ends_snapshot(final(self)@, outcome),
    {
        let outcome = self.resume_backend();
        self.snapshot_prepared = false;
        self.reactivated = Ghost(false);
        self.snapshot_dirty_ranges = Vec::new();
        self.stage = Stage::Idle;
        match outcome {
            Ok(unit) => {
                assert(unit == ());
                Ok(())
            },
            Err(e) => Err(VirtioFsError::VhostUser(e)),
        }
    }

    /// Finishes a snapshot, successful or not: resumes the source backend. Where the snapshot
    /// succeeded, the dirty log has to start anew before that, so that no write of the backend is
    /// lost. Otherwise the log keeps what the backend has written.
    pub fn finish_snapshot(&mut self, snapshot_succeeded: bool) -> (step: Result<
        FinishStep,
        VirtioFsError,
    >)
        requires
            old(self).wf(),
            old(self)@.stage is Idle,
        ensures
            final(self).wf(),
            old(self)@.same_device(final(self)@),
            if !old(self)@.snapshot_prepared {
                &&& step == Ok::<_, VirtioFsError>(FinishStep::Finished)
                &&& final(self)@ == old(self)@
            } else if snapshot_succeeded {
                &&& step == Ok::<_, VirtioFsError>(FinishStep::ClearLog)
                &&& final(self)@ == (FsView { stage: Stage::Clearing, ..old(self)@ })
            } else {
                match step {
                    Ok(next) => next is Finished && old(self)@.ends_snapshot(final(self)@, Ok(())),
                    Err(e) => old(self)@.ends_snapshot(final(self)@, Err(e)),
                }
            },
    {
        if !self.snapshot_prepared {
            return Ok(FinishStep::Finished);
        }
        if snapshot_succeeded {
            self.stage = Stage::Clearing;
            return Ok(FinishStep::ClearLog);
        }
        match self.end_snapshot() {
            Ok(unit) => {
                assert(unit == ());
                Ok(FinishStep::Finished)
            },
            Err(e) => Err(e),
        }
    }

    /// Goes on with finishing a snapshot that succeeded: clears the dirty log, whose bytes are
    /// `bitmap`. The backend is not told anything, so its vrings stay stopped.
    pub fn clear_snapshot_log(&mut self, bitmap: &mut [u8])
        requires
            old(self).wf(),
            old(self)@.stage is Clearing,
            old(bitmap)@.len() == old(self)@.dirty_log->0.layout.mmap_len,
        ensures
            final(self).wf(),
            old(self)@.same_device(final(self)@),
            final(bitmap)@ == Seq::new(old(bitmap)@.len(), |i: int| 0u8),
            final(self)@ == (FsView { stage: Stage::Cleared, ..old(self)@ }),
    {
        let log: DirtyLog = self.dirty_log.unwrap();
        log.clear(bitmap);
        self.stage = Stage::Cleared;
    }

    /// Ends a snapshot that succeeded, once the dirty log was cleared: resumes the source backend.
    pub fn resume_after_snapshot(&mut self) -> (outcome: Result<(), VirtioFsError>)
        requires
            old(self).wf(),
            old(self)@.stage is Cleared,
        ensures
            final(self).wf(),
            old(self)@.same_device(final(self)@),
            old(self)@.ends_snapshot(final(self)@, outcome),
    {
        self.end_snapshot()
    }

    /// Configures a backend that has no state to load.
    fn configure_fresh(
        &mut self,
        mem: &GuestMemoryMmap,
        calls: &[Arc<EventFd>; FS_NUM_QUEUES],
    ) -> (outcome: Result<(), VhostUserError>)
        requires
            mem.wf(),
        ensures
            final(self)@ == (FsView { trace: final(self)@.trace, ..old(self)@ }),
            crate::exchange::carries_out(
                old(self)@.trace,
                final(self)@.trace,
                old(self)@.activation_plan(*mem, crate::fs_model::notifiers(calls@)),
                outcome,
            ),
    {
        let ghost start = self@;
        let features: u64 = self.announced_features();
        let ghost announce: Plan<T::Stream, T::File> = Plan::single(
            Request::SetFeatures { features },
        );
        let ghost specified = start.setups(crate::fs_model::notifiers(calls@));
        let ghost rest = crate::vhost_user::stopped_plan::<T::Stream, T::File>(
            *mem,
            specified,
        ).and(crate::vhost_user::enable_plan(specified, specified.len()));
        match self.vu_handle.set_features(features) {
            Ok(_) => {},
            Err(e) => {
                proof {
                    crate::exchange::lemma_and_failed(start.trace, self@.trace, announce, rest, e);
                }
                return Err(e);
            },
        }
        let ghost announced = self@.trace;
        let setups = [
            QueueSetup {
                index: 0,
                queue: &self.queues[0],
                kick: &self.queue_evts[0],
                call: &calls[0],
            },
            QueueSetup {
                index: 1,
                queue: &self.queues[1],
                kick: &self.queue_evts[1],
                call: &calls[1],
            },
        ];
        assert(setups@ =~= specified);
        let outcome = self.vu_handle.setup_backend_after_mem_table(mem, setups.as_slice());
        proof {
            crate::exchange::lemma_and_then(
                start.trace,
                announced,
                self@.trace,
                announce,
                rest,
                outcome,
            );
        }
        outcome
    }

    /// Configures a backend that has state to load, and leaves it stopped. The path of the state
    /// is used up as soon as the backend has taken the features.
    fn configure_stopped(
        &mut self,
        mem: &GuestMemoryMmap,
        calls: &[Arc<EventFd>; FS_NUM_QUEUES],
    ) -> (outcome: Result<PathBuf, VhostUserError>)
        requires
            mem.wf(),
            old(self)@.restore_state_path is Some,
        ensures
            outcome matches Ok(path) ==> Some(path) == old(self)@.restore_state_path,
            final(self)@ == (FsView {
                trace: final(self)@.trace,
                restore_state_path: if outcome is Err
                    && outcome->Err_0 is VhostUserSetFeatures {
                    old(self)@.restore_state_path
                } else {
                    None
                },
                ..old(self)@
            }),
            crate::exchange::carries_out(
                old(self)@.trace,
                final(self)@.trace,
                old(self)@.configure_plan(*mem, crate::fs_model::notifiers(calls@)),
                crate::exchange::valueless(outcome),
            ),
    {
        let ghost start = self@;
        let features: u64 = self.announced_features();
        let ghost announce: Plan<T::Stream, T::File> = Plan::single(
            Request::SetFeatures { features },
        );
        let ghost specified = start.setups(crate::fs_model::notifiers(calls@));
        let ghost rest = crate::vhost_user::stopped_plan::<T::Stream, T::File>(*mem, specified);
        match self.vu_handle.set_features(features) {
            Ok(_) => {},
            Err(e) => {
                proof {
                    crate::exchange::lemma_and_failed(start.trace, self@.trace, announce, rest, e);
                }
                return Err(e);
            },
        }
        let ghost announced = self@.trace;
        let path: PathBuf = self.restore_state_path.take().unwrap();
        let setups = [
            QueueSetup {
                index: 0,
                queue: &self.queues[0],
                kick: &self.queue_evts[0],
                call: &calls[0],
            },
            QueueSetup {
                index: 1,
                queue: &self.queues[1],
                kick: &self.queue_evts[1],
                call: &calls[1],
            },
        ];
        assert(setups@ =~= specified);
        let outcome = self.vu_handle.setup_backend_stopped_after_mem_table(
            mem,
            setups.as_slice(),
        );
        proof {
            crate::exchange::lemma_and_then(
                start.trace,
                announced,
                self@.trace,
                announce,
                rest,
                outcome,
            );
            crate::fs_model::lemma_stopped_plan_sets_no_features(
                *mem,
                specified,
                announced,
                self@.trace,
                outcome,
            );
        }
        match outcome {
            Ok(_) => Ok(path),
            Err(e) => Err(e),
        }
    }

    /// Activates the device. `initialized` is the outcome of initializing the queues in guest
    /// memory. Where the device has backend state to load, the backend is configured and left
    /// stopped, and the state comes next. `calls` are the notifiers of the device's interrupts,
    /// with which its vrings are restarted later. Activating a device that is stopped for a
    /// snapshot starts its vrings, which the device then no longer takes to be stopped.
    pub fn activate<E>(
        &mut self,
        initialized: Result<(), E>,
        mem: &GuestMemoryMmap,
        calls: [Arc<EventFd>; FS_NUM_QUEUES],
    ) -> (outcome: Result<Activation, ActivateError<E>>)
        requires
            old(self).wf(),
            old(self)@.stage is Idle,
            mem.wf(),
        ensures
            final(self).wf(),
            old(self)@.same_device(final(self)@),
            match initialized {
                Err(e) => {
                    &&& outcome == Err::<Activation, _>(ActivateError::QueueMemoryError(e))
                    &&& final(self)@ == old(self)@
                },
                Ok(_) => match old(self)@.restore_state_path {
                    None => {
                        let notifiers = crate::fs_model::notifiers(calls@);
                        let plan = old(self)@.activation_plan(*mem, notifiers);
                        let before = old(self)@.trace;
                        let after = final(self)@.trace;
                        &&& final(self)@ == (FsView {
                            trace: after,
                            activated: old(self)@.activated || outcome is Ok,
                            calls: if outcome is Ok {
                                notifiers
                            } else {
                                old(self)@.calls
                            },
                            reactivated: old(self)@.snapshot_prepared,
                            ..old(self)@
                        })
                        &&& match outcome {
                            Ok(Activation::Done) => crate::exchange::carries_out(
                                before,
                                after,
                                plan,
                                Ok(()),
                            ),
                            Err(ActivateError::VirtioFs(VirtioFsError::VhostUser(e))) =>
                                crate::exchange::carries_out(before, after, plan, Err(e)),
                            _ => false,
                        }
                    },
                    Some(path) => {
                        let notifiers = crate::fs_model::notifiers(calls@);
                        let plan = old(self)@.configure_plan(*mem, notifiers);
                        let asking = old(self)@.with_header(
                            crate::vhost_flags::HEADER_NEED_REPLY,
                        );
                        let after = final(self)@.trace;
                        match outcome {
                            Ok(Activation::LoadState(file)) => {
                                &&& file == path
                                &&& crate::exchange::carries_out(asking.trace, after, plan, Ok(()))
                                &&& final(self)@ == (FsView {
                                    trace: after,
                                    restore_state_path: None,
                                    calls: notifiers,
                                    stage: Stage::Loading,
                                    ..old(self)@
                                })
                            },
                            Err(ActivateError::VirtioFs(VirtioFsError::VhostUser(e))) => {
                                &&& after.len() > 0
                                &&& after.last() == crate::fs_model::header_exchange::<
                                    T::Stream,
                                    T::File,
                                >(0)
                                &&& crate::exchange::carries_out(
                                    asking.trace,
                                    after.drop_last(),
                                    plan,
                                    Err(e),
                                )
                                &&& final(self)@ == (FsView {
                                    trace: after,
                                    restore_state_path: if e is VhostUserSetFeatures {
                                        Some(path)
                                    } else {
                                        None
                                    },
                                    ..old(self)@
                                })
                            },
                            _ => false,
                        }
                    },
                },
            },
    {
        match initialized {
            Ok(_) => {},
            Err(e) => {
                return Err(ActivateError::QueueMemoryError(e));
            },
        }
        let ghost start = self@;
        match self.restore_state_path {
            None => {
                let outcome = self.configure_fresh(mem, &calls);
                self.reactivated = Ghost(start.snapshot_prepared);
                proof {
                    let notifiers = crate::fs_model::notifiers(calls@);
                    crate::fs_model::law_fresh_activation_is_one_way(start, *mem, notifiers);
                    crate::exchange::lemma_plan_keeps_header(
                        start.trace,
                        self@.trace,
                        start.activation_plan(*mem, notifiers),
                        outcome,
                    );
                }
                match outcome {
                    Ok(unit) => {
                        assert(unit == ());
                        self.activated = true;
                        self.calls = Some(calls);
                        Ok(Activation::Done)
                    },
                    Err(e) => Err(ActivateError::VirtioFs(VirtioFsError::VhostUser(e))),
                }
            },
            Some(_) => {
                // A restored device is activated while the machine is built, where answers may be
                // waited for, and have to be.
                self.vu_handle.set_reply_ack_requests(true);
                let ghost asking = self@;
                assert(asking =~= start.with_header(crate::vhost_flags::HEADER_NEED_REPLY));
                let outcome = self.configure_stopped(mem, &calls);
                let ghost after = self@.trace;
                match outcome {
                    Ok(path) => {
                        self.calls = Some(calls);
                        self.stage = Stage::Loading;
                        Ok(Activation::LoadState(path))
                    },
                    Err(e) => {
                        self.vu_handle.set_reply_ack_requests(false);
                        assert(self@.trace.drop_last() =~= after);
                        Err(ActivateError::VirtioFs(VirtioFsError::VhostUser(e)))
                    },
                }
            },
        }
    }

    /// Loads backend state, announces the features again and enables the vrings.
    fn load_and_enable(&mut self, file: T::File) -> (outcome: Result<(), VhostUserError>)
        ensures
            final(self)@ == (FsView { trace: final(self)@.trace, ..old(self)@ }),
            old(self)@.loads(final(self)@.trace, file, outcome),
    {
        let ghost start = self@;
        let ghost transfer = crate::fs_model::transfer_plan::<T::Stream, T::File>(
            VhostTransferStateDirection::Load,
            file,
        );
        let features: u64 = self.announced_features();
        let ghost announce: Plan<T::Stream, T::File> = Plan::single(
            Request::SetFeatures { features },
        );
        match self.transfer_state(VhostTransferStateDirection::Load, file) {
            Ok(_) => {},
            Err(e) => {
                proof {
                    crate::exchange::lemma_and_failed(
                        start.trace,
                        self@.trace,
                        transfer,
                        announce,
                        e,
                    );
                }
                return Err(e);
            },
        }
        let ghost transferred = self@.trace;
        let outcome = self.vu_handle.set_features(features);
        proof {
            crate::exchange::lemma_and_then(
                start.trace,
                transferred,
                self@.trace,
                transfer,
                announce,
                outcome,
            );
        }
        match outcome {
            Ok(unit) => {
                assert(unit == ());
            },
            Err(e) => {
                return Err(e);
            },
        }
        let ghost loaded = self@.trace;
        let outcome = self.enable_all_vrings();
        assert(crate::exchange::carries_out(
            start.trace,
            loaded,
            start.load_plan(file),
            Ok(()),
        ));
        outcome
    }

    /// Ends the activation of a restored device once the file with its backend state was opened,
    /// or could not be.
    pub fn load_state(&mut self, opened: Result<T::File, std::io::Error>) -> (outcome: Result<
        (),
        VirtioFsError,
    >)
        requires
            old(self).wf(),
            old(self)@.stage is Loading,
        ensures
            final(self).wf(),
            old(self)@.same_device(final(self)@),
            final(self)@ == (FsView {
                trace: final(self)@.trace,
                activated: outcome is Ok,
                stage: Stage::Idle,
                ..old(self)@
            }),
            final(self)@.trace.len() > 0,
            final(self)@.trace.last() == crate::fs_model::header_exchange::<T::Stream, T::File>(0),
            match opened {
                Err(source) => {
                    &&& outcome == Err::<(), _>(
                        VirtioFsError::StateFile { operation: "open restored", source },
                    )
                    &&& final(self)@.trace.drop_last() == old(self)@.trace
                },
                Ok(file) => match outcome {
                    Ok(_) => old(self)@.loads(final(self)@.trace.drop_last(), file, Ok(())),
                    Err(VirtioFsError::VhostUser(e)) => old(self)@.loads(
                        final(self)@.trace.drop_last(),
                        file,
                        Err(e),
                    ),
                    Err(_) => false,
                },
            },
    {
        self.stage = Stage::Idle;
        let file = match opened {
            Ok(file) => file,
            Err(source) => {
                let ghost after = self@.trace;
                self.vu_handle.set_reply_ack_requests(false);
                assert(self@.trace.drop_last() =~= after);
                return Err(VirtioFsError::StateFile { operation: "open restored", source });
            },
        };
        let ghost idle = self@;
        let outcome = self.load_and_enable(file);
        let ghost after = self@.trace;
        self.vu_handle.set_reply_ack_requests(false);
        proof {
            assert(self@.trace.drop_last() =~= after);
            crate::fs_model::lemma_loads_at_any_stage(old(self)@, idle, after, file, outcome);
        }
        match outcome {
            Ok(unit) => {
                assert(unit == ());
                self.activated = true;
                Ok(())
            },
            Err(e) => Err(VirtioFsError::VhostUser(e)),
        }
    }
}

} // verus!
