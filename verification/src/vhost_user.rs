//! The frontend side of a vhost-user session.
use crate::exchange::{Exchange, Plan, Reply, Request, Trace};
use crate::guest_memory::{GuestMemoryError, GuestMemoryMmap, GuestRegion};
use vmm_sys_util::eventfd::EventFd;
use vstd::prelude::*;

verus! {

/// vhost-user error.
#[derive(Debug)]
pub enum VhostUserError {
    /// Invalid available address.
    AvailAddress(GuestMemoryError),
    /// Failed to connect to UDS Unix stream.
    Connect(std::io::Error),
    /// Invalid descriptor table address.
    DescriptorTableAddress(GuestMemoryError),
    /// Get features failed.
    VhostUserGetFeatures(vhost::Error),
    /// Get protocol features failed.
    VhostUserGetProtocolFeatures(vhost::Error),
    /// Set owner failed.
    VhostUserSetOwner(vhost::Error),
    /// Set features failed.
    VhostUserSetFeatures(vhost::Error),
    /// Set protocol features failed.
    VhostUserSetProtocolFeatures(vhost::Error),
    /// Set mem table failed.
    VhostUserSetMemTable(vhost::Error),
    /// Set vring num failed.
    VhostUserSetVringNum(vhost::Error),
    /// Set vring addr failed.
    VhostUserSetVringAddr(vhost::Error),
    /// Set vring base failed.
    VhostUserSetVringBase(vhost::Error),
    /// Set vring call failed.
    VhostUserSetVringCall(vhost::Error),
    /// Set vring kick failed.
    VhostUserSetVringKick(vhost::Error),
    /// Set vring enable failed.
    VhostUserSetVringEnable(vhost::Error),
    /// Get vring base failed.
    VhostUserGetVringBase(vhost::Error),
    /// Set dirty-log base failed.
    VhostUserSetLogBase(vhost::Error),
    /// Transfer backend device state failed.
    VhostUserSetDeviceState(vhost::Error),
    /// Check backend device state failed.
    VhostUserCheckDeviceState(vhost::Error),
    /// Failed to read vhost eventfd: no memory region found.
    VhostUserNoMemoryRegion,
    /// Invalid used address.
    UsedAddress(GuestMemoryError),
}

/// A region of guest memory as a backend is told about it.
#[derive(Clone, Copy, Debug, PartialEq, Eq, Structural)]
pub struct VhostUserMemoryRegionInfo {
    /// Guest physical address of the memory region.
    pub guest_phys_addr: u64,
    /// Size of the memory region.
    pub memory_size: u64,
    /// Virtual address in the current process.
    pub userspace_addr: u64,
    /// Offset where the region starts in the mapped file.
    pub mmap_offset: u64,
    /// Descriptor of the mapped file.
    pub mmap_handle: i32,
}

/// Vring configuration data.
#[derive(Clone, Copy, Debug, PartialEq, Eq, Structural)]
pub struct VringConfigData {
    /// Maximum queue size supported by the driver.
    pub queue_max_size: u16,
    /// Actual queue size negotiated by the driver.
    pub queue_size: u16,
    /// Bitmask of vring flags.
    pub flags: u32,
    /// Descriptor table address.
    pub desc_table_addr: u64,
    /// Used ring buffer address.
    pub used_ring_addr: u64,
    /// Available ring buffer address.
    pub avail_ring_addr: u64,
    /// Optional address for logging.
    pub log_addr: Option<u64>,
}

/// Shared memory region for logging dirty pages.
#[derive(Clone, Copy, Debug, PartialEq, Eq, Structural)]
pub struct VhostUserDirtyLogRegion {
    /// Size of the shared memory region.
    pub mmap_size: u64,
    /// Offset where the region starts.
    pub mmap_offset: u64,
    /// File descriptor to map.
    pub mmap_handle: i32,
}

/// Header of an access to a device's configuration space.
#[derive(Clone, Copy, Debug, PartialEq, Eq, Structural)]
pub struct VhostUserConfig {
    /// Offset in the configuration space.
    pub offset: u32,
    /// Size of the access in bytes.
    pub size: u32,
    /// Flags of the access.
    pub flags: u32,
}

/// Whether backend state is saved or loaded.
#[derive(Clone, Copy, Debug, PartialEq, Eq, Structural)]
pub enum VhostTransferStateDirection {
    /// From the backend to the frontend.
    Save,
    /// From the frontend to the backend.
    Load,
}

/// The phase in which backend state is transferred.
#[derive(Clone, Copy, Debug, PartialEq, Eq, Structural)]
pub enum VhostTransferStatePhase {
    /// The device and all its vrings are stopped.
    Stopped,
}

/// The part of a virtqueue that a backend is told about.
#[derive(Clone, Copy, Debug, PartialEq, Eq, Structural)]
pub struct Queue {
    /// Maximum size offered to the driver.
    pub max_size: u16,
    /// Size chosen by the driver.
    pub size: u16,
    /// Guest address of the descriptor table.
    pub desc_table_address: u64,
    /// Guest address of the available ring.
    pub avail_ring_address: u64,
    /// Guest address of the used ring.
    pub used_ring_address: u64,
    /// Next index to take from the available ring.
    pub next_avail: u16,
}

/// A queue with the notifiers of its two directions.
#[derive(Clone, Copy, Debug)]
pub struct QueueSetup<'a> {
    /// Index of the queue.
    pub index: usize,
    /// The queue itself.
    pub queue: &'a Queue,
    /// Signalled by the guest when buffers are available.
    pub kick: &'a EventFd,
    /// Signalled by the backend when buffers are used.
    pub call: &'a EventFd,
}

/// The calls that a frontend makes on a backend.
///
/// `trace` is the history of a backend object: every call is recorded in it, in order, with its
/// arguments and its answer. Nothing is promised of the answers. The history exists in proofs
/// only: an implementation in ordinary code declares `trace` without ever computing it.
pub trait VhostUserHandleBackend: Sized {
    /// A connection to the backend.
    type Stream;

    /// A file through which state is transferred.
    type File;

    /// All calls made on this object so far.
    spec fn trace(&self) -> Trace<Self::Stream, Self::File>;

    /// Takes over a connection.
    fn from_stream(sock: Self::Stream, max_queue_num: u64) -> (backend: Self)
        ensures
            backend.trace() == seq![
                Exchange {
                    request: Request::FromStream { sock, max_queue_num },
                    reply: Reply::<Self::File>::Silent,
                },
            ],
    ;

    /// Sets the header flags of later requests.
    fn set_hdr_flags(&mut self, flags: u32)
        ensures
            final(self).trace() == old(self).trace().push(
                (Exchange { request: Request::SetHdrFlags { flags }, reply: Reply::Silent }),
            ),
    ;

    /// Gets the feature bitmask of the backend.
    fn get_features(&mut self) -> (reply: Result<u64, vhost::Error>)
        ensures
            final(self).trace() == old(self).trace().push(
                (Exchange { request: Request::GetFeatures, reply: Reply::Features(reply) }),
            ),
    ;

    /// Enables features of the backend.
    fn set_features(&mut self, features: u64) -> (reply: Result<(), vhost::Error>)
        ensures
            final(self).trace() == old(self).trace().push(
                (Exchange { request: Request::SetFeatures { features }, reply: Reply::Ack(reply) }),
            ),
    ;

    /// Makes the frontend the owner of the session.
    fn set_owner(&mut self) -> (reply: Result<(), vhost::Error>)
        ensures
            final(self).trace() == old(self).trace().push(
                (Exchange { request: Request::SetOwner, reply: Reply::Ack(reply) }),
            ),
    ;

    /// Tells the backend the memory regions by which it translates vring addresses.
    fn set_mem_table(&mut self, regions: &[VhostUserMemoryRegionInfo]) -> (reply: Result<
        (),
        vhost::Error,
    >)
        ensures
            final(self).trace() == old(self).trace().push(
                (Exchange {
                    request: Request::SetMemTable { regions: regions@ },
                    reply: Reply::Ack(reply),
                }),
            ),
    ;

    /// Sets the size of a queue.
    fn set_vring_num(&mut self, queue_index: usize, num: u16) -> (reply: Result<(), vhost::Error>)
        ensures
            final(self).trace() == old(self).trace().push(
                (Exchange {
                    request: Request::SetVringNum { index: queue_index, num },
                    reply: Reply::Ack(reply),
                }),
            ),
    ;

    /// Sets the addresses of the parts of a vring.
    fn set_vring_addr(&mut self, queue_index: usize, config_data: &VringConfigData) -> (reply:
        Result<(), vhost::Error>)
        ensures
            final(self).trace() == old(self).trace().push(
                (Exchange {
                    request: Request::SetVringAddr { index: queue_index, config: *config_data },
                    reply: Reply::Ack(reply),
                }),
            ),
    ;

    /// Sets the next index of the available ring.
    fn set_vring_base(&mut self, queue_index: usize, base: u16) -> (reply: Result<
        (),
        vhost::Error,
    >)
        ensures
            final(self).trace() == old(self).trace().push(
                (Exchange {
                    request: Request::SetVringBase { index: queue_index, base },
                    reply: Reply::Ack(reply),
                }),
            ),
    ;

    /// Stops a vring and gets its next available index.
    fn get_vring_base(&mut self, queue_index: usize) -> (reply: Result<u32, vhost::Error>)
        ensures
            final(self).trace() == old(self).trace().push(
                (Exchange {
                    request: Request::GetVringBase { index: queue_index },
                    reply: Reply::Base(reply),
                }),
            ),
    ;

    /// Installs the memory in which the backend logs dirty pages.
    fn set_log_base(&mut self, base: u64, region: Option<VhostUserDirtyLogRegion>) -> (reply:
        Result<(), vhost::Error>)
        ensures
            final(self).trace() == old(self).trace().push(
                (Exchange {
                    request: Request::SetLogBase { log_base: base, region },
                    reply: Reply::Ack(reply),
                }),
            ),
    ;

    /// Sets the notifier that the backend signals when buffers are used.
    fn set_vring_call(&mut self, queue_index: usize, fd: &EventFd) -> (reply: Result<
        (),
        vhost::Error,
    >)
        ensures
            final(self).trace() == old(self).trace().push(
                (Exchange {
                    request: Request::SetVringCall { index: queue_index, fd: *fd },
                    reply: Reply::Ack(reply),
                }),
            ),
    ;

    /// Sets the notifier that the guest signals when buffers are available.
    fn set_vring_kick(&mut self, queue_index: usize, fd: &EventFd) -> (reply: Result<
        (),
        vhost::Error,
    >)
        ensures
            final(self).trace() == old(self).trace().push(
                (Exchange {
                    request: Request::SetVringKick { index: queue_index, fd: *fd },
                    reply: Reply::Ack(reply),
                }),
            ),
    ;

    /// Gets the protocol features of the backend.
    fn get_protocol_features(&mut self) -> (reply: Result<u64, vhost::Error>)
        ensures
            final(self).trace() == old(self).trace().push(
                (Exchange {
                    request: Request::GetProtocolFeatures,
                    reply: Reply::Features(reply),
                }),
            ),
    ;

    /// Enables protocol features.
    fn set_protocol_features(&mut self, features: u64) -> (reply: Result<(), vhost::Error>)
        ensures
            final(self).trace() == old(self).trace().push(
                (Exchange {
                    request: Request::SetProtocolFeatures { features },
                    reply: Reply::Ack(reply),
                }),
            ),
    ;

    /// Enables or disables a vring.
    fn set_vring_enable(&mut self, queue_index: usize, enable: bool) -> (reply: Result<
        (),
        vhost::Error,
    >)
        ensures
            final(self).trace() == old(self).trace().push(
                (Exchange {
                    request: Request::SetVringEnable { index: queue_index, enable },
                    reply: Reply::Ack(reply),
                }),
            ),
    ;

    /// Reads the device's configuration space.
    fn get_config(&mut self, offset: u32, size: u32, flags: u32, buf: &[u8]) -> (reply: Result<
        (VhostUserConfig, Vec<u8>),
        vhost::Error,
    >)
        ensures
            final(self).trace() == old(self).trace().push(
                (Exchange {
                    request: Request::GetConfig { offset, size, flags, buf: buf@ },
                    reply: Reply::Config(reply),
                }),
            ),
    ;

    /// Writes the device's configuration space.
    fn set_config(&mut self, offset: u32, flags: u32, buf: &[u8]) -> (reply: Result<
        (),
        vhost::Error,
    >)
        ensures
            final(self).trace() == old(self).trace().push(
                (Exchange {
                    request: Request::SetConfig { offset, flags, buf: buf@ },
                    reply: Reply::Ack(reply),
                }),
            ),
    ;

    /// Starts a transfer of the backend's internal state through a file.
    fn set_device_state_fd(
        &mut self,
        direction: VhostTransferStateDirection,
        phase: VhostTransferStatePhase,
        file: Self::File,
    ) -> (reply: Result<Option<Self::File>, vhost::Error>)
        ensures
            final(self).trace() == old(self).trace().push(
                (Exchange {
                    request: Request::SetDeviceStateFd { direction, phase, file },
                    reply: Reply::Transfer(reply),
                }),
            ),
    ;

    /// Waits for a transfer of internal state and reports its result.
    fn check_device_state(&mut self) -> (reply: Result<(), vhost::Error>)
        ensures
            final(self).trace() == old(self).trace().push(
                (Exchange { request: Request::CheckDeviceState, reply: Reply::Ack(reply) }),
            ),
    ;
}

/// vhost-user socket handle.
#[derive(Clone)]
pub struct VhostUserHandleImpl<T: VhostUserHandleBackend> {
    /// The backend at the other end.
    pub vu: T,
    /// Path of the socket.
    pub socket_path: String,
}

/// The request that announces protocol features, and the header flag that goes with them. Nothing
/// is sent where protocol features were not negotiated, or where an unknown one is among them.
pub open spec fn protocol_features_plan<S, F>(
    acked_features: u64,
    acked_protocol_features: u64,
) -> Plan<S, F> {
    let offered = acked_features & crate::vhost_flags::VHOST_USER_F_PROTOCOL_FEATURES != 0;
    match crate::vhost_flags::known_protocol_bits(acked_protocol_features) {
        Some(features) if offered => {
            let announce = Plan::single(Request::SetProtocolFeatures { features });
            if crate::vhost_flags::has_flag(features, crate::vhost_flags::PROTOCOL_F_REPLY_ACK) {
                announce.and(
                    Plan::single(
                        Request::SetHdrFlags { flags: crate::vhost_flags::HEADER_NEED_REPLY },
                    ),
                )
            } else {
                announce
            }
        },
        _ => Plan::nothing(),
    }
}

/// The requests that restart a stopped vring: everything that stopping it cleared.
pub open spec fn restart_plan<S, F>(
    index: usize,
    base: u16,
    call: EventFd,
    kick: EventFd,
) -> Plan<S, F> {
    Plan {
        requests: seq![
            Request::SetVringBase { index, base },
            Request::SetVringCall { index, fd: call },
            Request::SetVringKick { index, fd: kick },
            Request::SetVringEnable { index, enable: true },
        ],
        stop: None,
    }
}

/// The requests that stop a vring: the answer to the second is its next available index.
pub open spec fn stop_plan<S, F>(index: usize) -> Plan<S, F> {
    Plan {
        requests: seq![
            Request::SetVringEnable { index, enable: false },
            Request::GetVringBase { index },
        ],
        stop: None,
    }
}

/// The exchanges of a feature negotiation, and what comes of them: the features that both sides
/// have, and, where protocol features are among them, the protocol features that both sides have.
pub open spec fn negotiates<S, F>(
    before: Seq<Exchange<S, F>>,
    after: Seq<Exchange<S, F>>,
    avail_features: u64,
    avail_protocol_features: u64,
    outcome: Result<(u64, u64), VhostUserError>,
) -> bool {
    let sent = after.skip(before.len() as int);
    &&& after == before + sent
    &&& sent.len() >= 1
    &&& sent[0].request == Request::<S, F>::GetFeatures
    &&& match sent[0].reply {
        Reply::Features(Err(e)) => sent.len() == 1 && outcome == Err::<(u64, u64), _>(
            VhostUserError::VhostUserGetFeatures(e),
        ),
        Reply::Features(Ok(features)) => {
            let acked = avail_features & features;
            if acked & crate::vhost_flags::VHOST_USER_F_PROTOCOL_FEATURES == 0 {
                sent.len() == 1 && outcome == Ok::<_, VhostUserError>((acked, 0u64))
            } else {
                &&& sent.len() >= 2
                &&& sent[1].request == Request::<S, F>::GetProtocolFeatures
                &&& match sent[1].reply {
                    Reply::Features(Err(e)) => sent.len() == 2 && outcome == Err::<(u64, u64), _>(
                        VhostUserError::VhostUserGetProtocolFeatures(e),
                    ),
                    Reply::Features(Ok(protocol)) => {
                        let acked_protocol = avail_protocol_features & protocol;
                        &&& sent.len() >= 3
                        &&& sent[2].request == Request::<S, F>::SetProtocolFeatures {
                            features: acked_protocol,
                        }
                        &&& match sent[2].reply {
                            Reply::Ack(Err(e)) => sent.len() == 3 && outcome == Err::<
                                (u64, u64),
                                _,
                            >(VhostUserError::VhostUserSetProtocolFeatures(e)),
                            Reply::Ack(Ok(_)) => {
                                &&& outcome == Ok::<_, VhostUserError>((acked, acked_protocol))
                                &&& if crate::vhost_flags::has_flag(
                                    acked_protocol,
                                    crate::vhost_flags::PROTOCOL_F_REPLY_ACK,
                                ) {
                                    &&& sent.len() == 4
                                    &&& sent[3].request == Request::<S, F>::SetHdrFlags {
                                        flags: crate::vhost_flags::HEADER_NEED_REPLY,
                                    }
                                    &&& sent[3].reply is Silent
                                } else {
                                    sent.len() == 3
                                }
                            },
                            _ => false,
                        }
                    },
                    _ => false,
                }
            }
        },
        _ => false,
    }
}

/// What a backend is told of a region of guest memory.
pub open spec fn region_info(region: GuestRegion) -> VhostUserMemoryRegionInfo {
    VhostUserMemoryRegionInfo {
        guest_phys_addr: region.start_addr,
        memory_size: region.len,
        userspace_addr: region.host_addr,
        mmap_offset: region.file_offset->0.start,
        mmap_handle: region.file_offset->0.fd,
    }
}

/// The request that installs the memory table. A region that no file backs cannot be shared.
pub open spec fn mem_table_plan<S, F>(regions: Seq<GuestRegion>) -> Plan<S, F> {
    if exists|i: int| 0 <= i < regions.len() && (#[trigger] regions[i]).file_offset is None {
        Plan::refused(VhostUserError::VhostUserNoMemoryRegion)
    } else {
        Plan::single(
            Request::SetMemTable { regions: regions.map_values(|r: GuestRegion| region_info(r)) },
        )
    }
}

/// The requests that announce the sizes of the first `n` queues.
pub open spec fn sizes_plan<'a, S, F>(queues: Seq<QueueSetup<'a>>, n: nat) -> Plan<S, F>
    decreases n,
{
    if n == 0 {
        Plan::nothing()
    } else {
        let setup = queues[n - 1];
        sizes_plan(queues, (n - 1) as nat).and(
            Plan::single(Request::SetVringNum { index: setup.index, num: setup.queue.size }),
        )
    }
}

/// The requests that describe one vring, which end early where guest memory does not hold one of
/// its parts.
pub open spec fn ring_plan<'a, S, F>(mem: GuestMemoryMmap, setup: QueueSetup<'a>) -> Plan<S, F> {
    match mem.host_address(setup.queue.desc_table_address) {
        Err(e) => Plan::refused(VhostUserError::DescriptorTableAddress(e)),
        Ok(desc_table_addr) => match mem.host_address(setup.queue.used_ring_address) {
            Err(e) => Plan::refused(VhostUserError::UsedAddress(e)),
            Ok(used_ring_addr) => match mem.host_address(setup.queue.avail_ring_address) {
                Err(e) => Plan::refused(VhostUserError::AvailAddress(e)),
                Ok(avail_ring_addr) => {
                    let config = VringConfigData {
                        queue_max_size: setup.queue.max_size,
                        queue_size: setup.queue.size,
                        flags: 0,
                        desc_table_addr,
                        used_ring_addr,
                        avail_ring_addr,
                        log_addr: None,
                    };
                    Plan {
                        requests: seq![
                            Request::SetVringAddr { index: setup.index, config },
                            Request::SetVringBase {
                                index: setup.index,
                                base: setup.queue.next_avail,
                            },
                            Request::SetVringCall { index: setup.index, fd: *setup.call },
                            Request::SetVringKick { index: setup.index, fd: *setup.kick },
                        ],
                        stop: None,
                    }
                },
            },
        },
    }
}

/// The requests that describe the first `n` vrings.
pub open spec fn rings_plan<'a, S, F>(
    mem: GuestMemoryMmap,
    queues: Seq<QueueSetup<'a>>,
    n: nat,
) -> Plan<S, F>
    decreases n,
{
    if n == 0 {
        Plan::nothing()
    } else {
        rings_plan(mem, queues, (n - 1) as nat).and(ring_plan(mem, queues[n - 1]))
    }
}

/// The requests that configure all vrings and leave them disabled: first all sizes, since some
/// backends need the number of queues early, then each vring.
pub open spec fn stopped_plan<'a, S, F>(
    mem: GuestMemoryMmap,
    queues: Seq<QueueSetup<'a>>,
) -> Plan<S, F> {
    sizes_plan(queues, queues.len()).and(rings_plan(mem, queues, queues.len()))
}

/// The requests that enable the first `n` vrings.
pub open spec fn enable_plan<'a, S, F>(queues: Seq<QueueSetup<'a>>, n: nat) -> Plan<S, F>
    decreases n,
{
    if n == 0 {
        Plan::nothing()
    } else {
        enable_plan(queues, (n - 1) as nat).and(
            Plan::single(Request::SetVringEnable { index: queues[n - 1].index, enable: true }),
        )
    }
}

/// The conversation by which a connection is taken over, with the answer to the request to own the
/// session.
pub open spec fn opening<S, F>(sock: S, max_queue_num: u64, owned: Result<(), vhost::Error>) -> Seq<
    Exchange<S, F>,
> {
    seq![
        Exchange {
            request: Request::FromStream { sock, max_queue_num },
            reply: Reply::<F>::Silent,
        },
        Exchange { request: Request::SetOwner, reply: Reply::Ack(owned) },
    ]
}

/// Interrupts know queues by 16-bit numbers.
pub open spec fn indices_fit<'a>(queues: Seq<QueueSetup<'a>>) -> bool {
    forall|i: int| 0 <= i < queues.len() ==> (#[trigger] queues[i]).index <= u16::MAX
}

impl<T: VhostUserHandleBackend> VhostUserHandleImpl<T> {
    /// Takes over the connection to a backend, if there is one, and becomes the owner of the
    /// session. `sock` is the outcome of connecting to `socket_path`.
    pub fn new(
        socket_path: &str,
        sock: Result<T::Stream, std::io::Error>,
        num_queues: u64,
    ) -> (handle: Result<Self, VhostUserError>)
        ensures
            match sock {
                Err(e) => handle == Err::<Self, _>(VhostUserError::Connect(e)),
                Ok(stream) => match handle {
                    Ok(h) => {
                        &&& h.socket_path@ == socket_path@
                        &&& h.vu.trace() == opening::<T::Stream, T::File>(
                            stream,
                            num_queues,
                            Ok(()),
                        )
                    },
                    Err(VhostUserError::VhostUserSetOwner(e)) => exists|vu: T| #[trigger]
                        vu.trace() == opening::<T::Stream, T::File>(stream, num_queues, Err(e)),
                    Err(_) => false,
                },
            },
    {
        let stream = match sock {
            Ok(stream) => stream,
            Err(e) => {
                return Err(VhostUserError::Connect(e));
            },
        };
        let mut vu = T::from_stream(stream, num_queues);
        let owned = vu.set_owner();
        assert(vu.trace() =~= opening::<T::Stream, T::File>(stream, num_queues, owned));
        match owned {
            Ok(unit) => {
                assert(unit == ());
                Ok(VhostUserHandleImpl { vu, socket_path: socket_path.to_owned() })
            },
            Err(e) => Err(VhostUserError::VhostUserSetOwner(e)),
        }
    }

    /// Sets vhost-user features on the backend.
    pub fn set_features(&mut self, features: u64) -> (outcome: Result<(), VhostUserError>)
        ensures
            final(self).socket_path == old(self).socket_path,
            crate::exchange::carries_out(
                old(self).vu.trace(),
                final(self).vu.trace(),
                Plan::single(Request::SetFeatures { features }),
                outcome,
            ),
    {
        let reply = self.vu.set_features(features);
        proof {
            crate::exchange::lemma_single(
                old(self).vu.trace(),
                Exchange { request: Request::SetFeatures { features }, reply: Reply::Ack(reply) },
            );
        }
        match reply {
            Ok(_) => Ok(()),
            Err(e) => Err(VhostUserError::VhostUserSetFeatures(e)),
        }
    }

    /// Selects whether ordinary requests ask the backend for a reply.
    pub fn set_reply_ack_requests(&mut self, enabled: bool)
        ensures
            final(self).socket_path == old(self).socket_path,
            final(self).vu.trace() == old(self).vu.trace().push(
                (Exchange {
                    request: Request::SetHdrFlags {
                        flags: if enabled {
                            crate::vhost_flags::HEADER_NEED_REPLY
                        } else {
                            0
                        },
                    },
                    reply: Reply::Silent,
                }),
            ),
    {
        let flags: u32 = if enabled {
            crate::vhost_flags::need_reply_flag()
        } else {
            0
        };
        self.vu.set_hdr_flags(flags);
    }

    /// Sets vhost-user protocol features on the backend.
    pub fn set_protocol_features(
        &mut self,
        acked_features: u64,
        acked_protocol_features: u64,
    ) -> (outcome: Result<(), VhostUserError>)
        ensures
            final(self).socket_path == old(self).socket_path,
            crate::exchange::carries_out(
                old(self).vu.trace(),
                final(self).vu.trace(),
                protocol_features_plan(acked_features, acked_protocol_features),
                outcome,
            ),
    {
        if acked_features & crate::vhost_flags::protocol_features_bit() != 0 {
            if let Some(features) = crate::vhost_flags::protocol_features_from_bits(
                acked_protocol_features,
            ) {
                let reply = self.vu.set_protocol_features(features);
                proof {
                    crate::exchange::lemma_single(
                        old(self).vu.trace(),
                        Exchange {
                            request: Request::SetProtocolFeatures { features },
                            reply: Reply::Ack(reply),
                        },
                    );
                }
                let ghost announced = self.vu.trace();
                match reply {
                    Ok(_) => {},
                    Err(e) => {
                        return Err(VhostUserError::VhostUserSetProtocolFeatures(e));
                    },
                }
                let reply_ack: u64 = crate::vhost_flags::reply_ack_bit();
                if features & reply_ack == reply_ack {
                    let flags: u32 = crate::vhost_flags::need_reply_flag();
                    self.vu.set_hdr_flags(flags);
                    proof {
                        let asking = Exchange {
                            request: Request::SetHdrFlags { flags },
                            reply: Reply::Silent,
                        };
                        crate::exchange::lemma_single(announced, asking);
                        crate::exchange::lemma_and_then(
                            old(self).vu.trace(),
                            announced,
                            self.vu.trace(),
                            Plan::single(Request::SetProtocolFeatures { features }),
                            Plan::single(asking.request),
                            Ok(()),
                        );
                    }
                }
                return Ok(());
            }
        }
        proof {
            crate::exchange::lemma_nothing(self.vu.trace());
        }
        Ok(())
    }

    /// Enables or disables a backend vring.
    pub fn set_vring_enabled(&mut self, queue_index: usize, enabled: bool) -> (outcome: Result<
        (),
        VhostUserError,
    >)
        ensures
            final(self).socket_path == old(self).socket_path,
            crate::exchange::carries_out(
                old(self).vu.trace(),
                final(self).vu.trace(),
                Plan::single(Request::SetVringEnable { index: queue_index, enable: enabled }),
                outcome,
            ),
    {
        let reply = self.vu.set_vring_enable(queue_index, enabled);
        proof {
            crate::exchange::lemma_single(
                old(self).vu.trace(),
                Exchange {
                    request: Request::SetVringEnable { index: queue_index, enable: enabled },
                    reply: Reply::Ack(reply),
                },
            );
        }
        match reply {
            Ok(_) => Ok(()),
            Err(e) => Err(VhostUserError::VhostUserSetVringEnable(e)),
        }
    }

    /// Stops a vring and returns the backend's next available index.
    pub fn stop_vring(&mut self, queue_index: usize) -> (outcome: Result<u32, VhostUserError>)
        ensures
            final(self).socket_path == old(self).socket_path,
            crate::exchange::carries_out(
                old(self).vu.trace(),
                final(self).vu.trace(),
                stop_plan(queue_index),
                crate::exchange::valueless(outcome),
            ),
            outcome matches Ok(base) ==> final(self).vu.trace().last().reply == Reply::<
                T::File,
            >::Base(Ok(base)),
    {
        let ghost before = self.vu.trace();
        match self.vu.set_vring_enable(queue_index, false) {
            Ok(_) => {},
            Err(e) => {
                proof {
                    crate::exchange::lemma_grown(
                        before,
                        self.vu.trace(),
                        seq![self.vu.trace().last()],
                    );
                }
                return Err(VhostUserError::VhostUserSetVringEnable(e));
            },
        }
        let ghost between = self.vu.trace();
        let reply = self.vu.get_vring_base(queue_index);
        proof {
            crate::exchange::lemma_grown(
                before,
                self.vu.trace(),
                seq![between.last(), self.vu.trace().last()],
            );
        }
        match reply {
            Ok(base) => Ok(base),
            Err(e) => Err(VhostUserError::VhostUserGetVringBase(e)),
        }
    }

    /// Reinstalls the state cleared by stopping a vring and restarts it.
    pub fn restart_vring(
        &mut self,
        queue_index: usize,
        base: u16,
        call_evt: &EventFd,
        kick_evt: &EventFd,
    ) -> (outcome: Result<(), VhostUserError>)
        ensures
            final(self).socket_path == old(self).socket_path,
            crate::exchange::carries_out(
                old(self).vu.trace(),
                final(self).vu.trace(),
                restart_plan(queue_index, base, *call_evt, *kick_evt),
                outcome,
            ),
    {
        let ghost start = self.vu.trace();
        let reply = self.vu.set_vring_base(queue_index, base);
        let ghost t1 = self.vu.trace();
        proof {
            crate::exchange::lemma_grown(start, t1, seq![t1.last()]);
        }
        match reply {
            Ok(_) => {},
            Err(e) => {
                return Err(VhostUserError::VhostUserSetVringBase(e));
            },
        }
        let reply = self.vu.set_vring_call(queue_index, call_evt);
        let ghost t2 = self.vu.trace();
        proof {
            crate::exchange::lemma_grown(start, t2, seq![t1.last(), t2.last()]);
        }
        match reply {
            Ok(_) => {},
            Err(e) => {
                return Err(VhostUserError::VhostUserSetVringCall(e));
            },
        }
        let reply = self.vu.set_vring_kick(queue_index, kick_evt);
        let ghost t3 = self.vu.trace();
        proof {
            crate::exchange::lemma_grown(start, t3, seq![t1.last(), t2.last(), t3.last()]);
        }
        match reply {
            Ok(_) => {},
            Err(e) => {
                return Err(VhostUserError::VhostUserSetVringKick(e));
            },
        }
        let outcome = self.set_vring_enabled(queue_index, true);
        let ghost t4 = self.vu.trace();
        proof {
            assert(t4 =~= t3.push(t4.last()));
            crate::exchange::lemma_grown(
                start,
                t4,
                seq![t1.last(), t2.last(), t3.last(), t4.last()],
            );
        }
        outcome
    }

    /// Installs the shared dirty-log bitmap used by a vhost-user backend.
    pub fn set_log_base(&mut self, base: u64, region: VhostUserDirtyLogRegion) -> (outcome: Result<
        (),
        VhostUserError,
    >)
        ensures
            final(self).socket_path == old(self).socket_path,
            crate::exchange::carries_out(
                old(self).vu.trace(),
                final(self).vu.trace(),
                Plan::single(Request::SetLogBase { log_base: base, region: Some(region) }),
                outcome,
            ),
    {
        let reply = self.vu.set_log_base(base, Some(region));
        proof {
            crate::exchange::lemma_single(
                old(self).vu.trace(),
                Exchange {
                    request: Request::SetLogBase { log_base: base, region: Some(region) },
                    reply: Reply::Ack(reply),
                },
            );
        }
        match reply {
            Ok(_) => Ok(()),
            Err(e) => Err(VhostUserError::VhostUserSetLogBase(e)),
        }
    }

    /// Begins saving or loading backend-internal device state, while the device is stopped.
    pub fn set_device_state_fd(
        &mut self,
        direction: VhostTransferStateDirection,
        file: T::File,
    ) -> (outcome: Result<(), VhostUserError>)
        ensures
            final(self).socket_path == old(self).socket_path,
            crate::exchange::carries_out(
                old(self).vu.trace(),
                final(self).vu.trace(),
                Plan::single(
                    Request::SetDeviceStateFd {
                        direction,
                        phase: VhostTransferStatePhase::Stopped,
                        file,
                    },
                ),
                outcome,
            ),
    {
        let phase = VhostTransferStatePhase::Stopped;
        let reply = self.vu.set_device_state_fd(direction, phase, file);
        proof {
            crate::exchange::lemma_single(
                old(self).vu.trace(),
                Exchange {
                    request: Request::SetDeviceStateFd { direction, phase, file },
                    reply: Reply::Transfer(reply),
                },
            );
        }
        match reply {
            Ok(_) => Ok(()),
            Err(e) => Err(VhostUserError::VhostUserSetDeviceState(e)),
        }
    }

    /// Waits for a backend state transfer and reports its result.
    pub fn check_device_state(&mut self) -> (outcome: Result<(), VhostUserError>)
        ensures
            final(self).socket_path == old(self).socket_path,
            crate::exchange::carries_out(
                old(self).vu.trace(),
                final(self).vu.trace(),
                Plan::single(Request::CheckDeviceState),
                outcome,
            ),
    {
        let reply = self.vu.check_device_state();
        proof {
            crate::exchange::lemma_single(
                old(self).vu.trace(),
                Exchange { request: Request::CheckDeviceState, reply: Reply::Ack(reply) },
            );
        }
        match reply {
            Ok(_) => Ok(()),
            Err(e) => Err(VhostUserError::VhostUserCheckDeviceState(e)),
        }
    }

    /// Negotiates virtio and protocol features with the backend.
    pub fn negotiate_features(
        &mut self,
        avail_features: u64,
        avail_protocol_features: u64,
    ) -> (outcome: Result<(u64, u64), VhostUserError>)
        ensures
            final(self).socket_path == old(self).socket_path,
            negotiates(
                old(self).vu.trace(),
                final(self).vu.trace(),
                avail_features,
                avail_protocol_features,
                outcome,
            ),
    {
        let ghost before = self.vu.trace();
        let reply = self.vu.get_features();
        let ghost t1 = self.vu.trace();
        proof {
            crate::exchange::lemma_grown(before, t1, seq![t1.last()]);
        }
        let backend_features: u64 = match reply {
            Ok(features) => features,
            Err(e) => {
                return Err(VhostUserError::VhostUserGetFeatures(e));
            },
        };
        let acked_features: u64 = avail_features & backend_features;
        if acked_features & crate::vhost_flags::protocol_features_bit() == 0 {
            return Ok((acked_features, 0));
        }
        let reply = self.vu.get_protocol_features();
        let ghost t2 = self.vu.trace();
        proof {
            crate::exchange::lemma_grown(before, t2, seq![t1.last(), t2.last()]);
        }
        let backend_protocol_features: u64 = match reply {
            Ok(features) => features,
            Err(e) => {
                return Err(VhostUserError::VhostUserGetProtocolFeatures(e));
            },
        };
        let acked_protocol_features: u64 = avail_protocol_features & backend_protocol_features;
        let reply = self.vu.set_protocol_features(acked_protocol_features);
        let ghost t3 = self.vu.trace();
        proof {
            crate::exchange::lemma_grown(before, t3, seq![t1.last(), t2.last(), t3.last()]);
        }
        match reply {
            Ok(_) => {},
            Err(e) => {
                return Err(VhostUserError::VhostUserSetProtocolFeatures(e));
            },
        }
        let reply_ack: u64 = crate::vhost_flags::reply_ack_bit();
        if acked_protocol_features & reply_ack == reply_ack {
            self.vu.set_hdr_flags(crate::vhost_flags::need_reply_flag());
            let ghost t4 = self.vu.trace();
            proof {
                crate::exchange::lemma_grown(
                    before,
                    t4,
                    seq![t1.last(), t2.last(), t3.last(), t4.last()],
                );
            }
        }
        Ok((acked_features, acked_protocol_features))
    }

    /// Sends the guest memory table to the backend.
    pub fn update_mem_table(&mut self, mem: &GuestMemoryMmap) -> (outcome: Result<
        (),
        VhostUserError,
    >)
        ensures
            final(self).socket_path == old(self).socket_path,
            crate::exchange::carries_out(
                old(self).vu.trace(),
                final(self).vu.trace(),
                mem_table_plan(mem@),
                outcome,
            ),
    {
        let guest: &[GuestRegion] = mem.regions();
        let mut regions: Vec<VhostUserMemoryRegionInfo> = Vec::new();
        let mut i: usize = 0;
        while i < guest.len()
            invariant
                i <= guest@.len(),
                guest@ == mem@,
                self == old(self),
                regions@.len() == i,
                forall|k: int|
                    0 <= k < i ==> (#[trigger] mem@[k]).file_offset is Some && regions@[k]
                        == region_info(mem@[k]),
            decreases guest@.len() - i,
        {
            let region = guest[i];
            let file = match region.file_offset {
                Some(file) => file,
                None => {
                    proof {
                        assert(mem@[i as int].file_offset is None);
                        crate::exchange::lemma_refused(
                            self.vu.trace(),
                            VhostUserError::VhostUserNoMemoryRegion,
                        );
                    }
                    return Err(VhostUserError::VhostUserNoMemoryRegion);
                },
            };
            regions.push(
                VhostUserMemoryRegionInfo {
                    guest_phys_addr: region.start_addr,
                    memory_size: region.len,
                    userspace_addr: region.host_addr,
                    mmap_offset: file.start,
                    mmap_handle: file.fd,
                },
            );
            i += 1;
        }
        let reply = self.vu.set_mem_table(regions.as_slice());
        proof {
            assert(regions@ =~= mem@.map_values(|r: GuestRegion| region_info(r)));
            crate::exchange::lemma_single(
                old(self).vu.trace(),
                Exchange {
                    request: Request::SetMemTable { regions: regions@ },
                    reply: Reply::Ack(reply),
                },
            );
        }
        match reply {
            Ok(_) => Ok(()),
            Err(e) => Err(VhostUserError::VhostUserSetMemTable(e)),
        }
    }

    /// Describes one vring to the backend.
    fn setup_vring(&mut self, mem: &GuestMemoryMmap, setup: &QueueSetup) -> (outcome: Result<
        (),
        VhostUserError,
    >)
        requires
            mem.wf(),
        ensures
            final(self).socket_path == old(self).socket_path,
            crate::exchange::carries_out(
                old(self).vu.trace(),
                final(self).vu.trace(),
                ring_plan(*mem, *setup),
                outcome,
            ),
    {
        let ghost start = self.vu.trace();
        let queue = setup.queue;
        let desc_table_addr: u64 = match mem.get_host_address(queue.desc_table_address) {
            Ok(address) => address,
            Err(e) => {
                proof {
                    crate::exchange::lemma_refused(
                        start,
                        VhostUserError::DescriptorTableAddress(e),
                    );
                }
                return Err(VhostUserError::DescriptorTableAddress(e));
            },
        };
        let used_ring_addr: u64 = match mem.get_host_address(queue.used_ring_address) {
            Ok(address) => address,
            Err(e) => {
                proof {
                    crate::exchange::lemma_refused(start, VhostUserError::UsedAddress(e));
                }
                return Err(VhostUserError::UsedAddress(e));
            },
        };
        let avail_ring_addr: u64 = match mem.get_host_address(queue.avail_ring_address) {
            Ok(address) => address,
            Err(e) => {
                proof {
                    crate::exchange::lemma_refused(start, VhostUserError::AvailAddress(e));
                }
                return Err(VhostUserError::AvailAddress(e));
            },
        };
        let config_data = VringConfigData {
            queue_max_size: queue.max_size,
            queue_size: queue.size,
            flags: 0,
            desc_table_addr,
            used_ring_addr,
            avail_ring_addr,
            log_addr: None,
        };
        let reply = self.vu.set_vring_addr(setup.index, &config_data);
        let ghost t1 = self.vu.trace();
        proof {
            crate::exchange::lemma_grown(start, t1, seq![t1.last()]);
        }
        match reply {
            Ok(_) => {},
            Err(e) => {
                return Err(VhostUserError::VhostUserSetVringAddr(e));
            },
        }
        let reply = self.vu.set_vring_base(setup.index, queue.next_avail);
        let ghost t2 = self.vu.trace();
        proof {
            crate::exchange::lemma_grown(start, t2, seq![t1.last(), t2.last()]);
        }
        match reply {
            Ok(_) => {},
            Err(e) => {
                return Err(VhostUserError::VhostUserSetVringBase(e));
            },
        }
        let reply = self.vu.set_vring_call(setup.index, setup.call);
        let ghost t3 = self.vu.trace();
        proof {
            crate::exchange::lemma_grown(start, t3, seq![t1.last(), t2.last(), t3.last()]);
        }
        match reply {
            Ok(_) => {},
            Err(e) => {
                return Err(VhostUserError::VhostUserSetVringCall(e));
            },
        }
        let reply = self.vu.set_vring_kick(setup.index, setup.kick);
        let ghost t4 = self.vu.trace();
        proof {
            crate::exchange::lemma_grown(
                start,
                t4,
                seq![t1.last(), t2.last(), t3.last(), t4.last()],
            );
        }
        match reply {
            Ok(_) => Ok(()),
            Err(e) => Err(VhostUserError::VhostUserSetVringKick(e)),
        }
    }

    /// Configures all vrings but leaves them disabled, and keeps the memory table that the caller
    /// has already installed, with everything that the backend attached to it.
    pub fn setup_backend_stopped_after_mem_table(
        &mut self,
        mem: &GuestMemoryMmap,
        queues: &[QueueSetup],
    ) -> (outcome: Result<(), VhostUserError>)
        requires
            mem.wf(),
            indices_fit(queues@),
        ensures
            final(self).socket_path == old(self).socket_path,
            crate::exchange::carries_out(
                old(self).vu.trace(),
                final(self).vu.trace(),
                stopped_plan(*mem, queues@),
                outcome,
            ),
    {
        let ghost start = self.vu.trace();
        proof {
            crate::exchange::lemma_nothing(start);
        }
        let mut i: usize = 0;
        while i < queues.len()
            invariant
                i <= queues@.len(),
                self.socket_path == old(self).socket_path,
                start == old(self).vu.trace(),
                crate::exchange::carries_out(
                    start,
                    self.vu.trace(),
                    sizes_plan(queues@, i as nat),
                    Ok(()),
                ),
            decreases queues@.len() - i,
        {
            let setup = &queues[i];
            let ghost before = self.vu.trace();
            let num: u16 = setup.queue.size;
            let reply = self.vu.set_vring_num(setup.index, num);
            proof {
                let request = Request::SetVringNum { index: setup.index, num };
                let outcome = if reply is Ok {
                    Ok(())
                } else {
                    Err(VhostUserError::VhostUserSetVringNum(reply->Err_0))
                };
                crate::exchange::lemma_single(
                    before,
                    Exchange { request, reply: Reply::Ack(reply) },
                );
                crate::exchange::lemma_and_then(
                    start,
                    before,
                    self.vu.trace(),
                    sizes_plan(queues@, i as nat),
                    Plan::single(request),
                    outcome,
                );
                if outcome is Err {
                    let e = outcome->Err_0;
                    lemma_sizes_plan_failed(queues@, (i + 1) as nat, start, self.vu.trace(), e);
                    crate::exchange::lemma_and_failed(
                        start,
                        self.vu.trace(),
                        sizes_plan(queues@, queues@.len()),
                        rings_plan(*mem, queues@, queues@.len()),
                        e,
                    );
                }
            }
            match reply {
                Ok(_) => {},
                Err(e) => {
                    return Err(VhostUserError::VhostUserSetVringNum(e));
                },
            }
            i += 1;
        }
        let ghost sized = self.vu.trace();
        proof {
            crate::exchange::lemma_nothing(sized);
        }
        let mut i: usize = 0;
        while i < queues.len()
            invariant
                i <= queues@.len(),
                mem.wf(),
                self.socket_path == old(self).socket_path,
                start == old(self).vu.trace(),
                crate::exchange::carries_out(
                    start,
                    sized,
                    sizes_plan(queues@, queues@.len()),
                    Ok(()),
                ),
                crate::exchange::carries_out(
                    sized,
                    self.vu.trace(),
                    rings_plan(*mem, queues@, i as nat),
                    Ok(()),
                ),
            decreases queues@.len() - i,
        {
            let ghost before = self.vu.trace();
            let outcome = self.setup_vring(mem, &queues[i]);
            proof {
                crate::exchange::lemma_and_then(
                    sized,
                    before,
                    self.vu.trace(),
                    rings_plan(*mem, queues@, i as nat),
                    ring_plan(*mem, queues@[i as int]),
                    outcome,
                );
                if outcome is Err {
                    let e = outcome->Err_0;
                    lemma_rings_plan_failed(
                        *mem,
                        queues@,
                        (i + 1) as nat,
                        sized,
                        self.vu.trace(),
                        e,
                    );
                    crate::exchange::lemma_and_then(
                        start,
                        sized,
                        self.vu.trace(),
                        sizes_plan(queues@, queues@.len()),
                        rings_plan(*mem, queues@, queues@.len()),
                        outcome,
                    );
                }
            }
            match outcome {
                Ok(_) => {},
                Err(e) => {
                    return Err(e);
                },
            }
            i += 1;
        }
        proof {
            crate::exchange::lemma_and_then(
                start,
                sized,
                self.vu.trace(),
                sizes_plan(queues@, queues@.len()),
                rings_plan(*mem, queues@, queues@.len()),
                Ok(()),
            );
        }
        Ok(())
    }

    /// Configures all backend vrings but leaves them disabled.
    pub fn setup_backend_stopped(
        &mut self,
        mem: &GuestMemoryMmap,
        queues: &[QueueSetup],
    ) -> (outcome: Result<(), VhostUserError>)
        requires
            mem.wf(),
            indices_fit(queues@),
        ensures
            final(self).socket_path == old(self).socket_path,
            crate::exchange::carries_out(
                old(self).vu.trace(),
                final(self).vu.trace(),
                mem_table_plan(mem@).and(stopped_plan(*mem, queues@)),
                outcome,
            ),
    {
        let ghost start = self.vu.trace();
        match self.update_mem_table(mem) {
            Ok(_) => {},
            Err(e) => {
                proof {
                    crate::exchange::lemma_and_failed(
                        start,
                        self.vu.trace(),
                        mem_table_plan(mem@),
                        stopped_plan(*mem, queues@),
                        e,
                    );
                }
                return Err(e);
            },
        }
        let ghost mapped = self.vu.trace();
        let outcome = self.setup_backend_stopped_after_mem_table(mem, queues);
        proof {
            crate::exchange::lemma_and_then(
                start,
                mapped,
                self.vu.trace(),
                mem_table_plan(mem@),
                stopped_plan(*mem, queues@),
                outcome,
            );
        }
        outcome
    }

    /// Enables the vrings of all queues.
    fn enable_vrings(&mut self, queues: &[QueueSetup]) -> (outcome: Result<(), VhostUserError>)
        ensures
            final(self).socket_path == old(self).socket_path,
            crate::exchange::carries_out(
                old(self).vu.trace(),
                final(self).vu.trace(),
                enable_plan(queues@, queues@.len()),
                outcome,
            ),
    {
        let ghost start = self.vu.trace();
        proof {
            crate::exchange::lemma_nothing(start);
        }
        let mut i: usize = 0;
        while i < queues.len()
            invariant
                i <= queues@.len(),
                self.socket_path == old(self).socket_path,
                start == old(self).vu.trace(),
                crate::exchange::carries_out(
                    start,
                    self.vu.trace(),
                    enable_plan(queues@, i as nat),
                    Ok(()),
                ),
            decreases queues@.len() - i,
        {
            let ghost before = self.vu.trace();
            let index: usize = queues[i].index;
            let outcome = self.set_vring_enabled(index, true);
            proof {
                crate::exchange::lemma_and_then(
                    start,
                    before,
                    self.vu.trace(),
                    enable_plan(queues@, i as nat),
                    Plan::single(Request::SetVringEnable { index, enable: true }),
                    outcome,
                );
                if outcome is Err {
                    let e = outcome->Err_0;
                    lemma_enable_plan_failed(queues@, (i + 1) as nat, start, self.vu.trace(), e);
                }
            }
            match outcome {
                Ok(_) => {},
                Err(e) => {
                    return Err(e);
                },
            }
            i += 1;
        }
        Ok(())
    }

    /// Sets up and enables vrings after the caller has already installed the backend memory table.
    pub fn setup_backend_after_mem_table(
        &mut self,
        mem: &GuestMemoryMmap,
        queues: &[QueueSetup],
    ) -> (outcome: Result<(), VhostUserError>)
        requires
            mem.wf(),
            indices_fit(queues@),
        ensures
            final(self).socket_path == old(self).socket_path,
            crate::exchange::carries_out(
                old(self).vu.trace(),
                final(self).vu.trace(),
                stopped_plan(*mem, queues@).and(enable_plan(queues@, queues@.len())),
                outcome,
            ),
    {
        let ghost start = self.vu.trace();
        match self.setup_backend_stopped_after_mem_table(mem, queues) {
            Ok(_) => {},
            Err(e) => {
                proof {
                    crate::exchange::lemma_and_failed(
                        start,
                        self.vu.trace(),
                        stopped_plan(*mem, queues@),
                        enable_plan(queues@, queues@.len()),
                        e,
                    );
                }
                return Err(e);
            },
        }
        let ghost stopped = self.vu.trace();
        let outcome = self.enable_vrings(queues);
        proof {
            crate::exchange::lemma_and_then(
                start,
                stopped,
                self.vu.trace(),
                stopped_plan(*mem, queues@),
                enable_plan(queues@, queues@.len()),
                outcome,
            );
        }
        outcome
    }

    /// Sets up the backend: updates the memory table, sends what it needs to know about the
    /// virtqueues and enables them.
    pub fn setup_backend(
        &mut self,
        mem: &GuestMemoryMmap,
        queues: &[QueueSetup],
    ) -> (outcome: Result<(), VhostUserError>)
        requires
            mem.wf(),
            indices_fit(queues@),
        ensures
            final(self).socket_path == old(self).socket_path,
            crate::exchange::carries_out(
                old(self).vu.trace(),
                final(self).vu.trace(),
                mem_table_plan(mem@).and(stopped_plan(*mem, queues@)).and(
                    enable_plan(queues@, queues@.len()),
                ),
                outcome,
            ),
    {
        let ghost start = self.vu.trace();
        let ghost configure: Plan<T::Stream, T::File> = mem_table_plan(mem@).and(
            stopped_plan(*mem, queues@),
        );
        match self.setup_backend_stopped(mem, queues) {
            Ok(_) => {},
            Err(e) => {
                proof {
                    crate::exchange::lemma_and_failed(
                        start,
                        self.vu.trace(),
                        configure,
                        enable_plan(queues@, queues@.len()),
                        e,
                    );
                }
                return Err(e);
            },
        }
        let ghost stopped = self.vu.trace();
        let outcome = self.enable_vrings(queues);
        proof {
            crate::exchange::lemma_and_then(
                start,
                stopped,
                self.vu.trace(),
                configure,
                enable_plan(queues@, queues@.len()),
                outcome,
            );
        }
        outcome
    }
}

/// A failure while announcing the first `n` sizes is a failure of announcing them all.
proof fn lemma_sizes_plan_failed<'a, S, F>(
    queues: Seq<QueueSetup<'a>>,
    n: nat,
    before: Seq<Exchange<S, F>>,
    after: Seq<Exchange<S, F>>,
    error: VhostUserError,
)
    requires
        n <= queues.len(),
        crate::exchange::carries_out(before, after, sizes_plan(queues, n), Err(error)),
    ensures
        crate::exchange::carries_out(before, after, sizes_plan(queues, queues.len()), Err(error)),
    decreases queues.len() - n,
{
    if n < queues.len() {
        let setup = queues[n as int];
        crate::exchange::lemma_and_failed(
            before,
            after,
            sizes_plan(queues, n),
            Plan::single(Request::SetVringNum { index: setup.index, num: setup.queue.size }),
            error,
        );
        lemma_sizes_plan_failed(queues, n + 1, before, after, error);
    }
}

/// A failure while describing the first `n` vrings is a failure of describing them all.
proof fn lemma_rings_plan_failed<'a, S, F>(
    mem: GuestMemoryMmap,
    queues: Seq<QueueSetup<'a>>,
    n: nat,
    before: Seq<Exchange<S, F>>,
    after: Seq<Exchange<S, F>>,
    error: VhostUserError,
)
    requires
        n <= queues.len(),
        crate::exchange::carries_out(before, after, rings_plan(mem, queues, n), Err(error)),
    ensures
        crate::exchange::carries_out(
            before,
            after,
            rings_plan(mem, queues, queues.len()),
            Err(error),
        ),
    decreases queues.len() - n,
{
    if n < queues.len() {
        crate::exchange::lemma_and_failed(
            before,
            after,
            rings_plan(mem, queues, n),
            ring_plan(mem, queues[n as int]),
            error,
        );
        lemma_rings_plan_failed(mem, queues, n + 1, before, after, error);
    }
}

/// A failure while enabling the first `n` vrings is a failure of enabling them all.
proof fn lemma_enable_plan_failed<'a, S, F>(
    queues: Seq<QueueSetup<'a>>,
    n: nat,
    before: Seq<Exchange<S, F>>,
    after: Seq<Exchange<S, F>>,
    error: VhostUserError,
)
    requires
        n <= queues.len(),
        crate::exchange::carries_out(before, after, enable_plan(queues, n), Err(error)),
    ensures
        crate::exchange::carries_out(before, after, enable_plan(queues, queues.len()), Err(error)),
    decreases queues.len() - n,
{
    if n < queues.len() {
        crate::exchange::lemma_and_failed(
            before,
            after,
            enable_plan(queues, n),
            Plan::single(Request::SetVringEnable { index: queues[n as int].index, enable: true }),
            error,
        );
        lemma_enable_plan_failed(queues, n + 1, before, after, error);
    }
}

/// A request by which a vring is configured.
pub open spec fn configures_vring<S, F>(request: Request<S, F>) -> bool {
    ||| request is SetVringNum
    ||| request is SetVringAddr
    ||| request is SetVringBase
    ||| request is SetVringCall
    ||| request is SetVringKick
}

/// All requests of a plan configure vrings, and it ends, if at all, in an address error.
pub open spec fn only_configures<S, F>(plan: Plan<S, F>) -> bool {
    &&& forall|i: int|
        0 <= i < plan.requests.len() ==> configures_vring(#[trigger] plan.requests[i])
    &&& plan.stop matches Some(e) ==> e is DescriptorTableAddress || e is UsedAddress
        || e is AvailAddress
}

/// Two plans that only configure vrings make up one that does.
proof fn lemma_and_only_configures<S, F>(first: Plan<S, F>, second: Plan<S, F>)
    requires
        only_configures(first),
        only_configures(second),
    ensures
        only_configures(first.and(second)),
{
    let both = first.and(second);
    assert forall|i: int| 0 <= i < both.requests.len() implies configures_vring(
        #[trigger] both.requests[i],
    ) by {
        if i < first.requests.len() {
            assert(both.requests[i] == first.requests[i]);
        } else {
            assert(both.requests[i] == second.requests[i - first.requests.len()]);
        }
    }
}

/// Configuring `n` vrings only configures vrings.
pub proof fn lemma_stopped_plan_requests<'a, S, F>(
    mem: GuestMemoryMmap,
    queues: Seq<QueueSetup<'a>>,
    n: nat,
)
    ensures
        only_configures(sizes_plan::<S, F>(queues, n)),
        only_configures(rings_plan::<S, F>(mem, queues, n)),
        only_configures(sizes_plan::<S, F>(queues, n).and(rings_plan(mem, queues, n))),
    decreases n,
{
    if n > 0 {
        let m = (n - 1) as nat;
        let setup = queues[n - 1];
        lemma_stopped_plan_requests::<S, F>(mem, queues, m);
        lemma_and_only_configures(
            sizes_plan::<S, F>(queues, m),
            Plan::single(Request::SetVringNum { index: setup.index, num: setup.queue.size }),
        );
        lemma_and_only_configures(
            rings_plan::<S, F>(mem, queues, m),
            ring_plan(mem, setup),
        );
    }
    lemma_and_only_configures(sizes_plan::<S, F>(queues, n), rings_plan(mem, queues, n));
}

/// Enabling `n` vrings takes one request for each and nothing else.
pub proof fn lemma_enable_plan_requests<'a, S, F>(queues: Seq<QueueSetup<'a>>, n: nat)
    ensures
        enable_plan::<S, F>(queues, n).stop is None,
        enable_plan::<S, F>(queues, n).requests == Seq::new(
            n,
            |i: int|
                Request::<S, F>::SetVringEnable { index: queues[i].index, enable: true },
        ),
    decreases n,
{
    let all = Seq::new(
        n,
        |i: int| Request::<S, F>::SetVringEnable { index: queues[i].index, enable: true },
    );
    if n > 0 {
        lemma_enable_plan_requests::<S, F>(queues, (n - 1) as nat);
        assert(enable_plan::<S, F>(queues, n).requests =~= all);
    } else {
        assert(enable_plan::<S, F>(queues, n).requests =~= all);
    }
}

/// The memory table tells a backend which byte of which file, and which byte of this process, each
/// guest address is. Nothing is sent where a region has no file.
pub proof fn law_memory_table_maps_guest_memory<T: VhostUserHandleBackend>(
    handle: &mut VhostUserHandleImpl<T>,
    mem: GuestMemoryMmap,
    outcome: Result<(), VhostUserError>,
)
    requires
        call_ensures(VhostUserHandleImpl::<T>::update_mem_table, (handle, &mem), outcome),
    ensures
        ({
            let before = old(handle).vu.trace();
            let after = final(handle).vu.trace();
            if exists|i: int| 0 <= i < mem@.len() && (#[trigger] mem@[i]).file_offset is None {
                &&& after == before
                &&& outcome == Err::<(), _>(VhostUserError::VhostUserNoMemoryRegion)
            } else {
                &&& after == before.push(after.last())
                &&& after.last().request is SetMemTable
                &&& after.last().request->regions.len() == mem@.len()
                &&& outcome is Ok <==> after.last().reply.error() is None
            }
        }),
        forall|i: int, addr: int|
            {
                let after = final(handle).vu.trace();
                let entry = after.last().request->regions[i];
                after.len() > old(handle).vu.trace().len() && 0 <= i < mem@.len()
                    && #[trigger] mem@[i].holds(addr) ==> {
                    &&& entry.guest_phys_addr <= addr < entry.guest_phys_addr + entry.memory_size
                    &&& entry.guest_phys_addr == mem@[i].start_addr
                    &&& entry.memory_size == mem@[i].len
                    &&& entry.mmap_handle == mem@[i].file_offset->0.fd
                    &&& entry.mmap_offset + (addr - entry.guest_phys_addr)
                        == mem@[i].file_offset->0.start + (addr - mem@[i].start_addr)
                    &&& entry.userspace_addr + (addr - entry.guest_phys_addr) == mem@[i].host_addr
                        + (addr - mem@[i].start_addr)
                }
            },
{
    let before = old(handle).vu.trace();
    let after = final(handle).vu.trace();
    crate::exchange::law_plans_are_carried_out_in_order(
        before,
        after,
        mem_table_plan(mem@),
        outcome,
    );
    if exists|i: int| 0 <= i < mem@.len() && (#[trigger] mem@[i]).file_offset is None {
        assert(after =~= before);
    } else {
        assert(after =~= before.push(after.last()));
        let plan = mem_table_plan::<T::Stream, T::File>(mem@);
        assert(after.last().request == plan.requests[0]);
    }
}

/// Where this process maps a guest address, given the regions of guest memory.
pub open spec fn maps_to(regions: Seq<GuestRegion>, addr: u64, host: u64) -> bool {
    exists|i: int|
        {
            &&& 0 <= i < regions.len()
            &&& (#[trigger] regions[i]).start_addr <= addr < regions[i].start_addr + regions[i].len
            &&& (host - regions[i].host_addr == addr - regions[i].start_addr || host
                - regions[i].host_addr == addr - regions[i].start_addr - 0x1_0000_0000_0000_0000)
        }
}

/// A request that tells the truth about one queue: its own index, size, addresses, position and
/// notifiers.
pub open spec fn tells_queue<'a, S, F>(
    request: Request<S, F>,
    regions: Seq<GuestRegion>,
    setup: QueueSetup<'a>,
) -> bool {
    match request {
        Request::SetVringNum { index, num } => index == setup.index && num == setup.queue.size,
        Request::SetVringAddr { index, config } => {
            &&& index == setup.index
            &&& config.queue_max_size == setup.queue.max_size
            &&& config.queue_size == setup.queue.size
            &&& config.flags == 0
            &&& config.log_addr is None
            &&& maps_to(regions, setup.queue.desc_table_address, config.desc_table_addr)
            &&& maps_to(regions, setup.queue.used_ring_address, config.used_ring_addr)
            &&& maps_to(regions, setup.queue.avail_ring_address, config.avail_ring_addr)
        },
        Request::SetVringBase { index, base } => index == setup.index && base
            == setup.queue.next_avail,
        Request::SetVringCall { index, fd } => index == setup.index && fd == *setup.call,
        Request::SetVringKick { index, fd } => index == setup.index && fd == *setup.kick,
        Request::SetVringEnable { index, enable } => index == setup.index && enable,
        _ => false,
    }
}

/// Where guest memory holds an address, the host maps it.
proof fn lemma_maps_to(mem: GuestMemoryMmap, addr: u64)
    requires
        mem.wf(),
    ensures
        mem.host_address(addr) matches Ok(host) ==> maps_to(mem@, addr, host),
{
    if mem.host_address(addr) is Ok {
        let i = mem.region_of(addr as int)->0;
        assert(0 <= i < mem@.len() && mem@[i].holds(addr as int));
        assert(mem@[i].start_addr <= addr);
    }
}

/// The requests that describe a vring tell the truth about its queue.
proof fn lemma_ring_tells<'a, S, F>(mem: GuestMemoryMmap, setup: QueueSetup<'a>)
    requires
        mem.wf(),
    ensures
        ({
            let plan = ring_plan::<S, F>(mem, setup);
            &&& plan.stop is Some ==> plan.requests.len() == 0
            &&& plan.stop is None ==> {
                &&& plan.requests.len() == 4
                &&& plan.requests[0] is SetVringAddr
                &&& plan.requests[1] is SetVringBase
                &&& plan.requests[2] is SetVringCall
                &&& plan.requests[3] is SetVringKick
                &&& forall|j: int|
                    0 <= j < 4 ==> tells_queue(#[trigger] plan.requests[j], mem@, setup)
            }
        }),
{
    lemma_maps_to(mem, setup.queue.desc_table_address);
    lemma_maps_to(mem, setup.queue.used_ring_address);
    lemma_maps_to(mem, setup.queue.avail_ring_address);
    let plan = ring_plan::<S, F>(mem, setup);
    if plan.stop is None {
        assert forall|j: int| 0 <= j < 4 implies tells_queue(
            #[trigger] plan.requests[j],
            mem@,
            setup,
        ) by {
            if j == 0 {
            } else if j == 1 {
            } else if j == 2 {
            } else {
            }
        }
    }
}

/// Announcing the sizes of `n` queues takes one request for each.
proof fn lemma_sizes_tell<'a, S, F>(
    mem: GuestMemoryMmap,
    queues: Seq<QueueSetup<'a>>,
    n: nat,
)
    requires
        n <= queues.len(),
    ensures
        ({
            let plan = sizes_plan::<S, F>(queues, n);
            &&& plan.stop is None
            &&& plan.requests.len() == n
            &&& forall|k: int|
                0 <= k < n ==> (#[trigger] plan.requests[k]) is SetVringNum && tells_queue(
                    plan.requests[k],
                    mem@,
                    queues[k],
                )
        }),
    decreases n,
{
    if n > 0 {
        lemma_sizes_tell::<S, F>(mem, queues, (n - 1) as nat);
        let less = sizes_plan::<S, F>(queues, (n - 1) as nat);
        let plan = sizes_plan::<S, F>(queues, n);
        assert forall|k: int| 0 <= k < n implies (#[trigger] plan.requests[k]) is SetVringNum
            && tells_queue(plan.requests[k], mem@, queues[k]) by {
            if k < n - 1 {
                assert(plan.requests[k] == less.requests[k]);
            }
        }
    }
}

/// The requests that describe `n` vrings, four for each, tell the truth about their queues.
proof fn lemma_rings_tell<'a, S, F>(
    mem: GuestMemoryMmap,
    queues: Seq<QueueSetup<'a>>,
    n: nat,
)
    requires
        mem.wf(),
        n <= queues.len(),
    ensures
        ({
            let plan = rings_plan::<S, F>(mem, queues, n);
            &&& plan.requests.len() <= 4 * n
            &&& plan.stop is None ==> plan.requests.len() == 4 * n
            &&& forall|k: int|
                0 <= k < plan.requests.len() ==> {
                    &&& tells_queue(#[trigger] plan.requests[k], mem@, queues[k / 4])
                    &&& k % 4 == 0 ==> plan.requests[k] is SetVringAddr
                    &&& k % 4 == 1 ==> plan.requests[k] is SetVringBase
                    &&& k % 4 == 2 ==> plan.requests[k] is SetVringCall
                    &&& k % 4 == 3 ==> plan.requests[k] is SetVringKick
                }
        }),
    decreases n,
{
    if n > 0 {
        lemma_rings_tell::<S, F>(mem, queues, (n - 1) as nat);
        lemma_ring_tells::<S, F>(mem, queues[n - 1]);
        let less = rings_plan::<S, F>(mem, queues, (n - 1) as nat);
        let ring = ring_plan::<S, F>(mem, queues[n - 1]);
        let plan = rings_plan::<S, F>(mem, queues, n);
        assert forall|k: int| 0 <= k < plan.requests.len() implies {
            &&& tells_queue(#[trigger] plan.requests[k], mem@, queues[k / 4])
            &&& k % 4 == 0 ==> plan.requests[k] is SetVringAddr
            &&& k % 4 == 1 ==> plan.requests[k] is SetVringBase
            &&& k % 4 == 2 ==> plan.requests[k] is SetVringCall
            &&& k % 4 == 3 ==> plan.requests[k] is SetVringKick
        } by {
            if k < less.requests.len() {
                assert(plan.requests[k] == less.requests[k]);
            } else {
                assert(less.requests.len() == 4 * (n - 1));
                assert(plan.requests[k] == ring.requests[k - less.requests.len()]);
                assert(k / 4 == n - 1);
            }
        }
    }
}

/// The requests that configure vrings and leave them disabled tell the truth about their queues:
/// first all sizes, then four requests for each.
pub proof fn lemma_stopped_plan_tells<'a, S, F>(
    mem: GuestMemoryMmap,
    queues: Seq<QueueSetup<'a>>,
)
    requires
        mem.wf(),
    ensures
        ({
            let plan = stopped_plan::<S, F>(mem, queues);
            let n = queues.len();
            &&& plan.requests.len() <= 5 * n
            &&& plan.stop is None ==> plan.requests.len() == 5 * n
            &&& forall|k: int|
                0 <= k < plan.requests.len() ==> {
                    &&& tells_queue(
                        #[trigger] plan.requests[k],
                        mem@,
                        queues[if k < n { k } else { (k - n) / 4 }],
                    )
                    &&& k < n ==> plan.requests[k] is SetVringNum
                    &&& k >= n && (k - n) % 4 == 0 ==> plan.requests[k] is SetVringAddr
                    &&& k >= n && (k - n) % 4 == 1 ==> plan.requests[k] is SetVringBase
                    &&& k >= n && (k - n) % 4 == 2 ==> plan.requests[k] is SetVringCall
                    &&& k >= n && (k - n) % 4 == 3 ==> plan.requests[k] is SetVringKick
                }
        }),
{
    let n = queues.len();
    lemma_sizes_tell::<S, F>(mem, queues, n);
    lemma_rings_tell::<S, F>(mem, queues, n);
    let sizes = sizes_plan::<S, F>(queues, n);
    let rings = rings_plan::<S, F>(mem, queues, n);
    let plan = stopped_plan::<S, F>(mem, queues);
    assert forall|k: int| 0 <= k < plan.requests.len() implies {
        &&& tells_queue(
            #[trigger] plan.requests[k],
            mem@,
            queues[if k < n { k } else { (k - n) / 4 }],
        )
        &&& k < n ==> plan.requests[k] is SetVringNum
        &&& k >= n && (k - n) % 4 == 0 ==> plan.requests[k] is SetVringAddr
        &&& k >= n && (k - n) % 4 == 1 ==> plan.requests[k] is SetVringBase
        &&& k >= n && (k - n) % 4 == 2 ==> plan.requests[k] is SetVringCall
        &&& k >= n && (k - n) % 4 == 3 ==> plan.requests[k] is SetVringKick
    } by {
        if k < n {
            assert(plan.requests[k] == sizes.requests[k]);
        } else {
            assert(plan.requests[k] == rings.requests[k - n]);
        }
    }
}

/// Setting up vrings tells a backend, of each vring, the truth about its own queue: first the sizes
/// of all of them, then where each lies and how it is notified. None is enabled. Where it succeeds,
/// nothing is left out.
pub proof fn law_vrings_are_described_by_their_queues<'a, T: VhostUserHandleBackend>(
    handle: &mut VhostUserHandleImpl<T>,
    mem: GuestMemoryMmap,
    queues: &[QueueSetup<'a>],
    outcome: Result<(), VhostUserError>,
)
    requires
        mem.wf(),
        call_ensures(
            VhostUserHandleImpl::<T>::setup_backend_stopped_after_mem_table,
            (handle, &mem, queues),
            outcome,
        ),
    ensures
        ({
            let start = old(handle).vu.trace().len() as int;
            let after = final(handle).vu.trace();
            let n = queues@.len() as int;
            &&& outcome is Ok ==> after.len() == start + 5 * n
            &&& forall|k: int|
                0 <= k < after.len() - start ==> {
                    let request = (#[trigger] after[start + k]).request;
                    &&& tells_queue(
                        request,
                        mem@,
                        queues@[if k < n { k } else { (k - n) / 4 }],
                    )
                    &&& k < n ==> request is SetVringNum
                    &&& k >= n && (k - n) % 4 == 0 ==> request is SetVringAddr
                    &&& k >= n && (k - n) % 4 == 1 ==> request is SetVringBase
                    &&& k >= n && (k - n) % 4 == 2 ==> request is SetVringCall
                    &&& k >= n && (k - n) % 4 == 3 ==> request is SetVringKick
                }
        }),
{
    let before = old(handle).vu.trace();
    let after = final(handle).vu.trace();
    let plan = stopped_plan::<T::Stream, T::File>(mem, queues@);
    crate::exchange::law_plans_are_carried_out_in_order(before, after, plan, outcome);
    lemma_stopped_plan_tells::<T::Stream, T::File>(mem, queues@);
    let start = before.len() as int;
    assert forall|k: int| 0 <= k < after.len() - start implies (
    #[trigger] after[start + k]).request == plan.requests[k] by {
        assert(after[start + k].request == plan.requests[start + k - before.len()]);
    }
}

/// The requests that describe vrings and then enable them tell the truth about their queues.
#[verifier::spinoff_prover]
#[verifier::rlimit(60)]
proof fn lemma_full_plan_tells<'a, S, F>(mem: GuestMemoryMmap, queues: Seq<QueueSetup<'a>>)
    requires
        mem.wf(),
    ensures
        ({
            let plan = stopped_plan::<S, F>(mem, queues).and(enable_plan(queues, queues.len()));
            let n = queues.len() as int;
            &&& plan.requests.len() <= 6 * n
            &&& plan.stop is None ==> plan.requests.len() == 6 * n
            &&& forall|k: int|
                0 <= k < plan.requests.len() ==> {
                    let request = #[trigger] plan.requests[k];
                    &&& (request is SetVringEnable <==> k >= 5 * n)
                    &&& tells_queue(
                        request,
                        mem@,
                        queues[if k < n {
                            k
                        } else if k < 5 * n {
                            (k - n) / 4
                        } else {
                            k - 5 * n
                        }],
                    )
                }
        }),
{
    let stopped = stopped_plan::<S, F>(mem, queues);
    let enable = enable_plan::<S, F>(queues, queues.len());
    let plan = stopped.and(enable);
    let n = queues.len() as int;
    lemma_stopped_plan_tells::<S, F>(mem, queues);
    lemma_enable_plan_requests::<S, F>(queues, queues.len());
    assert forall|k: int| 0 <= k < plan.requests.len() implies {
        let request = #[trigger] plan.requests[k];
        &&& (request is SetVringEnable <==> k >= 5 * n)
        &&& tells_queue(
            request,
            mem@,
            queues[if k < n {
                k
            } else if k < 5 * n {
                (k - n) / 4
            } else {
                k - 5 * n
            }],
        )
    } by {
        if k < stopped.requests.len() {
            assert(plan.requests[k] == stopped.requests[k]);
        } else {
            assert(plan.requests[k] == enable.requests[k - stopped.requests.len()]);
        }
    }
}

/// Setting up vrings in full goes on by enabling each of them, in order, once all are described.
#[verifier::spinoff_prover]
#[verifier::rlimit(60)]
pub proof fn law_vrings_are_enabled_last<'a, T: VhostUserHandleBackend>(
    handle: &mut VhostUserHandleImpl<T>,
    mem: GuestMemoryMmap,
    queues: &[QueueSetup<'a>],
    outcome: Result<(), VhostUserError>,
)
    requires
        mem.wf(),
        call_ensures(
            VhostUserHandleImpl::<T>::setup_backend_after_mem_table,
            (handle, &mem, queues),
            outcome,
        ),
    ensures
        ({
            let start = old(handle).vu.trace().len() as int;
            let after = final(handle).vu.trace();
            let n = queues@.len() as int;
            &&& after.len() <= start + 6 * n
            &&& outcome is Ok ==> after.len() == start + 6 * n
            &&& forall|k: int|
                0 <= k < after.len() - start ==> {
                    let request = (#[trigger] after[start + k]).request;
                    &&& (request is SetVringEnable <==> k >= 5 * n)
                    &&& tells_queue(
                        request,
                        mem@,
                        queues@[if k < n {
                            k
                        } else if k < 5 * n {
                            (k - n) / 4
                        } else {
                            k - 5 * n
                        }],
                    )
                }
        }),
{
    let before = old(handle).vu.trace();
    let after = final(handle).vu.trace();
    let plan = stopped_plan::<T::Stream, T::File>(mem, queues@).and(
        enable_plan(queues@, queues@.len()),
    );
    crate::exchange::law_plans_are_carried_out_in_order(before, after, plan, outcome);
    lemma_full_plan_tells::<T::Stream, T::File>(mem, queues@);
    let start = before.len() as int;
    assert forall|k: int| 0 <= k < after.len() - start implies (
    #[trigger] after[start + k]).request == plan.requests[k] by {
        assert(after[start + k].request == plan.requests[start + k - before.len()]);
    }
}

/// Setting up a backend from the start tells it the memory table, then describes the vrings, then
/// enables them.
#[verifier::spinoff_prover]
#[verifier::rlimit(60)]
pub proof fn law_setup_starts_with_the_memory_table<'a, T: VhostUserHandleBackend>(
    handle: &mut VhostUserHandleImpl<T>,
    mem: GuestMemoryMmap,
    queues: &[QueueSetup<'a>],
    outcome: Result<(), VhostUserError>,
)
    requires
        mem.wf(),
        call_ensures(
            VhostUserHandleImpl::<T>::setup_backend,
            (handle, &mem, queues),
            outcome,
        ),
    ensures
        ({
            let start = old(handle).vu.trace().len() as int;
            let after = final(handle).vu.trace();
            let n = queues@.len() as int;
            &&& after.len() <= start + 1 + 6 * n
            &&& outcome is Ok ==> after.len() == start + 1 + 6 * n
            &&& after.len() > start ==> after[start].request is SetMemTable
            &&& forall|k: int|
                0 <= k < after.len() - start - 1 ==> {
                    let request = (#[trigger] after[start + 1 + k]).request;
                    &&& (request is SetVringEnable <==> k >= 5 * n)
                    &&& tells_queue(
                        request,
                        mem@,
                        queues@[if k < n {
                            k
                        } else if k < 5 * n {
                            (k - n) / 4
                        } else {
                            k - 5 * n
                        }],
                    )
                }
        }),
{
    let before = old(handle).vu.trace();
    let after = final(handle).vu.trace();
    let table = mem_table_plan::<T::Stream, T::File>(mem@);
    let stopped = stopped_plan::<T::Stream, T::File>(mem, queues@);
    let enable = enable_plan::<T::Stream, T::File>(queues@, queues@.len());
    let rest = stopped.and(enable);
    let plan = table.and(stopped).and(enable);
    crate::exchange::law_plans_are_carried_out_in_order(before, after, plan, outcome);
    lemma_full_plan_tells::<T::Stream, T::File>(mem, queues@);
    let start = before.len() as int;
    if table.stop is None {
        assert(table.requests.len() == 1);
        assert(plan.requests =~= table.requests + rest.requests);
        assert(plan.stop == rest.stop);
    }
    if after.len() > start {
        assert(after[start].request == plan.requests[start - before.len()]);
    }
    assert forall|k: int| 0 <= k < after.len() - start - 1 implies (
    #[trigger] after[start + 1 + k]).request == rest.requests[k] by {
        assert(after[start + 1 + k].request == plan.requests[start + 1 + k - before.len()]);
    }
}

/// Setting up a backend without starting it tells it the memory table and then describes the
/// vrings; none is enabled.
#[verifier::spinoff_prover]
#[verifier::rlimit(60)]
pub proof fn law_setup_can_leave_vrings_stopped<'a, T: VhostUserHandleBackend>(
    handle: &mut VhostUserHandleImpl<T>,
    mem: GuestMemoryMmap,
    queues: &[QueueSetup<'a>],
    outcome: Result<(), VhostUserError>,
)
    requires
        mem.wf(),
        call_ensures(
            VhostUserHandleImpl::<T>::setup_backend_stopped,
            (handle, &mem, queues),
            outcome,
        ),
    ensures
        ({
            let start = old(handle).vu.trace().len() as int;
            let after = final(handle).vu.trace();
            let n = queues@.len() as int;
            &&& after.len() <= start + 1 + 5 * n
            &&& outcome is Ok ==> after.len() == start + 1 + 5 * n
            &&& after.len() > start ==> after[start].request is SetMemTable
            &&& forall|k: int|
                0 <= k < after.len() - start - 1 ==> {
                    let request = (#[trigger] after[start + 1 + k]).request;
                    &&& !(request is SetVringEnable)
                    &&& tells_queue(
                        request,
                        mem@,
                        queues@[if k < n { k } else { (k - n) / 4 }],
                    )
                }
        }),
{
    let before = old(handle).vu.trace();
    let after = final(handle).vu.trace();
    let table = mem_table_plan::<T::Stream, T::File>(mem@);
    let stopped = stopped_plan::<T::Stream, T::File>(mem, queues@);
    let plan = table.and(stopped);
    crate::exchange::law_plans_are_carried_out_in_order(before, after, plan, outcome);
    lemma_stopped_plan_tells::<T::Stream, T::File>(mem, queues@);
    let start = before.len() as int;
    if table.stop is None {
        assert(table.requests.len() == 1);
        assert(plan.requests =~= table.requests + stopped.requests);
    }
    if after.len() > start {
        assert(after[start].request == plan.requests[start - before.len()]);
    }
    assert forall|k: int| 0 <= k < after.len() - start - 1 implies (
    #[trigger] after[start + 1 + k]).request == stopped.requests[k] by {
        assert(after[start + 1 + k].request == plan.requests[start + 1 + k - before.len()]);
    }
}

/// Stopping a vring disables it and then asks for its index, which is what comes out.
pub proof fn law_a_stopped_vring_gives_its_index<T: VhostUserHandleBackend>(
    handle: &mut VhostUserHandleImpl<T>,
    index: usize,
    outcome: Result<u32, VhostUserError>,
)
    requires
        call_ensures(VhostUserHandleImpl::<T>::stop_vring, (handle, index), outcome),
    ensures
        ({
            let start = old(handle).vu.trace().len() as int;
            let after = final(handle).vu.trace();
            &&& start < after.len() <= start + 2
            &&& after.take(start) == old(handle).vu.trace()
            &&& after[start].request == Request::<T::Stream, T::File>::SetVringEnable {
                index,
                enable: false,
            }
            &&& after.len() == start + 2 ==> after[start + 1].request == Request::<
                T::Stream,
                T::File,
            >::GetVringBase { index }
            &&& outcome matches Ok(base) ==> after.len() == start + 2 && after[start + 1].reply
                == Reply::<T::File>::Base(Ok(base))
        }),
{
    let before = old(handle).vu.trace();
    let after = final(handle).vu.trace();
    crate::exchange::law_plans_are_carried_out_in_order(
        before,
        after,
        stop_plan(index),
        crate::exchange::valueless(outcome),
    );
}

/// Restarting a vring gives back what stopping it cleared, in this order: its index, its two
/// notifiers, and that it is enabled.
pub proof fn law_a_vring_restarts_where_it_is_told<T: VhostUserHandleBackend>(
    handle: &mut VhostUserHandleImpl<T>,
    index: usize,
    base: u16,
    call: &EventFd,
    kick: &EventFd,
    outcome: Result<(), VhostUserError>,
)
    requires
        call_ensures(
            VhostUserHandleImpl::<T>::restart_vring,
            (handle, index, base, call, kick),
            outcome,
        ),
    ensures
        ({
            let start = old(handle).vu.trace().len() as int;
            let after = final(handle).vu.trace();
            &&& start < after.len() <= start + 4
            &&& after.take(start) == old(handle).vu.trace()
            &&& outcome is Ok ==> after.len() == start + 4
            &&& after[start].request == Request::<T::Stream, T::File>::SetVringBase {
                index,
                base,
            }
            &&& after.len() > start + 1 ==> after[start + 1].request == Request::<
                T::Stream,
                T::File,
            >::SetVringCall { index, fd: *call }
            &&& after.len() > start + 2 ==> after[start + 2].request == Request::<
                T::Stream,
                T::File,
            >::SetVringKick { index, fd: *kick }
            &&& after.len() > start + 3 ==> after[start + 3].request == Request::<
                T::Stream,
                T::File,
            >::SetVringEnable { index, enable: true }
        }),
{
    let before = old(handle).vu.trace();
    let after = final(handle).vu.trace();
    crate::exchange::law_plans_are_carried_out_in_order(
        before,
        after,
        restart_plan(index, base, *call, *kick),
        outcome,
    );
}

/// Setting features sends the backend exactly these features.
pub proof fn law_features_are_sent_as_given<T: VhostUserHandleBackend>(
    handle: &mut VhostUserHandleImpl<T>,
    features: u64,
    outcome: Result<(), VhostUserError>,
)
    requires
        call_ensures(VhostUserHandleImpl::<T>::set_features, (handle, features), outcome),
    ensures
        ({
            let after = final(handle).vu.trace();
            &&& after == old(handle).vu.trace().push(after.last())
            &&& after.last().request == Request::<T::Stream, T::File>::SetFeatures { features }
            &&& outcome is Ok <==> after.last().reply.error() is None
        }),
{
    let before = old(handle).vu.trace();
    let after = final(handle).vu.trace();
    let plan = Plan::single(Request::<T::Stream, T::File>::SetFeatures { features });
    crate::exchange::law_plans_are_carried_out_in_order(before, after, plan, outcome);
    assert(after =~= before.push(after.last()));
}

/// Switching a vring sends its index and the wanted state.
pub proof fn law_a_vring_is_switched_as_asked<T: VhostUserHandleBackend>(
    handle: &mut VhostUserHandleImpl<T>,
    index: usize,
    enable: bool,
    outcome: Result<(), VhostUserError>,
)
    requires
        call_ensures(VhostUserHandleImpl::<T>::set_vring_enabled, (handle, index, enable), outcome),
    ensures
        ({
            let after = final(handle).vu.trace();
            &&& after == old(handle).vu.trace().push(after.last())
            &&& after.last().request == Request::<T::Stream, T::File>::SetVringEnable {
                index,
                enable,
            }
            &&& outcome is Ok <==> after.last().reply.error() is None
        }),
{
    let before = old(handle).vu.trace();
    let after = final(handle).vu.trace();
    let plan = Plan::single(Request::<T::Stream, T::File>::SetVringEnable { index, enable });
    crate::exchange::law_plans_are_carried_out_in_order(before, after, plan, outcome);
    assert(after =~= before.push(after.last()));
}

/// Installing a dirty log sends its base and its memory.
pub proof fn law_the_log_is_installed_as_given<T: VhostUserHandleBackend>(
    handle: &mut VhostUserHandleImpl<T>,
    log_base: u64,
    region: VhostUserDirtyLogRegion,
    outcome: Result<(), VhostUserError>,
)
    requires
        call_ensures(VhostUserHandleImpl::<T>::set_log_base, (handle, log_base, region), outcome),
    ensures
        ({
            let after = final(handle).vu.trace();
            &&& after == old(handle).vu.trace().push(after.last())
            &&& after.last().request == Request::<T::Stream, T::File>::SetLogBase {
                log_base,
                region: Some(region),
            }
            &&& outcome is Ok <==> after.last().reply.error() is None
        }),
{
    let before = old(handle).vu.trace();
    let after = final(handle).vu.trace();
    let plan = Plan::single(
        Request::<T::Stream, T::File>::SetLogBase { log_base, region: Some(region) },
    );
    crate::exchange::law_plans_are_carried_out_in_order(before, after, plan, outcome);
    assert(after =~= before.push(after.last()));
}

/// A state transfer goes in the wanted direction, through the given file, on a stopped device.
pub proof fn law_state_goes_through_the_given_file<T: VhostUserHandleBackend>(
    handle: &mut VhostUserHandleImpl<T>,
    direction: VhostTransferStateDirection,
    file: T::File,
    outcome: Result<(), VhostUserError>,
)
    requires
        call_ensures(
            VhostUserHandleImpl::<T>::set_device_state_fd,
            (handle, direction, file),
            outcome,
        ),
    ensures
        ({
            let after = final(handle).vu.trace();
            &&& after == old(handle).vu.trace().push(after.last())
            &&& after.last().request == Request::<T::Stream, T::File>::SetDeviceStateFd {
                direction,
                phase: VhostTransferStatePhase::Stopped,
                file,
            }
            &&& outcome is Ok <==> after.last().reply.error() is None
        }),
{
    let before = old(handle).vu.trace();
    let after = final(handle).vu.trace();
    let plan = Plan::single(
        Request::<T::Stream, T::File>::SetDeviceStateFd {
            direction,
            phase: VhostTransferStatePhase::Stopped,
            file,
        },
    );
    crate::exchange::law_plans_are_carried_out_in_order(before, after, plan, outcome);
    assert(after =~= before.push(after.last()));
}

/// Whether a state transfer succeeded is what the backend says.
pub proof fn law_the_backend_judges_a_transfer<T: VhostUserHandleBackend>(
    handle: &mut VhostUserHandleImpl<T>,
    outcome: Result<(), VhostUserError>,
)
    requires
        call_ensures(VhostUserHandleImpl::<T>::check_device_state, (handle,), outcome),
    ensures
        ({
            let after = final(handle).vu.trace();
            &&& after == old(handle).vu.trace().push(after.last())
            &&& after.last().request == Request::<T::Stream, T::File>::CheckDeviceState
            &&& outcome is Ok <==> after.last().reply.error() is None
        }),
{
    let before = old(handle).vu.trace();
    let after = final(handle).vu.trace();
    let plan = Plan::single(Request::<T::Stream, T::File>::CheckDeviceState);
    crate::exchange::law_plans_are_carried_out_in_order(before, after, plan, outcome);
    assert(after =~= before.push(after.last()));
}

/// Requests ask for replies after this call exactly where that was asked for, and the backend is
/// told so once.
pub proof fn law_replies_are_asked_for_as_selected<T: VhostUserHandleBackend>(
    handle: &mut VhostUserHandleImpl<T>,
    enabled: bool,
)
    requires
        call_ensures(VhostUserHandleImpl::<T>::set_reply_ack_requests, (handle, enabled), ()),
    ensures
        ({
            let after = final(handle).vu.trace();
            &&& after == old(handle).vu.trace().push(after.last())
            &&& after.last().request is SetHdrFlags
            &&& after.last().request->SetHdrFlags_flags & 0x8 == if enabled {
                0x8u32
            } else {
                0
            }
            &&& after.last().request->SetHdrFlags_flags & !0x8u32 == 0
        }),
{
    assert(0x8u32 & 0x8 == 0x8 && 0x8u32 & !0x8u32 == 0 && 0u32 & 0x8 == 0 && 0u32 & !0x8u32 == 0)
        by (bit_vector);
}

/// A session starts by taking over the connection, with room for the wanted number of queues, and
/// by asking to own the backend. It exists only where the backend agrees.
pub proof fn law_a_session_owns_its_backend<T: VhostUserHandleBackend>(
    socket_path: &str,
    sock: T::Stream,
    num_queues: u64,
    handle: Result<VhostUserHandleImpl<T>, VhostUserError>,
)
    requires
        call_ensures(
            VhostUserHandleImpl::<T>::new,
            (socket_path, Ok(sock), num_queues),
            handle,
        ),
    ensures
        handle matches Ok(h) ==> {
            &&& h.socket_path@ == socket_path@
            &&& h.vu.trace().len() == 2
            &&& h.vu.trace()[0].request == Request::<T::Stream, T::File>::FromStream {
                sock,
                max_queue_num: num_queues,
            }
            &&& h.vu.trace()[1].request == Request::<T::Stream, T::File>::SetOwner
            &&& h.vu.trace()[1].reply.error() is None
        },
        handle matches Err(e) ==> e is VhostUserSetOwner,
{
}

/// Protocol features are announced only on a session that has them, and only where all of them are
/// known. Where replies are among them, requests ask for replies from then on.
pub proof fn law_protocol_features_are_announced<T: VhostUserHandleBackend>(
    handle: &mut VhostUserHandleImpl<T>,
    features: u64,
    protocol: u64,
    outcome: Result<(), VhostUserError>,
)
    requires
        call_ensures(
            VhostUserHandleImpl::<T>::set_protocol_features,
            (handle, features, protocol),
            outcome,
        ),
    ensures
        ({
            let start = old(handle).vu.trace().len() as int;
            let after = final(handle).vu.trace();
            &&& after.take(start) == old(handle).vu.trace()
            &&& (features & 0x4000_0000 == 0 || protocol & !0x003f_ffffu64 != 0)
                ==> after.len() == start && outcome is Ok
            &&& (features & 0x4000_0000 != 0 && protocol & !0x003f_ffffu64 == 0) ==> {
                &&& start < after.len() <= start + 2
                &&& after[start].request == Request::<T::Stream, T::File>::SetProtocolFeatures {
                    features: protocol,
                }
                &&& after[start].reply.error() is Some ==> outcome is Err && after.len() == start
                    + 1
                &&& after[start].reply.error() is None && protocol & 0x8 == 0 ==> outcome is Ok
                &&& after.len() == start + 2 ==> protocol & 0x8 != 0
                    && after[start + 1].request == Request::<T::Stream, T::File>::SetHdrFlags {
                    flags: 0x8,
                }
                &&& outcome is Ok && protocol & 0x8 != 0 ==> after.len() == start + 2
            }
        }),
{
    let before = old(handle).vu.trace();
    let after = final(handle).vu.trace();
    let plan = protocol_features_plan::<T::Stream, T::File>(features, protocol);
    crate::exchange::law_plans_are_carried_out_in_order(before, after, plan, outcome);
    assert(protocol & 0x003f_ffff == protocol <==> protocol & !0x003f_ffffu64 == 0) by (bit_vector);
    assert(protocol & 0x8 == 0x8 <==> protocol & 0x8 != 0) by (bit_vector);
    if after.len() == before.len() + 2 {
        assert(after[before.len() as int].reply.error() is None);
    }
    assert(after.len() == before.len() + 1 ==> after.last() == after[before.len() as int]);
}

/// A negotiation asks for the features of the backend, and for its protocol features where both
/// sides have those at all. Of either, what comes out is what both sides have, and exactly the
/// common protocol features are announced.
pub proof fn law_negotiation_keeps_what_is_common<T: VhostUserHandleBackend>(
    handle: &mut VhostUserHandleImpl<T>,
    avail: u64,
    avail_protocol: u64,
    outcome: Result<(u64, u64), VhostUserError>,
)
    requires
        call_ensures(
            VhostUserHandleImpl::<T>::negotiate_features,
            (handle, avail, avail_protocol),
            outcome,
        ),
    ensures
        ({
            let start = old(handle).vu.trace().len() as int;
            let after = final(handle).vu.trace();
            &&& start < after.len() <= start + 4
            &&& after[start].request == Request::<T::Stream, T::File>::GetFeatures
            &&& after.len() > start + 1 ==> after[start + 1].request == Request::<
                T::Stream,
                T::File,
            >::GetProtocolFeatures
            &&& outcome is Ok ==> {
                let acked = outcome->Ok_0.0;
                let protocol = outcome->Ok_0.1;
                &&& after[start].reply matches Reply::Features(Ok(offered)) && acked == avail
                    & offered
                &&& after.len() > start + 1 <==> acked & 0x4000_0000 != 0
                &&& acked & 0x4000_0000 == 0 ==> protocol == 0
                &&& acked & 0x4000_0000 != 0 ==> {
                    &&& after.len() >= start + 3
                    &&& after[start + 1].reply matches Reply::Features(Ok(offered)) && protocol
                        == avail_protocol & offered
                    &&& after[start + 2].request == Request::<
                        T::Stream,
                        T::File,
                    >::SetProtocolFeatures { features: protocol }
                    &&& protocol & 0x8 != 0 <==> after.len() == start + 4
                }
                &&& after.len() == start + 4 ==> after[start + 3].request == Request::<
                    T::Stream,
                    T::File,
                >::SetHdrFlags { flags: 0x8 }
            }
        }),
{
    let before = old(handle).vu.trace();
    let after = final(handle).vu.trace();
    let start = before.len() as int;
    let sent = after.skip(start);
    assert forall|k: int| 0 <= k < sent.len() implies #[trigger] sent[k] == after[start + k] by {}
    if outcome is Ok {
        let protocol = outcome->Ok_0.1;
        assert(protocol & 0x8 == 0x8 <==> protocol & 0x8 != 0) by (bit_vector);
    }
    assert(sent[0] == after[start]);
    if sent.len() > 1 {
        assert(sent[1] == after[start + 1]);
    }
    if sent.len() > 2 {
        assert(sent[2] == after[start + 2]);
    }
    if sent.len() > 3 {
        assert(sent[3] == after[start + 3]);
    }
}

/// Without a connection there is no session, and the error is that of connecting.
pub proof fn law_a_session_needs_a_connection<T: VhostUserHandleBackend>(
    socket_path: &str,
    cause: std::io::Error,
    num_queues: u64,
    handle: Result<VhostUserHandleImpl<T>, VhostUserError>,
)
    requires
        call_ensures(
            VhostUserHandleImpl::<T>::new,
            (socket_path, Err(cause), num_queues),
            handle,
        ),
    ensures
        handle == Err::<VhostUserHandleImpl<T>, _>(VhostUserError::Connect(cause)),
{
}

} // verus!
