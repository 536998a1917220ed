use std::cell::RefCell;
use std::path::PathBuf;
use std::rc::Rc;
use std::sync::Arc;

use vhost::vhost_user::message::{
    VhostUserHeaderFlag, VhostUserProtocolFeatures, VhostUserVirtioFeatures,
};
use virtio_host::dirty_log::{DirtyLog, DirtyLogLayout, MemoryRange, VHOST_LOG_PAGE_SIZE};
use virtio_host::exchange::Trace;
use virtio_host::fs_config::FsConfig;
use virtio_host::guest_memory::{FileOffset, GuestMemoryError, GuestMemoryMmap, GuestRegion};
use virtio_host::persist::{VirtioFsConstructorArgs, VirtioFsPersistError, VirtioFsState};
use virtio_host::vhost_user::{
    Queue, QueueSetup, VhostTransferStateDirection, VhostTransferStatePhase, VhostUserConfig,
    VhostUserDirtyLogRegion, VhostUserError, VhostUserHandleBackend, VhostUserHandleImpl,
    VhostUserMemoryRegionInfo, VringConfigData,
};
use virtio_host::virtio_fs::{
    check_features, ActivateError, Activation, FinishStep, SnapshotStep, Stage, SyncError, VirtioFs,
    VirtioFsError, AVAILABLE_FEATURES, FS_NUM_QUEUES, FS_QUEUE_SIZE, REQUESTED_FEATURES,
    REQUIRED_PROTOCOL_FEATURES,
};
use vmm_sys_util::eventfd::EventFd;

/// What a mock backend knows of one vring.
#[derive(Default)]
struct VringData {
    index: usize,
    size: u16,
    config: Option<VringConfigData>,
    base: u16,
    call: Option<EventFd>,
    kick: Option<EventFd>,
    enable: bool,
}

/// A backend that remembers what it was told.
#[derive(Default)]
struct State {
    /// Features that the backend offers.
    features: u64,
    /// Protocol features that the backend offers.
    backend_protocol_features: u64,
    /// Protocol features that were set.
    protocol_features: u64,
    hdr_flags: u32,
    max_queue_num: u64,
    is_owner: bool,
    regions: Vec<VhostUserMemoryRegionInfo>,
    mem_table_updates: usize,
    vrings: Vec<VringData>,
    /// The indices with which vrings stop.
    bases: Vec<u32>,
    /// All requests in order.
    log: Vec<String>,
    /// The request that fails, as the log has it.
    failing: Option<&'static str>,
}

type Shared = Rc<RefCell<State>>;

struct MockFrontend {
    state: Shared,
}

impl MockFrontend {
    /// Records a request and answers it.
    fn ack(&self, request: String) -> Result<(), vhost::Error> {
        let mut state = self.state.borrow_mut();
        let fails = state.failing == Some(request.as_str());
        state.log.push(request);
        if fails {
            Err(vhost::Error::InvalidOperation)
        } else {
            Ok(())
        }
    }

    fn vring<R>(&self, index: usize, change: impl FnOnce(&mut VringData) -> R) -> Option<R> {
        let mut state = self.state.borrow_mut();
        state.vrings.get_mut(index).map(change)
    }
}

impl VhostUserHandleBackend for MockFrontend {
    type Stream = Shared;
    type File = &'static str;

    fn trace(&self) -> Trace<Shared, &'static str> {
        unreachable!()
    }

    fn from_stream(sock: Shared, max_queue_num: u64) -> Self {
        sock.borrow_mut().max_queue_num = max_queue_num;
        MockFrontend { state: sock }
    }

    fn set_hdr_flags(&mut self, flags: u32) {
        self.state.borrow_mut().hdr_flags = flags;
        self.state.borrow_mut().log.push(format!("flags {flags}"));
    }

    fn get_features(&mut self) -> Result<u64, vhost::Error> {
        self.ack("get features".to_string())?;
        Ok(self.state.borrow().features)
    }

    fn set_features(&mut self, features: u64) -> Result<(), vhost::Error> {
        self.ack(format!("features {features:#x}"))
    }

    fn set_owner(&mut self) -> Result<(), vhost::Error> {
        self.ack("owner".to_string())?;
        self.state.borrow_mut().is_owner = true;
        Ok(())
    }

    fn set_mem_table(
        &mut self,
        regions: &[VhostUserMemoryRegionInfo],
    ) -> Result<(), vhost::Error> {
        self.ack("mem table".to_string())?;
        let mut state = self.state.borrow_mut();
        state.mem_table_updates += 1;
        state.regions = regions.to_vec();
        Ok(())
    }

    fn set_vring_num(&mut self, queue_index: usize, num: u16) -> Result<(), vhost::Error> {
        self.ack(format!("num {queue_index} {num}"))?;
        self.state.borrow_mut().vrings.push(VringData {
            index: queue_index,
            size: num,
            ..Default::default()
        });
        Ok(())
    }

    fn set_vring_addr(
        &mut self,
        queue_index: usize,
        config_data: &VringConfigData,
    ) -> Result<(), vhost::Error> {
        self.ack(format!("addr {queue_index}"))?;
        self.vring(queue_index, |vring| vring.config = Some(*config_data));
        Ok(())
    }

    fn set_vring_base(&mut self, queue_index: usize, base: u16) -> Result<(), vhost::Error> {
        self.ack(format!("base {queue_index} {base}"))?;
        self.vring(queue_index, |vring| vring.base = base);
        Ok(())
    }

    fn get_vring_base(&mut self, queue_index: usize) -> Result<u32, vhost::Error> {
        self.ack(format!("get base {queue_index}"))?;
        self.vring(queue_index, |vring| {
            vring.call = None;
            vring.kick = None;
        });
        Ok(self.state.borrow().bases[queue_index])
    }

    fn set_log_base(
        &mut self,
        base: u64,
        region: Option<VhostUserDirtyLogRegion>,
    ) -> Result<(), vhost::Error> {
        let region = region.unwrap();
        self.ack(format!(
            "log {base} {} {} {}",
            region.mmap_size, region.mmap_offset, region.mmap_handle
        ))
    }

    fn set_vring_call(&mut self, queue_index: usize, fd: &EventFd) -> Result<(), vhost::Error> {
        self.ack(format!("call {queue_index}"))?;
        let fd = fd.try_clone().unwrap();
        self.vring(queue_index, |vring| vring.call = Some(fd));
        Ok(())
    }

    fn set_vring_kick(&mut self, queue_index: usize, fd: &EventFd) -> Result<(), vhost::Error> {
        self.ack(format!("kick {queue_index}"))?;
        let fd = fd.try_clone().unwrap();
        self.vring(queue_index, |vring| vring.kick = Some(fd));
        Ok(())
    }

    fn get_protocol_features(&mut self) -> Result<u64, vhost::Error> {
        self.ack("get protocol features".to_string())?;
        Ok(self.state.borrow().backend_protocol_features)
    }

    fn set_protocol_features(&mut self, features: u64) -> Result<(), vhost::Error> {
        self.ack(format!("protocol features {features:#x}"))?;
        self.state.borrow_mut().protocol_features = features;
        Ok(())
    }

    fn set_vring_enable(&mut self, queue_index: usize, enable: bool) -> Result<(), vhost::Error> {
        self.ack(format!("enable {queue_index} {enable}"))?;
        self.vring(queue_index, |vring| vring.enable = enable);
        Ok(())
    }

    fn get_config(
        &mut self,
        offset: u32,
        size: u32,
        flags: u32,
        buf: &[u8],
    ) -> Result<(VhostUserConfig, Vec<u8>), vhost::Error> {
        Ok((VhostUserConfig { offset, size, flags }, buf.to_vec()))
    }

    fn set_config(&mut self, _offset: u32, _flags: u32, _buf: &[u8]) -> Result<(), vhost::Error> {
        Ok(())
    }

    fn set_device_state_fd(
        &mut self,
        direction: VhostTransferStateDirection,
        _phase: VhostTransferStatePhase,
        file: &'static str,
    ) -> Result<Option<&'static str>, vhost::Error> {
        self.ack(format!("state {direction:?} {file}"))?;
        Ok(None)
    }

    fn check_device_state(&mut self) -> Result<(), vhost::Error> {
        self.ack("check state".to_string())
    }
}

fn handle() -> VhostUserHandleImpl<MockFrontend> {
    VhostUserHandleImpl {
        vu: MockFrontend { state: Shared::default() },
        socket_path: "".to_string(),
    }
}

fn broken() -> std::io::Error {
    std::io::Error::new(std::io::ErrorKind::Other, "broken")
}

fn notifier() -> Arc<EventFd> {
    Arc::new(EventFd::new(0).unwrap())
}

/// One notifier for both queues.
fn both(event: &Arc<EventFd>) -> [Arc<EventFd>; FS_NUM_QUEUES] {
    [event.clone(), event.clone()]
}

/// Two notifiers are the same one.
fn same(a: &EventFd, b: &EventFd) -> bool {
    a.write(5).unwrap();
    b.read().unwrap() == 5
}

#[test]
fn test_new() {
    let max_queue_num = 69;
    let state = Shared::default();
    let vuh =
        VhostUserHandleImpl::<MockFrontend>::new("/tmp/socket", Ok(state.clone()), max_queue_num)
            .unwrap();
    assert_eq!(vuh.socket_path, "/tmp/socket");
    assert!(Rc::ptr_eq(&vuh.vu.state, &state));
    assert_eq!(state.borrow().max_queue_num, max_queue_num);
    assert!(state.borrow().is_owner);

    assert!(matches!(
        VhostUserHandleImpl::<MockFrontend>::new("/tmp/socket", Err(broken()), 1),
        Err(VhostUserError::Connect(_))
    ));
    let state = Shared::default();
    state.borrow_mut().failing = Some("owner");
    assert!(matches!(
        VhostUserHandleImpl::<MockFrontend>::new("/tmp/socket", Ok(state), 1),
        Err(VhostUserError::VhostUserSetOwner(_))
    ));
}

#[test]
fn test_set_features() {
    // VhostUserHandleImpl can correctly set backend features.
    let mut vuh = handle();
    vuh.set_features(0x69).unwrap();
    assert_eq!(vuh.vu.state.borrow().log, vec!["features 0x69"]);
}

#[test]
fn test_set_reply_ack_requests() {
    let mut vuh = handle();
    vuh.set_reply_ack_requests(true);
    assert_eq!(
        vuh.vu.state.borrow().hdr_flags,
        VhostUserHeaderFlag::NEED_REPLY.bits()
    );
    vuh.set_reply_ack_requests(false);
    assert_eq!(
        vuh.vu.state.borrow().hdr_flags,
        VhostUserHeaderFlag::empty().bits()
    );
}

#[test]
fn test_set_protocol_features() {
    let mut vuh = handle();

    // No protocol features are set if acked_features do not have PROTOCOL_FEATURES bit
    let acked_features = 0;
    let acked_protocol_features = VhostUserProtocolFeatures::empty();
    vuh.set_protocol_features(acked_features, acked_protocol_features.bits())
        .unwrap();
    assert_eq!(vuh.vu.state.borrow().protocol_features, 0);
    assert_eq!(
        vuh.vu.state.borrow().hdr_flags,
        VhostUserHeaderFlag::empty().bits()
    );

    // No protocol features are set if acked_features do not have PROTOCOL_FEATURES bit
    let acked_features = 0;
    let acked_protocol_features = VhostUserProtocolFeatures::all();
    vuh.set_protocol_features(acked_features, acked_protocol_features.bits())
        .unwrap();
    assert_eq!(vuh.vu.state.borrow().protocol_features, 0);
    assert_eq!(
        vuh.vu.state.borrow().hdr_flags,
        VhostUserHeaderFlag::empty().bits()
    );

    // If not REPLY_ACK present, no header is set
    let acked_features = VhostUserVirtioFeatures::PROTOCOL_FEATURES.bits();
    let mut acked_protocol_features = VhostUserProtocolFeatures::all();
    acked_protocol_features.set(VhostUserProtocolFeatures::REPLY_ACK, false);
    vuh.set_protocol_features(acked_features, acked_protocol_features.bits())
        .unwrap();
    assert_eq!(
        vuh.vu.state.borrow().protocol_features,
        acked_protocol_features.bits()
    );
    assert_eq!(
        vuh.vu.state.borrow().hdr_flags,
        VhostUserHeaderFlag::empty().bits()
    );

    // If REPLY_ACK present, header is set
    let acked_features = VhostUserVirtioFeatures::PROTOCOL_FEATURES.bits();
    let acked_protocol_features = VhostUserProtocolFeatures::all();
    vuh.set_protocol_features(acked_features, acked_protocol_features.bits())
        .unwrap();
    assert_eq!(
        vuh.vu.state.borrow().protocol_features,
        acked_protocol_features.bits()
    );
    assert_eq!(
        vuh.vu.state.borrow().hdr_flags,
        VhostUserHeaderFlag::NEED_REPLY.bits()
    );
}

#[test]
fn unknown_protocol_features_are_not_announced() {
    let mut vuh = handle();
    let acked_features = VhostUserVirtioFeatures::PROTOCOL_FEATURES.bits();
    let unknown = VhostUserProtocolFeatures::all().bits() + 1;
    assert!(VhostUserProtocolFeatures::from_bits(unknown).is_none());
    vuh.set_protocol_features(acked_features, unknown).unwrap();
    assert!(vuh.vu.state.borrow().log.is_empty());
}

#[test]
fn test_negotiate_features() {
    let mut vuh = handle();
    let state = vuh.vu.state.clone();

    // If nothing is available, nothing is negotiated
    let avail_features = 0;
    let avail_protocol_features = VhostUserProtocolFeatures::empty();
    let (acked_features, acked_protocol_features) = vuh
        .negotiate_features(avail_features, avail_protocol_features.bits())
        .unwrap();
    assert_eq!(acked_features, avail_features);
    assert_eq!(acked_protocol_features, avail_protocol_features.bits());
    assert_eq!(state.borrow().protocol_features, 0);
    assert_eq!(
        state.borrow().hdr_flags,
        VhostUserHeaderFlag::empty().bits()
    );

    // If neither frontend avail_features nor backend avail_features contain PROTOCOL_FEATURES
    // bit, only features are negotiated
    let mut avail_features = VhostUserVirtioFeatures::all();
    avail_features.set(VhostUserVirtioFeatures::PROTOCOL_FEATURES, false);

    // Pretend backend has same features as frontend
    state.borrow_mut().features = avail_features.bits();

    let avail_protocol_features = VhostUserProtocolFeatures::empty();
    let (acked_features, acked_protocol_features) = vuh
        .negotiate_features(avail_features.bits(), avail_protocol_features.bits())
        .unwrap();
    assert_eq!(acked_features, avail_features.bits());
    assert_eq!(acked_protocol_features, avail_protocol_features.bits());
    assert_eq!(state.borrow().protocol_features, 0);
    assert_eq!(
        state.borrow().hdr_flags,
        VhostUserHeaderFlag::empty().bits()
    );

    // If PROTOCOL_FEATURES is negotiated, but REPLY_ACK is not, headers are not set
    let avail_features = VhostUserVirtioFeatures::all();
    // Pretend backend has same features as frontend
    state.borrow_mut().features = avail_features.bits();

    let mut avail_protocol_features = VhostUserProtocolFeatures::empty();
    avail_protocol_features.set(VhostUserProtocolFeatures::CONFIG, true);

    let mut backend_protocol_features = VhostUserProtocolFeatures::empty();
    backend_protocol_features.set(VhostUserProtocolFeatures::CONFIG, true);
    backend_protocol_features.set(VhostUserProtocolFeatures::PAGEFAULT, true);
    state.borrow_mut().backend_protocol_features = backend_protocol_features.bits();

    let (acked_features, acked_protocol_features) = vuh
        .negotiate_features(avail_features.bits(), avail_protocol_features.bits())
        .unwrap();
    assert_eq!(acked_features, avail_features.bits());
    assert_eq!(acked_protocol_features, avail_protocol_features.bits());
    assert_eq!(
        state.borrow().protocol_features,
        avail_protocol_features.bits()
    );
    assert_eq!(
        state.borrow().hdr_flags,
        VhostUserHeaderFlag::empty().bits()
    );

    // If PROTOCOL_FEATURES and REPLY_ACK are negotiated
    let avail_features = VhostUserVirtioFeatures::all();
    // Pretend backend has same features as frontend
    state.borrow_mut().features = avail_features.bits();

    let mut avail_protocol_features = VhostUserProtocolFeatures::empty();
    avail_protocol_features.set(VhostUserProtocolFeatures::REPLY_ACK, true);

    // Pretend backend has same features as frontend
    state.borrow_mut().backend_protocol_features = avail_protocol_features.bits();

    let (acked_features, acked_protocol_features) = vuh
        .negotiate_features(avail_features.bits(), avail_protocol_features.bits())
        .unwrap();
    assert_eq!(acked_features, avail_features.bits());
    assert_eq!(acked_protocol_features, avail_protocol_features.bits());
    assert_eq!(
        state.borrow().protocol_features,
        avail_protocol_features.bits()
    );
    assert_eq!(
        state.borrow().hdr_flags,
        VhostUserHeaderFlag::NEED_REPLY.bits(),
    );
}

#[test]
fn failed_negotiations_name_the_request() {
    for (request, features) in [
        ("get features", 1),
        ("get protocol features", 2),
        ("protocol features 0x1", 3),
    ] {
        let mut vuh = handle();
        vuh.vu.state.borrow_mut().failing = Some(request);
        vuh.vu.state.borrow_mut().features = VhostUserVirtioFeatures::all().bits();
        vuh.vu.state.borrow_mut().backend_protocol_features = 1;
        let outcome = vuh.negotiate_features(VhostUserVirtioFeatures::all().bits(), 1);
        let number = match outcome {
            Err(VhostUserError::VhostUserGetFeatures(_)) => 1,
            Err(VhostUserError::VhostUserGetProtocolFeatures(_)) => 2,
            Err(VhostUserError::VhostUserSetProtocolFeatures(_)) => 3,
            _ => 0,
        };
        assert_eq!(number, features);
        assert_eq!(vuh.vu.state.borrow().log.len(), features);
    }
}

fn region(start_addr: u64, len: u64, fd: i32) -> GuestRegion {
    GuestRegion {
        start_addr,
        len,
        host_addr: 0x7f00_0000_0000 + start_addr,
        file_offset: Some(FileOffset { fd, start: start_addr }),
    }
}

#[test]
fn test_update_mem_table() {
    let mut vuh = handle();
    let region_size = 0x10000;
    let guest_memory = GuestMemoryMmap::from_regions(vec![
        region(0x0, region_size, 3),
        region(0x10000, region_size, 3),
    ])
    .unwrap();

    vuh.update_mem_table(&guest_memory).unwrap();

    // VhostUserMemoryRegionInfo should be correctly set by the VhostUserHandleImpl
    let expected_regions = guest_memory
        .regions()
        .iter()
        .map(|region| VhostUserMemoryRegionInfo {
            guest_phys_addr: region.start_addr,
            memory_size: region.len,
            userspace_addr: region.host_addr,
            mmap_offset: region.file_offset.unwrap().start,
            mmap_handle: region.file_offset.unwrap().fd,
        })
        .collect::<Vec<_>>();
    assert_eq!(vuh.vu.state.borrow().regions, expected_regions);
    assert_eq!(vuh.vu.state.borrow().regions.len(), 2);
}

#[test]
fn memory_without_a_file_is_not_shared() {
    let mut vuh = handle();
    let mut private = region(0, 0x1000, 3);
    private.file_offset = None;
    let guest_memory = GuestMemoryMmap::from_regions(vec![private]).unwrap();
    assert!(matches!(
        vuh.update_mem_table(&guest_memory),
        Err(VhostUserError::VhostUserNoMemoryRegion)
    ));
    assert!(vuh.vu.state.borrow().log.is_empty());
}

fn queue(size: u16) -> Queue {
    Queue {
        max_size: size,
        size,
        desc_table_address: 0x1000,
        avail_ring_address: 0x2000,
        used_ring_address: 0x3000,
        next_avail: 0,
    }
}

#[test]
fn test_setup_backend() {
    let mut vuh = handle();
    let state = vuh.vu.state.clone();
    let guest_memory = GuestMemoryMmap::from_regions(vec![region(0x0, 0x10000, 3)]).unwrap();
    let queue = queue(128);
    let event_fd = EventFd::new(0).unwrap();
    let call_fd = EventFd::new(0).unwrap();
    let queues = [QueueSetup {
        index: 0,
        queue: &queue,
        kick: &event_fd,
        call: &call_fd,
    }];

    vuh.setup_backend(&guest_memory, &queues).unwrap();
    assert_eq!(state.borrow().mem_table_updates, 1);

    // VhostUserHandleImpl should correctly send memory and queues information to
    // the backend.
    let expected_config = VringConfigData {
        queue_max_size: 128,
        queue_size: 128,
        flags: 0,
        desc_table_addr: guest_memory
            .get_host_address(queue.desc_table_address)
            .unwrap(),
        used_ring_addr: guest_memory
            .get_host_address(queue.used_ring_address)
            .unwrap(),
        avail_ring_addr: guest_memory
            .get_host_address(queue.avail_ring_address)
            .unwrap(),
        log_addr: None,
    };
    {
        let state = state.borrow();
        let result = &state.vrings;
        assert_eq!(result.len(), 1);
        assert_eq!(result[0].index, 0);
        assert_eq!(result[0].size, 128);
        assert_eq!(result[0].config, Some(expected_config));
        assert_eq!(result[0].base, queue.next_avail);
        assert!(same(result[0].call.as_ref().unwrap(), &call_fd));
        assert!(same(result[0].kick.as_ref().unwrap(), &event_fd));
        assert!(result[0].enable);
    }

    // A caller that installed SET_MEM_TABLE followed by memory-bound
    // protocol state (for example LOG_SHMFD) can configure the same
    // vrings without replacing those backend regions.
    state.borrow_mut().vrings.clear();
    vuh.setup_backend_after_mem_table(&guest_memory, &queues)
        .unwrap();
    assert_eq!(state.borrow().mem_table_updates, 1);
    assert_eq!(state.borrow().vrings.len(), 1);

    // GET_VRING_BASE stops the ring and clears call/kick in a real
    // backend. Restart must therefore reinstall more than the enable bit.
    {
        let mut state = state.borrow_mut();
        let result = &mut state.vrings;
        result[0].base = 0;
        result[0].call = None;
        result[0].kick = None;
        result[0].enable = false;
    }
    let restart_base = 37;
    vuh.restart_vring(0, restart_base, &call_fd, &event_fd)
        .unwrap();
    let state = state.borrow();
    let result = &state.vrings;
    assert_eq!(result[0].base, restart_base);
    assert!(same(result[0].call.as_ref().unwrap(), &call_fd));
    assert!(same(result[0].kick.as_ref().unwrap(), &event_fd));
    assert!(result[0].enable);
}

#[test]
fn setup_announces_all_sizes_before_the_rings() {
    let mut vuh = handle();
    let guest_memory = GuestMemoryMmap::from_regions(vec![region(0x0, 0x10000, 3)]).unwrap();
    let first = queue(128);
    let second = Queue { next_avail: 9, ..queue(256) };
    let event_fd = EventFd::new(0).unwrap();
    let queues = [
        QueueSetup { index: 0, queue: &first, kick: &event_fd, call: &event_fd },
        QueueSetup { index: 1, queue: &second, kick: &event_fd, call: &event_fd },
    ];
    vuh.setup_backend_stopped(&guest_memory, &queues).unwrap();
    assert_eq!(
        vuh.vu.state.borrow().log,
        vec![
            "mem table", "num 0 128", "num 1 256", "addr 0", "base 0 0", "call 0", "kick 0",
            "addr 1", "base 1 9", "call 1", "kick 1",
        ]
    );
}

#[test]
fn setup_stops_at_the_first_failure() {
    let guest_memory = GuestMemoryMmap::from_regions(vec![region(0x0, 0x10000, 3)]).unwrap();
    let event_fd = EventFd::new(0).unwrap();
    let good = queue(16);
    let cases: [(&'static str, usize, usize); 7] = [
        ("mem table", 1, 1),
        ("num 0 16", 2, 2),
        ("addr 0", 3, 3),
        ("base 0 0", 4, 4),
        ("call 0", 5, 5),
        ("kick 0", 6, 6),
        ("enable 0 true", 7, 7),
    ];
    for (request, sent, kind) in cases {
        let mut vuh = handle();
        vuh.vu.state.borrow_mut().failing = Some(request);
        let queues = [QueueSetup { index: 0, queue: &good, kick: &event_fd, call: &event_fd }];
        let found = match vuh.setup_backend(&guest_memory, &queues) {
            Err(VhostUserError::VhostUserSetMemTable(_)) => 1,
            Err(VhostUserError::VhostUserSetVringNum(_)) => 2,
            Err(VhostUserError::VhostUserSetVringAddr(_)) => 3,
            Err(VhostUserError::VhostUserSetVringBase(_)) => 4,
            Err(VhostUserError::VhostUserSetVringCall(_)) => 5,
            Err(VhostUserError::VhostUserSetVringKick(_)) => 6,
            Err(VhostUserError::VhostUserSetVringEnable(_)) => 7,
            _ => 0,
        };
        assert_eq!(found, kind);
        assert_eq!(vuh.vu.state.borrow().log.len(), sent);
    }
    let outside = Queue { desc_table_address: 0x10000, ..good };
    let queues = [QueueSetup { index: 0, queue: &outside, kick: &event_fd, call: &event_fd }];
    assert!(matches!(
        handle().setup_backend(&guest_memory, &queues),
        Err(VhostUserError::DescriptorTableAddress(
            GuestMemoryError::InvalidGuestAddress(0x10000)
        ))
    ));
    let outside = Queue { used_ring_address: 0x10001, ..good };
    let queues = [QueueSetup { index: 0, queue: &outside, kick: &event_fd, call: &event_fd }];
    assert!(matches!(
        handle().setup_backend(&guest_memory, &queues),
        Err(VhostUserError::UsedAddress(
            GuestMemoryError::InvalidGuestAddress(0x10001)
        ))
    ));
    let outside = Queue { avail_ring_address: 0x10002, ..good };
    let queues = [QueueSetup { index: 0, queue: &outside, kick: &event_fd, call: &event_fd }];
    assert!(matches!(
        handle().setup_backend(&guest_memory, &queues),
        Err(VhostUserError::AvailAddress(
            GuestMemoryError::InvalidGuestAddress(0x10002)
        ))
    ));
}

#[test]
fn stopping_a_vring_gives_its_index() {
    let mut vuh = handle();
    vuh.vu.state.borrow_mut().bases = vec![70_000];
    assert_eq!(vuh.stop_vring(0).unwrap(), 70_000);
    assert_eq!(
        vuh.vu.state.borrow().log,
        vec!["enable 0 false", "get base 0"]
    );
    vuh.vu.state.borrow_mut().failing = Some("get base 0");
    assert!(matches!(
        vuh.stop_vring(0),
        Err(VhostUserError::VhostUserGetVringBase(_))
    ));
    vuh.vu.state.borrow_mut().failing = Some("enable 0 false");
    assert!(matches!(
        vuh.stop_vring(0),
        Err(VhostUserError::VhostUserSetVringEnable(_))
    ));
}

#[test]
fn single_requests_report_their_failure() {
    let mut vuh = handle();
    vuh.vu.state.borrow_mut().failing = Some("features 0x1");
    assert!(matches!(
        vuh.set_features(1),
        Err(VhostUserError::VhostUserSetFeatures(_))
    ));
    vuh.vu.state.borrow_mut().failing = Some("log 0 4096 0 7");
    let log = VhostUserDirtyLogRegion { mmap_size: 4096, mmap_offset: 0, mmap_handle: 7 };
    assert!(matches!(
        vuh.set_log_base(0, log),
        Err(VhostUserError::VhostUserSetLogBase(_))
    ));
    vuh.vu.state.borrow_mut().failing = Some("state Save file");
    assert!(matches!(
        vuh.set_device_state_fd(VhostTransferStateDirection::Save, "file"),
        Err(VhostUserError::VhostUserSetDeviceState(_))
    ));
    vuh.vu.state.borrow_mut().failing = Some("check state");
    assert!(matches!(
        vuh.check_device_state(),
        Err(VhostUserError::VhostUserCheckDeviceState(_))
    ));
}

#[test]
fn test_features_are_not_leaked_to_guest() {
    assert_eq!(
        AVAILABLE_FEATURES & VhostUserVirtioFeatures::PROTOCOL_FEATURES.bits(),
        0
    );
    assert_eq!(
        AVAILABLE_FEATURES & VhostUserVirtioFeatures::LOG_ALL.bits(),
        0
    );
    assert_ne!(
        REQUESTED_FEATURES & VhostUserVirtioFeatures::LOG_ALL.bits(),
        0
    );
    let required = VhostUserProtocolFeatures::from_bits_retain(REQUIRED_PROTOCOL_FEATURES);
    assert!(required.contains(VhostUserProtocolFeatures::MQ));
    assert!(required.contains(VhostUserProtocolFeatures::REPLY_ACK));
    assert!(required.contains(VhostUserProtocolFeatures::DEVICE_STATE));
    assert!(required.contains(VhostUserProtocolFeatures::LOG_SHMFD));
}

#[test]
fn feature_checks_name_what_is_missing() {
    let all = REQUESTED_FEATURES;
    let protocol = REQUIRED_PROTOCOL_FEATURES;
    assert_eq!(check_features(all, protocol, 0).unwrap(), AVAILABLE_FEATURES);
    assert!(matches!(
        check_features(all & !(1 << 32), protocol, 0),
        Err(VirtioFsError::MissingVirtioFeature("VIRTIO_F_VERSION_1"))
    ));
    assert!(matches!(
        check_features(
            all & !VhostUserVirtioFeatures::PROTOCOL_FEATURES.bits(),
            protocol,
            0
        ),
        Err(VirtioFsError::MissingVirtioFeature(
            "VHOST_USER_F_PROTOCOL_FEATURES"
        ))
    ));
    let incomplete =
        VhostUserProtocolFeatures::MQ.bits() | VhostUserProtocolFeatures::CONFIG.bits();
    match check_features(all, incomplete, 0) {
        Err(VirtioFsError::MissingProtocolFeatures(missing)) => assert_eq!(
            missing,
            (VhostUserProtocolFeatures::REPLY_ACK
                | VhostUserProtocolFeatures::LOG_SHMFD
                | VhostUserProtocolFeatures::DEVICE_STATE)
                .bits()
        ),
        other => panic!("{other:?}"),
    }
    assert!(matches!(
        check_features(all & !VhostUserVirtioFeatures::LOG_ALL.bits(), protocol, 0),
        Err(VirtioFsError::MissingLogAll)
    ));
    assert!(matches!(
        check_features(all & !(1 << 29), protocol, 1 << 29),
        Err(VirtioFsError::IncompatibleBackendFeatures)
    ));
    assert_eq!(
        check_features(all, protocol, 1 << 29).unwrap(),
        AVAILABLE_FEATURES
    );
}

fn log_for(mem: &GuestMemoryMmap) -> DirtyLog {
    DirtyLog::new(DirtyLogLayout::new(mem, 4096).unwrap(), 11)
}

#[test]
fn test_dirty_log_ranges_and_clear() {
    let mem = GuestMemoryMmap::from_regions(vec![region(0, 4 * VHOST_LOG_PAGE_SIZE, 3)]).unwrap();
    let log = log_for(&mem);
    let mut bitmap = vec![0u8; log.layout.mmap_len];

    // Pages 0, 1 and 3: the first two coalesce, the final page does not.
    bitmap[0] = 0b0000_1011;
    assert_eq!(
        log.ranges(&bitmap),
        vec![
            MemoryRange {
                gpa: 0,
                length: 2 * VHOST_LOG_PAGE_SIZE,
            },
            MemoryRange {
                gpa: 3 * VHOST_LOG_PAGE_SIZE,
                length: VHOST_LOG_PAGE_SIZE,
            },
        ]
    );

    assert!(log.fits(&bitmap));
    log.clear(&mut bitmap);
    assert!(log.ranges(&bitmap).is_empty());
}

#[test]
fn dirty_logs_have_a_bit_for_each_page() {
    // Nine pages and a byte make ten pages, which take two bytes.
    let mem = GuestMemoryMmap::from_regions(vec![
        region(0, 0x1000, 3),
        region(0x8000, 0x1001, 3),
    ])
    .unwrap();
    let layout = DirtyLogLayout::new(&mem, 4096).unwrap();
    assert_eq!(layout.guest_pages, 10);
    assert_eq!(layout.mmap_len, 4096);
    assert_eq!(DirtyLogLayout::new(&mem, 2).unwrap().mmap_len, 2);
    assert_eq!(DirtyLogLayout::new(&mem, 3).unwrap().mmap_len, 3);
    assert_eq!(DirtyLogLayout::new(&mem, usize::MAX).unwrap().mmap_len, usize::MAX);
    // Memory that reaches into the last page of the address space.
    let top = GuestMemoryMmap::from_regions(vec![region(u64::MAX - 1, 1, 3)]).unwrap();
    let layout = DirtyLogLayout::new(&top, 4096).unwrap();
    assert_eq!(layout.guest_pages, 1 << 52);
    assert_eq!(layout.mmap_len, 1 << 49);
    let empty = GuestMemoryMmap::from_regions(vec![]).unwrap();
    let layout = DirtyLogLayout::new(&empty, 4096).unwrap();
    assert_eq!(layout.guest_pages, 0);
    assert_eq!(layout.mmap_len, 4096);

    let log = log_for(&mem);
    let region = log.region();
    assert_eq!(region.mmap_size, 4096);
    assert_eq!(region.mmap_offset, 0);
    assert_eq!(region.mmap_handle, 11);
    // A range that crosses a byte of the bitmap; the bits after the last page do not count.
    let mut bitmap = vec![0u8; 4096];
    bitmap[0] = 0b1000_0000;
    bitmap[1] = 0b1111_1101;
    assert_eq!(
        log.ranges(&bitmap),
        vec![MemoryRange { gpa: 0x7000, length: 0x2000 }]
    );
}

fn config() -> FsConfig {
    FsConfig {
        fs_id: "root".to_string(),
        socket_path: "/run/virtiofsd.sock".to_string(),
        tag: "sandboxfs".to_string(),
    }
}

fn backend() -> Shared {
    let state = Shared::default();
    state.borrow_mut().features = REQUESTED_FEATURES | 1;
    state.borrow_mut().backend_protocol_features = VhostUserProtocolFeatures::all().bits();
    state.borrow_mut().bases = vec![17, 23];
    state
}

fn queues() -> [Queue; FS_NUM_QUEUES] {
    [queue(FS_QUEUE_SIZE), queue(FS_QUEUE_SIZE)]
}

fn guest_memory() -> GuestMemoryMmap {
    GuestMemoryMmap::from_regions(vec![region(0, 0x10000, 3)]).unwrap()
}

fn device(state: &Shared) -> VirtioFs<MockFrontend> {
    VirtioFs::new(config(), Ok(state.clone()), queues()).unwrap()
}

/// The requests since the last call.
fn taken(state: &Shared) -> Vec<String> {
    std::mem::take(&mut state.borrow_mut().log)
}

/// All session features with the ones that the guest accepted.
const ANNOUNCED: &str = "features 0x164000000";

/// A device that was armed and activated, and the notifiers of its interrupts.
fn active(state: &Shared) -> (VirtioFs<MockFrontend>, Arc<EventFd>, Arc<EventFd>) {
    let mut fs = device(state);
    fs.set_acked_features(AVAILABLE_FEATURES);
    let mem = guest_memory();
    fs.prepare_dirty_log(&mem, Some(Ok(log_for(&mem)))).unwrap();
    let hiprio = notifier();
    let request = notifier();
    let done = fs
        .activate::<()>(Ok(()), &mem, [hiprio.clone(), request.clone()])
        .unwrap();
    assert!(matches!(done, Activation::Done));
    assert!(fs.is_activated());
    taken(state);
    (fs, hiprio, request)
}

#[test]
fn a_new_device_has_negotiated_and_asks_no_replies() {
    let state = backend();
    let fs = device(&state);
    assert_eq!(
        taken(&state),
        vec![
            "owner",
            "get features",
            "get protocol features",
            "protocol features 0x8000b",
            "flags 8",
            "flags 0",
        ]
    );
    assert_eq!(state.borrow().max_queue_num, 2);
    assert_eq!(fs.id(), "root");
    assert_eq!(fs.avail_features(), AVAILABLE_FEATURES);
    assert_eq!(fs.acked_features(), 0);
    assert_eq!(fs.queues(), &queues()[..]);
    assert!(fs.queues().iter().all(|queue| queue.max_size == 1024));
    assert_eq!(fs.queue_events().len(), 2);
    assert!(!fs.is_activated());
    assert_eq!(fs.stage(), Stage::Idle);
    assert!(fs.snapshot_dirty_ranges().is_empty());
    // The notifiers do not block.
    assert_eq!(
        fs.queue_events()[0].read().unwrap_err().kind(),
        std::io::ErrorKind::WouldBlock
    );
}

#[test]
fn devices_give_back_their_configuration() {
    for tag in ["sandboxfs", "é", "123456789012345678901234567890123456"] {
        let config = FsConfig { tag: tag.to_string(), ..config() };
        let fs = VirtioFs::<MockFrontend>::new(config.clone(), Ok(backend()), queues()).unwrap();
        assert_eq!(fs.config(), config);
    }
}

#[test]
fn creation_errors_come_in_order() {
    let bad = FsConfig { tag: String::new(), ..config() };
    match VirtioFs::<MockFrontend>::new(bad.clone(), Err(broken()), queues()) {
        Err(VirtioFsError::StateFile { operation, source }) => {
            assert_eq!(operation, "validate configuration");
            assert_eq!(source.kind(), std::io::ErrorKind::InvalidInput);
            assert_eq!(source.to_string(), "invalid virtio-fs configuration");
        }
        _ => panic!("a bad configuration comes first"),
    }
    assert!(VirtioFs::<MockFrontend>::check_config(&bad).is_err());
    assert!(VirtioFs::<MockFrontend>::check_config(&config()).is_ok());
    assert!(matches!(
        VirtioFs::<MockFrontend>::new(config(), Err(broken()), queues()),
        Err(VirtioFsError::VhostUser(VhostUserError::Connect(_)))
    ));
    let state = backend();
    state.borrow_mut().failing = Some("get features");
    assert!(matches!(
        VirtioFs::<MockFrontend>::new(config(), Ok(state), queues()),
        Err(VirtioFsError::VhostUser(
            VhostUserError::VhostUserGetFeatures(_)
        ))
    ));
    let state = backend();
    state.borrow_mut().features = 1 << 30;
    assert!(matches!(
        VirtioFs::<MockFrontend>::new(config(), Ok(state), queues()),
        Err(VirtioFsError::MissingVirtioFeature("VIRTIO_F_VERSION_1"))
    ));
}

#[test]
fn the_configuration_space_is_read_from_any_offset() {
    let fs = device(&backend());
    let mut space = [0xffu8; 42];
    fs.read_config(0, &mut space);
    assert_eq!(&space[..9], b"sandboxfs");
    assert_eq!(&space[9..36], &[0u8; 27]);
    assert_eq!(&space[36..40], &1u32.to_le_bytes());
    assert_eq!(&space[40..], &[0xff, 0xff]);
    let mut part = [0xffu8; 4];
    fs.read_config(38, &mut part);
    assert_eq!(part, [0, 0, 0xff, 0xff]);
    for offset in [40, u64::MAX] {
        let mut beyond = [0xffu8; 4];
        fs.read_config(offset, &mut beyond);
        assert_eq!(beyond, [0xff; 4]);
    }
    // Two reads give what one gives.
    let mut whole = [0u8; 20];
    let mut pieces = [0u8; 20];
    fs.read_config(30, &mut whole);
    fs.read_config(30, &mut pieces[..7]);
    fs.read_config(37, &mut pieces[7..]);
    assert_eq!(whole, pieces);
    let mut fs = fs;
    fs.write_config(0, &[1, 2, 3]);
    let mut again = [0u8; 3];
    fs.read_config(0, &mut again);
    assert_eq!(&again, b"san");
}

#[test]
fn arming_installs_the_log_after_the_memory_table() {
    let state = backend();
    let mut fs = device(&state);
    fs.set_acked_features(AVAILABLE_FEATURES);
    taken(&state);
    let mem = guest_memory();
    assert!(!fs.has_dirty_log());
    fs.prepare_dirty_log(&mem, Some(Ok(log_for(&mem)))).unwrap();
    assert!(fs.has_dirty_log());
    let armed = vec![
        ANNOUNCED,
        "protocol features 0x8000b",
        "flags 8",
        "mem table",
        "log 0 4096 0 11",
        "flags 0",
    ];
    assert_eq!(taken(&state), armed);
    // The log exists now, and is installed again.
    fs.prepare_dirty_log(&mem, None).unwrap();
    assert_eq!(taken(&state), armed);
}

#[test]
fn arming_can_fail() {
    let state = backend();
    let mut fs = device(&state);
    let mem = guest_memory();
    taken(&state);
    assert!(matches!(
        fs.prepare_dirty_log(&mem, Some(Err(VirtioFsError::DirtyLogMmap(broken())))),
        Err(VirtioFsError::DirtyLogMmap(_))
    ));
    assert!(taken(&state).is_empty());
    state.borrow_mut().failing = Some("mem table");
    assert!(matches!(
        fs.prepare_dirty_log(&mem, Some(Ok(log_for(&mem)))),
        Err(VirtioFsError::VhostUser(
            VhostUserError::VhostUserSetMemTable(_)
        ))
    ));
    assert_eq!(
        taken(&state),
        vec![
            "features 0x44000000",
            "protocol features 0x8000b",
            "flags 8",
            "mem table",
            "flags 0"
        ]
    );
}

#[test]
fn fresh_activation_is_one_way() {
    let state = backend();
    let mut fs = device(&state);
    fs.set_acked_features(AVAILABLE_FEATURES);
    let mem = guest_memory();
    fs.prepare_dirty_log(&mem, Some(Ok(log_for(&mem)))).unwrap();
    taken(&state);
    fs.queues_mut()[1].next_avail = 4;
    let event = notifier();
    let done = fs.activate::<()>(Ok(()), &mem, both(&event)).unwrap();
    assert!(matches!(done, Activation::Done));
    assert_eq!(
        taken(&state),
        vec![
            ANNOUNCED,
            "num 0 1024",
            "num 1 1024",
            "addr 0",
            "base 0 0",
            "call 0",
            "kick 0",
            "addr 1",
            "base 1 4",
            "call 1",
            "kick 1",
            "enable 0 true",
            "enable 1 true",
        ]
    );
    assert_eq!(state.borrow().hdr_flags, 0);
    assert!(fs.is_activated());
}

#[test]
fn failed_activation_leaves_the_device_inactive() {
    let state = backend();
    let mut fs = device(&state);
    let mem = guest_memory();
    let event = notifier();
    taken(&state);
    assert!(matches!(
        fs.activate(Err("queue"), &mem, both(&event)),
        Err(ActivateError::QueueMemoryError("queue"))
    ));
    assert!(taken(&state).is_empty());
    state.borrow_mut().failing = Some("kick 0");
    assert!(matches!(
        fs.activate::<()>(Ok(()), &mem, both(&event)),
        Err(ActivateError::VirtioFs(VirtioFsError::VhostUser(
            VhostUserError::VhostUserSetVringKick(_)
        )))
    ));
    assert!(!fs.is_activated());
}

#[test]
fn snapshots_need_an_active_device_with_a_log() {
    let state = backend();
    let mut fs = device(&state);
    let event = notifier();
    let mem = guest_memory();
    taken(&state);
    assert!(matches!(
        fs.prepare_snapshot(true),
        Err(VirtioFsError::NotActivated)
    ));
    fs.activate::<()>(Ok(()), &mem, both(&event)).unwrap();
    taken(&state);
    assert!(matches!(
        fs.prepare_snapshot(true),
        Err(VirtioFsError::DirtyLogNotArmed)
    ));
    assert!(taken(&state).is_empty());
    let (mut fs, hiprio, request) = active(&state);
    fs.prepare_snapshot(true).unwrap();
    fs.snapshot_file_opened(Ok("file")).unwrap();
    assert_eq!(fs.snapshot_log_read(&[0u8; 4096]), SnapshotStep::Finished);
    taken(&state);
    assert!(matches!(
        fs.prepare_snapshot(true),
        Err(VirtioFsError::SnapshotAlreadyPrepared)
    ));
    assert!(taken(&state).is_empty());
}

const STOPPED: [&str; 5] = [
    "flags 8",
    "enable 0 false",
    "get base 0",
    "enable 1 false",
    "get base 1",
];

fn resumed(bases: [u16; 2]) -> Vec<String> {
    vec![
        ANNOUNCED.to_string(),
        format!("base 0 {}", bases[0]),
        "call 0".to_string(),
        "kick 0".to_string(),
        "enable 0 true".to_string(),
        format!("base 1 {}", bases[1]),
        "call 1".to_string(),
        "kick 1".to_string(),
        "enable 1 true".to_string(),
        "flags 0".to_string(),
    ]
}

#[test]
fn a_snapshot_stops_saves_and_resumes_the_backend() {
    let state = backend();
    let (mut fs, hiprio, request) = active(&state);
    assert_eq!(
        fs.prepare_snapshot(false).unwrap(),
        SnapshotStep::OpenStateFile
    );
    assert_eq!(taken(&state), STOPPED.to_vec());
    assert_eq!(fs.queues()[0].next_avail, 17);
    assert_eq!(fs.queues()[1].next_avail, 23);
    assert_eq!(
        fs.snapshot_file_opened(Ok("file")).unwrap(),
        SnapshotStep::CollectDirtyLog
    );
    assert_eq!(taken(&state), vec!["state Save file", "check state"]);
    let mut bitmap = vec![0u8; 4096];
    bitmap[1] = 0b0000_0110;
    assert_eq!(fs.snapshot_log_read(&bitmap), SnapshotStep::SyncStateFile);
    let ranges = [MemoryRange { gpa: 0x9000, length: 0x2000 }];
    assert_eq!(fs.snapshot_dirty_ranges(), &ranges[..]);
    fs.snapshot_file_synced(Ok(())).unwrap();
    assert_eq!(fs.snapshot_dirty_ranges(), &ranges[..]);
    assert!(taken(&state).is_empty());
    assert!(fs.is_snapshot_prepared());
    // The log is cleared before the backend is told anything: it still is stopped.
    assert_eq!(fs.finish_snapshot(true).unwrap(), FinishStep::ClearLog);
    assert_eq!(fs.stage(), Stage::Clearing);
    assert_eq!(bitmap[1], 0b0000_0110);
    fs.clear_snapshot_log(&mut bitmap);
    assert_eq!(fs.stage(), Stage::Cleared);
    assert!(bitmap.iter().all(|byte| *byte == 0));
    assert!(taken(&state).is_empty());
    assert!(state.borrow().vrings.iter().all(|vring| !vring.enable));
    fs.resume_after_snapshot().unwrap();
    assert_eq!(fs.stage(), Stage::Idle);
    assert!(!fs.is_snapshot_prepared());
    assert_eq!(taken(&state), resumed([17, 23]));
    assert!(fs.snapshot_dirty_ranges().is_empty());
    assert_eq!(state.borrow().hdr_flags, 0);
    let vrings_call = state.borrow().vrings[1].call.as_ref().unwrap().try_clone().unwrap();
    assert!(same(&vrings_call, &request));
    // There is nothing left to finish.
    assert_eq!(fs.finish_snapshot(true).unwrap(), FinishStep::Finished);
    assert!(taken(&state).is_empty());
    assert!(fs.is_activated());
}

#[test]
fn an_abandoned_snapshot_keeps_the_log() {
    let state = backend();
    let (mut fs, hiprio, request) = active(&state);
    fs.prepare_snapshot(true).unwrap();
    fs.snapshot_file_opened(Ok("file")).unwrap();
    let bitmap = vec![1u8; 4096];
    assert_eq!(fs.snapshot_log_read(&bitmap), SnapshotStep::Finished);
    taken(&state);
    // A failure while resuming does not keep the rest from being tried.
    state.borrow_mut().failing = Some("base 0 17");
    assert!(matches!(
        fs.finish_snapshot(false),
        Err(VirtioFsError::VhostUser(
            VhostUserError::VhostUserSetVringBase(_)
        ))
    ));
    assert_eq!(
        taken(&state),
        vec![
            ANNOUNCED,
            "base 0 17",
            "base 1 23",
            "call 1",
            "kick 1",
            "enable 1 true",
            "flags 0"
        ]
    );
    assert!(fs.snapshot_dirty_ranges().is_empty());
    assert_eq!(fs.stage(), Stage::Idle);
    assert_eq!(fs.finish_snapshot(false).unwrap(), FinishStep::Finished);
}

/// Finishes a prepared snapshot that succeeded.
fn succeed(fs: &mut VirtioFs<MockFrontend>, bitmap: &mut [u8]) -> Result<(), VirtioFsError> {
    assert_eq!(fs.finish_snapshot(true)?, FinishStep::ClearLog);
    fs.clear_snapshot_log(bitmap);
    fs.resume_after_snapshot()
}

#[test]
fn a_backend_that_cannot_be_resumed_ends_the_snapshot() {
    let state = backend();
    let (mut fs, _, _) = active(&state);
    fs.prepare_snapshot(true).unwrap();
    fs.snapshot_file_opened(Ok("file")).unwrap();
    fs.snapshot_log_read(&[1u8; 4096]);
    taken(&state);
    state.borrow_mut().failing = Some(ANNOUNCED);
    let mut bitmap = vec![1u8; 4096];
    assert!(matches!(
        succeed(&mut fs, &mut bitmap),
        Err(VirtioFsError::VhostUser(
            VhostUserError::VhostUserSetFeatures(_)
        ))
    ));
    assert_eq!(taken(&state), resumed([17, 23]));
    assert!(bitmap.iter().all(|byte| *byte == 0));
    assert!(!fs.is_snapshot_prepared());
    assert!(fs.snapshot_dirty_ranges().is_empty());
}

#[test]
fn a_stopped_device_can_be_activated_again() {
    let state = backend();
    let (mut fs, _, _) = active(&state);
    fs.prepare_snapshot(true).unwrap();
    fs.snapshot_file_opened(Ok("file")).unwrap();
    fs.snapshot_log_read(&[1u8; 4096]);
    taken(&state);
    let event = notifier();
    let done = fs
        .activate::<()>(Ok(()), &guest_memory(), both(&event))
        .unwrap();
    assert!(matches!(done, Activation::Done));
    let requests = taken(&state);
    assert_eq!(requests[0], ANNOUNCED);
    assert_eq!(requests[requests.len() - 2..], ["enable 0 true", "enable 1 true"]);
    assert!(fs.is_snapshot_prepared());
    // The snapshot is still finished, with the new notifiers.
    let mut bitmap = vec![1u8; 4096];
    succeed(&mut fs, &mut bitmap).unwrap();
    assert!(bitmap.iter().all(|byte| *byte == 0));
    assert_eq!(taken(&state), resumed([17, 23]));
    let call = state.borrow().vrings[0].call.as_ref().unwrap().try_clone().unwrap();
    assert!(same(&call, &event));
    assert!(!fs.is_snapshot_prepared());
}

#[test]
fn a_device_keeps_its_configuration() {
    let state = backend();
    let (mut fs, _, _) = active(&state);
    assert_eq!(fs.config(), config());
    fs.write_config(0, &[0xff; 40]);
    fs.queues_mut()[0].next_avail = 9;
    fs.prepare_snapshot(false).unwrap();
    assert_eq!(fs.config(), config());
    fs.snapshot_file_opened(Err(broken())).unwrap_err();
    assert_eq!(fs.config(), config());
    fs.prepare_snapshot(true).unwrap();
    fs.snapshot_file_opened(Ok("file")).unwrap();
    fs.snapshot_log_read(&[0u8; 4096]);
    let mut bitmap = vec![0u8; 4096];
    succeed(&mut fs, &mut bitmap).unwrap();
    assert_eq!(fs.config(), config());
    assert!(fs.config().validate().is_ok());
}

/// A device over a session that negotiated these features.
fn assembled(
    protocol_features: u64,
    hiprio: Result<EventFd, std::io::Error>,
    request: Result<EventFd, std::io::Error>,
) -> Result<VirtioFs<MockFrontend>, VirtioFsError> {
    let session = VhostUserHandleImpl {
        vu: MockFrontend { state: Shared::default() },
        socket_path: config().socket_path,
    };
    VirtioFs::from_session(
        config(),
        session,
        REQUESTED_FEATURES,
        protocol_features,
        queues(),
        1 << 29,
        Some(PathBuf::from("/state")),
        hiprio,
        request,
    )
}

#[test]
fn a_device_needs_both_notifiers() {
    let all = REQUIRED_PROTOCOL_FEATURES;
    let error = |text: &str| std::io::Error::new(std::io::ErrorKind::Other, text);
    let event = || Ok(EventFd::new(0).unwrap());
    match assembled(all, Err(error("first")), Err(error("second"))) {
        Err(VirtioFsError::EventFd(e)) => assert_eq!(e.to_string(), "first"),
        _ => panic!("the first notifier is missing"),
    }
    match assembled(all, event(), Err(error("second"))) {
        Err(VirtioFsError::EventFd(e)) => assert_eq!(e.to_string(), "second"),
        _ => panic!("the second notifier is missing"),
    }
    assert!(matches!(
        assembled(all & !1, Err(error("first")), event()),
        Err(VirtioFsError::MissingProtocolFeatures(1))
    ));
    let hiprio = EventFd::new(0).unwrap();
    let request = EventFd::new(0).unwrap();
    let fs = assembled(
        all,
        Ok(hiprio.try_clone().unwrap()),
        Ok(request.try_clone().unwrap()),
    )
    .unwrap();
    assert!(same(&fs.queue_events()[0], &hiprio));
    assert!(same(&fs.queue_events()[1], &request));
    assert_eq!(fs.config(), config());
    assert_eq!(fs.acked_features(), 1 << 29);
    assert_eq!(fs.avail_features(), AVAILABLE_FEATURES);
    assert!(!fs.is_activated());
}

#[test]
fn failed_snapshots_resume_the_backend() {
    // The second vring does not stop: the first has its index already.
    let state = backend();
    let (mut fs, hiprio, request) = active(&state);
    state.borrow_mut().failing = Some("get base 1");
    assert!(matches!(
        fs.prepare_snapshot(false),
        Err(VirtioFsError::VhostUser(
            VhostUserError::VhostUserGetVringBase(_)
        ))
    ));
    let mut expected: Vec<String> = STOPPED.iter().map(|s| s.to_string()).collect();
    expected.extend(resumed([17, 0]));
    assert_eq!(taken(&state), expected);
    assert_eq!(fs.stage(), Stage::Idle);

    // An index that is not a 16-bit number.
    state.borrow_mut().failing = None;
    state.borrow_mut().bases = vec![0x1_0000, 5];
    assert!(matches!(
        fs.prepare_snapshot(false),
        Err(VirtioFsError::InvalidVringBase(0x1_0000))
    ));
    let mut expected: Vec<String> = STOPPED[..3].iter().map(|s| s.to_string()).collect();
    expected.extend(resumed([17, 0]));
    assert_eq!(taken(&state), expected);

    // The state file cannot be opened.
    state.borrow_mut().bases = vec![3, 5];
    fs.prepare_snapshot(false).unwrap();
    taken(&state);
    match fs.snapshot_file_opened(Err(broken())) {
        Err(VirtioFsError::StateFile { operation, .. }) => assert_eq!(operation, "open"),
        other => panic!("{other:?}"),
    }
    assert_eq!(taken(&state), resumed([3, 5]));

    // The backend cannot save its state.
    fs.prepare_snapshot(false).unwrap();
    state.borrow_mut().failing = Some("check state");
    taken(&state);
    assert!(matches!(
        fs.snapshot_file_opened(Ok("file")),
        Err(VirtioFsError::VhostUser(
            VhostUserError::VhostUserCheckDeviceState(_)
        ))
    ));
    let mut expected = vec!["state Save file".to_string(), "check state".to_string()];
    expected.extend(resumed([3, 5]));
    assert_eq!(taken(&state), expected);

    // The state file does not reach the disk.
    state.borrow_mut().failing = None;
    let failures: [(fn(std::io::Error) -> SyncError, &str); 2] =
        [(SyncError::Reopen, "reopen for sync"), (SyncError::Sync, "sync")];
    for (failure, name) in failures {
        fs.prepare_snapshot(false).unwrap();
        fs.snapshot_file_opened(Ok("file")).unwrap();
        fs.snapshot_log_read(&[1u8; 4096]);
        taken(&state);
        match fs.snapshot_file_synced(Err(failure(broken()))) {
            Err(VirtioFsError::StateFile { operation, .. }) => assert_eq!(operation, name),
            other => panic!("{other:?}"),
        }
        assert_eq!(taken(&state), resumed([3, 5]));
        assert!(!fs.snapshot_dirty_ranges().is_empty());
    }
    assert!(fs.is_activated());
}

fn saved_state(path: Option<&str>) -> VirtioFsState {
    let state = backend();
    let (fs, _, _) = active(&state);
    let mut saved = fs.save();
    assert_eq!(saved.config, config());
    assert_eq!(saved.virtio_state.acked_features, AVAILABLE_FEATURES);
    assert_eq!(saved.virtio_state.avail_features, AVAILABLE_FEATURES);
    assert_eq!(saved.virtio_state.queues, queues());
    assert!(saved.virtio_state.activated);
    assert!(saved.backend_state_path.is_none());
    saved.backend_state_path = path.map(PathBuf::from);
    saved
}

fn restored(state: &Shared) -> VirtioFs<MockFrontend> {
    let saved = saved_state(Some("/snapshot/fs"));
    let fs = VirtioFs::restore::<()>(saved, Ok(queues().to_vec()), Ok(state.clone())).unwrap();
    let args = VirtioFsConstructorArgs { mem: guest_memory() };
    let log = log_for(&args.mem);
    VirtioFs::restore_dirty_log::<()>(fs, &args, Ok(log)).unwrap()
}

#[test]
fn a_restored_device_loads_its_state() {
    let state = backend();
    let mut fs = restored(&state);
    assert_eq!(fs.config(), config());
    assert_eq!(fs.acked_features(), AVAILABLE_FEATURES);
    let again = fs.save();
    assert_eq!(again.config, config());
    assert_eq!(again.virtio_state.queues, queues());
    assert_eq!(again.virtio_state.acked_features, AVAILABLE_FEATURES);
    assert!(!again.virtio_state.activated);
    taken(&state);
    let event = notifier();
    match fs
        .activate::<()>(Ok(()), &guest_memory(), both(&event))
        .unwrap()
    {
        Activation::LoadState(path) => assert_eq!(path, PathBuf::from("/snapshot/fs")),
        Activation::Done => panic!("state has to be loaded"),
    }
    assert!(!fs.is_activated());
    assert_eq!(fs.stage(), Stage::Loading);
    assert_eq!(
        taken(&state),
        vec![
            "flags 8",
            ANNOUNCED,
            "num 0 1024",
            "num 1 1024",
            "addr 0",
            "base 0 0",
            "call 0",
            "kick 0",
            "addr 1",
            "base 1 0",
            "call 1",
            "kick 1",
        ]
    );
    fs.load_state(Ok("saved")).unwrap();
    assert_eq!(
        taken(&state),
        vec![
            "state Load saved",
            "check state",
            ANNOUNCED,
            "enable 0 true",
            "enable 1 true",
            "flags 0",
        ]
    );
    assert!(fs.is_activated());
}

#[test]
fn loading_can_fail() {
    let event = notifier();
    let mem = guest_memory();
    let state = backend();
    let mut fs = restored(&state);
    fs.activate::<()>(Ok(()), &mem, both(&event)).unwrap();
    taken(&state);
    match fs.load_state(Err(broken())) {
        Err(VirtioFsError::StateFile { operation, .. }) => assert_eq!(operation, "open restored"),
        other => panic!("{other:?}"),
    }
    assert_eq!(taken(&state), vec!["flags 0"]);
    assert!(!fs.is_activated());

    // One vring that cannot be enabled does not keep the other from being tried.
    let state = backend();
    let mut fs = restored(&state);
    fs.activate::<()>(Ok(()), &mem, both(&event)).unwrap();
    taken(&state);
    state.borrow_mut().failing = Some("enable 0 true");
    assert!(matches!(
        fs.load_state(Ok("saved")),
        Err(VirtioFsError::VhostUser(
            VhostUserError::VhostUserSetVringEnable(_)
        ))
    ));
    assert_eq!(
        taken(&state)[2..],
        [ANNOUNCED, "enable 0 true", "enable 1 true", "flags 0"]
    );
    assert!(!fs.is_activated());

    // A backend that does not take the features leaves the state for the next activation.
    let state = backend();
    let mut fs = restored(&state);
    taken(&state);
    state.borrow_mut().failing = Some(ANNOUNCED);
    fs.activate::<()>(Ok(()), &mem, both(&event)).unwrap_err();
    assert_eq!(taken(&state), vec!["flags 8", ANNOUNCED, "flags 0"]);
    state.borrow_mut().failing = None;
    assert!(matches!(
        fs.activate::<()>(Ok(()), &mem, both(&event)),
        Ok(Activation::LoadState(_))
    ));
}

#[test]
fn restore_errors_come_in_order() {
    let missing = saved_state(None);
    assert!(missing.missing_backend_state());
    assert!(matches!(
        VirtioFs::<MockFrontend>::restore(missing, Err("queues"), Err(broken())),
        Err(VirtioFsPersistError::MissingBackendState)
    ));
    let path = Some("/snapshot/fs");
    assert!(!saved_state(path).missing_backend_state());
    assert!(matches!(
        VirtioFs::<MockFrontend>::restore(saved_state(path), Err("queues"), Err(broken())),
        Err(VirtioFsPersistError::Virtio("queues"))
    ));
    assert!(matches!(
        VirtioFs::<MockFrontend>::restore::<()>(
            saved_state(path),
            Ok(vec![queue(1024)]),
            Err(broken())
        ),
        Err(VirtioFsPersistError::QueueCount)
    ));
    assert!(matches!(
        saved_state(None).restore_queues(Err("queues")),
        Err(VirtioFsPersistError::MissingBackendState)
    ));
    assert!(matches!(
        saved_state(path).restore_queues(Err("queues")),
        Err(VirtioFsPersistError::Virtio("queues"))
    ));
    assert!(matches!(
        saved_state(path).restore_queues::<()>(Ok(vec![queue(1024); 3])),
        Err(VirtioFsPersistError::QueueCount)
    ));
    assert_eq!(
        saved_state(path)
            .restore_queues::<()>(Ok(vec![queue(1), queue(2)]))
            .unwrap(),
        [queue(1), queue(2)]
    );
    assert!(matches!(
        VirtioFs::<MockFrontend>::restore::<()>(
            saved_state(path),
            Ok(queues().to_vec()),
            Err(broken())
        ),
        Err(VirtioFsPersistError::Backend(VirtioFsError::VhostUser(
            VhostUserError::Connect(_)
        )))
    ));
    let state = backend();
    state.borrow_mut().features = REQUESTED_FEATURES & !(1 << 29);
    assert!(matches!(
        VirtioFs::<MockFrontend>::restore::<()>(
            saved_state(path),
            Ok(queues().to_vec()),
            Ok(state)
        ),
        Err(VirtioFsPersistError::Backend(
            VirtioFsError::IncompatibleBackendFeatures
        ))
    ));
    let fs = VirtioFs::<MockFrontend>::restore::<()>(
        saved_state(path),
        Ok(queues().to_vec()),
        Ok(backend()),
    )
    .unwrap();
    let args = VirtioFsConstructorArgs { mem: guest_memory() };
    assert!(matches!(
        VirtioFs::restore_dirty_log::<()>(fs, &args, Err(VirtioFsError::DirtyLogSize)),
        Err(VirtioFsPersistError::Backend(VirtioFsError::DirtyLogSize))
    ));
}
