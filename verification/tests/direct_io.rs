use virtio_host::direct_io::{
    direct_read, direct_write, padding, AlignedBuffer, DirectIo, DirectIoError, IoReply, Statx,
    Transfer, TransferAction, MAX_BOUNCE_BYTES, STATX_DIOALIGN,
};
use virtio_host::guest_memory::{FileOffset, GuestMemoryError, GuestMemoryMmap, GuestRegion};

const MIB: usize = 1024 * 1024;

/// One region of guest memory at address 0.
fn memory() -> GuestMemoryMmap {
    GuestMemoryMmap::from_regions(vec![GuestRegion {
        start_addr: 0,
        len: 1024 * 1024,
        host_addr: 0x7000_0000,
        file_offset: None,
    }])
    .unwrap()
}

/// An image and the memory of a guest, both in plain vectors, and what was done to the image.
struct World {
    disk: Vec<u8>,
    guest: Vec<u8>,
    reads: Vec<(u64, usize)>,
    writes: Vec<(u64, usize)>,
}

impl World {
    fn new() -> World {
        World {
            disk: vec![0; MIB],
            guest: vec![0; MIB],
            reads: Vec::new(),
            writes: Vec::new(),
        }
    }

    /// Carries a request out.
    fn run(
        &mut self,
        geometry: &DirectIo,
        offset: u64,
        addr: u64,
        count: u32,
        write: bool,
    ) -> Result<u32, DirectIoError> {
        let mut transfer = geometry.transfer(offset, &memory(), addr, count, write)?;
        while !self.step(&mut transfer)? {}
        match transfer.next_action() {
            TransferAction::Complete { count } => Ok(count),
            other => panic!("{other:?}"),
        }
    }

    /// Does one piece of work. True where none was left.
    fn step(&mut self, transfer: &mut Transfer) -> Result<bool, DirectIoError> {
        match transfer.next_action() {
            TransferAction::ReadDisk { offset, len } => {
                let start = usize::try_from(offset).unwrap();
                let source = self.disk[start..start + len].to_vec();
                transfer.buffer_mut().unwrap()[..len].copy_from_slice(&source);
                self.reads.push((offset, len));
                transfer.disk_done(IoReply::Transferred(len))?;
            }
            TransferAction::WriteDisk { offset, len } => {
                let start = usize::try_from(offset).unwrap();
                let source = transfer.buffer_mut().unwrap()[..len].to_vec();
                self.disk[start..start + len].copy_from_slice(&source);
                self.writes.push((offset, len));
                transfer.disk_done(IoReply::Transferred(len))?;
            }
            TransferAction::LoadGuest { guest, at, len } => {
                let start = usize::try_from(guest).unwrap();
                let source = self.guest[start..start + len].to_vec();
                transfer.buffer_mut().unwrap()[at..at + len].copy_from_slice(&source);
                transfer.guest_done(Ok(()))?;
            }
            TransferAction::StoreGuest { guest, at, len } => {
                let start = usize::try_from(guest).unwrap();
                let source = transfer.buffer_mut().unwrap()[at..at + len].to_vec();
                self.guest[start..start + len].copy_from_slice(&source);
                transfer.guest_done(Ok(()))?;
            }
            TransferAction::Complete { .. } => return Ok(true),
        }
        Ok(false)
    }
}

fn geometry(memory_alignment: usize, offset_alignment: usize) -> Result<DirectIo, DirectIoError> {
    DirectIo::with_alignment(1024 * 1024, memory_alignment, offset_alignment)
}

#[test]
fn direct_sync_partial_blocks_and_large_unaligned_buffer() {
    let mut world = World::new();
    let geometry_4k = geometry(4096, 4096).unwrap();
    let data: Vec<u8> = (0..3 * MAX_BOUNCE_BYTES + 512)
        .map(|n| u8::try_from(n % 251).unwrap())
        .collect();
    world.guest[3..3 + data.len()].copy_from_slice(&data);
    world
        .run(
            &geometry_4k,
            512,
            3,
            u32::try_from(data.len()).unwrap(),
            true,
        )
        .unwrap();
    let mut readback = World::new();
    readback.disk = world.disk.clone();
    readback
        .run(
            &geometry_4k,
            0,
            7,
            u32::try_from(data.len() + 1024).unwrap(),
            false,
        )
        .unwrap();
    let bytes = &readback.guest[7..7 + data.len() + 1024];
    assert_eq!(&bytes[..512], &[0; 512]);
    assert_eq!(&bytes[512..512 + data.len()], data);
    assert_eq!(&bytes[512 + data.len()..], &[0; 512]);
    // Last virtual sector must not grow the backing file during read-modify-write.
    world
        .run(&geometry_4k, 1024 * 1024 - 512, 3, 512, true)
        .unwrap();
    assert_eq!(world.disk.len(), 1024 * 1024);
    world
        .run(&geometry_4k, 1024 * 1024, 3, 512, true)
        .unwrap_err();
    world
        .run(&geometry_4k, 0, 1024 * 1024 - 1, 512, true)
        .unwrap_err();
    AlignedBuffer::new(MAX_BOUNCE_BYTES + 1, 4096).unwrap_err();
    geometry(0, 4096).unwrap_err();
    geometry(4096, 0).unwrap_err();
}

#[test]
fn whole_blocks_are_written_without_a_read() {
    let mut world = World::new();
    let geometry = geometry(512, 4096).unwrap();
    assert_eq!(world.run(&geometry, 8192, 5, 8192, true).unwrap(), 8192);
    assert!(world.reads.is_empty());
    assert_eq!(world.writes, vec![(8192, 8192)]);
    // One byte more than whole blocks: the last block is merged with what the image holds.
    assert_eq!(world.run(&geometry, 8192, 5, 8193, true).unwrap(), 8193);
    assert_eq!(world.reads, vec![(8192, 12288)]);
}

#[test]
fn chunks_are_aligned_and_bounded() {
    let mut world = World::new();
    let geometry = geometry(512, 4096).unwrap();
    let count = 2 * MAX_BOUNCE_BYTES as u32;
    assert_eq!(world.run(&geometry, 512, 0, count, false).unwrap(), count);
    assert_eq!(
        world.reads,
        vec![(0, 65536), (65536, 65536), (131072, 4096)]
    );
}

#[test]
fn a_request_of_no_bytes_does_nothing() {
    let mut world = World::new();
    let geometry = geometry(512, 512).unwrap();
    assert_eq!(world.run(&geometry, 100, 200, 0, true).unwrap(), 0);
    assert!(world.reads.is_empty());
    assert!(world.writes.is_empty());
}

#[test]
fn writes_leave_the_rest_of_the_image_alone() {
    let mut world = World::new();
    world.disk = (0..MIB).map(|n| (n % 241) as u8).collect();
    let before = world.disk.clone();
    world.guest = vec![0xaa; MIB];
    let geometry = geometry(4096, 4096).unwrap();
    world.run(&geometry, 4095, 1, 4098, true).unwrap();
    assert_eq!(&world.disk[..4095], &before[..4095]);
    assert_eq!(&world.disk[4095..8193], &vec![0xaa; 4098][..]);
    assert_eq!(&world.disk[8193..], &before[8193..]);
}

#[test]
fn unfinished_writes_leave_the_rest_of_the_image_alone() {
    let geometry = geometry(4096, 4096).unwrap();
    // Two chunks of three pieces of work each.
    let written = [0, 0, 0, 64536, 64536, 64536, 70000];
    for steps in 0..7 {
        let mut world = World::new();
        world.disk = (0..MIB).map(|n| (n % 241) as u8).collect();
        world.guest = vec![0xaa; MIB];
        let mut expected = world.disk.clone();
        let mut transfer = geometry
            .transfer(1000, &memory(), 1, 70_000, true)
            .unwrap();
        for _ in 0..steps {
            assert!(!world.step(&mut transfer).unwrap());
        }
        expected[1000..1000 + written[steps]].fill(0xaa);
        assert!(world.disk == expected);
    }
}

#[test]
fn requests_are_checked_before_any_work() {
    let geometry = geometry(4096, 4096).unwrap();
    let mem = memory();
    assert!(matches!(
        geometry.transfer(u64::MAX, &mem, 0, 1, false),
        Err(DirectIoError::BeyondImageEnd)
    ));
    assert!(matches!(
        geometry.transfer(0, &mem, 0x10_0000, 1, false),
        Err(DirectIoError::GuestMemory(
            GuestMemoryError::InvalidGuestAddress(0x10_0000)
        ))
    ));
    assert!(matches!(
        geometry.transfer(0, &mem, 1024 * 1024 - 1, 2, false),
        Err(DirectIoError::GuestMemory(GuestMemoryError::InvalidBackendAddress))
    ));
}

#[test]
fn short_and_failed_accesses_end_a_request() {
    let geometry = geometry(4096, 4096).unwrap();
    let mem = memory();
    let mut read = geometry.transfer(0, &mem, 0, 4096, false).unwrap();
    // An interrupted access is asked for again.
    read.disk_done(IoReply::Interrupted).unwrap();
    assert_eq!(
        read.next_action(),
        TransferAction::ReadDisk { offset: 0, len: 4096 }
    );
    assert!(matches!(
        read.disk_done(IoReply::Transferred(512)),
        Err(DirectIoError::ShortRead)
    ));
    let mut write = geometry.transfer(0, &mem, 0, 4096, true).unwrap();
    assert_eq!(
        write.next_action(),
        TransferAction::LoadGuest { guest: 0, at: 0, len: 4096 }
    );
    write.guest_done(Ok(())).unwrap();
    assert_eq!(
        write.next_action(),
        TransferAction::WriteDisk { offset: 0, len: 4096 }
    );
    assert!(matches!(
        write.disk_done(IoReply::Transferred(0)),
        Err(DirectIoError::ShortWrite)
    ));
    let broken = || std::io::Error::new(std::io::ErrorKind::Other, "broken");
    assert!(matches!(
        write.disk_done(IoReply::Failed(broken())),
        Err(DirectIoError::Io(_))
    ));
    let mut load = geometry.transfer(0, &mem, 0, 4096, true).unwrap();
    assert!(matches!(
        load.guest_done(Err(broken())),
        Err(DirectIoError::Io(_))
    ));
}

#[test]
fn attempts_are_judged() {
    assert!(direct_read(IoReply::Transferred(7), 7).unwrap());
    assert!(!direct_read(IoReply::Interrupted, 7).unwrap());
    assert!(matches!(
        direct_read(IoReply::Transferred(8), 7),
        Err(DirectIoError::ShortRead)
    ));
    assert!(direct_write(IoReply::Transferred(7), 7).unwrap());
    assert!(!direct_write(IoReply::Interrupted, 7).unwrap());
    assert!(matches!(
        direct_write(IoReply::Transferred(6), 7),
        Err(DirectIoError::ShortWrite)
    ));
}

#[test]
fn aligned_buffers_are_zeroed_and_aligned() {
    for alignment in [1, 512, 4096, 65536] {
        let mut buffer = AlignedBuffer::new(1000, alignment).unwrap();
        assert_eq!(buffer.as_ptr() % alignment, 0);
        assert_ne!(buffer.as_ptr(), 0);
        assert_eq!(buffer.as_slice(), &vec![0u8; 1000][..]);
        assert_eq!(buffer.as_slice().as_ptr() as usize, buffer.as_ptr());
        buffer.as_mut_slice()[999] = 9;
        assert_eq!(buffer.as_slice()[999], 9);
        assert_eq!(buffer.as_slice().as_ptr() as usize, buffer.as_ptr());
    }
    assert!(matches!(
        AlignedBuffer::new(0, 512),
        Err(DirectIoError::InvalidBounceLength)
    ));
    assert!(matches!(
        AlignedBuffer::new(512, 3),
        Err(DirectIoError::InvalidAlignment)
    ));
    assert!(matches!(
        AlignedBuffer::new(512, 0),
        Err(DirectIoError::InvalidAlignment)
    ));
    assert!(matches!(
        AlignedBuffer::new(512, 1 << 63),
        Err(DirectIoError::InvalidAlignment)
    ));
}

#[test]
fn buffers_lie_at_the_first_multiple_of_their_storage() {
    assert_eq!(AlignedBuffer::needed_storage(512, 4096).unwrap(), 4607);
    assert_eq!(AlignedBuffer::needed_storage(1, 1).unwrap(), 1);
    assert!(matches!(
        AlignedBuffer::needed_storage(0, 3),
        Err(DirectIoError::InvalidBounceLength)
    ));
    assert!(matches!(
        AlignedBuffer::needed_storage(MAX_BOUNCE_BYTES + 1, 1),
        Err(DirectIoError::InvalidBounceLength)
    ));
    assert!(matches!(
        AlignedBuffer::needed_storage(1, 3),
        Err(DirectIoError::InvalidAlignment)
    ));
    let storage: Vec<u8> = (0..11).collect();
    let buffer = AlignedBuffer::in_storage(storage.clone(), 0x1003, 4, 8).unwrap();
    assert_eq!(buffer.as_ptr(), 0x1008);
    assert_eq!(buffer.as_slice(), &[5, 6, 7, 8]);
    let buffer = AlignedBuffer::in_storage(storage.clone(), 0x1000, 4, 8).unwrap();
    assert_eq!(buffer.as_ptr(), 0x1000);
    assert_eq!(buffer.as_slice(), &[0, 1, 2, 3]);
    assert!(matches!(
        AlignedBuffer::in_storage(storage, usize::MAX, 4, 8),
        Err(DirectIoError::OutOfMemory)
    ));
}

#[test]
fn requests_start_with_the_buffer_that_was_had() {
    let image = geometry(512, 512).unwrap();
    let mem = memory();
    let buffer = || AlignedBuffer::new(MAX_BOUNCE_BYTES, 512);
    let mut filled = buffer().unwrap();
    filled.as_mut_slice()[0] = 7;
    let mut transfer = image
        .start_with(512, &mem, 3, 512, false, Some(Ok(filled)))
        .unwrap();
    assert_eq!(
        transfer.next_action(),
        TransferAction::ReadDisk { offset: 512, len: 512 }
    );
    assert_eq!(transfer.buffer_mut().unwrap()[0], 7);
    assert!(matches!(
        image.start_with(512, &mem, 3, 512, false, Some(Err(DirectIoError::OutOfMemory))),
        Err(DirectIoError::OutOfMemory)
    ));
    // The checks come before the buffer.
    let lost = Some(Err(DirectIoError::OutOfMemory));
    assert!(matches!(
        image.start_with(1024 * 1024, &mem, 0, 1, true, lost),
        Err(DirectIoError::BeyondImageEnd)
    ));
    assert!(matches!(
        image.start_with(0, &mem, 1024 * 1024, 1, true, None),
        Err(DirectIoError::GuestMemory(_))
    ));
    assert!(matches!(
        image.check_request(1024 * 1024, &mem, 1024 * 1024, 1),
        Err(DirectIoError::BeyondImageEnd)
    ));
    assert!(image.check_request(0, &mem, 0, 1).is_ok());
    // A request of no bytes needs no buffer.
    let mut empty = image
        .start_with(0, &mem, 0, 0, true, Some(Err(DirectIoError::OutOfMemory)))
        .unwrap();
    assert_eq!(empty.next_action(), TransferAction::Complete { count: 0 });
    assert!(empty.buffer_mut().is_none());
}

#[test]
fn padding_reaches_the_next_multiple() {
    assert_eq!(padding(4096, 4096), 0);
    assert_eq!(padding(4097, 4096), 4095);
    assert_eq!(padding(8191, 4096), 1);
    assert_eq!(padding(7, 1), 0);
}

#[test]
fn bounce_buffers_lie_where_the_image_asks() {
    let geometry = geometry(4096, 512).unwrap();
    let mut transfer = geometry.transfer(0, &memory(), 0, 1, false).unwrap();
    let address = transfer.buffer_mut().unwrap().as_ptr() as usize;
    assert_eq!(address % 4096, 0);
    assert_eq!(transfer.buffer_mut().unwrap().len(), MAX_BOUNCE_BYTES);
}

#[test]
fn geometry_comes_from_the_file() {
    let stat = Statx {
        mask: STATX_DIOALIGN,
        dio_memory_alignment: 4,
        dio_offset_alignment: 512,
    };
    let geometry = DirectIo::new(Ok(stat), Ok(1024)).unwrap();
    assert_eq!(geometry.memory_alignment, 4);
    assert_eq!(geometry.offset_alignment, 512);
    assert_eq!(geometry.size, 1024);
    assert!(geometry.range_aligned(512, 1024));
    assert!(!geometry.range_aligned(513, 1024));
    assert!(!geometry.range_aligned(512, 1023));
    assert!(geometry.buffer_aligned(8));
    assert!(!geometry.buffer_aligned(6));
    assert!(geometry.validate(512, 512).is_ok());
    assert!(matches!(
        geometry.validate(512, 513),
        Err(DirectIoError::BeyondImageEnd)
    ));
    assert!(matches!(
        DirectIo::new(Ok(stat), Ok(1025)),
        Err(DirectIoError::UnsupportedGeometry)
    ));
    assert!(matches!(
        DirectIo::new(Ok(Statx { mask: 0, ..stat }), Ok(1024)),
        Err(DirectIoError::AlignmentNotReported)
    ));
    let broken = || std::io::Error::new(std::io::ErrorKind::Other, "broken");
    assert!(matches!(
        DirectIo::new(Err(broken()), Ok(1024)),
        Err(DirectIoError::Io(_))
    ));
    assert!(matches!(
        DirectIo::new(Ok(stat), Err(broken())),
        Err(DirectIoError::Io(_))
    ));
    assert!(matches!(
        DirectIo::with_alignment(1 << 20, 1 << 17, 512),
        Err(DirectIoError::UnsupportedGeometry)
    ));
    assert!(matches!(
        DirectIo::with_alignment(1 << 20, 512, 1 << 17),
        Err(DirectIoError::UnsupportedGeometry)
    ));
}

#[test]
fn guest_regions_must_be_in_order() {
    let region = |start_addr: u64, len: u64| GuestRegion {
        start_addr,
        len,
        host_addr: 0x10_0000 + start_addr,
        file_offset: Some(FileOffset { fd: 3, start: start_addr }),
    };
    let regions = vec![region(0, 0x1000), region(0x2000, 0x1000)];
    let mem = GuestMemoryMmap::from_regions(regions).unwrap();
    assert_eq!(mem.regions().len(), 2);
    assert_eq!(mem.find_region(0xfff), Some(0));
    assert_eq!(mem.find_region(0x1000), None);
    assert_eq!(mem.find_region(0x2000), Some(1));
    assert_eq!(mem.get_host_address(0x2010), Ok(0x10_2010));
    assert_eq!(
        mem.get_host_address(0x1fff),
        Err(GuestMemoryError::InvalidGuestAddress(0x1fff))
    );
    assert!(GuestMemoryMmap::from_regions(vec![region(0, 0x1001), region(0x1000, 1)]).is_none());
    assert!(GuestMemoryMmap::from_regions(vec![region(0, 0)]).is_none());
    assert!(GuestMemoryMmap::from_regions(vec![region(u64::MAX, 1)]).is_none());
}
