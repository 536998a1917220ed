//! Alignment adaptation for private direct-I/O block images.
//!
//! Direct I/O moves whole, aligned blocks between a file and an aligned buffer. A request of the
//! guest may start and end anywhere, so it is cut into chunks that pass through one bounce
//! buffer; a chunk that covers a block only in part is merged with what the image holds.
use crate::guest_memory::{GuestMemoryError, GuestMemoryMmap};
use vstd::arithmetic::power2::*;
use vstd::prelude::*;

verus! {

/// Bound on the length of one bounce buffer, whatever the guest requests. The padding that aligns
/// the buffer comes on top.
pub const MAX_BOUNCE_BYTES: usize = 65536;

/// The flag by which `statx` asks for, and reports, direct-I/O alignment.
pub const STATX_DIOALIGN: u32 = 0x2000;

/// Why a direct-I/O operation failed.
#[derive(Debug)]
pub enum DirectIoError {
    /// A bounce buffer must hold between one byte and `MAX_BOUNCE_BYTES` bytes.
    InvalidBounceLength,
    /// No buffer can have this alignment.
    InvalidAlignment,
    /// The bounce buffer could not be allocated.
    OutOfMemory,
    /// The filesystem does not report direct-I/O alignment.
    AlignmentNotReported,
    /// The reported alignment, or the image length, is not supported.
    UnsupportedGeometry,
    /// The request reaches past the end of the image.
    BeyondImageEnd,
    /// The request names guest memory that does not exist.
    GuestMemory(GuestMemoryError),
    /// A disk read ended early.
    ShortRead,
    /// A disk write ended early.
    ShortWrite,
    /// The system reported an error.
    Io(std::io::Error),
}

/// `std::alloc::Layout::from_size_align`: it accepts a size and an alignment exactly where the
/// alignment is a power of two and the size, rounded up to it, is at most `isize::MAX`.
#[verifier::external_body]
fn is_layout(size: usize, alignment: usize) -> (valid: bool)
    ensures
        valid == layout_exists(size as int, alignment as int),
{
    std::alloc::Layout::from_size_align(size, alignment).is_ok()
}

/// The condition on the size and the alignment of an allocation.
pub open spec fn layout_exists(size: int, alignment: int) -> bool {
    is_pow2(alignment) && crate::align::align_up(size, alignment) <= isize::MAX
}

/// `Vec::as_ptr`: the address of the vector's first byte, as a number. A vector's pointer is never
/// null. The allocator chooses the address, so nothing else is said about its value.
#[verifier::external_body]
fn base_address(storage: &Vec<u8>) -> (address: usize)
    ensures
        address != 0,
{
    storage.as_ptr() as usize
}

/// The number of bytes to skip from the address `base` on to reach a multiple of `alignment`.
pub fn padding(base: usize, alignment: usize) -> (start: usize)
    requires
        alignment > 0,
    ensures
        start == crate::align::align_up(base as int, alignment as int) - base,
        start < alignment,
        (base + start) % (alignment as int) == 0,
{
    proof {
        crate::align::lemma_align_up(base as int, alignment as int);
    }
    let excess: usize = base % alignment;
    if excess == 0 {
        0
    } else {
        alignment - excess
    }
}

/// A zeroed buffer whose address is a multiple of a chosen alignment.
#[derive(Debug)]
pub struct AlignedBuffer {
    /// The buffer's bytes, behind the padding that aligns them.
    storage: Vec<u8>,
    /// Number of padding bytes.
    start: usize,
    /// Number of bytes of the buffer.
    len: usize,
    /// Address of the first byte of the padding.
    base: usize,
    /// Address of the buffer's first byte.
    address: usize,
    alignment: usize,
}

impl View for AlignedBuffer {
    type V = Seq<u8>;

    closed spec fn view(&self) -> Seq<u8> {
        self.storage@.subrange(self.start as int, self.start + self.len)
    }
}

impl AlignedBuffer {
    /// The buffer lies inside its storage, right behind the padding that its address needs.
    pub closed spec fn wf(&self) -> bool {
        &&& self.start + self.len <= self.storage@.len()
        &&& 0 < self.len <= MAX_BOUNCE_BYTES
        &&& 0 < self.alignment
        &&& self.base != 0
        &&& self.start < self.alignment
        &&& self.address == self.base + self.start
        &&& self.address as int % self.alignment as int == 0
    }

    /// The alignment that was asked for.
    pub closed spec fn alignment(&self) -> usize {
        self.alignment
    }

    /// The address of the first byte.
    pub closed spec fn address(&self) -> usize {
        self.address
    }

    /// The number of bytes that were allocated.
    pub closed spec fn storage_len(&self) -> nat {
        self.storage@.len()
    }

    /// The number of bytes to allocate for a buffer: its length, and as much padding as the least
    /// favourable address needs.
    pub fn needed_storage(len: usize, alignment: usize) -> (total: Result<usize, DirectIoError>)
        ensures
            match total {
                Ok(n) => {
                    &&& 0 < len <= MAX_BOUNCE_BYTES
                    &&& layout_exists(len as int, alignment as int)
                    &&& n == len + alignment - 1
                },
                Err(e) => {
                    ||| e is InvalidBounceLength && (len == 0 || len > MAX_BOUNCE_BYTES)
                    ||| e is InvalidAlignment && 0 < len <= MAX_BOUNCE_BYTES && !layout_exists(
                        len as int,
                        alignment as int,
                    )
                },
            },
    {
        if len == 0 || len > MAX_BOUNCE_BYTES {
            return Err(DirectIoError::InvalidBounceLength);
        }
        if !is_layout(len, alignment) {
            return Err(DirectIoError::InvalidAlignment);
        }
        proof {
            crate::align::lemma_pow2_positive(alignment as int);
            crate::align::lemma_align_up(len as int, alignment as int);
            if alignment > isize::MAX {
                assert(len as int % alignment as int == len) by {
                    vstd::arithmetic::div_mod::lemma_small_mod(len as nat, alignment as nat);
                }
            }
        }
        Ok(len + (alignment - 1))
    }

    /// The buffer of `len` bytes at the first multiple of `alignment` in allocated bytes. `base`
    /// is the address of the first of them.
    pub fn in_storage(storage: Vec<u8>, base: usize, len: usize, alignment: usize) -> (buffer:
        Result<Self, DirectIoError>)
        requires
            0 < len <= MAX_BOUNCE_BYTES,
            0 < alignment,
            storage@.len() == len + alignment - 1,
            base != 0,
        ensures
            ({
                let address = crate::align::align_up(base as int, alignment as int);
                match buffer {
                    Ok(b) => {
                        &&& address <= usize::MAX
                        &&& b.wf()
                        &&& b@ == storage@.subrange(address - base, address - base + len)
                        &&& b.alignment() == alignment
                        &&& b.address() == address
                        &&& b.storage_len() == len + alignment - 1
                    },
                    Err(e) => e is OutOfMemory && address > usize::MAX,
                }
            }),
    {
        let start: usize = padding(base, alignment);
        let address: usize = match base.checked_add(start) {
            Some(address) => address,
            None => {
                return Err(DirectIoError::OutOfMemory);
            },
        };
        Ok(AlignedBuffer { storage, start, len, base, address, alignment })
    }

    /// Allocates `len` zero bytes at a multiple of `alignment`.
    ///
    /// Whether memory is left is up to the allocator: where the length and the alignment are
    /// valid, the outcome is a buffer or `OutOfMemory`.
    pub fn new(len: usize, alignment: usize) -> (buffer: Result<Self, DirectIoError>)
        ensures
            buffer matches Ok(b) ==> {
                &&& b.wf()
                &&& b@ == Seq::new(len as nat, |i: int| 0u8)
                &&& b.alignment() == alignment
                &&& b.storage_len() == len + alignment - 1
            },
            buffer matches Err(e) ==> e is InvalidBounceLength || e is InvalidAlignment
                || e is OutOfMemory,
            (buffer matches Err(e) && e is InvalidBounceLength) <==> (len == 0 || len
                > MAX_BOUNCE_BYTES),
            (buffer matches Err(e) && e is InvalidAlignment) <==> (0 < len <= MAX_BOUNCE_BYTES
                && !layout_exists(len as int, alignment as int)),
    {
        let total: usize = match Self::needed_storage(len, alignment) {
            Ok(total) => total,
            Err(e) => {
                return Err(e);
            },
        };
        proof {
            crate::align::lemma_pow2_positive(alignment as int);
        }
        let mut storage: Vec<u8> = Vec::new();
        if storage.try_reserve(total).is_err() {
            return Err(DirectIoError::OutOfMemory);
        }
        storage.resize(total, 0);
        let base: usize = base_address(&storage);
        let buffer = Self::in_storage(storage, base, len, alignment);
        proof {
            crate::align::lemma_align_up(base as int, alignment as int);
            assert(buffer is Ok ==> buffer->Ok_0@ =~= Seq::new(len as nat, |i: int| 0u8));
        }
        buffer
    }

    /// The address of the first byte: a multiple of the alignment, and never null. That the bytes
    /// of `as_slice` lie at this address comes from `Vec::as_ptr` and is not part of the contract.
    pub fn as_ptr(&self) -> (address: usize)
        requires
            self.wf(),
        ensures
            address == self.address(),
            address != 0,
            address as int % self.alignment() as int == 0,
    {
        self.address
    }

    /// The bytes of the buffer.
    pub fn as_slice(&self) -> (bytes: &[u8])
        requires
            self.wf(),
        ensures
            bytes@ == self@,
    {
        let total: usize = self.storage.len();
        assert(self.start + self.len <= total);
        &self.storage[self.start..self.start + self.len]
    }

    /// The bytes of the buffer, for writing.
    pub fn as_mut_slice(&mut self) -> (bytes: &mut [u8])
        requires
            old(self).wf(),
        ensures
            bytes@ == old(self)@,
            final(bytes)@.len() == bytes@.len() ==> {
                &&& final(self).wf()
                &&& final(self)@ == final(bytes)@
            },
            final(self).alignment() == old(self).alignment(),
            final(self).address() == old(self).address(),
            final(bytes)@.len() == bytes@.len() ==> final(self).storage_len() == old(
                self,
            ).storage_len(),
    {
        let (_, tail) = self.storage.as_mut_slice().split_at_mut(self.start);
        let (bytes, _) = tail.split_at_mut(self.len);
        bytes
    }
}

/// The geometry of a direct-I/O image: the alignment that its file asks of buffers and of
/// offsets, and its length.
#[derive(Clone, Copy, Debug)]
pub struct DirectIo {
    /// Buffers must lie at multiples of this.
    pub memory_alignment: usize,
    /// File offsets and lengths must be multiples of this.
    pub offset_alignment: usize,
    /// Length of the image in bytes.
    pub size: u64,
}

/// What `statx` reported about a file's direct-I/O alignment.
#[derive(Clone, Copy, Debug)]
pub struct Statx {
    /// The fields that the kernel filled in.
    pub mask: u32,
    /// Alignment of buffers.
    pub dio_memory_alignment: u32,
    /// Alignment of offsets and lengths.
    pub dio_offset_alignment: u32,
}

/// Geometries that the bounce buffer can serve.
pub open spec fn geometry_supported(
    memory_alignment: int,
    offset_alignment: int,
    size: int,
) -> bool {
    &&& is_pow2(memory_alignment)
    &&& is_pow2(offset_alignment)
    &&& memory_alignment <= MAX_BOUNCE_BYTES
    &&& offset_alignment <= MAX_BOUNCE_BYTES
    &&& size % offset_alignment == 0
}

impl DirectIo {
    /// The geometry is one that the bounce buffer can serve.
    pub open spec fn wf(&self) -> bool {
        geometry_supported(
            self.memory_alignment as int,
            self.offset_alignment as int,
            self.size as int,
        )
    }

    /// The geometry of a file, from what `statx` reported and from the file's length. Either may
    /// have failed; the report is looked at first.
    pub fn new(stat: Result<Statx, std::io::Error>, size: Result<u64, std::io::Error>) -> (geometry:
        Result<Self, DirectIoError>)
        ensures
            match (stat, size) {
                (Err(e), _) => geometry == Err::<Self, _>(DirectIoError::Io(e)),
                (Ok(s), _) if s.mask & STATX_DIOALIGN == 0 => geometry == Err::<Self, _>(
                    DirectIoError::AlignmentNotReported,
                ),
                (Ok(_), Err(e)) => geometry == Err::<Self, _>(DirectIoError::Io(e)),
                (Ok(s), Ok(n)) => match geometry {
                    Ok(g) => {
                        &&& g.wf()
                        &&& g.memory_alignment == s.dio_memory_alignment
                        &&& g.offset_alignment == s.dio_offset_alignment
                        &&& g.size == n
                    },
                    Err(e) => e is UnsupportedGeometry && !geometry_supported(
                        s.dio_memory_alignment as int,
                        s.dio_offset_alignment as int,
                        n as int,
                    ),
                },
            },
    {
        let stat = match stat {
            Ok(stat) => stat,
            Err(e) => {
                return Err(DirectIoError::Io(e));
            },
        };
        if stat.mask & STATX_DIOALIGN == 0 {
            return Err(DirectIoError::AlignmentNotReported);
        }
        match size {
            Ok(size) => Self::with_alignment(
                size,
                stat.dio_memory_alignment as usize,
                stat.dio_offset_alignment as usize,
            ),
            Err(e) => Err(DirectIoError::Io(e)),
        }
    }

    /// The geometry of an image of `size` bytes with the given alignment, if it is supported.
    pub fn with_alignment(size: u64, memory_alignment: usize, offset_alignment: usize) -> (geometry:
        Result<Self, DirectIoError>)
        ensures
            match geometry {
                Ok(g) => {
                    &&& g.wf()
                    &&& g.memory_alignment == memory_alignment
                    &&& g.offset_alignment == offset_alignment
                    &&& g.size == size
                },
                Err(e) => e is UnsupportedGeometry && !geometry_supported(
                    memory_alignment as int,
                    offset_alignment as int,
                    size as int,
                ),
            },
    {
        if !memory_alignment.is_power_of_two() || !offset_alignment.is_power_of_two() {
            return Err(DirectIoError::UnsupportedGeometry);
        }
        proof {
            crate::align::lemma_pow2_positive(offset_alignment as int);
        }
        if memory_alignment > MAX_BOUNCE_BYTES || offset_alignment > MAX_BOUNCE_BYTES || size % (
        offset_alignment as u64) != 0 {
            return Err(DirectIoError::UnsupportedGeometry);
        }
        Ok(DirectIo { memory_alignment, offset_alignment, size })
    }

    /// Whether a range of the file consists of whole blocks.
    pub fn range_aligned(&self, offset: u64, count: u32) -> (aligned: bool)
        requires
            self.wf(),
        ensures
            aligned == (offset as int % self.offset_alignment as int == 0 && count as int
                % self.offset_alignment as int == 0),
    {
        proof {
            crate::align::lemma_pow2_positive(self.offset_alignment as int);
        }
        offset % (self.offset_alignment as u64) == 0 && (count as usize) % self.offset_alignment
            == 0
    }

    /// Whether a buffer at `address` can be used without bouncing.
    pub fn buffer_aligned(&self, address: usize) -> (aligned: bool)
        requires
            self.wf(),
        ensures
            aligned == (address as int % self.memory_alignment as int == 0),
    {
        proof {
            crate::align::lemma_pow2_positive(self.memory_alignment as int);
        }
        address % self.memory_alignment == 0
    }

    /// Checks that a request lies inside the image.
    pub fn validate(&self, offset: u64, count: u32) -> (valid: Result<(), DirectIoError>)
        ensures
            match valid {
                Ok(_) => offset + count <= self.size,
                Err(e) => e is BeyondImageEnd && offset + count > self.size,
            },
    {
        match offset.checked_add(count as u64) {
            Some(end) if end <= self.size => Ok(()),
            _ => Err(DirectIoError::BeyondImageEnd),
        }
    }
}

/// The outcome of one attempt at a positioned read or write.
#[derive(Debug)]
pub enum IoReply {
    /// This many bytes were moved.
    Transferred(usize),
    /// A signal arrived before anything was moved.
    Interrupted,
    /// The attempt failed.
    Failed(std::io::Error),
}

/// What an attempt at moving `len` bytes amounts to. `Ok(true)`: it is done; `Ok(false)`: it must
/// be tried again. A short attempt is not continued, since the rest would start at an unaligned
/// offset.
pub open spec fn attempt(reply: IoReply, len: usize, short: DirectIoError) -> Result<
    bool,
    DirectIoError,
> {
    match reply {
        IoReply::Interrupted => Ok(false),
        IoReply::Transferred(n) if n == len => Ok(true),
        IoReply::Transferred(_) => Err(short),
        IoReply::Failed(e) => Err(DirectIoError::Io(e)),
    }
}

/// Judges an attempt at reading `len` bytes from the image.
pub fn direct_read(reply: IoReply, len: usize) -> (outcome: Result<bool, DirectIoError>)
    ensures
        outcome == attempt(reply, len, DirectIoError::ShortRead),
{
    match reply {
        IoReply::Interrupted => Ok(false),
        IoReply::Transferred(n) => if n == len {
            Ok(true)
        } else {
            Err(DirectIoError::ShortRead)
        },
        IoReply::Failed(e) => Err(DirectIoError::Io(e)),
    }
}

/// Judges an attempt at writing `len` bytes to the image. A short write may have changed part of
/// the requested data.
pub fn direct_write(reply: IoReply, len: usize) -> (outcome: Result<bool, DirectIoError>)
    ensures
        outcome == attempt(reply, len, DirectIoError::ShortWrite),
{
    match reply {
        IoReply::Interrupted => Ok(false),
        IoReply::Transferred(n) => if n == len {
            Ok(true)
        } else {
            Err(DirectIoError::ShortWrite)
        },
        IoReply::Failed(e) => Err(DirectIoError::Io(e)),
    }
}

/// Where a transfer stands within its current chunk.
#[derive(Clone, Copy, Debug, PartialEq, Eq, Structural)]
pub enum Phase {
    /// The blocks of the chunk must be read from the image.
    Fill,
    /// The bytes of the chunk must be copied between the buffer and the guest.
    Exchange,
    /// The blocks of the chunk must be written to the image.
    Flush,
}

/// The part of a request that passes through the bounce buffer at once.
#[derive(Clone, Copy, Debug, PartialEq, Eq, Structural)]
pub struct Chunk {
    /// Offset in the image of the first block.
    pub start: u64,
    /// Bytes of the first block before the request.
    pub prefix: usize,
    /// Bytes of the request.
    pub bytes: usize,
    /// Length of the blocks.
    pub len: usize,
}

/// The next piece of work of a transfer.
#[derive(Clone, Copy, Debug, PartialEq, Eq, Structural)]
pub enum TransferAction {
    /// Read `len` bytes of the image at `offset` into the front of the buffer.
    ReadDisk { offset: u64, len: usize },
    /// Copy `len` bytes of guest memory at `guest` into the buffer at `at`.
    LoadGuest { guest: u64, at: usize, len: usize },
    /// Copy `len` bytes of the buffer at `at` into guest memory at `guest`, and mark them dirty.
    StoreGuest { guest: u64, at: usize, len: usize },
    /// Write the first `len` bytes of the buffer to the image at `offset`.
    WriteDisk { offset: u64, len: usize },
    /// The request is done; this many bytes were moved.
    Complete { count: u32 },
}

/// Progress of a request: `done` of its `count` bytes are moved, and the current chunk stands at
/// `phase`.
#[derive(Clone, Copy, Debug)]
pub struct TransferState {
    pub geometry: DirectIo,
    pub offset: u64,
    pub addr: u64,
    pub count: u32,
    pub write: bool,
    pub done: u32,
    pub phase: Phase,
}

impl TransferState {
    /// Offset in the image of the next byte to move.
    pub open spec fn position(self) -> int {
        self.offset + self.done
    }

    /// Offset in the image of the block that holds the next byte.
    pub open spec fn block_start(self) -> int {
        crate::align::align_down(self.position(), self.geometry.offset_alignment as int)
    }

    /// Bytes of that block before the next byte.
    pub open spec fn prefix(self) -> int {
        self.position() - self.block_start()
    }

    /// Bytes that the current chunk moves: as many as are left and fit behind the prefix.
    pub open spec fn bytes(self) -> int {
        vstd::math::min(self.count - self.done, MAX_BOUNCE_BYTES - self.prefix())
    }

    /// Length of the blocks that the chunk touches.
    pub open spec fn block_len(self) -> int {
        crate::align::align_up(
            self.prefix() + self.bytes(),
            self.geometry.offset_alignment as int,
        )
    }

    /// A read, or a write that leaves part of a block as it is, starts by reading the blocks.
    pub open spec fn needs_fill(self) -> bool {
        !self.write || self.prefix() != 0 || self.bytes() != self.block_len()
    }

    /// The phase in which the current chunk starts.
    pub open spec fn first_phase(self) -> Phase {
        if self.done < self.count && self.needs_fill() {
            Phase::Fill
        } else {
            Phase::Exchange
        }
    }

    /// The request lies inside the image, and the phase is one that the chunk goes through.
    pub open spec fn wf(self) -> bool {
        &&& self.geometry.wf()
        &&& self.offset + self.count <= self.geometry.size
        &&& self.addr + self.count <= u64::MAX
        &&& self.done <= self.count
        &&& self.phase is Fill ==> self.needs_fill()
        &&& self.phase is Flush ==> self.write
    }

    /// A request of which nothing is done yet.
    pub open spec fn initial(
        geometry: DirectIo,
        offset: u64,
        addr: u64,
        count: u32,
        write: bool,
    ) -> Self {
        let fresh = TransferState {
            geometry,
            offset,
            addr,
            count,
            write,
            done: 0,
            phase: Phase::Exchange,
        };
        TransferState { phase: fresh.first_phase(), ..fresh }
    }

    /// The next piece of work.
    pub open spec fn action(self) -> TransferAction {
        if self.done >= self.count {
            TransferAction::Complete { count: self.done }
        } else {
            match (self.phase, self.write) {
                (Phase::Fill, _) => TransferAction::ReadDisk {
                    offset: self.block_start() as u64,
                    len: self.block_len() as usize,
                },
                (Phase::Exchange, true) => TransferAction::LoadGuest {
                    guest: (self.addr + self.done) as u64,
                    at: self.prefix() as usize,
                    len: self.bytes() as usize,
                },
                (Phase::Exchange, false) => TransferAction::StoreGuest {
                    guest: (self.addr + self.done) as u64,
                    at: self.prefix() as usize,
                    len: self.bytes() as usize,
                },
                (Phase::Flush, _) => TransferAction::WriteDisk {
                    offset: self.block_start() as u64,
                    len: self.block_len() as usize,
                },
            }
        }
    }

    /// The start of the chunk after the current one.
    pub open spec fn next_chunk(self) -> Self {
        let moved = TransferState {
            done: (self.done + self.bytes()) as u32,
            phase: Phase::Exchange,
            ..self
        };
        TransferState { phase: moved.first_phase(), ..moved }
    }

    /// The state after the next piece of work succeeded.
    pub open spec fn next(self) -> Self {
        match (self.phase, self.write) {
            (Phase::Fill, _) => TransferState { phase: Phase::Exchange, ..self },
            (Phase::Exchange, true) => TransferState { phase: Phase::Flush, ..self },
            _ => self.next_chunk(),
        }
    }

    /// The numbers of a chunk fit their types; its blocks are whole, lie inside the image and fit
    /// the bounce buffer.
    pub proof fn lemma_chunk(self)
        requires
            self.wf(),
            self.done < self.count,
        ensures
            0 <= self.block_start() <= self.position() < self.geometry.size,
            0 <= self.prefix() < self.geometry.offset_alignment <= MAX_BOUNCE_BYTES,
            0 < self.bytes() <= self.count - self.done,
            self.prefix() + self.bytes() <= self.block_len() <= MAX_BOUNCE_BYTES,
            self.block_start() % self.geometry.offset_alignment as int == 0,
            self.block_len() % self.geometry.offset_alignment as int == 0,
            self.block_start() + self.block_len() <= self.geometry.size,
            self.done + self.bytes() <= self.count,
    {
        let oa = self.geometry.offset_alignment as int;
        crate::align::lemma_pow2_positive(oa);
        crate::align::lemma_align_down(self.position(), oa);
        crate::align::lemma_64k_is_pow2();
        crate::align::lemma_pow2_divides(oa, 65536);
        crate::align::lemma_align_up(self.prefix() + self.bytes(), oa);
        crate::align::lemma_align_up_least(self.prefix() + self.bytes(), 65536, oa);
        crate::align::lemma_align_up_shift(self.block_start(), self.prefix() + self.bytes(), oa);
        crate::align::lemma_align_up_least(
            self.position() + self.bytes(),
            self.geometry.size as int,
            oa,
        );
        vstd::arithmetic::div_mod::lemma_div_pos_is_pos(self.position(), oa);
        assert(self.block_start() >= 0) by (nonlinear_arith)
            requires
                self.block_start() == oa * (self.position() / oa),
                self.position() / oa >= 0,
                oa > 0,
        ;
    }

    /// Each piece of work keeps the state well formed.
    pub proof fn lemma_next_wf(self)
        requires
            self.wf(),
            self.done < self.count,
        ensures
            self.next().wf(),
            self.next().count == self.count,
            self.next().done >= self.done,
    {
        self.lemma_chunk();
    }

    /// The chunk that the next piece of work belongs to.
    fn chunk(&self) -> (chunk: Chunk)
        requires
            self.wf(),
            self.done < self.count,
        ensures
            chunk.start == self.block_start(),
            chunk.prefix == self.prefix(),
            chunk.bytes == self.bytes(),
            chunk.len == self.block_len(),
    {
        proof {
            self.lemma_chunk();
            crate::align::lemma_pow2_positive(self.geometry.offset_alignment as int);
        }
        let alignment: usize = self.geometry.offset_alignment;
        let position: u64 = self.offset + self.done as u64;
        let within: u64 = position % (alignment as u64);
        let prefix: usize = within as usize;
        let left: usize = (self.count - self.done) as usize;
        let room: usize = MAX_BOUNCE_BYTES - prefix;
        let bytes: usize = if left < room {
            left
        } else {
            room
        };
        let used: usize = prefix + bytes;
        let excess: usize = used % alignment;
        proof {
            vstd::arithmetic::div_mod::lemma_mod_decreases(used as nat, alignment as nat);
        }
        let len: usize = if excess == 0 {
            used
        } else {
            used - excess + alignment
        };
        Chunk { start: position - within, prefix, bytes, len }
    }

    /// The first phase of the current chunk, if there is one.
    fn enter(&mut self)
        requires
            old(self).wf(),
            old(self).phase is Exchange,
        ensures
            *final(self) == (TransferState { phase: old(self).first_phase(), ..*old(self) }),
            final(self).wf(),
    {
        if self.done < self.count {
            let chunk = self.chunk();
            if !self.write || chunk.prefix != 0 || chunk.bytes != chunk.len {
                self.phase = Phase::Fill;
            }
        }
    }
}

/// A request on its way through the bounce buffer. The owner performs `next_action` on the image,
/// on guest memory and on the buffer, and reports how it went, until the request is complete.
#[derive(Debug)]
pub struct Transfer {
    state: TransferState,
    buffer: Option<AlignedBuffer>,
}

impl Transfer {
    /// How far the request is.
    pub closed spec fn state(&self) -> TransferState {
        self.state
    }

    /// The contents of the bounce buffer. A request of no bytes has none.
    pub closed spec fn buffer(&self) -> Option<Seq<u8>> {
        match self.buffer {
            Some(b) => Some(b@),
            None => None,
        }
    }

    /// The address of the bounce buffer.
    pub closed spec fn buffer_address(&self) -> Option<usize> {
        match self.buffer {
            Some(b) => Some(b.address()),
            None => None,
        }
    }

    /// The memory that was allocated for the request.
    pub closed spec fn storage_len(&self) -> nat {
        match self.buffer {
            Some(b) => b.storage_len(),
            None => 0,
        }
    }

    /// The state is well formed, and a request that moves bytes has its buffer, aligned as the
    /// image asks.
    pub closed spec fn wf(&self) -> bool {
        &&& self.state.wf()
        &&& self.state.count > 0 ==> self.buffer is Some
        &&& self.buffer matches Some(b) ==> self.state.geometry.takes_buffer(b)
    }

    /// A request that moves bytes has a buffer of the full size, at an address that is not null
    /// and that the image accepts. Whatever the guest requests, no more is allocated for it than
    /// the buffer and the padding that aligns it.
    pub proof fn law_transfer_has_its_buffer(&self)
        requires
            self.wf(),
        ensures
            self.state().wf(),
            self.state().count > 0 ==> self.buffer() is Some,
            self.buffer() matches Some(bytes) ==> bytes.len() == MAX_BOUNCE_BYTES,
            self.buffer_address() is Some <==> self.buffer() is Some,
            self.buffer_address() matches Some(address) ==> address != 0 && address as int
                % self.state().geometry.memory_alignment as int == 0,
            self.storage_len() <= MAX_BOUNCE_BYTES + self.state().geometry.memory_alignment - 1,
            self.storage_len() < 2 * MAX_BOUNCE_BYTES,
    {
        crate::align::lemma_pow2_positive(self.state.geometry.memory_alignment as int);
    }

    /// The next piece of work.
    pub fn next_action(&self) -> (action: TransferAction)
        requires
            self.wf(),
        ensures
            action == self.state().action(),
    {
        let state = self.state;
        if state.done >= state.count {
            return TransferAction::Complete { count: state.done };
        }
        let chunk = state.chunk();
        match state.phase {
            Phase::Fill => TransferAction::ReadDisk { offset: chunk.start, len: chunk.len },
            Phase::Flush => TransferAction::WriteDisk { offset: chunk.start, len: chunk.len },
            Phase::Exchange => {
                let guest: u64 = state.addr + state.done as u64;
                if state.write {
                    TransferAction::LoadGuest { guest, at: chunk.prefix, len: chunk.bytes }
                } else {
                    TransferAction::StoreGuest { guest, at: chunk.prefix, len: chunk.bytes }
                }
            },
        }
    }

    /// The bounce buffer, for the work that `next_action` asks for.
    pub fn buffer_mut(&mut self) -> (bytes: Option<&mut [u8]>)
        requires
            old(self).wf(),
        ensures
            bytes is Some <==> old(self).buffer() is Some,
            final(self).state() == old(self).state(),
            final(self).buffer_address() == old(self).buffer_address(),
            bytes matches Some(b) ==> {
                &&& b@ == old(self).buffer()->0
                &&& final(b)@.len() == b@.len() ==> final(self).wf() && final(self).buffer()
                    == Some(final(b)@)
            },
            bytes is None ==> final(self).wf() && final(self).buffer() is None,
    {
        match &mut self.buffer {
            Some(buffer) => Some(buffer.as_mut_slice()),
            None => None,
        }
    }

    /// Reports an attempt at the disk access that was asked for. An interrupted attempt changes
    /// nothing: the same access is asked for again.
    pub fn disk_done(&mut self, reply: IoReply) -> (outcome: Result<(), DirectIoError>)
        requires
            old(self).wf(),
            old(self).state().action() is ReadDisk || old(self).state().action() is WriteDisk,
        ensures
            final(self).wf(),
            final(self).buffer() == old(self).buffer(),
            final(self).buffer_address() == old(self).buffer_address(),
            ({
                let verdict = match old(self).state().action() {
                    TransferAction::ReadDisk { offset, len } => attempt(
                        reply,
                        len,
                        DirectIoError::ShortRead,
                    ),
                    _ => attempt(
                        reply,
                        old(self).state().block_len() as usize,
                        DirectIoError::ShortWrite,
                    ),
                };
                match verdict {
                    Ok(finished) => {
                        &&& outcome is Ok
                        &&& final(self).state() == if finished {
                            old(self).state().next()
                        } else {
                            old(self).state()
                        }
                    },
                    Err(e) => outcome == Err::<(), _>(e) && final(self).state() == old(
                        self,
                    ).state(),
                }
            }),
    {
        let chunk = self.state.chunk();
        match self.state.phase {
            Phase::Fill => match direct_read(reply, chunk.len) {
                Ok(true) => {
                    self.state.phase = Phase::Exchange;
                    Ok(())
                },
                Ok(false) => Ok(()),
                Err(e) => Err(e),
            },
            _ => match direct_write(reply, chunk.len) {
                Ok(true) => {
                    self.finish_chunk();
                    Ok(())
                },
                Ok(false) => Ok(()),
                Err(e) => Err(e),
            },
        }
    }

    /// Reports how the copy between the buffer and the guest went.
    pub fn guest_done(&mut self, reply: Result<(), std::io::Error>) -> (outcome: Result<
        (),
        DirectIoError,
    >)
        requires
            old(self).wf(),
            old(self).state().action() is LoadGuest || old(self).state().action() is StoreGuest,
        ensures
            final(self).wf(),
            final(self).buffer() == old(self).buffer(),
            final(self).buffer_address() == old(self).buffer_address(),
            match reply {
                Ok(_) => outcome is Ok && final(self).state() == old(self).state().next(),
                Err(e) => outcome == Err::<(), _>(DirectIoError::Io(e)) && final(self).state()
                    == old(self).state(),
            },
    {
        match reply {
            Ok(_) => {
                if self.state.write {
                    self.state.phase = Phase::Flush;
                } else {
                    self.finish_chunk();
                }
                Ok(())
            },
            Err(e) => Err(DirectIoError::Io(e)),
        }
    }

    /// Counts the current chunk as moved and turns to the next one.
    fn finish_chunk(&mut self)
        requires
            old(self).wf(),
            old(self).state().done < old(self).state().count,
        ensures
            final(self).wf(),
            final(self).buffer() == old(self).buffer(),
            final(self).buffer_address() == old(self).buffer_address(),
            final(self).state() == old(self).state().next_chunk(),
    {
        let chunk = self.state.chunk();
        proof {
            self.state.lemma_chunk();
        }
        self.state.done = self.state.done + chunk.bytes as u32;
        self.state.phase = Phase::Exchange;
        self.state.enter();
    }
}

impl DirectIo {
    /// Checks a request before any work is asked for: first against the image, then against guest
    /// memory.
    pub fn check_request(
        &self,
        offset: u64,
        mem: &GuestMemoryMmap,
        addr: u64,
        count: u32,
    ) -> (valid: Result<(), DirectIoError>)
        requires
            mem.wf(),
        ensures
            valid == self.request_check(offset, *mem, addr, count),
    {
        match self.validate(offset, count) {
            Ok(_) => {},
            Err(e) => {
                return Err(e);
            },
        }
        match mem.check_slice(addr, count) {
            Ok(unit) => Ok(unit),
            Err(e) => Err(DirectIoError::GuestMemory(e)),
        }
    }

    /// Why a request cannot be served.
    pub open spec fn request_check(
        self,
        offset: u64,
        mem: GuestMemoryMmap,
        addr: u64,
        count: u32,
    ) -> Result<(), DirectIoError> {
        if offset + count > self.size {
            Err(DirectIoError::BeyondImageEnd)
        } else {
            match mem.slice_check(addr, count as int) {
                Ok(_) => Ok(()),
                Err(e) => Err(DirectIoError::GuestMemory(e)),
            }
        }
    }

    /// A buffer through which requests to this image can pass.
    pub open spec fn takes_buffer(self, buffer: AlignedBuffer) -> bool {
        &&& buffer.wf()
        &&& buffer@.len() == MAX_BOUNCE_BYTES
        &&& buffer.alignment() == self.memory_alignment
        &&& buffer.storage_len() == MAX_BOUNCE_BYTES + self.memory_alignment - 1
    }

    /// Starts a request with the outcome of allocating its buffer. A request that fails its checks,
    /// or that moves no bytes, needs none.
    pub fn start_with(
        &self,
        offset: u64,
        mem: &GuestMemoryMmap,
        addr: u64,
        count: u32,
        write: bool,
        buffer: Option<Result<AlignedBuffer, DirectIoError>>,
    ) -> (transfer: Result<Transfer, DirectIoError>)
        requires
            self.wf(),
            mem.wf(),
            self.request_check(offset, *mem, addr, count) is Ok && count > 0 ==> buffer is Some,
            buffer matches Some(Ok(b)) ==> self.takes_buffer(b),
        ensures
            match self.request_check(offset, *mem, addr, count) {
                Err(e) => transfer == Err::<Transfer, _>(e),
                Ok(_) => if count > 0 && buffer->0 is Err {
                    transfer == Err::<Transfer, _>(buffer->0->Err_0)
                } else {
                    &&& transfer is Ok
                    &&& transfer->Ok_0.wf()
                    &&& transfer->Ok_0.state() == TransferState::initial(
                        *self,
                        offset,
                        addr,
                        count,
                        write,
                    )
                    &&& transfer->Ok_0.buffer() == if count > 0 {
                        Some(buffer->0->Ok_0@)
                    } else {
                        None
                    }
                    &&& transfer->Ok_0.buffer_address() == if count > 0 {
                        Some(buffer->0->Ok_0.address())
                    } else {
                        None
                    }
                },
            },
    {
        match self.check_request(offset, mem, addr, count) {
            Ok(_) => {},
            Err(e) => {
                return Err(e);
            },
        }
        let mut state = TransferState {
            geometry: *self,
            offset,
            addr,
            count,
            write,
            done: 0,
            phase: Phase::Exchange,
        };
        state.enter();
        if count == 0 {
            return Ok(Transfer { state, buffer: None });
        }
        match buffer.unwrap() {
            Ok(buffer) => Ok(Transfer { state, buffer: Some(buffer) }),
            Err(e) => Err(e),
        }
    }

    /// Starts a request: `count` bytes at `offset` of the image, to or from guest memory at
    /// `addr`. The caller must keep other accesses to the image away until it is complete.
    ///
    /// Memory for the buffer is only asked for where the request passes its checks and moves
    /// bytes. `OutOfMemory` is up to the allocator.
    pub fn transfer(
        &self,
        offset: u64,
        mem: &GuestMemoryMmap,
        addr: u64,
        count: u32,
        write: bool,
    ) -> (transfer: Result<Transfer, DirectIoError>)
        requires
            self.wf(),
            mem.wf(),
        ensures
            match self.request_check(offset, *mem, addr, count) {
                Err(e) => transfer == Err::<Transfer, _>(e),
                Ok(_) => match transfer {
                    Ok(t) => {
                        &&& t.wf()
                        &&& t.state() == TransferState::initial(*self, offset, addr, count, write)
                        &&& t.buffer() == if count > 0 {
                            Some(Seq::new(MAX_BOUNCE_BYTES as nat, |i: int| 0u8))
                        } else {
                            None
                        }
                    },
                    Err(e) => e is OutOfMemory && count > 0,
                },
            },
    {
        let needed: bool = count > 0 && self.check_request(offset, mem, addr, count).is_ok();
        if !needed {
            return self.start_with(offset, mem, addr, count, write, None);
        }
        proof {
            let ma = self.memory_alignment as int;
            crate::align::lemma_pow2_positive(ma);
            crate::align::lemma_64k_is_pow2();
            crate::align::lemma_pow2_divides(ma, 65536);
        }
        let buffer = AlignedBuffer::new(MAX_BOUNCE_BYTES, self.memory_alignment);
        self.start_with(offset, mem, addr, count, write, Some(buffer))
    }
}

/// A request is served exactly where its bytes lie inside the image and inside the one region of
/// guest memory that holds its first byte. The image is looked at first.
pub proof fn law_requests_inside_image_and_memory_are_served(
    image: DirectIo,
    offset: u64,
    mem: GuestMemoryMmap,
    addr: u64,
    count: u32,
    valid: Result<(), DirectIoError>,
    region: int,
)
    requires
        mem.wf(),
        call_ensures(DirectIo::check_request, (&image, offset, &mem, addr, count), valid),
        0 <= region < mem@.len(),
        mem@[region].start_addr <= addr < mem@[region].start_addr + mem@[region].len,
    ensures
        valid is Ok <==> offset + count <= image.size && addr + count <= mem@[region].start_addr
            + mem@[region].len,
        valid is Err && valid->Err_0 is BeyondImageEnd <==> offset + count > image.size,
        valid is Err && !(valid->Err_0 is BeyondImageEnd) ==> valid->Err_0
            == DirectIoError::GuestMemory(GuestMemoryError::InvalidBackendAddress),
{
    crate::guest_memory::law_region_decides_on_a_buffer(mem, addr, count as int, region);
}

/// A request that is served starts at its beginning, with nothing done, and fails otherwise only
/// for want of memory. A request of no bytes needs none.
pub proof fn law_served_requests_start_from_nothing(
    image: DirectIo,
    offset: u64,
    mem: GuestMemoryMmap,
    addr: u64,
    count: u32,
    write: bool,
    transfer: Result<Transfer, DirectIoError>,
    region: int,
)
    requires
        image.wf(),
        mem.wf(),
        call_ensures(
            DirectIo::transfer,
            (&image, offset, &mem, addr, count, write),
            transfer,
        ),
        0 <= region < mem@.len(),
        mem@[region].start_addr <= addr,
        addr < mem@[region].start_addr + mem@[region].len,
        addr + count <= mem@[region].start_addr + mem@[region].len,
        offset + count <= image.size,
    ensures
        transfer matches Err(e) ==> e is OutOfMemory && count > 0,
        transfer matches Ok(t) ==> {
            &&& t.wf()
            &&& t.state().geometry == image
            &&& t.state().offset == offset
            &&& t.state().addr == addr
            &&& t.state().count == count
            &&& t.state().write == write
            &&& t.state().done == 0
            &&& t.state() == TransferState::initial(image, offset, addr, count, write)
            &&& t.buffer() is Some <==> count > 0
            &&& t.buffer() matches Some(bytes) ==> bytes.len() == 65536 && forall|i: int|
                0 <= i < 65536 ==> #[trigger] bytes[i] == 0
        },
{
    crate::guest_memory::law_region_decides_on_a_buffer(mem, addr, count as int, region);
}

/// A geometry is supported exactly where both alignments are powers of two of at most 64 KiB and
/// the image consists of whole blocks. It is then taken as it is.
pub proof fn law_geometries_are_powers_of_two(
    size: u64,
    memory_alignment: usize,
    offset_alignment: usize,
    geometry: Result<DirectIo, DirectIoError>,
)
    requires
        call_ensures(
            DirectIo::with_alignment,
            (size, memory_alignment, offset_alignment),
            geometry,
        ),
    ensures
        geometry is Ok <==> {
            &&& exists|n: nat| n <= 16 && memory_alignment == #[trigger] pow2(n)
            &&& exists|n: nat| n <= 16 && offset_alignment == #[trigger] pow2(n)
            &&& size as int % offset_alignment as int == 0
        },
        geometry matches Ok(g) ==> g.size == size && g.memory_alignment == memory_alignment
            && g.offset_alignment == offset_alignment,
        geometry matches Err(e) ==> e is UnsupportedGeometry,
{
    lemma_small_pow2(memory_alignment as int);
    lemma_small_pow2(offset_alignment as int);
}

/// The powers of two of at most 64 KiB.
proof fn lemma_small_pow2(x: int)
    ensures
        is_pow2(x) && x <= 65536 <==> exists|n: nat| n <= 16 && x == #[trigger] pow2(n),
{
    lemma2_to64();
    if is_pow2(x) && x <= 65536 {
        is_pow2_equiv(x);
        let n: nat = choose|n: nat| vstd::arithmetic::power::pow(2, n) == x;
        lemma_pow2(n);
        if n > 16 {
            lemma_pow2_strictly_increases(16, n);
        }
        assert(x == pow2(n));
    }
    if exists|n: nat| n <= 16 && x == #[trigger] pow2(n) {
        let n: nat = choose|n: nat| n <= 16 && x == #[trigger] pow2(n);
        lemma_pow2(n);
        is_pow2_equiv(x);
        if n < 16 {
            lemma_pow2_strictly_increases(n, 16);
        }
    }
}

/// The geometry of a file is what the kernel reported of it, if it reported direct-I/O alignment.
pub proof fn law_geometry_is_as_reported(
    stat: Result<Statx, std::io::Error>,
    size: Result<u64, std::io::Error>,
    geometry: Result<DirectIo, DirectIoError>,
)
    requires
        call_ensures(DirectIo::new, (stat, size), geometry),
    ensures
        geometry matches Ok(g) ==> {
            &&& stat is Ok && size is Ok
            &&& stat->Ok_0.mask & 0x2000 != 0
            &&& g.memory_alignment == stat->Ok_0.dio_memory_alignment
            &&& g.offset_alignment == stat->Ok_0.dio_offset_alignment
            &&& g.size == size->Ok_0
        },
        stat is Err ==> geometry == Err::<DirectIo, _>(DirectIoError::Io(stat->Err_0)),
        geometry is Err && geometry->Err_0 is AlignmentNotReported <==> stat is Ok
            && stat->Ok_0.mask & 0x2000 == 0,
{
}

/// What a request may touch without bouncing is aligned in every respect.
pub proof fn law_alignment_is_divisibility(
    image: DirectIo,
    offset: u64,
    count: u32,
    address: usize,
    range_aligned: bool,
    buffer_aligned: bool,
)
    requires
        image.wf(),
        call_ensures(DirectIo::range_aligned, (&image, offset, count), range_aligned),
        call_ensures(DirectIo::buffer_aligned, (&image, address), buffer_aligned),
    ensures
        range_aligned <==> crate::align::align_down(
            offset as int,
            image.offset_alignment as int,
        ) == offset && crate::align::align_up(count as int, image.offset_alignment as int)
            == count,
        range_aligned <==> offset as int % image.offset_alignment as int == 0 && count as int
            % image.offset_alignment as int == 0,
        buffer_aligned <==> address as int % image.memory_alignment as int == 0,
{
    crate::align::lemma_pow2_positive(image.offset_alignment as int);
}

/// A disk access counts as done exactly where all its bytes were moved, and is tried again exactly
/// where a signal interrupted it. Anything else is an error of its own kind.
pub proof fn law_only_whole_accesses_count(
    reply: IoReply,
    len: usize,
    read: Result<bool, DirectIoError>,
    written: Result<bool, DirectIoError>,
)
    requires
        call_ensures(direct_read, (reply, len), read),
        call_ensures(direct_write, (reply, len), written),
    ensures
        read == Ok::<bool, DirectIoError>(true) <==> reply == IoReply::Transferred(len),
        written == Ok::<bool, DirectIoError>(true) <==> reply == IoReply::Transferred(len),
        read == Ok::<bool, DirectIoError>(false) <==> reply is Interrupted,
        written == Ok::<bool, DirectIoError>(false) <==> reply is Interrupted,
        read is Err && read->Err_0 is ShortRead <==> reply is Transferred
            && reply->Transferred_0 != len,
        written is Err && written->Err_0 is ShortWrite <==> reply is Transferred
            && reply->Transferred_0 != len,
        reply is Failed ==> read == Err::<bool, _>(DirectIoError::Io(reply->Failed_0)) && written
            == Err::<bool, _>(DirectIoError::Io(reply->Failed_0)),
{
}

/// A chunk moves all the bytes that are left, or as many as fill the bounce buffer up.
pub proof fn law_chunks_are_as_long_as_they_can_be(state: TransferState)
    requires
        state.wf(),
        state.done < state.count,
    ensures
        state.bytes() == state.count - state.done || state.prefix() + state.bytes() == 65536,
        state.next_chunk().done == state.done + state.bytes(),
        0 <= state.prefix() < state.geometry.offset_alignment,
        (state.position() - state.prefix()) % state.geometry.offset_alignment as int == 0,
{
    state.lemma_chunk();
}

/// The owner of a transfer is asked for the next piece of work of its state, and the state moves on
/// by that piece exactly where it was done: a disk access of which all bytes were moved, or a copy
/// that succeeded. Otherwise it stays where it is.
pub proof fn law_a_transfer_moves_on_by_its_work(
    before: Transfer,
    action: TransferAction,
    disk: &mut Transfer,
    disk_reply: IoReply,
    disk_outcome: Result<(), DirectIoError>,
    guest: &mut Transfer,
    guest_reply: Result<(), std::io::Error>,
    guest_outcome: Result<(), DirectIoError>,
)
    requires
        before.wf(),
        call_ensures(Transfer::next_action, (&before,), action),
        *old(disk) == before,
        *old(guest) == before,
        action is ReadDisk || action is WriteDisk ==> call_ensures(
            Transfer::disk_done,
            (disk, disk_reply),
            disk_outcome,
        ),
        action is LoadGuest || action is StoreGuest ==> call_ensures(
            Transfer::guest_done,
            (guest, guest_reply),
            guest_outcome,
        ),
    ensures
        action == before.state().action(),
        action matches TransferAction::ReadDisk { offset, len } ==> {
            &&& final(disk).state() == if disk_reply == IoReply::Transferred(len) {
                before.state().next()
            } else {
                before.state()
            }
            &&& disk_outcome is Ok <==> disk_reply == IoReply::Transferred(len)
                || disk_reply is Interrupted
        },
        action matches TransferAction::WriteDisk { offset, len } ==> {
            &&& final(disk).state() == if disk_reply == IoReply::Transferred(len) {
                before.state().next()
            } else {
                before.state()
            }
            &&& disk_outcome is Ok <==> disk_reply == IoReply::Transferred(len)
                || disk_reply is Interrupted
        },
        action is LoadGuest || action is StoreGuest ==> {
            &&& final(guest).state() == if guest_reply is Ok {
                before.state().next()
            } else {
                before.state()
            }
            &&& guest_outcome is Ok <==> guest_reply is Ok
        },
        action matches TransferAction::Complete { count } ==> count == before.state().count,
{
}

/// A buffer that was allocated holds zeros only, has the wanted length, and lies at a multiple of
/// the wanted alignment, less than one alignment behind the start of what was allocated.
pub proof fn law_buffers_are_zero_and_aligned(
    len: usize,
    alignment: usize,
    buffer: AlignedBuffer,
    address: usize,
)
    requires
        call_ensures(AlignedBuffer::new, (len, alignment), Ok(buffer)),
        call_ensures(AlignedBuffer::as_ptr, (&buffer,), address),
    ensures
        buffer@.len() == len,
        0 < len <= 65536,
        forall|i: int| 0 <= i < len ==> #[trigger] buffer@[i] == 0,
        address != 0,
        address as int % alignment as int == 0,
        buffer.storage_len() == len + alignment - 1,
{
}

/// A buffer starts at the first multiple of its alignment among the bytes that it is given.
pub proof fn law_buffers_start_at_the_first_multiple(
    storage: Vec<u8>,
    base: usize,
    len: usize,
    alignment: usize,
    buffer: AlignedBuffer,
    m: int,
)
    requires
        0 < alignment,
        call_ensures(AlignedBuffer::in_storage, (storage, base, len, alignment), Ok(buffer)),
        base <= m,
        m % alignment as int == 0,
    ensures
        base <= buffer.address() <= m,
        buffer.address() as int % alignment as int == 0,
        buffer@ == storage@.subrange(buffer.address() - base, buffer.address() - base + len),
{
    crate::align::lemma_align_up(base as int, alignment as int);
    crate::align::lemma_align_up_least(base as int, m, alignment as int);
}

/// Storage is asked for exactly where the length is one that a buffer may have and the alignment is
/// one that memory can have; it is enough for the buffer wherever it starts.
pub proof fn law_storage_is_enough_for_any_start(
    len: usize,
    alignment: usize,
    total: Result<usize, DirectIoError>,
    base: int,
)
    requires
        call_ensures(AlignedBuffer::needed_storage, (len, alignment), total),
        0 <= base,
    ensures
        total is Err && total->Err_0 is InvalidBounceLength <==> !(1 <= len <= 65536),
        total is Err && !(total->Err_0 is InvalidBounceLength) ==> total->Err_0 is InvalidAlignment,
        total is Ok ==> is_pow2(alignment as int),
        total matches Ok(n) ==> exists|start: int|
            base <= start && start + len <= base + n && #[trigger] (start % alignment as int) == 0,
        total matches Ok(n) ==> n == len + alignment - 1,
        is_pow2(alignment as int) && alignment <= 65536 && 1 <= len <= 65536 ==> total is Ok,
{
    if total is Ok {
        crate::align::lemma_pow2_positive(alignment as int);
        crate::align::lemma_align_up(base, alignment as int);
        let start = crate::align::align_up(base, alignment as int);
        assert(start % alignment as int == 0);
    }
    if is_pow2(alignment as int) && alignment <= 65536 && 1 <= len <= 65536 {
        crate::align::lemma_pow2_positive(alignment as int);
        crate::align::lemma_align_up(len as int, alignment as int);
    }
}

/// A request lies inside the image exactly where its last byte does.
pub proof fn law_requests_end_inside_the_image(
    image: DirectIo,
    offset: u64,
    count: u32,
    valid: Result<(), DirectIoError>,
)
    requires
        call_ensures(DirectIo::validate, (&image, offset, count), valid),
    ensures
        valid is Ok <==> offset + count <= image.size,
        valid matches Err(e) ==> e is BeyondImageEnd,
{
}

/// The bytes of a buffer are read as they are.
pub proof fn law_a_buffer_is_read_as_it_is(buffer: AlignedBuffer, bytes: &[u8])
    requires
        buffer.wf(),
        call_ensures(AlignedBuffer::as_slice, (&buffer,), bytes),
    ensures
        bytes@ == buffer@,
{
}

/// What is written into a buffer is what it holds, and it stays where it is.
pub proof fn law_a_buffer_keeps_what_is_written(buffer: &mut AlignedBuffer, bytes: &mut [u8])
    requires
        old(buffer).wf(),
        call_ensures(AlignedBuffer::as_mut_slice, (buffer,), bytes),
        final(bytes)@.len() == old(bytes)@.len(),
    ensures
        old(bytes)@ == old(buffer)@,
        final(buffer)@ == final(bytes)@,
        final(buffer).address() == old(buffer).address(),
        final(buffer).alignment() == old(buffer).alignment(),
{
}

/// With the outcome of allocating its buffer at hand, a request that is served starts exactly where
/// there is a buffer or no byte to move, and with that buffer.
pub proof fn law_requests_start_with_their_buffer(
    image: DirectIo,
    offset: u64,
    mem: GuestMemoryMmap,
    addr: u64,
    count: u32,
    write: bool,
    buffer: Option<Result<AlignedBuffer, DirectIoError>>,
    transfer: Result<Transfer, DirectIoError>,
    region: int,
)
    requires
        image.wf(),
        mem.wf(),
        call_ensures(
            DirectIo::start_with,
            (&image, offset, &mem, addr, count, write, buffer),
            transfer,
        ),
        0 <= region < mem@.len(),
        mem@[region].start_addr <= addr,
        addr < mem@[region].start_addr + mem@[region].len,
        addr + count <= mem@[region].start_addr + mem@[region].len,
        offset + count <= image.size,
        count > 0 ==> buffer is Some,
    ensures
        transfer is Ok <==> count == 0 || buffer->0 is Ok,
        transfer is Err ==> transfer == Err::<Transfer, _>(buffer->0->Err_0),
        transfer matches Ok(t) ==> {
            &&& t.wf()
            &&& t.state() == TransferState::initial(image, offset, addr, count, write)
            &&& count > 0 ==> t.buffer() == Some(buffer->0->Ok_0@) && t.buffer_address() == Some(
                buffer->0->Ok_0.address(),
            )
        },
{
    crate::guest_memory::law_region_decides_on_a_buffer(mem, addr, count as int, region);
}

/// What the owner of a transfer puts into its buffer is what the buffer holds; nothing else of the
/// transfer changes.
pub proof fn law_a_transfer_keeps_what_is_put_into_its_buffer(
    transfer: &mut Transfer,
    bytes: Option<&mut [u8]>,
)
    requires
        old(transfer).wf(),
        call_ensures(Transfer::buffer_mut, (transfer,), bytes),
        bytes matches Some(b) ==> final(b)@.len() == b@.len(),
    ensures
        bytes is Some <==> old(transfer).buffer() is Some,
        final(transfer).state() == old(transfer).state(),
        bytes matches Some(b) ==> old(transfer).buffer() == Some(b@) && final(transfer).buffer()
            == Some(final(b)@),
{
}

/// The padding reaches the first multiple of an alignment that is not before the base.
pub proof fn law_padding_reaches_the_first_multiple(
    base: usize,
    alignment: usize,
    start: usize,
    m: int,
)
    requires
        alignment > 0,
        call_ensures(padding, (base, alignment), start),
        base <= m,
        m % alignment as int == 0,
    ensures
        (base + start) % alignment as int == 0,
        base + start <= m,
{
    crate::align::lemma_align_up_least(base as int, m, alignment as int);
}

} // verus!
