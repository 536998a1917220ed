//! What a direct-I/O transfer does to the image and to guest memory.
//!
//! The model runs the pieces of work of a transfer, one after the other, on the contents of the
//! image, of guest memory and of the bounce buffer.
use crate::direct_io::{DirectIo, Phase, TransferAction, TransferState};
use vstd::prelude::*;

verus! {

/// The contents that a transfer works on. Guest memory is taken as one sequence from guest
/// address zero on; `dirty` holds the guest addresses marked as written.
#[verifier::ext_equal]
pub struct World {
    pub disk: Seq<u8>,
    pub guest: Seq<u8>,
    pub buffer: Seq<u8>,
    pub dirty: Set<int>,
}

/// `s` with `data` in place of the bytes from `at` on.
pub open spec fn overwrite(s: Seq<u8>, at: int, data: Seq<u8>) -> Seq<u8> {
    Seq::new(
        s.len(),
        |i: int|
            if at <= i < at + data.len() {
                data[i - at]
            } else {
                s[i]
            },
    )
}

/// The `len` bytes of `s` from `at` on.
pub open spec fn bytes_at(s: Seq<u8>, at: int, len: int) -> Seq<u8> {
    s.subrange(at, at + len)
}

/// The addresses from `from` up to `to`.
pub open spec fn span(from: int, to: int) -> Set<int> {
    Set::new(|a: int| from <= a < to)
}

impl World {
    /// The image has its length, guest memory reaches as far as the request, and the buffer has
    /// its size.
    pub open spec fn fits(self, t: TransferState) -> bool {
        &&& self.disk.len() == t.geometry.size
        &&& self.guest.len() >= t.addr + t.count
        &&& self.buffer.len() == crate::direct_io::MAX_BOUNCE_BYTES
    }

    /// The contents after one piece of work.
    pub open spec fn after(self, action: TransferAction) -> World {
        match action {
            TransferAction::ReadDisk { offset, len } => World {
                buffer: overwrite(self.buffer, 0, bytes_at(self.disk, offset as int, len as int)),
                ..self
            },
            TransferAction::LoadGuest { guest, at, len } => World {
                buffer: overwrite(
                    self.buffer,
                    at as int,
                    bytes_at(self.guest, guest as int, len as int),
                ),
                ..self
            },
            TransferAction::StoreGuest { guest, at, len } => World {
                guest: overwrite(
                    self.guest,
                    guest as int,
                    bytes_at(self.buffer, at as int, len as int),
                ),
                dirty: self.dirty.union(span(guest as int, guest + len)),
                ..self
            },
            TransferAction::WriteDisk { offset, len } => World {
                disk: overwrite(self.disk, offset as int, bytes_at(self.buffer, 0, len as int)),
                ..self
            },
            TransferAction::Complete { count } => self,
        }
    }
}

/// Position of a phase counted from the end of a chunk.
pub open spec fn phases_left(phase: Phase) -> int {
    match phase {
        Phase::Fill => 2,
        Phase::Exchange => 1,
        Phase::Flush => 0,
    }
}

/// The contents after all the work that is left of a transfer.
pub open spec fn run(t: TransferState, w: World) -> World
    decreases t.count - t.done, phases_left(t.phase),
    when t.wf()
{
    if t.done >= t.count {
        w
    } else {
        proof {
            t.lemma_chunk();
            t.lemma_next_wf();
        }
        run(t.next(), w.after(t.action()))
    }
}

/// A chunk of a write puts the guest's bytes into the image and leaves everything else.
proof fn lemma_write_chunk(t: TransferState, w: World)
    requires
        t.wf(),
        t.write,
        t.done < t.count,
        t.phase == t.first_phase(),
        w.fits(t),
    ensures
        ({
            let rest = run(t, w);
            let next = t.next_chunk();
            exists|v: World|
                {
                    &&& #[trigger] run(next, v) == rest
                    &&& v.fits(next)
                    &&& v.guest == w.guest
                    &&& v.dirty == w.dirty
                    &&& v.disk == overwrite(
                        w.disk,
                        t.position(),
                        bytes_at(w.guest, t.addr + t.done, t.bytes()),
                    )
                }
        }),
{
    t.lemma_chunk();
    let next = t.next_chunk();
    let start = t.block_start();
    let len = t.block_len();
    let loading = TransferState { phase: Phase::Exchange, ..t };
    let filled = if t.needs_fill() {
        w.after(t.action())
    } else {
        w
    };
    assert(run(t, w) == run(loading, filled));
    let flushing = TransferState { phase: Phase::Flush, ..t };
    let loaded = filled.after(loading.action());
    assert(loading.wf() && flushing.wf());
    assert(run(loading, filled) == run(flushing, loaded));
    let v = loaded.after(flushing.action());
    assert(run(flushing, loaded) == run(next, v));
    let wanted = overwrite(w.disk, t.position(), bytes_at(w.guest, t.addr + t.done, t.bytes()));
    assert(v.disk =~= wanted) by {
        assert forall|i: int| 0 <= i < w.disk.len() implies v.disk[i] == wanted[i] by {
            if start <= i < start + len {
                let k = i - start;
                assert(v.disk[i] == loaded.buffer[k]);
                if t.prefix() <= k < t.prefix() + t.bytes() {
                    assert(loaded.buffer[k] == w.guest[t.addr + t.done + (k - t.prefix())]);
                } else {
                    assert(loaded.buffer[k] == filled.buffer[k]);
                    assert(t.needs_fill());
                    assert(filled.buffer[k] == w.disk[i]);
                }
            }
        }
    }
    assert(run(next, v) == run(t, w));
}

/// Writing a range in two adjacent parts is writing it at once.
proof fn lemma_overwrite_split(s: Seq<u8>, at: int, data: Seq<u8>, cut: int)
    requires
        0 <= at,
        0 <= cut <= data.len(),
        at + data.len() <= s.len(),
    ensures
        overwrite(
            overwrite(s, at, data.subrange(0, cut)),
            at + cut,
            data.subrange(cut, data.len() as int),
        ) == overwrite(s, at, data),
{
    let two = overwrite(
        overwrite(s, at, data.subrange(0, cut)),
        at + cut,
        data.subrange(cut, data.len() as int),
    );
    assert(two =~= overwrite(s, at, data));
}

/// A write in progress, run to its end, puts the rest of the guest's bytes into the image.
proof fn lemma_write_rest(t: TransferState, w: World)
    requires
        t.wf(),
        t.write,
        t.phase == t.first_phase(),
        w.fits(t),
    ensures
        run(t, w).guest == w.guest,
        run(t, w).dirty == w.dirty,
        run(t, w).disk == overwrite(
            w.disk,
            t.position(),
            bytes_at(w.guest, t.addr + t.done, t.count - t.done),
        ),
    decreases t.count - t.done,
{
    let data = bytes_at(w.guest, t.addr + t.done, t.count - t.done);
    if t.done >= t.count {
        assert(overwrite(w.disk, t.position(), data) =~= w.disk);
    } else {
        t.lemma_chunk();
        lemma_write_chunk(t, w);
        let next = t.next_chunk();
        let v = choose|v: World|
            {
                &&& #[trigger] run(next, v) == run(t, w)
                &&& v.fits(next)
                &&& v.guest == w.guest
                &&& v.dirty == w.dirty
                &&& v.disk == overwrite(
                    w.disk,
                    t.position(),
                    bytes_at(w.guest, t.addr + t.done, t.bytes()),
                )
            };
        lemma_write_rest(next, v);
        lemma_overwrite_split(w.disk, t.position(), data, t.bytes());
        assert(data.subrange(0, t.bytes()) =~= bytes_at(w.guest, t.addr + t.done, t.bytes()));
        assert(data.subrange(t.bytes(), data.len() as int) =~= bytes_at(
            w.guest,
            t.addr + next.done,
            t.count - next.done,
        ));
    }
}

/// A chunk of a read puts the image's bytes into guest memory and marks them dirty.
proof fn lemma_read_chunk(t: TransferState, w: World)
    requires
        t.wf(),
        !t.write,
        t.done < t.count,
        t.phase == t.first_phase(),
        w.fits(t),
    ensures
        ({
            let rest = run(t, w);
            let next = t.next_chunk();
            exists|v: World|
                {
                    &&& #[trigger] run(next, v) == rest
                    &&& v.fits(next)
                    &&& v.disk == w.disk
                    &&& v.dirty == w.dirty.union(
                        span(t.addr + t.done, t.addr + t.done + t.bytes()),
                    )
                    &&& v.guest == overwrite(
                        w.guest,
                        t.addr + t.done,
                        bytes_at(w.disk, t.position(), t.bytes()),
                    )
                }
        }),
{
    t.lemma_chunk();
    let next = t.next_chunk();
    let storing = TransferState { phase: Phase::Exchange, ..t };
    let filled = w.after(t.action());
    assert(storing.wf());
    assert(run(t, w) == run(storing, filled));
    let v = filled.after(storing.action());
    assert(run(storing, filled) == run(next, v));
    assert(bytes_at(filled.buffer, t.prefix(), t.bytes()) =~= bytes_at(
        w.disk,
        t.position(),
        t.bytes(),
    ));
    assert(run(next, v) == run(t, w));
}

/// A read in progress, run to its end, puts the rest of the image's bytes into guest memory.
proof fn lemma_read_rest(t: TransferState, w: World)
    requires
        t.wf(),
        !t.write,
        t.phase == t.first_phase(),
        w.fits(t),
    ensures
        run(t, w).disk == w.disk,
        run(t, w).dirty == w.dirty.union(span(t.addr + t.done, t.addr + t.count)),
        run(t, w).guest == overwrite(
            w.guest,
            t.addr + t.done,
            bytes_at(w.disk, t.position(), t.count - t.done),
        ),
    decreases t.count - t.done,
{
    let data = bytes_at(w.disk, t.position(), t.count - t.done);
    if t.done >= t.count {
        assert(overwrite(w.guest, t.addr + t.done, data) =~= w.guest);
        assert(w.dirty.union(span(t.addr + t.done, t.addr + t.count)) =~= w.dirty);
    } else {
        t.lemma_chunk();
        lemma_read_chunk(t, w);
        let next = t.next_chunk();
        let v = choose|v: World|
            {
                &&& #[trigger] run(next, v) == run(t, w)
                &&& v.fits(next)
                &&& v.disk == w.disk
                &&& v.dirty == w.dirty.union(span(t.addr + t.done, t.addr + t.done + t.bytes()))
                &&& v.guest == overwrite(
                    w.guest,
                    t.addr + t.done,
                    bytes_at(w.disk, t.position(), t.bytes()),
                )
            };
        lemma_read_rest(next, v);
        lemma_overwrite_split(w.guest, t.addr + t.done, data, t.bytes());
        assert(data.subrange(0, t.bytes()) =~= bytes_at(w.disk, t.position(), t.bytes()));
        assert(data.subrange(t.bytes(), data.len() as int) =~= bytes_at(
            w.disk,
            next.position(),
            t.count - next.done,
        ));
        assert(v.dirty.union(span(t.addr + next.done, t.addr + t.count)) =~= w.dirty.union(
            span(t.addr + t.done, t.addr + t.count),
        ));
    }
}

/// A well-formed request that has not started stands at the first phase of its first chunk.
proof fn lemma_initial(t: TransferState)
    requires
        t.wf(),
        t == TransferState::initial(t.geometry, t.offset, t.addr, t.count, t.write),
    ensures
        t.phase == t.first_phase(),
        t.done == 0,
{
}

/// A write changes exactly the requested bytes of the image, to the guest's bytes. The blocks
/// around them are preserved, the image keeps its length, and guest memory is untouched.
pub proof fn law_write_changes_only_the_request(t: TransferState, w: World)
    requires
        t.wf(),
        t == TransferState::initial(t.geometry, t.offset, t.addr, t.count, true),
        w.fits(t),
    ensures
        run(t, w).disk == overwrite(
            w.disk,
            t.offset as int,
            bytes_at(w.guest, t.addr as int, t.count as int),
        ),
        run(t, w).disk.len() == w.disk.len(),
        run(t, w).guest == w.guest,
        run(t, w).dirty == w.dirty,
{
    lemma_initial(t);
    lemma_write_rest(t, w);
}

/// A read copies exactly the requested bytes of the image into guest memory, marks exactly those
/// guest addresses dirty, and leaves the image as it is.
pub proof fn law_read_copies_the_request(t: TransferState, w: World)
    requires
        t.wf(),
        t == TransferState::initial(t.geometry, t.offset, t.addr, t.count, false),
        w.fits(t),
    ensures
        run(t, w).guest == overwrite(
            w.guest,
            t.addr as int,
            bytes_at(w.disk, t.offset as int, t.count as int),
        ),
        run(t, w).dirty == w.dirty.union(span(t.addr as int, t.addr + t.count)),
        run(t, w).disk == w.disk,
{
    lemma_initial(t);
    lemma_read_rest(t, w);
}

/// What a write put into the image, a read of the same range gives back, whatever buffer and
/// guest memory it uses.
pub proof fn law_read_returns_what_was_written(
    geometry: DirectIo,
    offset: u64,
    count: u32,
    source: u64,
    target: u64,
    w: World,
    v: World,
)
    requires
        ({
            let writing = TransferState::initial(geometry, offset, source, count, true);
            let reading = TransferState::initial(geometry, offset, target, count, false);
            &&& writing.wf()
            &&& reading.wf()
            &&& w.fits(writing)
            &&& v.fits(reading)
            &&& v.disk == run(writing, w).disk
        }),
    ensures
        ({
            let reading = TransferState::initial(geometry, offset, target, count, false);
            bytes_at(run(reading, v).guest, target as int, count as int) == bytes_at(
                w.guest,
                source as int,
                count as int,
            )
        }),
{
    let writing = TransferState::initial(geometry, offset, source, count, true);
    let reading = TransferState::initial(geometry, offset, target, count, false);
    law_write_changes_only_the_request(writing, w);
    law_read_copies_the_request(reading, v);
    assert(bytes_at(run(reading, v).guest, target as int, count as int) =~= bytes_at(
        w.guest,
        source as int,
        count as int,
    ));
}

/// A transfer and its contents after `n` pieces of work, or after all of them if they are fewer.
pub open spec fn run_some(t: TransferState, w: World, n: nat) -> (TransferState, World)
    decreases n,
{
    if n == 0 || t.done >= t.count {
        (t, w)
    } else {
        run_some(t.next(), w.after(t.action()), (n - 1) as nat)
    }
}

/// The front of the buffer holds the blocks of the current chunk, with the bytes of the request
/// replaced by `data`.
spec fn holds_blocks(t: TransferState, w: World, data: Seq<u8>) -> bool {
    forall|k: int|
        0 <= k < t.block_len() ==> #[trigger] w.buffer[k] == if t.prefix() <= k < t.prefix()
            + data.len() {
            data[k - t.prefix()]
        } else {
            w.disk[t.block_start() + k]
        }
}

/// A write that started on the contents `before` has got as far as `t` says.
spec fn writing(before: World, t: TransferState, w: World) -> bool {
    let data = bytes_at(w.guest, t.addr + t.done, t.bytes());
    &&& t.wf()
    &&& t.write
    &&& w.fits(t)
    &&& w.guest == before.guest
    &&& w.dirty == before.dirty
    &&& w.disk == overwrite(
        before.disk,
        t.offset as int,
        bytes_at(before.guest, t.addr as int, t.done as int),
    )
    &&& t.done < t.count && t.phase is Exchange && t.needs_fill() ==> holds_blocks(
        t,
        w,
        Seq::empty(),
    )
    &&& t.done < t.count && t.phase is Flush ==> holds_blocks(t, w, data)
}

/// One piece of work moves a write on.
proof fn lemma_writing_next(before: World, t: TransferState, w: World)
    requires
        writing(before, t, w),
        before.fits(t),
        t.done < t.count,
    ensures
        writing(before, t.next(), w.after(t.action())),
{
    t.lemma_chunk();
    t.lemma_next_wf();
    let next = t.next();
    let v = w.after(t.action());
    let data = bytes_at(w.guest, t.addr + t.done, t.bytes());
    match t.phase {
        Phase::Fill => {
            assert(holds_blocks(next, v, Seq::empty()));
        },
        Phase::Exchange => {
            assert(holds_blocks(next, v, data)) by {
                if !t.needs_fill() {
                    assert(data.len() == t.block_len());
                }
            }
        },
        Phase::Flush => {
            let all = bytes_at(before.guest, t.addr as int, t.done + t.bytes());
            assert(v.disk =~= overwrite(w.disk, t.position(), data)) by {
                assert forall|i: int| 0 <= i < w.disk.len() implies v.disk[i] == overwrite(
                    w.disk,
                    t.position(),
                    data,
                )[i] by {
                    if t.block_start() <= i < t.block_start() + t.block_len() {
                        assert(v.disk[i] == w.buffer[i - t.block_start()]);
                    }
                }
            }
            lemma_overwrite_split(before.disk, t.offset as int, all, t.done as int);
            assert(all.subrange(0, t.done as int) =~= bytes_at(
                before.guest,
                t.addr as int,
                t.done as int,
            ));
            assert(all.subrange(t.done as int, all.len() as int) =~= data);
        },
    }
}

/// Some pieces of work move a write on.
proof fn lemma_writing_some(before: World, t: TransferState, w: World, n: nat)
    requires
        writing(before, t, w),
        before.fits(t),
    ensures
        writing(before, run_some(t, w, n).0, run_some(t, w, n).1),
        run_some(t, w, n).0.offset == t.offset,
        run_some(t, w, n).0.addr == t.addr,
    decreases n,
{
    if n > 0 && t.done < t.count {
        lemma_writing_next(before, t, w);
        lemma_writing_some(before, t.next(), w.after(t.action()), (n - 1) as nat);
    }
}

/// A write that ends early, after any number of pieces of work, has written a leading part of the
/// request and nothing else: the bytes around the request are preserved at every moment.
pub proof fn law_unfinished_write_keeps_neighbours(t: TransferState, w: World, n: nat)
    requires
        t.wf(),
        t == TransferState::initial(t.geometry, t.offset, t.addr, t.count, true),
        w.fits(t),
    ensures
        ({
            let (u, v) = run_some(t, w, n);
            &&& u.done <= t.count
            &&& v.disk == overwrite(
                w.disk,
                t.offset as int,
                bytes_at(w.guest, t.addr as int, u.done as int),
            )
            &&& v.guest == w.guest
            &&& v.dirty == w.dirty
        }),
{
    lemma_initial(t);
    assert(w.disk =~= overwrite(w.disk, t.offset as int, bytes_at(w.guest, t.addr as int, 0)));
    lemma_writing_some(w, t, w, n);
    lemma_same_count(t, w, n);
}

/// The pieces of work belong to one request.
proof fn lemma_same_count(t: TransferState, w: World, n: nat)
    requires
        t.wf(),
    ensures
        run_some(t, w, n).0.count == t.count,
    decreases n,
{
    if n > 0 && t.done < t.count {
        t.lemma_next_wf();
        lemma_same_count(t.next(), w.after(t.action()), (n - 1) as nat);
    }
}

/// Every disk access that a transfer asks for moves whole blocks, stays inside the image and fits
/// the bounce buffer; every copy stays inside the request and inside the buffer.
pub proof fn law_every_access_is_aligned_and_bounded(t: TransferState)
    requires
        t.wf(),
    ensures
        match t.action() {
            TransferAction::ReadDisk { offset, len } => {
                &&& offset as int % t.geometry.offset_alignment as int == 0
                &&& len as int % t.geometry.offset_alignment as int == 0
                &&& 0 < len <= crate::direct_io::MAX_BOUNCE_BYTES
                &&& offset + len <= t.geometry.size
            },
            TransferAction::WriteDisk { offset, len } => {
                &&& t.write
                &&& offset as int % t.geometry.offset_alignment as int == 0
                &&& len as int % t.geometry.offset_alignment as int == 0
                &&& 0 < len <= crate::direct_io::MAX_BOUNCE_BYTES
                &&& offset + len <= t.geometry.size
            },
            TransferAction::LoadGuest { guest, at, len } => {
                &&& t.write
                &&& 0 < len
                &&& at + len <= crate::direct_io::MAX_BOUNCE_BYTES
                &&& t.addr <= guest
                &&& guest + len <= t.addr + t.count
            },
            TransferAction::StoreGuest { guest, at, len } => {
                &&& !t.write
                &&& 0 < len
                &&& at + len <= crate::direct_io::MAX_BOUNCE_BYTES
                &&& t.addr <= guest
                &&& guest + len <= t.addr + t.count
            },
            TransferAction::Complete { count } => count == t.count,
        },
{
    if t.done < t.count {
        t.lemma_chunk();
    }
}

/// A request that covers whole blocks of the image is written without reading it first.
pub proof fn law_whole_blocks_are_not_read_back(t: TransferState)
    requires
        t.wf(),
        t.write,
        t.offset as int % t.geometry.offset_alignment as int == 0,
        t.count as int % t.geometry.offset_alignment as int == 0,
        t.done as int % t.geometry.offset_alignment as int == 0,
    ensures
        t.done < t.count ==> !t.needs_fill(),
        t.done < t.count ==> t.next_chunk().done as int % t.geometry.offset_alignment as int == 0,
{
    if t.done < t.count {
        let oa = t.geometry.offset_alignment as int;
        t.lemma_chunk();
        crate::align::lemma_64k_is_pow2();
        crate::align::lemma_pow2_divides(oa, 65536);
        vstd::arithmetic::div_mod::lemma_add_mod_noop(t.offset as int, t.done as int, oa);
        vstd::arithmetic::div_mod::lemma_sub_mod_noop(t.count as int, t.done as int, oa);
        vstd::arithmetic::div_mod::lemma_add_mod_noop(t.done as int, t.bytes(), oa);
    }
}

} // verus!
