//! The dirty log of a vhost-user backend: one bit for each page of guest memory, set by the
//! backend when it writes to the page.
use crate::guest_memory::{GuestMemoryMmap, GuestRegion};
use crate::vhost_user::VhostUserDirtyLogRegion;
use crate::virtio_fs::VirtioFsError;
use vstd::prelude::*;

verus! {

/// Size of the pages that a backend logs.
pub const VHOST_LOG_PAGE_SIZE: u64 = 4096;

/// A contiguous range of guest physical memory.
#[derive(Clone, Copy, Debug, PartialEq, Eq, Structural)]
pub struct MemoryRange {
    /// First guest physical address.
    pub gpa: u64,
    /// Length in bytes.
    pub length: u64,
}

impl MemoryRange {
    /// The address after the last one.
    pub open spec fn end(self) -> int {
        self.gpa + self.length
    }

    /// True of the addresses in the range.
    pub open spec fn holds(self, addr: int) -> bool {
        self.gpa <= addr < self.end()
    }
}

/// The bit of a page is set.
pub open spec fn dirty(bitmap: Seq<u8>, page: int) -> bool {
    bitmap[page / 8] & (1u8 << ((page % 8) as u8)) != 0
}

/// Some range holds the first byte of a page.
pub open spec fn covered(ranges: Seq<MemoryRange>, page: int) -> bool {
    exists|i: int|
        0 <= i < ranges.len() && (#[trigger] ranges[i]).holds(page * VHOST_LOG_PAGE_SIZE)
}

/// Ranges of whole pages, in address order, with a gap between each and the next.
pub open spec fn separate(ranges: Seq<MemoryRange>) -> bool {
    &&& forall|i: int|
        0 <= i < ranges.len() ==> {
            &&& (#[trigger] ranges[i]).gpa % VHOST_LOG_PAGE_SIZE == 0
            &&& ranges[i].length % VHOST_LOG_PAGE_SIZE == 0
            &&& ranges[i].length > 0
        }
    &&& forall|i: int, j: int|
        #![trigger ranges[i], ranges[j]]
        0 <= i < j < ranges.len() ==> ranges[i].end() < ranges[j].gpa
}

/// The ranges are the dirty ones among the first `pages` pages: they hold exactly the dirty pages,
/// and each is as long as it can be.
pub open spec fn describes(ranges: Seq<MemoryRange>, bitmap: Seq<u8>, pages: int) -> bool {
    &&& separate(ranges)
    &&& forall|i: int|
        0 <= i < ranges.len() ==> (#[trigger] ranges[i]).end() <= pages * VHOST_LOG_PAGE_SIZE
    &&& forall|page: int| 0 <= page < pages ==> (#[trigger] dirty(bitmap, page) <==> covered(
        ranges,
        page,
    ))
}

/// A clean page adds nothing to the ranges.
proof fn lemma_clean_page(ranges: Seq<MemoryRange>, bitmap: Seq<u8>, page: int)
    requires
        page >= 0,
        describes(ranges, bitmap, page),
        !dirty(bitmap, page),
    ensures
        describes(ranges, bitmap, page + 1),
{
    assert forall|p: int| 0 <= p < page + 1 implies (#[trigger] dirty(bitmap, p) <==> covered(
        ranges,
        p,
    )) by {
        if p == page {
            assert(forall|i: int|
                0 <= i < ranges.len() ==> !(#[trigger] ranges[i]).holds(
                    page * VHOST_LOG_PAGE_SIZE,
                ));
        }
    }
}

/// A dirty page after a gap starts a range of its own.
proof fn lemma_new_range(ranges: Seq<MemoryRange>, bitmap: Seq<u8>, page: int, range: MemoryRange)
    requires
        page >= 0,
        describes(ranges, bitmap, page),
        dirty(bitmap, page),
        ranges.len() > 0 ==> ranges.last().end() != page * VHOST_LOG_PAGE_SIZE,
        range.gpa == page * VHOST_LOG_PAGE_SIZE,
        range.length == VHOST_LOG_PAGE_SIZE,
    ensures
        describes(ranges.push(range), bitmap, page + 1),
{
    let longer = ranges.push(range);
    assert(range.gpa % VHOST_LOG_PAGE_SIZE == 0) by {
        assert(range.gpa as int == page * 4096);
    }
    assert forall|i: int, j: int|
        #![trigger longer[i], longer[j]]
        0 <= i < j < longer.len() implies longer[i].end() < longer[j].gpa by {
        assert(longer[i] == ranges[i]);
        if j == ranges.len() {
            if i < ranges.len() - 1 {
                assert(ranges[i].end() < ranges[ranges.len() - 1].gpa);
            }
        } else {
            assert(longer[j] == ranges[j]);
        }
    }
    assert forall|p: int| 0 <= p < page + 1 implies (#[trigger] dirty(bitmap, p) <==> covered(
        longer,
        p,
    )) by {
        if p == page {
            assert(longer[ranges.len() as int].holds(page * VHOST_LOG_PAGE_SIZE));
        } else {
            if covered(ranges, p) {
                let i = choose|i: int|
                    0 <= i < ranges.len() && (#[trigger] ranges[i]).holds(p * VHOST_LOG_PAGE_SIZE);
                assert(longer[i].holds(p * VHOST_LOG_PAGE_SIZE));
            }
            if covered(longer, p) {
                let i = choose|i: int|
                    0 <= i < longer.len() && (#[trigger] longer[i]).holds(p * VHOST_LOG_PAGE_SIZE);
                assert(i < ranges.len());
                assert(ranges[i].holds(p * VHOST_LOG_PAGE_SIZE));
            }
        }
    }
}

/// A dirty page right after the last range makes that range longer.
proof fn lemma_longer_range(
    ranges: Seq<MemoryRange>,
    bitmap: Seq<u8>,
    page: int,
    range: MemoryRange,
)
    requires
        page >= 0,
        describes(ranges, bitmap, page),
        dirty(bitmap, page),
        ranges.len() > 0,
        ranges.last().end() == page * VHOST_LOG_PAGE_SIZE,
        range.gpa == ranges.last().gpa,
        range.length == ranges.last().length + VHOST_LOG_PAGE_SIZE,
    ensures
        describes(ranges.update(ranges.len() - 1, range), bitmap, page + 1),
{
    let last = ranges.len() - 1;
    let longer = ranges.update(last, range);
    assert forall|p: int| 0 <= p < page + 1 implies (#[trigger] dirty(bitmap, p) <==> covered(
        longer,
        p,
    )) by {
        if p == page {
            assert(longer[last].holds(page * VHOST_LOG_PAGE_SIZE));
        } else {
            if covered(ranges, p) {
                let i = choose|i: int|
                    0 <= i < ranges.len() && (#[trigger] ranges[i]).holds(p * VHOST_LOG_PAGE_SIZE);
                assert(longer[i].holds(p * VHOST_LOG_PAGE_SIZE));
            }
            if covered(longer, p) {
                let i = choose|i: int|
                    0 <= i < longer.len() && (#[trigger] longer[i]).holds(p * VHOST_LOG_PAGE_SIZE);
                assert(ranges[i].holds(p * VHOST_LOG_PAGE_SIZE));
            }
        }
    }
}

/// Of two lists that agree on their first `k` ranges and cover the same pages, the second has a
/// range at `k` that starts no later, wherever the first has one there.
proof fn lemma_starts_no_later(a: Seq<MemoryRange>, b: Seq<MemoryRange>, k: int)
    requires
        separate(a),
        separate(b),
        0 <= k < a.len(),
        k <= b.len(),
        forall|i: int| 0 <= i < k ==> a[i] == b[i],
        forall|page: int| page >= 0 ==> (#[trigger] covered(a, page) ==> covered(b, page)),
    ensures
        k < b.len(),
        b[k].gpa <= a[k].gpa,
{
    let page = a[k].gpa as int / 4096;
    assert(a[k].gpa % VHOST_LOG_PAGE_SIZE == 0);
    assert(page * VHOST_LOG_PAGE_SIZE == a[k].gpa);
    assert(a[k].holds(page * VHOST_LOG_PAGE_SIZE));
    assert(covered(a, page));
    let j = choose|j: int|
        0 <= j < b.len() && (#[trigger] b[j]).holds(page * VHOST_LOG_PAGE_SIZE);
    if j < k {
        assert(a[j] == b[j]);
        assert(a[j].end() < a[k].gpa);
    }
    if j > k {
        assert(b[k].end() < b[j].gpa);
    }
}

/// Of two lists that cover the same pages and have ranges at `k` that start alike, the second
/// range ends no later.
proof fn lemma_ends_no_later(a: Seq<MemoryRange>, b: Seq<MemoryRange>, k: int)
    requires
        separate(a),
        separate(b),
        0 <= k < a.len(),
        k < b.len(),
        a[k].gpa == b[k].gpa,
        forall|page: int| page >= 0 ==> (#[trigger] covered(b, page) ==> covered(a, page)),
    ensures
        b[k].end() <= a[k].end(),
{
    if a[k].end() < b[k].end() {
        let page = a[k].end() / 4096;
        assert(a[k].gpa % VHOST_LOG_PAGE_SIZE == 0);
        assert(a[k].length % VHOST_LOG_PAGE_SIZE == 0);
        assert(page * VHOST_LOG_PAGE_SIZE == a[k].end());
        assert(b[k].holds(page * VHOST_LOG_PAGE_SIZE));
        assert(covered(b, page));
        let j = choose|j: int|
            0 <= j < a.len() && (#[trigger] a[j]).holds(page * VHOST_LOG_PAGE_SIZE);
        if j < k {
            assert(a[j].end() < a[k].gpa);
        }
        if j > k {
            assert(a[k].end() < a[j].gpa);
        }
    }
}

/// Lists that cover the same pages agree on their first `k` ranges.
proof fn lemma_same_prefix(a: Seq<MemoryRange>, b: Seq<MemoryRange>, k: nat)
    requires
        separate(a),
        separate(b),
        k <= a.len(),
        forall|page: int| page >= 0 ==> (#[trigger] covered(a, page) ==> covered(b, page)),
        forall|page: int| page >= 0 ==> (#[trigger] covered(b, page) ==> covered(a, page)),
    ensures
        k <= b.len(),
        forall|i: int| 0 <= i < k ==> a[i] == b[i],
    decreases k,
{
    if k > 0 {
        let i = k - 1;
        lemma_same_prefix(a, b, i as nat);
        lemma_starts_no_later(a, b, i);
        lemma_starts_no_later(b, a, i);
        lemma_ends_no_later(a, b, i);
        lemma_ends_no_later(b, a, i);
    }
}

/// A log has one description: two lists of ranges that both describe it are the same list.
pub proof fn law_dirty_ranges_are_unique(
    a: Seq<MemoryRange>,
    b: Seq<MemoryRange>,
    bitmap: Seq<u8>,
    pages: int,
)
    requires
        describes(a, bitmap, pages),
        describes(b, bitmap, pages),
    ensures
        a == b,
{
    assert forall|page: int| page >= 0 implies (#[trigger] covered(a, page) ==> covered(
        b,
        page,
    )) by {
        if covered(a, page) {
            assert(page < pages);
            assert(dirty(bitmap, page));
        }
    }
    assert forall|page: int| page >= 0 implies (#[trigger] covered(b, page) ==> covered(
        a,
        page,
    )) by {
        if covered(b, page) {
            assert(page < pages);
            assert(dirty(bitmap, page));
        }
    }
    lemma_same_prefix(a, b, a.len());
    lemma_same_prefix(b, a, b.len());
    assert(a =~= b);
}

/// A log that was cleared has no dirty ranges.
pub proof fn law_cleared_log_is_empty(ranges: Seq<MemoryRange>, bitmap: Seq<u8>, pages: int)
    requires
        0 <= pages <= 8 * bitmap.len(),
        forall|i: int| 0 <= i < bitmap.len() ==> bitmap[i] == 0,
        describes(ranges, bitmap, pages),
    ensures
        ranges.len() == 0,
{
    if ranges.len() > 0 {
        let page = ranges[0].gpa as int / 4096;
        assert(ranges[0].gpa % VHOST_LOG_PAGE_SIZE == 0);
        assert(page * VHOST_LOG_PAGE_SIZE == ranges[0].gpa);
        assert(ranges[0].holds(page * VHOST_LOG_PAGE_SIZE));
        assert(covered(ranges, page));
        assert(dirty(bitmap, page));
        let mask: u8 = 1u8 << ((page % 8) as u8);
        assert(0u8 & mask == 0) by (bit_vector);
    }
}

/// Every byte of a range that describes a log lies in a dirty page, and no byte of a dirty page is
/// left out.
pub proof fn law_ranges_hold_the_dirty_bytes(
    ranges: Seq<MemoryRange>,
    bitmap: Seq<u8>,
    pages: int,
    addr: int,
)
    requires
        describes(ranges, bitmap, pages),
        0 <= addr < pages * VHOST_LOG_PAGE_SIZE,
    ensures
        dirty(bitmap, addr / VHOST_LOG_PAGE_SIZE as int) <==> exists|i: int|
            0 <= i < ranges.len() && (#[trigger] ranges[i]).holds(addr),
{
    let page = addr / 4096;
    assert(0 <= page < pages);
    assert(dirty(bitmap, page) <==> covered(ranges, page));
    if covered(ranges, page) {
        let i = choose|i: int|
            0 <= i < ranges.len() && (#[trigger] ranges[i]).holds(page * VHOST_LOG_PAGE_SIZE);
        assert(ranges[i].gpa % VHOST_LOG_PAGE_SIZE == 0);
        assert(ranges[i].length % VHOST_LOG_PAGE_SIZE == 0);
        assert(ranges[i].holds(addr));
    }
    if exists|i: int| 0 <= i < ranges.len() && (#[trigger] ranges[i]).holds(addr) {
        let i = choose|i: int| 0 <= i < ranges.len() && (#[trigger] ranges[i]).holds(addr);
        assert(ranges[i].gpa % VHOST_LOG_PAGE_SIZE == 0);
        assert(ranges[i].holds(page * VHOST_LOG_PAGE_SIZE));
    }
}

/// The end of the highest region, or 0 where there is none.
pub open spec fn memory_end(regions: Seq<GuestRegion>) -> int
    decreases regions.len(),
{
    if regions.len() == 0 {
        0
    } else {
        let before = memory_end(regions.drop_last());
        let end = regions.last().start_addr + regions.last().len;
        if before > end {
            before
        } else {
            end
        }
    }
}

/// The pages below the end of guest memory.
pub open spec fn log_pages(regions: Seq<GuestRegion>) -> int {
    crate::align::div_ceil(memory_end(regions), VHOST_LOG_PAGE_SIZE as int)
}

/// The size of the mapping for a log of `pages` pages: a bit for each, at least one byte, and
/// whole pages of the host.
pub open spec fn log_len(pages: int, host_page_size: int) -> int {
    let bytes = crate::align::div_ceil(pages, 8);
    crate::align::align_up(
        if bytes < 1 {
            1
        } else {
            bytes
        },
        host_page_size,
    )
}

/// All guest addresses lie below the end of guest memory.
pub proof fn law_memory_end_bounds_all_addresses(regions: Seq<GuestRegion>, addr: int, i: int)
    requires
        0 <= i < regions.len(),
        regions[i].holds(addr),
    ensures
        addr < memory_end(regions),
    decreases regions.len(),
{
    if i < regions.len() - 1 {
        assert(regions.drop_last()[i] == regions[i]);
        law_memory_end_bounds_all_addresses(regions.drop_last(), addr, i);
    }
}

/// Regions are in address order, so guest memory ends where its last region does.
pub proof fn law_memory_ends_with_its_last_region(mem: GuestMemoryMmap)
    requires
        mem.wf(),
        mem@.len() > 0,
    ensures
        memory_end(mem@) == mem@.last().start_addr + mem@.last().len,
{
    lemma_memory_end(mem@, mem@.last().start_addr as int, mem@.len() - 1);
}

/// No region of a list in address order ends after the start of the next.
proof fn lemma_memory_end(regions: Seq<GuestRegion>, start: int, n: int)
    requires
        crate::guest_memory::sorted_regions(regions),
        0 <= n <= regions.len(),
        0 <= start,
        forall|i: int|
            0 <= i < n ==> (#[trigger] regions[i]).start_addr + regions[i].len <= start,
    ensures
        memory_end(regions.take(n)) <= start,
        n < regions.len() ==> memory_end(regions.take(n + 1)) == if memory_end(regions.take(n))
            > regions[n].start_addr + regions[n].len {
            memory_end(regions.take(n))
        } else {
            regions[n].start_addr + regions[n].len
        },
        n == regions.len() - 1 ==> regions.take(n + 1) == regions,
    decreases n,
{
    if n > 0 {
        lemma_memory_end(regions, start, n - 1);
        assert(regions[n - 1].start_addr + regions[n - 1].len <= start);
    }
    if n < regions.len() {
        assert(regions.take(n + 1).drop_last() =~= regions.take(n));
    }
    if n == regions.len() - 1 {
        assert(regions.take(n + 1) =~= regions);
    }
}

/// The size that a dirty log needs.
#[derive(Clone, Copy, Debug, PartialEq, Eq, Structural)]
pub struct DirtyLogLayout {
    /// Length of the mapping in bytes.
    pub mmap_len: usize,
    /// Number of pages that are logged.
    pub guest_pages: usize,
}

impl DirtyLogLayout {
    /// There is a bit for each page, and all pages lie in the 64-bit address space.
    pub open spec fn wf(self) -> bool {
        &&& self.guest_pages <= 8 * self.mmap_len
        &&& self.guest_pages * VHOST_LOG_PAGE_SIZE <= u64::MAX + 1
        &&& self.mmap_len > 0
    }

    /// Computes the size of a log for the given memory.
    pub fn new(mem: &GuestMemoryMmap, host_page_size: usize) -> (layout: Result<
        Self,
        VirtioFsError,
    >)
        requires
            mem.wf(),
            host_page_size > 0,
        ensures
            match layout {
                Ok(l) => {
                    &&& l.wf()
                    &&& l.guest_pages == log_pages(mem@)
                    &&& l.mmap_len == log_len(log_pages(mem@), host_page_size as int)
                },
                Err(e) => e is DirtyLogSize && log_pages(mem@) > usize::MAX,
            },
    {
        let regions = mem.regions();
        let mut max_end: u64 = 0;
        let mut i: usize = 0;
        while i < regions.len()
            invariant
                i <= regions@.len(),
                regions@ == mem@,
                mem.wf(),
                max_end == memory_end(regions@.take(i as int)),
            decreases regions@.len() - i,
        {
            let region = regions[i];
            proof {
                assert(mem@[i as int].wf());
                assert(regions@.take(i + 1).drop_last() =~= regions@.take(i as int));
            }
            let end: u64 = region.start_addr + region.len;
            if end > max_end {
                max_end = end;
            }
            i += 1;
        }
        proof {
            assert(regions@.take(i as int) =~= regions@);
            crate::align::lemma_div_ceil(max_end as int, 4096);
            crate::align::lemma_align_up_least(max_end as int, u64::MAX + 1, 4096);
            crate::align::lemma_div_ceil(log_pages(mem@), 8);
        }
        let pages: u64 = max_end / VHOST_LOG_PAGE_SIZE + if max_end % VHOST_LOG_PAGE_SIZE == 0 {
            0
        } else {
            1
        };
        if pages > usize::MAX as u64 {
            return Err(VirtioFsError::DirtyLogSize);
        }
        let guest_pages: usize = pages as usize;
        let bitmap_bytes: usize = guest_pages / 8 + if guest_pages % 8 == 0 {
            0
        } else {
            1
        };
        let needed: usize = if bitmap_bytes < 1 {
            1
        } else {
            bitmap_bytes
        };
        let excess: usize = needed % host_page_size;
        proof {
            crate::align::lemma_align_up(needed as int, host_page_size as int);
            vstd::arithmetic::div_mod::lemma_mod_decreases(needed as nat, host_page_size as nat);
            if needed < host_page_size {
                vstd::arithmetic::div_mod::lemma_small_mod(
                    needed as nat,
                    host_page_size as nat,
                );
            }
        }
        let mmap_len: usize = if excess == 0 {
            needed
        } else {
            needed - excess + host_page_size
        };
        Ok(DirtyLogLayout { mmap_len, guest_pages })
    }
}

/// The range that ends at a dirty page can grow by it, unless no page at all is clean.
proof fn lemma_longer_fits(log: DirtyLog, ranges: Seq<MemoryRange>, bitmap: Seq<u8>, page: int)
    requires
        log.wf(),
        log.ranges_fit(bitmap),
        0 <= page < log.layout.guest_pages,
        describes(ranges, bitmap, page),
        dirty(bitmap, page),
        ranges.len() > 0,
        ranges.last().end() == page * VHOST_LOG_PAGE_SIZE,
    ensures
        ranges.last().length + VHOST_LOG_PAGE_SIZE <= u64::MAX,
{
    let last = ranges.len() - 1;
    assert(ranges[last].gpa % VHOST_LOG_PAGE_SIZE == 0);
    if ranges[last].length + VHOST_LOG_PAGE_SIZE > u64::MAX {
        assert(ranges[last].gpa == 0);
        assert(page + 1 == log.layout.guest_pages);
        assert forall|p: int| 0 <= p < log.layout.guest_pages implies #[trigger] dirty(
            bitmap,
            p,
        ) by {
            if p < page {
                assert(ranges[last].holds(p * VHOST_LOG_PAGE_SIZE));
                assert(covered(ranges, p));
            }
        }
    }
}

/// A dirty log that lies in shared memory. The memory itself is mapped by the program around the
/// library, which lends its bytes where they are read or cleared.
#[derive(Clone, Copy, Debug, PartialEq, Eq, Structural)]
pub struct DirtyLog {
    /// Size of the log.
    pub layout: DirtyLogLayout,
    /// Descriptor of the shared memory.
    pub mmap_handle: i32,
}

impl DirtyLog {
    /// The size is that of some guest memory.
    pub open spec fn wf(self) -> bool {
        self.layout.wf()
    }

    /// A log of the given size in the shared memory behind a descriptor.
    pub fn new(layout: DirtyLogLayout, mmap_handle: i32) -> (log: Self)
        ensures
            log.layout == layout,
            log.mmap_handle == mmap_handle,
    {
        DirtyLog { layout, mmap_handle }
    }

    /// What a backend is told of the log.
    pub open spec fn shared_region(self) -> VhostUserDirtyLogRegion {
        VhostUserDirtyLogRegion {
            mmap_size: self.layout.mmap_len as u64,
            mmap_offset: 0,
            mmap_handle: self.mmap_handle,
        }
    }

    /// The shared memory, as a backend is told about it.
    pub fn region(&self) -> (region: VhostUserDirtyLogRegion)
        ensures
            region == self.shared_region(),
            region.mmap_size == self.layout.mmap_len,
    {
        VhostUserDirtyLogRegion {
            mmap_size: self.layout.mmap_len as u64,
            mmap_offset: 0,
            mmap_handle: self.mmap_handle,
        }
    }

    /// The length of every range is a 64-bit number. Only a log of the whole address space with
    /// all its pages dirty makes up a longer one.
    pub open spec fn ranges_fit(self, bitmap: Seq<u8>) -> bool {
        self.layout.guest_pages * VHOST_LOG_PAGE_SIZE <= u64::MAX || exists|page: int|
            0 <= page < self.layout.guest_pages && !(#[trigger] dirty(bitmap, page))
    }

    /// The dirty ranges of guest memory, given the bytes of the log.
    pub fn ranges(&self, bitmap: &[u8]) -> (ranges: Vec<MemoryRange>)
        requires
            self.wf(),
            bitmap@.len() == self.layout.mmap_len,
            self.ranges_fit(bitmap@),
        ensures
            describes(ranges@, bitmap@, self.layout.guest_pages as int),
    {
        let mut ranges: Vec<MemoryRange> = Vec::new();
        let mut page: usize = 0;
        while page < self.layout.guest_pages
            invariant
                self.wf(),
                bitmap@.len() == self.layout.mmap_len,
                self.ranges_fit(bitmap@),
                page <= self.layout.guest_pages,
                describes(ranges@, bitmap@, page as int),
            decreases self.layout.guest_pages - page,
        {
            let byte: u8 = bitmap[page / 8];
            if byte & (1u8 << ((page % 8) as u8)) == 0 {
                proof {
                    lemma_clean_page(ranges@, bitmap@, page as int);
                }
                page += 1;
                continue ;
            }
            let gpa: u64 = page as u64 * VHOST_LOG_PAGE_SIZE;
            let count: usize = ranges.len();
            assert(count > 0 ==> ranges@[count - 1].end() <= page * VHOST_LOG_PAGE_SIZE);
            if count > 0 && ranges[count - 1].gpa + ranges[count - 1].length == gpa {
                let last = ranges[count - 1];
                proof {
                    lemma_longer_fits(*self, ranges@, bitmap@, page as int);
                }
                let longer = MemoryRange {
                    gpa: last.gpa,
                    length: last.length + VHOST_LOG_PAGE_SIZE,
                };
                proof {
                    lemma_longer_range(ranges@, bitmap@, page as int, longer);
                }
                ranges.set(count - 1, longer);
            } else {
                let range = MemoryRange { gpa, length: VHOST_LOG_PAGE_SIZE };
                proof {
                    lemma_new_range(ranges@, bitmap@, page as int, range);
                }
                ranges.push(range);
            }
            page += 1;
        }
        ranges
    }

    /// Whether every range has a 64-bit length, as `ranges` needs.
    pub fn fits(&self, bitmap: &[u8]) -> (fits: bool)
        requires
            self.wf(),
            bitmap@.len() == self.layout.mmap_len,
        ensures
            fits == self.ranges_fit(bitmap@),
    {
        if self.layout.guest_pages as u64 <= u64::MAX / VHOST_LOG_PAGE_SIZE {
            return true;
        }
        let mut page: usize = 0;
        while page < self.layout.guest_pages
            invariant
                self.wf(),
                bitmap@.len() == self.layout.mmap_len,
                forall|p: int| 0 <= p < page ==> #[trigger] dirty(bitmap@, p),
            decreases self.layout.guest_pages - page,
        {
            let byte: u8 = bitmap[page / 8];
            if byte & (1u8 << ((page % 8) as u8)) == 0 {
                assert(!dirty(bitmap@, page as int));
                return true;
            }
            page += 1;
        }
        false
    }

    /// Marks all pages clean, given the bytes of the log.
    pub fn clear(&self, bitmap: &mut [u8])
        ensures
            final(bitmap)@ == Seq::new(old(bitmap)@.len(), |i: int| 0u8),
    {
        let mut i: usize = 0;
        while i < bitmap.len()
            invariant
                i <= bitmap@.len(),
                bitmap@.len() == old(bitmap)@.len(),
                forall|k: int| 0 <= k < i ==> bitmap@[k] == 0u8,
            decreases bitmap@.len() - i,
        {
            bitmap[i] = 0;
            i += 1;
        }
    }
}

/// Each page of guest memory has a bit of its own, bit `page % 8` of byte `page / 8`: a guest byte
/// lies in one of the ranges exactly where the bit of its page is set.
pub proof fn law_ranges_are_the_pages_with_their_bit_set(
    log: DirtyLog,
    bitmap: &[u8],
    ranges: Vec<MemoryRange>,
    addr: int,
)
    requires
        log.wf(),
        bitmap@.len() == log.layout.mmap_len,
        call_ensures(DirtyLog::ranges, (&log, bitmap), ranges),
        0 <= addr < log.layout.guest_pages * 4096,
    ensures
        (exists|i: int|
            0 <= i < ranges@.len() && (#[trigger] ranges@[i]).gpa <= addr < ranges@[i].gpa
                + ranges@[i].length) <==> bitmap@[addr / 4096 / 8] & (1u8 << ((addr / 4096
            % 8) as u8)) != 0,
{
    law_ranges_hold_the_dirty_bytes(ranges@, bitmap@, log.layout.guest_pages as int, addr);
    if exists|i: int|
        0 <= i < ranges@.len() && (#[trigger] ranges@[i]).gpa <= addr < ranges@[i].gpa
            + ranges@[i].length {
        let i = choose|i: int|
            0 <= i < ranges@.len() && (#[trigger] ranges@[i]).gpa <= addr < ranges@[i].gpa
                + ranges@[i].length;
        assert(ranges@[i].holds(addr));
    }
    if exists|i: int| 0 <= i < ranges@.len() && (#[trigger] ranges@[i]).holds(addr) {
        let i = choose|i: int| 0 <= i < ranges@.len() && (#[trigger] ranges@[i]).holds(addr);
        assert(ranges@[i].gpa <= addr < ranges@[i].gpa + ranges@[i].length);
    }
}

/// Whether a guest byte is in the ranges is decided by one byte of the log alone, whatever the
/// others hold.
pub proof fn law_pages_do_not_share_bytes_with_others(
    log: DirtyLog,
    bitmap: &[u8],
    other: &[u8],
    ranges: Vec<MemoryRange>,
    other_ranges: Vec<MemoryRange>,
    addr: int,
)
    requires
        log.wf(),
        bitmap@.len() == log.layout.mmap_len,
        other@.len() == log.layout.mmap_len,
        call_ensures(DirtyLog::ranges, (&log, bitmap), ranges),
        call_ensures(DirtyLog::ranges, (&log, other), other_ranges),
        0 <= addr < log.layout.guest_pages * 4096,
        bitmap@[addr / 4096 / 8] == other@[addr / 4096 / 8],
    ensures
        (exists|i: int| 0 <= i < ranges@.len() && (#[trigger] ranges@[i]).holds(addr)) <==> (
        exists|i: int|
            0 <= i < other_ranges@.len() && (#[trigger] other_ranges@[i]).holds(addr)),
{
    law_ranges_hold_the_dirty_bytes(ranges@, bitmap@, log.layout.guest_pages as int, addr);
    law_ranges_hold_the_dirty_bytes(other_ranges@, other@, log.layout.guest_pages as int, addr);
}

/// A log in which one bit is set gives one range: the page of that bit.
pub proof fn law_one_bit_is_one_page(
    log: DirtyLog,
    bitmap: &[u8],
    ranges: Vec<MemoryRange>,
    page: int,
)
    requires
        log.wf(),
        bitmap@.len() == log.layout.mmap_len,
        call_ensures(DirtyLog::ranges, (&log, bitmap), ranges),
        0 <= page < log.layout.guest_pages,
        bitmap@[page / 8] == 1u8 << ((page % 8) as u8),
        forall|i: int| 0 <= i < bitmap@.len() && i != page / 8 ==> #[trigger] bitmap@[i] == 0,
    ensures
        ranges@.len() == 1,
        ranges@[0].gpa == page * 4096,
        ranges@[0].length == 4096,
{
    let pages = log.layout.guest_pages as int;
    let range = MemoryRange { gpa: (page * 4096) as u64, length: 4096 };
    let one = seq![range];
    assert(range.gpa % VHOST_LOG_PAGE_SIZE == 0) by {
        assert(range.gpa as int == page * 4096);
    }
    assert forall|p: int| 0 <= p < pages implies (#[trigger] dirty(bitmap@, p) <==> covered(
        one,
        p,
    )) by {
        let bit = (page % 8) as u8;
        let other = (p % 8) as u8;
        assert(bit < 8 && other < 8 ==> ((1u8 << bit) & (1u8 << other) != 0 <==> bit == other))
            by (bit_vector);
        assert(0u8 & (1u8 << other) == 0) by (bit_vector);
        if p / 8 != page / 8 {
            assert(bitmap@[p / 8] == 0);
        }
        if p == page {
            assert(one[0].holds(p * VHOST_LOG_PAGE_SIZE));
        } else {
            assert(!one[0].holds(p * VHOST_LOG_PAGE_SIZE));
        }
    }
    assert(describes(one, bitmap@, pages));
    law_dirty_ranges_are_unique(ranges@, one, bitmap@, pages);
}

/// The ranges consist of whole pages, come in address order, and leave a gap between each and the
/// next: neighbouring dirty pages are in the same range.
pub proof fn law_ranges_are_whole_and_apart(
    log: DirtyLog,
    bitmap: &[u8],
    ranges: Vec<MemoryRange>,
)
    requires
        log.wf(),
        bitmap@.len() == log.layout.mmap_len,
        call_ensures(DirtyLog::ranges, (&log, bitmap), ranges),
    ensures
        forall|i: int|
            0 <= i < ranges@.len() ==> {
                &&& (#[trigger] ranges@[i]).gpa as int % 4096 == 0
                &&& ranges@[i].length as int % 4096 == 0
                &&& 0 < ranges@[i].length
                &&& ranges@[i].gpa + ranges@[i].length <= log.layout.guest_pages * 4096
            },
        forall|i: int, j: int|
            #![trigger ranges@[i], ranges@[j]]
            0 <= i < j < ranges@.len() ==> ranges@[i].gpa + ranges@[i].length < ranges@[j].gpa,
{
}

/// Clearing a log leaves nothing dirty in it, whatever it held.
pub proof fn law_clearing_leaves_nothing(
    log: DirtyLog,
    bitmap: &mut [u8],
    cleared: &[u8],
    ranges: Vec<MemoryRange>,
)
    requires
        log.wf(),
        old(bitmap)@.len() == log.layout.mmap_len,
        call_ensures(DirtyLog::clear, (&log, bitmap), ()),
        cleared@ == final(bitmap)@,
        call_ensures(DirtyLog::ranges, (&log, cleared), ranges),
    ensures
        cleared@.len() == old(bitmap)@.len(),
        ranges@.len() == 0,
{
    law_cleared_log_is_empty(ranges@, cleared@, log.layout.guest_pages as int);
}

/// A log has a bit for every page up to the one that holds the last byte of guest memory, and none
/// beyond it. Its mapping holds all bits, is never empty, and is the shortest that consists of
/// whole pages of the host.
pub proof fn law_log_fits_guest_memory(
    mem: GuestMemoryMmap,
    host_page_size: usize,
    layout: Result<DirtyLogLayout, VirtioFsError>,
)
    requires
        mem.wf(),
        host_page_size > 0,
        call_ensures(DirtyLogLayout::new, (&mem, host_page_size), layout),
    ensures
        layout matches Ok(l) ==> {
            &&& mem@.len() == 0 ==> l.guest_pages == 0
            &&& mem@.len() > 0 ==> (l.guest_pages - 1) * 4096 < mem@.last().start_addr
                + mem@.last().len <= l.guest_pages * 4096
            &&& forall|i: int|
                0 <= i < mem@.len() ==> (#[trigger] mem@[i]).start_addr + mem@[i].len
                    <= l.guest_pages * 4096
            &&& l.mmap_len as int % host_page_size as int == 0
            &&& 0 < l.mmap_len
            &&& l.guest_pages <= 8 * l.mmap_len
            &&& l.mmap_len > host_page_size ==> 8 * (l.mmap_len - host_page_size) < l.guest_pages
        },
        layout matches Err(e) ==> e is DirtyLogSize && mem@.len() > 0 && mem@.last().start_addr
            + mem@.last().len > usize::MAX * 4096,
{
    let end = memory_end(mem@);
    let pages = log_pages(mem@);
    if mem@.len() > 0 {
        law_memory_ends_with_its_last_region(mem);
        assert forall|i: int| 0 <= i < mem@.len() implies (#[trigger] mem@[i]).start_addr
            + mem@[i].len <= end by {
            assert(mem@[i].wf());
            law_memory_end_bounds_all_addresses(
                mem@,
                mem@[i].start_addr + mem@[i].len - 1,
                i,
            );
        }
    }
    crate::align::lemma_div_ceil(end, 4096);
    crate::align::lemma_align_up(end, 4096);
    crate::align::lemma_div_ceil(pages, 8);
    crate::align::lemma_align_up(pages, 8);
    let bytes = crate::align::div_ceil(pages, 8);
    let needed = if bytes < 1 {
        1
    } else {
        bytes
    };
    crate::align::lemma_align_up(needed, host_page_size as int);
}

/// A backend is told to log into the whole of the shared memory, from its first byte on.
pub proof fn law_all_of_the_log_is_shared(
    layout: DirtyLogLayout,
    mmap_handle: i32,
    log: DirtyLog,
    region: VhostUserDirtyLogRegion,
)
    requires
        call_ensures(DirtyLog::new, (layout, mmap_handle), log),
        call_ensures(DirtyLog::region, (&log,), region),
    ensures
        region.mmap_size == layout.mmap_len,
        region.mmap_offset == 0,
        region.mmap_handle == mmap_handle,
        log.layout == layout,
{
}

/// Ranges can always be made up, but for a log of the whole 64-bit address space in which every bit
/// is set.
pub proof fn law_only_a_full_log_does_not_fit(log: DirtyLog, bitmap: &[u8], fits: bool)
    requires
        log.wf(),
        bitmap@.len() == log.layout.mmap_len,
        call_ensures(DirtyLog::fits, (&log, bitmap), fits),
    ensures
        !fits <==> log.layout.guest_pages * 4096 == 0x1_0000_0000_0000_0000 && forall|page: int|
            0 <= page < log.layout.guest_pages ==> #[trigger] bitmap@[page / 8] & (1u8 << ((page
                % 8) as u8)) != 0,
{
    if !fits {
        assert forall|page: int| 0 <= page < log.layout.guest_pages implies #[trigger] bitmap@[page
            / 8] & (1u8 << ((page % 8) as u8)) != 0 by {
            assert(dirty(bitmap@, page));
        }
    }
    if fits && log.layout.guest_pages * 4096 > u64::MAX {
        let page = choose|page: int|
            0 <= page < log.layout.guest_pages && !(#[trigger] dirty(bitmap@, page));
        assert(bitmap@[page / 8] & (1u8 << ((page % 8) as u8)) == 0);
    }
}

} // verus!
