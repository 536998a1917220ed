//! The layout of guest memory: which guest addresses exist and where the host maps them.
use vstd::prelude::*;

verus! {

/// The file that backs a region of guest memory.
#[derive(Clone, Copy, Debug, PartialEq, Eq, Structural)]
pub struct FileOffset {
    /// Raw descriptor of the file.
    pub fd: i32,
    /// Offset of the region's first byte in the file.
    pub start: u64,
}

/// One contiguous region of guest memory.
#[derive(Clone, Copy, Debug, PartialEq, Eq, Structural)]
pub struct GuestRegion {
    /// First guest physical address of the region.
    pub start_addr: u64,
    /// Length of the region in bytes.
    pub len: u64,
    /// Address at which this process maps the region.
    pub host_addr: u64,
    /// The file behind the mapping, if there is one.
    pub file_offset: Option<FileOffset>,
}

impl GuestRegion {
    /// True of the guest addresses that lie in the region.
    pub open spec fn holds(self, addr: int) -> bool {
        self.start_addr <= addr < self.start_addr + self.len
    }

    /// A region is not empty and its end is a 64-bit address.
    pub open spec fn wf(self) -> bool {
        0 < self.len && self.start_addr + self.len <= u64::MAX
    }
}

/// Errors of an access to guest memory.
#[derive(Clone, Copy, Debug, PartialEq, Eq, Structural)]
pub enum GuestMemoryError {
    /// No region holds this guest address.
    InvalidGuestAddress(u64),
    /// The access runs past the end of the region that holds its first byte.
    InvalidBackendAddress,
}

/// Regions in address order that do not overlap.
pub open spec fn sorted_regions(regions: Seq<GuestRegion>) -> bool {
    &&& forall|i: int| 0 <= i < regions.len() ==> (#[trigger] regions[i]).wf()
    &&& forall|i: int, j: int|
        #![trigger regions[i], regions[j]]
        0 <= i < j < regions.len() ==> regions[i].start_addr + regions[i].len
            <= regions[j].start_addr
}

/// The memory of a guest: a sorted list of regions that do not overlap.
#[derive(Clone, Debug)]
pub struct GuestMemoryMmap {
    regions: Vec<GuestRegion>,
}

impl View for GuestMemoryMmap {
    type V = Seq<GuestRegion>;

    closed spec fn view(&self) -> Seq<GuestRegion> {
        self.regions@
    }
}

impl GuestMemoryMmap {
    /// The regions are in order and apart.
    pub open spec fn wf(&self) -> bool {
        sorted_regions(self@)
    }

    /// Takes the regions of a guest, in address order. `None` where one is empty, runs past the
    /// last 64-bit address, or starts before its predecessor ends.
    pub fn from_regions(regions: Vec<GuestRegion>) -> (mem: Option<Self>)
        ensures
            mem is Some <==> sorted_regions(regions@),
            mem matches Some(m) ==> m.wf() && m@ == regions@,
    {
        let mut i: usize = 0;
        let mut end: u64 = 0;
        while i < regions.len()
            invariant
                i <= regions.len(),
                sorted_regions(regions@.take(i as int)),
                i == 0 ==> end == 0,
                i > 0 ==> end == regions@[i - 1].start_addr + regions@[i - 1].len,
            decreases regions.len() - i,
        {
            let region = regions[i];
            proof {
                assert(regions@.take(i + 1).drop_last() =~= regions@.take(i as int));
                assert(regions@.take(i + 1)[i as int] == region);
                if i > 0 {
                    assert(regions@.take(i as int)[i - 1] == regions@[i - 1]);
                }
            }
            if region.len == 0 || region.start_addr > u64::MAX - region.len || region.start_addr
                < end {
                proof {
                    if i > 0 {
                        let previous = regions@[i - 1];
                        assert(sorted_regions(regions@) ==> regions@[i as int].wf());
                        assert(sorted_regions(regions@) ==> previous.start_addr + previous.len
                            <= regions@[i as int].start_addr);
                    }
                }
                return None;
            }
            proof {
                let longer = regions@.take(i + 1);
                let shorter = regions@.take(i as int);
                assert forall|k: int| 0 <= k < longer.len() implies (#[trigger] longer[k]).wf() by {
                    if k < i {
                        assert(longer[k] == shorter[k]);
                    }
                }
                assert forall|k: int, l: int|
                    #![trigger longer[k], longer[l]]
                    0 <= k < l < longer.len() implies longer[k].start_addr + longer[k].len
                    <= longer[l].start_addr by {
                    assert(longer[k] == shorter[k]);
                    if l < i {
                        assert(longer[l] == shorter[l]);
                    } else if k < i - 1 {
                        assert(shorter[k].start_addr + shorter[k].len <= shorter[i
                            - 1].start_addr);
                    }
                }
            }
            end = region.start_addr + region.len;
            i += 1;
        }
        proof {
            assert(regions@.take(i as int) =~= regions@);
        }
        Some(GuestMemoryMmap { regions })
    }

    /// The regions of the guest, in address order.
    pub fn regions(&self) -> (regions: &[GuestRegion])
        ensures
            regions@ == self@,
    {
        self.regions.as_slice()
    }

    /// The region that holds `addr`, as its position in the list.
    pub open spec fn region_of(&self, addr: int) -> Option<int> {
        if exists|i: int| 0 <= i < self@.len() && (#[trigger] self@[i]).holds(addr) {
            Some(choose|i: int| 0 <= i < self@.len() && (#[trigger] self@[i]).holds(addr))
        } else {
            None
        }
    }

    /// Finds the region that holds `addr`.
    pub fn find_region(&self, addr: u64) -> (found: Option<usize>)
        requires
            self.wf(),
        ensures
            found matches Some(i) ==> i < self@.len() && self@[i as int].holds(addr as int)
                && self.region_of(addr as int) == Some(i as int),
            found is None ==> self.region_of(addr as int) is None,
    {
        let mut i: usize = 0;
        while i < self.regions.len()
            invariant
                i <= self.regions.len(),
                self.wf(),
                forall|k: int| 0 <= k < i ==> !(#[trigger] self@[k]).holds(addr as int),
            decreases self.regions.len() - i,
        {
            let region = self.regions[i];
            proof {
                assert(self@[i as int].wf());
            }
            if region.start_addr <= addr && addr - region.start_addr < region.len {
                proof {
                    assert(self@[i as int].holds(addr as int));
                    let j = choose|j: int|
                        0 <= j < self@.len() && (#[trigger] self@[j]).holds(addr as int);
                    assert(self@[j].holds(addr as int));
                    if j < i {
                        assert(!self@[j].holds(addr as int));
                    } else if i < j {
                        assert(self@[i as int].start_addr + self@[i as int].len
                            <= self@[j].start_addr);
                    }
                }
                return Some(i);
            }
            i += 1;
        }
        None
    }

    /// Where the host maps `addr`, or an error with the address if no region holds it.
    pub open spec fn host_address(&self, addr: u64) -> Result<u64, GuestMemoryError> {
        match self.region_of(addr as int) {
            Some(i) => Ok(
                self@[i].host_addr.wrapping_add((addr - self@[i].start_addr) as u64),
            ),
            None => Err(GuestMemoryError::InvalidGuestAddress(addr)),
        }
    }

    /// The host address of the guest byte at `addr`.
    pub fn get_host_address(&self, addr: u64) -> (host: Result<u64, GuestMemoryError>)
        requires
            self.wf(),
        ensures
            host == self.host_address(addr),
    {
        match self.find_region(addr) {
            Some(i) => {
                let region = self.regions[i];
                Ok(region.host_addr.wrapping_add(addr - region.start_addr))
            },
            None => Err(GuestMemoryError::InvalidGuestAddress(addr)),
        }
    }

    /// Whether `count` bytes from `addr` on lie in one region.
    pub open spec fn slice_check(&self, addr: u64, count: int) -> Result<(), GuestMemoryError> {
        match self.region_of(addr as int) {
            Some(i) => if addr + count <= self@[i].start_addr + self@[i].len {
                Ok(())
            } else {
                Err(GuestMemoryError::InvalidBackendAddress)
            },
            None => Err(GuestMemoryError::InvalidGuestAddress(addr)),
        }
    }

    /// Checks that `count` bytes from `addr` on lie in one region.
    pub fn check_slice(&self, addr: u64, count: u32) -> (checked: Result<(), GuestMemoryError>)
        requires
            self.wf(),
        ensures
            checked == self.slice_check(addr, count as int),
            checked is Ok ==> addr + count <= u64::MAX,
    {
        match self.find_region(addr) {
            Some(i) => {
                let region = self.regions[i];
                proof {
                    assert(self@[i as int].wf());
                }
                if count as u64 <= region.len - (addr - region.start_addr) {
                    Ok(())
                } else {
                    Err(GuestMemoryError::InvalidBackendAddress)
                }
            },
            None => Err(GuestMemoryError::InvalidGuestAddress(addr)),
        }
    }
}

/// Memory is taken over exactly where every region holds an address, ends at a 64-bit address, and
/// starts no earlier than the region before it ends. The regions are then those that were given.
pub proof fn law_memory_is_what_was_given(regions: Vec<GuestRegion>, mem: Option<GuestMemoryMmap>)
    requires
        call_ensures(GuestMemoryMmap::from_regions, (regions,), mem),
    ensures
        mem is Some <==> {
            &&& forall|i: int|
                0 <= i < regions@.len() ==> 0 < (#[trigger] regions@[i]).len
                    && regions@[i].start_addr + regions@[i].len <= u64::MAX
            &&& forall|i: int|
                0 < i < regions@.len() ==> regions@[i - 1].start_addr + regions@[i - 1].len <= (
                #[trigger] regions@[i]).start_addr
        },
        mem matches Some(m) ==> m.wf() && m@ == regions@,
{
    if forall|i: int|
        0 < i < regions@.len() ==> regions@[i - 1].start_addr + regions@[i - 1].len <= (
        #[trigger] regions@[i]).start_addr {
        assert forall|i: int, j: int|
            #![trigger regions@[i], regions@[j]]
            0 <= i < j < regions@.len() implies regions@[i].start_addr + regions@[i].len
            <= regions@[j].start_addr by {
            lemma_in_order(regions@, i, j);
        }
    }
    if sorted_regions(regions@) {
        assert forall|i: int| 0 < i < regions@.len() implies regions@[i - 1].start_addr
            + regions@[i - 1].len <= (#[trigger] regions@[i]).start_addr by {
            assert(regions@[i - 1].wf());
        }
    }
}

/// Regions of which each starts after the one before it are all in order.
proof fn lemma_in_order(regions: Seq<GuestRegion>, i: int, j: int)
    requires
        0 <= i < j < regions.len(),
        forall|k: int|
            0 < k < regions.len() ==> regions[k - 1].start_addr + regions[k - 1].len <= (
            #[trigger] regions[k]).start_addr,
    ensures
        regions[i].start_addr + regions[i].len <= regions[j].start_addr,
    decreases j - i,
{
    assert(regions[j - 1].start_addr + regions[j - 1].len <= regions[j].start_addr);
    if i < j - 1 {
        lemma_in_order(regions, i, j - 1);
    }
}

/// The region that holds an address is the region of the address.
proof fn lemma_region_of(mem: GuestMemoryMmap, addr: int, i: int)
    requires
        mem.wf(),
        0 <= i < mem@.len(),
        mem@[i].holds(addr),
    ensures
        mem.region_of(addr) == Some(i),
{
    let j = mem.region_of(addr)->0;
    assert(0 <= j < mem@.len() && mem@[j].holds(addr));
    if i < j {
        assert(mem@[i].start_addr + mem@[i].len <= mem@[j].start_addr);
    }
    if j < i {
        assert(mem@[j].start_addr + mem@[j].len <= mem@[i].start_addr);
    }
}

/// A guest address lies in at most one region, and looking it up finds that region.
pub proof fn law_an_address_has_one_region(
    mem: GuestMemoryMmap,
    addr: u64,
    i: int,
    found: Option<usize>,
)
    requires
        mem.wf(),
        0 <= i < mem@.len(),
        mem@[i].start_addr <= addr < mem@[i].start_addr + mem@[i].len,
        call_ensures(GuestMemoryMmap::find_region, (&mem, addr), found),
    ensures
        found matches Some(n) && n == i,
        mem.region_of(addr as int) == Some(i),
{
    lemma_region_of(mem, addr as int, i);
}

/// The region that holds the first byte of a buffer decides on it: all bytes must lie in it.
pub proof fn law_region_decides_on_a_buffer(
    mem: GuestMemoryMmap,
    addr: u64,
    count: int,
    i: int,
)
    requires
        mem.wf(),
        0 <= i < mem@.len(),
        mem@[i].start_addr <= addr < mem@[i].start_addr + mem@[i].len,
        0 <= count,
    ensures
        mem.slice_check(addr, count) is Ok <==> count == 0 || mem@[i].holds(addr + count - 1),
        mem.slice_check(addr, count) is Ok <==> addr + count <= mem@[i].start_addr + mem@[i].len,
        mem.slice_check(addr, count) is Err ==> mem.slice_check(addr, count)->Err_0
            == GuestMemoryError::InvalidBackendAddress,
{
    lemma_region_of(mem, addr as int, i);
}

/// A buffer passes the check exactly where the region that holds its first byte holds every byte of
/// it. Otherwise the error says whether the first byte or the rest is at fault.
pub proof fn law_a_buffer_lies_in_one_region(
    mem: GuestMemoryMmap,
    addr: u64,
    count: u32,
    checked: Result<(), GuestMemoryError>,
)
    requires
        mem.wf(),
        call_ensures(GuestMemoryMmap::check_slice, (&mem, addr, count), checked),
    ensures
        checked == mem.slice_check(addr, count as int),
        forall|i: int|
            0 <= i < mem@.len() && (#[trigger] mem@[i]).start_addr <= addr < mem@[i].start_addr
                + mem@[i].len ==> {
                &&& checked is Ok <==> forall|a: int|
                    addr <= a < addr + count ==> #[trigger] mem@[i].holds(a)
                &&& checked is Ok <==> count == 0 || addr + count - 1 < mem@[i].start_addr
                    + mem@[i].len
                &&& checked is Ok || checked == Err::<(), _>(
                    GuestMemoryError::InvalidBackendAddress,
                )
            },
        (forall|i: int|
            0 <= i < mem@.len() ==> !((#[trigger] mem@[i]).start_addr <= addr
                < mem@[i].start_addr + mem@[i].len)) ==> checked == Err::<(), _>(
            GuestMemoryError::InvalidGuestAddress(addr),
        ),
{
    assert forall|i: int|
        0 <= i < mem@.len() && (#[trigger] mem@[i]).start_addr <= addr < mem@[i].start_addr
            + mem@[i].len implies {
        &&& checked is Ok <==> forall|a: int|
            addr <= a < addr + count ==> #[trigger] mem@[i].holds(a)
        &&& checked is Ok <==> count == 0 || addr + count - 1 < mem@[i].start_addr + mem@[i].len
        &&& checked is Ok || checked == Err::<(), _>(GuestMemoryError::InvalidBackendAddress)
    } by {
        lemma_region_of(mem, addr as int, i);
        if count > 0 && !(addr + count - 1 < mem@[i].start_addr + mem@[i].len) {
            assert(!mem@[i].holds(addr + count - 1));
        }
    }
}

/// The host maps a region in one piece: the host address of a guest byte is as far from that of the
/// region as the byte is from the region's start.
pub proof fn law_host_addresses_follow_the_region(
    mem: GuestMemoryMmap,
    addr: u64,
    i: int,
    host: Result<u64, GuestMemoryError>,
)
    requires
        mem.wf(),
        0 <= i < mem@.len(),
        mem@[i].start_addr <= addr < mem@[i].start_addr + mem@[i].len,
        call_ensures(GuestMemoryMmap::get_host_address, (&mem, addr), host),
    ensures
        host is Ok,
        addr == mem@[i].start_addr ==> host->Ok_0 == mem@[i].host_addr,
        mem@[i].host_addr + mem@[i].len <= u64::MAX ==> host->Ok_0 - mem@[i].host_addr == addr
            - mem@[i].start_addr,
        (host->Ok_0 - mem@[i].host_addr) - (addr - mem@[i].start_addr) == 0 || (host->Ok_0
            - mem@[i].host_addr) - (addr - mem@[i].start_addr) == -0x1_0000_0000_0000_0000,
{
    lemma_region_of(mem, addr as int, i);
}

/// An address outside all regions has no host address, and the error names it.
pub proof fn law_unmapped_addresses_are_named(
    mem: GuestMemoryMmap,
    addr: u64,
    host: Result<u64, GuestMemoryError>,
)
    requires
        mem.wf(),
        forall|i: int|
            0 <= i < mem@.len() ==> !((#[trigger] mem@[i]).start_addr <= addr
                < mem@[i].start_addr + mem@[i].len),
        call_ensures(GuestMemoryMmap::get_host_address, (&mem, addr), host),
    ensures
        host == Err::<u64, _>(GuestMemoryError::InvalidGuestAddress(addr)),
{
}

} // verus!
