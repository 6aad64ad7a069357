//! DMA page pool: physical pages taken from the memory map are handed out in
//! order, each with its address in the higher-half direct map (HHDM).

use vstd::prelude::*;

verus! {

/// Page size for DMA allocations.
pub const PAGE_SIZE: usize = 4096;

/// Maximum number of DMA pages the pool tracks (1 MB of DMA memory).
pub const MAX_DMA_PAGES: usize = 256;

/// A DMA-capable buffer: its CPU-visible address, its physical address and size.
#[derive(Debug, Clone, Copy, PartialEq, Eq)]
pub struct DmaBuffer {
    pub virt: u64,
    pub phys: u64,
    pub size: usize,
}

/// Physical page pool: `count` pages were added (only the first
/// `MAX_DMA_PAGES` are stored) and `next` pages were taken.
pub struct DmaAllocator {
    pages: Vec<u64>,
    count: usize,
    next: usize,
}

/// Result of taking the page at position `idx` of a pool holding `pages`, `count`
/// of which were added: the physical address and its HHDM address, or `None` when
/// the position is past the added pages or holds no page (address 0).
pub open spec fn take_result(pages: Seq<u64>, count: int, idx: int, hhdm: u64) -> Option<(u64, u64)> {
    if idx >= count || pages[idx] == 0 {
        None
    } else {
        Some((pages[idx], (pages[idx] + hhdm) as u64))
    }
}

/// Taking position `idx` does not fault: a position below `count` lies in the
/// stored table, and a page found there has an HHDM address below 2^64.
pub open spec fn take_safe(pages: Seq<u64>, count: int, idx: int, hhdm: u64) -> bool {
    idx < count ==> idx < MAX_DMA_PAGES && (pages[idx] != 0 ==> pages[idx] + hhdm <= u64::MAX)
}

impl DmaAllocator {
    /// The stored page table (always `MAX_DMA_PAGES` entries, 0 where unset).
    pub closed spec fn page_table(self) -> Seq<u64> {
        self.pages@
    }

    /// Number of pages added so far.
    pub closed spec fn added(self) -> usize {
        self.count
    }

    /// Number of pages taken so far (successful or not).
    pub closed spec fn taken(self) -> usize {
        self.next
    }

    /// The table has exactly `MAX_DMA_PAGES` entries.
    pub closed spec fn wf(self) -> bool {
        self.pages@.len() == MAX_DMA_PAGES
    }

    /// An empty pool.
    pub fn new() -> (r: Self)
        ensures
            r.wf(),
            r.added() == 0,
            r.taken() == 0,
            forall|i: int| 0 <= i < MAX_DMA_PAGES ==> #[trigger] r.page_table()[i] == 0,
    {
        let mut pages: Vec<u64> = Vec::new();
        let mut i: usize = 0;
        while i < MAX_DMA_PAGES
            invariant
                i <= MAX_DMA_PAGES,
                pages@.len() == i,
                forall|j: int| 0 <= j < i ==> #[trigger] pages@[j] == 0,
            decreases MAX_DMA_PAGES - i,
        {
            pages.push(0);
            i = i + 1;
        }
        DmaAllocator { pages, count: 0, next: 0 }
    }

    /// Add a physical page to the pool; past `MAX_DMA_PAGES` the page is counted
    /// but not stored.
    pub fn add_page(&mut self, phys_addr: u64)
        requires
            old(self).wf(),
        ensures
            final(self).wf(),
            final(self).added() == old(self).added().wrapping_add(1),
            final(self).taken() == old(self).taken(),
            final(self).page_table() == if old(self).added() < MAX_DMA_PAGES {
                old(self).page_table().update(old(self).added() as int, phys_addr)
            } else {
                old(self).page_table()
            },
    {
        let idx = self.count;
        self.count = self.count.wrapping_add(1);
        if idx < MAX_DMA_PAGES {
            self.pages.set(idx, phys_addr);
        }
    }

    /// Take the next page: its physical address and HHDM address, or `None` when
    /// the pool is exhausted or the slot is empty. The position advances either way.
    /// The caller zeroes the page through its HHDM address.
    pub fn alloc_page(&mut self, hhdm_offset: u64) -> (r: Option<(u64, u64)>)
        requires
            old(self).wf(),
            take_safe(old(self).page_table(), old(self).added() as int, old(self).taken() as int, hhdm_offset),
        ensures
            final(self).wf(),
            final(self).page_table() == old(self).page_table(),
            final(self).added() == old(self).added(),
            final(self).taken() == old(self).taken().wrapping_add(1),
            r == take_result(old(self).page_table(), old(self).added() as int, old(self).taken() as int, hhdm_offset),
    {
        let idx = self.next;
        self.next = self.next.wrapping_add(1);
        if idx >= self.count {
            return None;
        }
        let phys = self.pages[idx];
        if phys == 0 {
            return None;
        }
        Some((phys, phys + hhdm_offset))
    }

    /// Take `count` pages in order; `None` as soon as one take fails (the pages
    /// taken before it stay taken).
    pub fn alloc_pages(&mut self, count: usize, hhdm_offset: u64) -> (r: Option<Vec<(u64, u64)>>)
        requires
            old(self).wf(),
            old(self).taken() + count <= usize::MAX,
            forall|j: int| 0 <= j < count ==> #[trigger] take_safe(
                old(self).page_table(), old(self).added() as int, old(self).taken() + j, hhdm_offset),
        ensures
            final(self).wf(),
            final(self).page_table() == old(self).page_table(),
            final(self).added() == old(self).added(),
            ({
                let tbl = old(self).page_table();
                let n = old(self).added() as int;
                let t = old(self).taken() as int;
                match r {
                    Some(v) => {
                        &&& v@.len() == count
                        &&& final(self).taken() == t + count
                        &&& forall|j: int| 0 <= j < count ==> take_result(tbl, n, t + j, hhdm_offset)
                            == Some(#[trigger] v@[j])
                    },
                    None => {
                        let f = final(self).taken() - t - 1;
                        &&& 0 <= f < count
                        &&& take_result(tbl, n, t + f, hhdm_offset) is None
                        &&& forall|j: int| 0 <= j < f ==> #[trigger] take_result(tbl, n, t + j, hhdm_offset) is Some
                    },
                }
            }),
    {
        let mut pages: Vec<(u64, u64)> = Vec::new();
        let mut i: usize = 0;
        let ghost tbl = self.pages@;
        let ghost n = self.count as int;
        let ghost t = self.next as int;
        while i < count
            invariant
                self.wf(),
                tbl == old(self).pages@,
                n == old(self).count,
                t == old(self).next,
                self.pages@ == tbl,
                self.count == n,
                tbl.len() == MAX_DMA_PAGES,
                i <= count,
                t + count <= usize::MAX,
                self.next == t + i,
                pages@.len() == i,
                forall|j: int| 0 <= j < count ==> #[trigger] take_safe(tbl, n, t + j, hhdm_offset),
                forall|j: int| 0 <= j < i ==> take_result(tbl, n, t + j, hhdm_offset) == Some(#[trigger] pages@[j]),
            decreases count - i,
        {
            assert(take_safe(tbl, n, t + i, hhdm_offset));
            match self.alloc_page(hhdm_offset) {
                Some(page) => {
                    pages.push(page);
                },
                None => {
                    assert forall|j: int| 0 <= j < i implies #[trigger] take_result(tbl, n, t + j, hhdm_offset) is Some by {
                        assert(take_result(tbl, n, t + j, hhdm_offset) == Some(pages@[j]));
                    }
                    assert(take_result(tbl, n, t + i, hhdm_offset) is None);
                    return None;
                },
            }
            i = i + 1;
        }
        Some(pages)
    }

    /// Number of pages still available: added minus taken, at least 0.
    pub fn available(&self) -> (r: usize)
        ensures
            r == if self.added() >= self.taken() { self.added() - self.taken() } else { 0 },
    {
        self.count.saturating_sub(self.next)
    }
}

/// Number of pages a DMA buffer of `size` bytes spans.
pub open spec fn pages_for(size: int) -> int {
    (size + PAGE_SIZE - 1) / PAGE_SIZE as int
}

/// The `k` takes starting at position `t` all succeed.
pub open spec fn takes_succeed(pages: Seq<u64>, count: int, t: int, k: int, hhdm: u64) -> bool {
    forall|i: int| t <= i < t + k ==> #[trigger] take_result(pages, count, i, hhdm) is Some
}

/// The `k` pages taken from position `t` lie back to back in physical
/// memory (and so, through the HHDM, in virtual memory too).
pub open spec fn takes_contiguous(pages: Seq<u64>, count: int, t: int, k: int, hhdm: u64) -> bool {
    forall|j: int| 0 <= j < k ==> (#[trigger] take_result(pages, count, t + j, hhdm)) is Some
        && pages[t + j] == pages[t] + j * PAGE_SIZE
}

/// The buffer made from the `k` pages taken at position `t` for a request of
/// `size` bytes: it starts at the first page and spans all `size` bytes when
/// the pages lie back to back; when they do not, it is the first page alone
/// (`PAGE_SIZE` bytes). `None` for a first page at HHDM address 0.
pub open spec fn dma_buffer_of(pages: Seq<u64>, count: int, t: int, k: int, size: usize, hhdm: u64) -> Option<DmaBuffer> {
    match take_result(pages, count, t, hhdm) {
        Some(p) => if p.1 == 0 {
            None
        } else if takes_contiguous(pages, count, t, k, hhdm) {
            Some(DmaBuffer { virt: p.1, phys: p.0, size })
        } else {
            Some(DmaBuffer { virt: p.1, phys: p.0, size: PAGE_SIZE })
        },
        None => None,
    }
}

/// Allocate a DMA buffer of `size` bytes from `pool`, whose pages are mapped at
/// `hhdm` above their physical address: the request takes all the pages it
/// spans, and the buffer starts at the first of them. It has the requested
/// size when the pages lie back to back; otherwise it covers the first page
/// only, and the caller handles the other pages itself. `None` when a take
/// fails or the first page would sit at address 0. The caller zeroes the
/// buffer through its HHDM address.
pub fn alloc_dma(pool: &mut DmaAllocator, hhdm: u64, size: usize) -> (r: Option<DmaBuffer>)
    requires
        old(pool).wf(),
        0 < size <= usize::MAX - PAGE_SIZE,
        old(pool).taken() + pages_for(size as int) <= usize::MAX,
        forall|j: int| 0 <= j < pages_for(size as int) ==> #[trigger] take_safe(
            old(pool).page_table(), old(pool).added() as int, old(pool).taken() + j, hhdm),
    ensures
        final(pool).wf(),
        final(pool).page_table() == old(pool).page_table(),
        final(pool).added() == old(pool).added(),
        takes_succeed(old(pool).page_table(), old(pool).added() as int, old(pool).taken() as int,
            pages_for(size as int), hhdm) ==> final(pool).taken() == old(pool).taken() + pages_for(size as int),
        r == if takes_succeed(old(pool).page_table(), old(pool).added() as int, old(pool).taken() as int,
            pages_for(size as int), hhdm) {
            dma_buffer_of(old(pool).page_table(), old(pool).added() as int, old(pool).taken() as int,
                pages_for(size as int), size, hhdm)
        } else {
            None
        },
{
    let pages_needed = (size + PAGE_SIZE - 1) / PAGE_SIZE;
    let ghost tbl = pool.page_table();
    let ghost n = pool.added() as int;
    let ghost t = pool.taken() as int;
    if pages_needed == 1 {
        assert(take_safe(tbl, n, t + 0, hhdm));
        let page = pool.alloc_page(hhdm);
        match page {
            Some((phys, virt)) => {
                assert(takes_succeed(tbl, n, t, 1, hhdm));
                if virt == 0 {
                    None
                } else {
                    Some(DmaBuffer { virt, phys, size })
                }
            },
            None => None,
        }
    } else {
        match pool.alloc_pages(pages_needed, hhdm) {
            Some(pages) => {
                assert forall|i: int| t <= i < t + pages_needed implies #[trigger] take_result(tbl, n, i, hhdm) is Some by {
                    assert(take_result(tbl, n, t + (i - t), hhdm) == Some(pages@[i - t]));
                }
                assert(take_result(tbl, n, t + 0, hhdm) == Some(pages@[0]));
                let (phys, virt) = pages[0];
                if virt == 0 {
                    return None;
                }
                proof {
                    assert forall|i: int| 0 <= i < pages_needed implies #[trigger] pages@[i].0 == tbl[t + i] by {
                        assert(take_result(tbl, n, t + i, hhdm) == Some(pages@[i]));
                    }
                    assert(pages_needed * PAGE_SIZE <= size + PAGE_SIZE);
                }
                let mut j: usize = 1;
                while j < pages_needed
                    invariant
                        1 <= j <= pages_needed,
                        pages_needed == pages_for(size as int),
                        pages_needed * PAGE_SIZE <= usize::MAX,
                        pool.wf(),
                        pool.page_table() == tbl,
                        pool.added() == n,
                        pool.taken() == t + pages_needed,
                        tbl == old(pool).page_table(),
                        n == old(pool).added(),
                        t == old(pool).taken(),
                        takes_succeed(tbl, n, t, pages_needed as int, hhdm),
                        take_result(tbl, n, t, hhdm) == Some((phys, virt)),
                        virt != 0,
                        pages@.len() == pages_needed,
                        pages@[0].0 == phys,
                        phys == tbl[t],
                        forall|i: int| 0 <= i < pages_needed ==> take_result(tbl, n, t + i, hhdm) == Some(#[trigger] pages@[i]),
                        forall|i: int| 0 <= i < j ==> #[trigger] pages@[i].0 == phys + i * PAGE_SIZE,
                        forall|i: int| 0 <= i < pages_needed ==> #[trigger] pages@[i].0 == tbl[t + i],
                    decreases pages_needed - j,
                {
                    let (p, _) = pages[j];
                    let offset = (j * PAGE_SIZE) as u64;
                    if p < phys || p - phys != offset {
                        proof {
                            assert(take_result(tbl, n, t + j, hhdm) == Some(pages@[j as int]));
                            assert(tbl[t + j] != tbl[t] + j * PAGE_SIZE);
                            assert(!takes_contiguous(tbl, n, t, pages_needed as int, hhdm));
                        }
                        return Some(DmaBuffer { virt, phys, size: PAGE_SIZE });
                    }
                    j = j + 1;
                }
                proof {
                    assert forall|i: int| 0 <= i < pages_needed implies (#[trigger] take_result(tbl, n, t + i, hhdm)) is Some
                        && tbl[t + i] == tbl[t] + i * PAGE_SIZE by {
                        assert(take_result(tbl, n, t + i, hhdm) == Some(pages@[i]));
                        assert(pages@[i].0 == phys + i * PAGE_SIZE);
                    }
                }
                Some(DmaBuffer { virt, phys, size })
            },
            None => None,
        }
    }
}

/// Take a single DMA page from `pool`: physical and HHDM address.
pub fn alloc_dma_page(pool: &mut DmaAllocator, hhdm: u64) -> (r: Option<(u64, u64)>)
    requires
        old(pool).wf(),
        take_safe(old(pool).page_table(), old(pool).added() as int, old(pool).taken() as int, hhdm),
    ensures
        final(pool).wf(),
        final(pool).page_table() == old(pool).page_table(),
        final(pool).added() == old(pool).added(),
        final(pool).taken() == old(pool).taken().wrapping_add(1),
        r == take_result(old(pool).page_table(), old(pool).added() as int, old(pool).taken() as int, hhdm),
{
    pool.alloc_page(hhdm)
}

/// Lowest physical address the pool takes pages from: the first 16 MB are left
/// to legacy devices.
pub const DMA_POOL_FLOOR: u64 = 0x100_0000;

/// x86-64 physical addresses are at most 52 bits wide.
pub const MAX_PHYS_ADDR: u64 = 0x0010_0000_0000_0000;

/// A region of the bootloader's memory map, as plain values.
#[derive(Debug, Clone, Copy, PartialEq, Eq)]
pub struct MemoryRegion {
    pub base: u64,
    pub length: u64,
    pub usable: bool,
}

/// First page-aligned address at or above the region's start above the floor.
pub open spec fn region_first_page(r: MemoryRegion) -> int {
    let start: int = if r.base < DMA_POOL_FLOOR { DMA_POOL_FLOOR as int } else { r.base as int };
    (start + PAGE_SIZE - 1) / PAGE_SIZE as int * PAGE_SIZE as int
}

/// Number of whole pages of a usable region that lie above the floor.
pub open spec fn region_page_count(r: MemoryRegion) -> nat {
    let start: int = if r.base < DMA_POOL_FLOOR { DMA_POOL_FLOOR as int } else { r.base as int };
    let end: int = r.base + r.length;
    let first = region_first_page(r);
    if !r.usable || start >= end || first + PAGE_SIZE > end {
        0
    } else {
        ((end - first) / PAGE_SIZE as int) as nat
    }
}

/// The whole pages a region contributes to the pool, in address order.
pub open spec fn region_pages(r: MemoryRegion) -> Seq<u64> {
    Seq::new(region_page_count(r), |k: int| (region_first_page(r) + PAGE_SIZE * k) as u64)
}

/// The pages of all regions, region after region.
pub open spec fn all_region_pages(rs: Seq<MemoryRegion>) -> Seq<u64>
    decreases rs.len(),
{
    if rs.len() == 0 {
        Seq::empty()
    } else {
        all_region_pages(rs.drop_last()) + region_pages(rs.last())
    }
}

/// At most the pool's capacity of a page list: its first `MAX_DMA_PAGES` pages.
pub open spec fn capped(s: Seq<u64>) -> Seq<u64> {
    if s.len() <= MAX_DMA_PAGES { s } else { s.take(MAX_DMA_PAGES as int) }
}

/// The page table after appending `added` at position `start`; positions past the
/// table are not stored.
pub open spec fn table_after(table: Seq<u64>, start: int, added: Seq<u64>) -> Seq<u64> {
    Seq::new(table.len(), |j: int| if start <= j < start + added.len() { added[j - start] } else { table[j] })
}

/// Once a prefix reaches the cap, what follows it changes nothing.
proof fn lemma_capped_prefix(a: Seq<u64>, b: Seq<u64>, k: int)
    requires
        0 <= k <= b.len(),
        a.len() + k >= MAX_DMA_PAGES,
    ensures
        capped(a + b.take(k)) == capped(a + b),
{
    assert(capped(a + b.take(k)) =~= capped(a + b));
}

/// Capping a list and then appending one page within the cap is capping the longer list.
proof fn lemma_capped_push(s: Seq<u64>, x: u64)
    requires
        capped(s).len() < MAX_DMA_PAGES,
    ensures
        capped(s.push(x)) == capped(s).push(x),
        capped(s) == s,
{
    assert(capped(s.push(x)) =~= capped(s).push(x));
}

/// Fill `pool` from the memory map: the whole pages of every usable region above
/// the first 16 MB, region after region, until the pool's capacity is reached.
/// Returns the number of pages added.
pub fn init_dma_pool(pool: &mut DmaAllocator, regions: &Vec<MemoryRegion>) -> (added: usize)
    requires
        old(pool).wf(),
        old(pool).added() + MAX_DMA_PAGES <= usize::MAX,
        forall|i: int| 0 <= i < regions@.len() ==> #[trigger] regions@[i].base + regions@[i].length <= MAX_PHYS_ADDR,
    ensures
        final(pool).wf(),
        added == capped(all_region_pages(regions@)).len(),
        final(pool).added() == old(pool).added() + added,
        final(pool).taken() == old(pool).taken(),
        final(pool).page_table() == table_after(old(pool).page_table(), old(pool).added() as int,
            capped(all_region_pages(regions@))),
{
    let ghost rs = regions@;
    let ghost base_added = pool.added() as int;
    let ghost table0 = pool.page_table();
    let ghost mut seen: Seq<u64> = Seq::empty();
    let mut pages_added: usize = 0;
    let mut i: usize = 0;
    assert(rs.take(0) =~= Seq::<MemoryRegion>::empty());
    assert(table_after(table0, base_added, seen) =~= table0);
    while i < regions.len()
        invariant
            rs == regions@,
            pool.wf(),
            pool.taken() == old(pool).taken(),
            base_added == old(pool).added(),
            table0 == old(pool).page_table(),
            base_added + MAX_DMA_PAGES <= usize::MAX,
            forall|j: int| 0 <= j < rs.len() ==> #[trigger] rs[j].base + rs[j].length <= MAX_PHYS_ADDR,
            i <= rs.len(),
            seen == capped(all_region_pages(rs.take(i as int))),
            pages_added == seen.len(),
            pool.added() == base_added + pages_added,
            pool.page_table() == table_after(table0, base_added, seen),
        decreases rs.len() - i,
    {
        let r = regions[i];
        let ghost prefix = all_region_pages(rs.take(i as int));
        assert(rs.take(i as int + 1).drop_last() =~= rs.take(i as int));
        assert(all_region_pages(rs.take(i as int + 1)) == prefix + region_pages(r));
        if r.usable {
            let start: u64 = if r.base < DMA_POOL_FLOOR { DMA_POOL_FLOOR } else { r.base };
            let end: u64 = r.base + r.length;
            if start < end {
                let rounded: u64 = start + 4095;
                let aligned_start: u64 = rounded & !4095u64;
                assert(aligned_start == rounded / 4096 * 4096) by (bit_vector)
                    requires
                        aligned_start == rounded & !4095u64,
                ;
                let mut addr: u64 = aligned_start;
                let ghost mut k: int = 0;
                assert(region_pages(r).take(0) =~= Seq::<u64>::empty());
                assert(prefix + region_pages(r).take(0) =~= prefix);
                while addr + 4096 <= end && pages_added < MAX_DMA_PAGES
                    invariant
                        rs == regions@,
                        pool.wf(),
                        pool.taken() == old(pool).taken(),
                        base_added + MAX_DMA_PAGES <= usize::MAX,
                        r == rs[i as int],
                        r.usable,
                        end == r.base + r.length,
                        end <= MAX_PHYS_ADDR,
                        start == (if r.base < DMA_POOL_FLOOR { DMA_POOL_FLOOR } else { r.base }),
                        start < end,
                        addr == region_first_page(r) + PAGE_SIZE * k,
                        0 <= k,
                        k <= region_page_count(r),
                        k < region_page_count(r) ==> addr + 4096 <= end,
                        seen == capped(prefix + region_pages(r).take(k)),
                        pages_added == seen.len(),
                        pool.added() == base_added + pages_added,
                        pool.page_table() == table_after(table0, base_added, seen),
                    decreases region_page_count(r) - k,
                {
                    assert(k < region_page_count(r)) by (nonlinear_arith)
                        requires
                            addr == region_first_page(r) + 4096 * k,
                            addr + 4096 <= end,
                            k <= region_page_count(r),
                            region_first_page(r) + 4096 > end ==> region_page_count(r) == 0,
                            region_first_page(r) + 4096 <= end ==> region_page_count(r) == (end - region_first_page(r)) / 4096,
                    ;
                    let ghost before = seen;
                    proof {
                        lemma_capped_push(prefix + region_pages(r).take(k), addr);
                        assert((prefix + region_pages(r).take(k)).push(addr) =~= prefix + region_pages(r).take(k + 1));
                        seen = seen.push(addr);
                    }
                    pool.add_page(addr);
                    assert(pool.page_table() =~= table_after(table0, base_added, seen));
                    pages_added = pages_added + 1;
                    addr = addr + 4096;
                    proof {
                        k = k + 1;
                        if k < region_page_count(r) {
                            let f = region_first_page(r);
                            let x: int = end - f;
                            assert(region_page_count(r) == x / 4096);
                            vstd::arithmetic::div_mod::lemma_fundamental_div_mod(x, 4096);
                            assert(4096 * (x / 4096) >= 4096 * (k + 1)) by (nonlinear_arith)
                                requires
                                    x / 4096 >= k + 1,
                            ;
                        }
                    }
                }
                proof {
                    if pages_added >= MAX_DMA_PAGES {
                        lemma_capped_prefix(prefix, region_pages(r), k);
                    } else {
                        assert(k == region_page_count(r));
                        assert(region_pages(r).take(k) =~= region_pages(r));
                    }
                }
            } else {
                assert(region_pages(r) =~= Seq::<u64>::empty());
                assert(prefix + region_pages(r) =~= prefix);
            }
        } else {
            assert(region_pages(r) =~= Seq::<u64>::empty());
            assert(prefix + region_pages(r) =~= prefix);
        }
        i = i + 1;
    }
    assert(rs.take(rs.len() as int) =~= rs);
    pages_added
}

/// Physical address of an HHDM virtual address (wrapping).
pub fn virt_to_phys(hhdm: u64, virt: u64) -> (r: u64)
    ensures
        r == virt.wrapping_sub(hhdm),
{
    virt.wrapping_sub(hhdm)
}

/// HHDM virtual address of a physical address.
pub fn phys_to_virt(hhdm: u64, phys: u64) -> (r: u64)
    requires
        phys + hhdm <= u64::MAX,
    ensures
        r == phys + hhdm,
{
    phys + hhdm
}

/// Translating a physical address into the HHDM and back gives it again.
pub proof fn lemma_phys_virt_roundtrip(hhdm: u64, phys: u64)
    requires
        phys + hhdm <= u64::MAX,
    ensures
        ((phys + hhdm) as u64).wrapping_sub(hhdm) == phys,
{
}

} // verus!
