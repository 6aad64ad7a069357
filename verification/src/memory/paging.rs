//! MMIO mapping: address arithmetic of four-level x86-64 page tables and the
//! plan of pages to map for a device region. The page-table memory itself is
//! read and written by the caller, following the entries computed here.

use vstd::prelude::*;
use crate::memory::dma::{DmaAllocator, alloc_dma_page, take_result, take_safe};

verus! {

/// Page size (4 KB).
pub const PAGE_SIZE: u64 = 4096;

/// Base of the virtual region where MMIO ranges are mapped.
pub const MMIO_MAP_BASE: u64 = 0xFFFF_FFFF_9000_0000;

/// Page-table entry bit: present.
pub const PTE_PRESENT: u64 = 0x1;

/// Page-table entry bit: writable.
pub const PTE_WRITABLE: u64 = 0x2;

/// Page-table entry bit: write-through caching.
pub const PTE_WRITE_THROUGH: u64 = 0x8;

/// Page-table entry bit: caching disabled.
pub const PTE_NO_CACHE: u64 = 0x10;

/// Page-table entry bit: no execute.
pub const PTE_NO_EXECUTE: u64 = 0x8000_0000_0000_0000;

/// Flags for MMIO pages: present, writable, no-execute, uncached, write-through.
pub const MMIO_FLAGS: u64 = 0x8000_0000_0000_001B;

/// Mask of the physical frame address inside a page-table entry.
pub const ENTRY_ADDR_MASK: u64 = 0x000F_FFFF_FFFF_F000;

/// Paging state: the HHDM offset set at boot and the next free MMIO virtual address.
pub struct PagingState {
    pub hhdm: u64,
    pub mmio_next: u64,
}

impl PagingState {
    /// HHDM not set yet; MMIO mappings start at `MMIO_MAP_BASE`.
    pub fn new() -> (r: Self)
        ensures
            r.hhdm == 0,
            r.mmio_next == MMIO_MAP_BASE,
    {
        PagingState { hhdm: 0, mmio_next: MMIO_MAP_BASE }
    }
}

/// Set the HHDM offset (once, during boot).
pub fn set_hhdm_offset(state: &mut PagingState, offset: u64)
    ensures
        final(state).hhdm == offset,
        final(state).mmio_next == old(state).mmio_next,
{
    state.hhdm = offset;
}

/// Index into the page table at `level` (4 = PML4, 3 = PDPT, 2 = PD, 1 = PT)
/// for virtual address `virt`: nine bits starting at bit `3 + 9 * level`.
pub open spec fn index_at(level: u64, virt: u64) -> u64 {
    (virt >> (3 + 9 * level) as u64) & 0x1FF
}

/// PML4 index of a virtual address.
pub fn pml4_index(virt: u64) -> (r: usize)
    ensures
        r == index_at(4, virt),
        r < 512,
{
    let i = (virt >> 39u64) & 0x1FF;
    assert(i < 512) by (bit_vector)
        requires
            i == (virt >> 39u64) & 0x1FF,
    ;
    i as usize
}

/// PDPT index of a virtual address.
pub fn pdpt_index(virt: u64) -> (r: usize)
    ensures
        r == index_at(3, virt),
        r < 512,
{
    let i = (virt >> 30u64) & 0x1FF;
    assert(i < 512) by (bit_vector)
        requires
            i == (virt >> 30u64) & 0x1FF,
    ;
    i as usize
}

/// PD index of a virtual address.
pub fn pd_index(virt: u64) -> (r: usize)
    ensures
        r == index_at(2, virt),
        r < 512,
{
    let i = (virt >> 21u64) & 0x1FF;
    assert(i < 512) by (bit_vector)
        requires
            i == (virt >> 21u64) & 0x1FF,
    ;
    i as usize
}

/// PT index of a virtual address.
pub fn pt_index(virt: u64) -> (r: usize)
    ensures
        r == index_at(1, virt),
        r < 512,
{
    let i = (virt >> 12u64) & 0x1FF;
    assert(i < 512) by (bit_vector)
        requires
            i == (virt >> 12u64) & 0x1FF,
    ;
    i as usize
}

/// Two addresses with the same bits above 47 and the same four table indices
/// lie in the same 4 KB page: the walk reaches each page through one path.
pub proof fn lemma_indices_determine_page(a: u64, b: u64)
    requires
        a >> 48u64 == b >> 48u64,
        index_at(4, a) == index_at(4, b),
        index_at(3, a) == index_at(3, b),
        index_at(2, a) == index_at(2, b),
        index_at(1, a) == index_at(1, b),
    ensures
        a >> 12u64 == b >> 12u64,
{
    assert(a >> 48u64 == b >> 48u64
        && (a >> 39u64) & 0x1FF == (b >> 39u64) & 0x1FF
        && (a >> 30u64) & 0x1FF == (b >> 30u64) & 0x1FF
        && (a >> 21u64) & 0x1FF == (b >> 21u64) & 0x1FF
        && (a >> 12u64) & 0x1FF == (b >> 12u64) & 0x1FF
        ==> a >> 12u64 == b >> 12u64) by (bit_vector);
}

/// The table an entry points to: its frame address when the entry is present,
/// `None` when a new table must be allocated.
pub fn next_table(entry: u64) -> (r: Option<u64>)
    ensures
        r == if entry & PTE_PRESENT != 0 { Some(entry & ENTRY_ADDR_MASK) } else { None },
{
    if entry & PTE_PRESENT != 0 {
        Some(entry & ENTRY_ADDR_MASK)
    } else {
        None
    }
}

/// Entry pointing to a freshly allocated intermediate table: present and writable.
pub fn table_entry(table_phys: u64) -> (r: u64)
    ensures
        r == table_phys | PTE_PRESENT | PTE_WRITABLE,
{
    table_phys | PTE_PRESENT | PTE_WRITABLE
}

/// Final entry mapping an MMIO page.
pub fn leaf_entry(phys: u64) -> (r: u64)
    ensures
        r == phys | MMIO_FLAGS,
{
    phys | MMIO_FLAGS
}

/// An entry written for a page-aligned table address is present and leads back
/// to that table.
pub proof fn lemma_table_entry_roundtrip(table_phys: u64)
    requires
        table_phys & 0xFFF == 0,
        table_phys < 0x10_0000_0000_0000,
    ensures
        (table_phys | PTE_PRESENT | PTE_WRITABLE) & PTE_PRESENT != 0,
        (table_phys | PTE_PRESENT | PTE_WRITABLE) & ENTRY_ADDR_MASK == table_phys,
{
    assert(table_phys & 0xFFF == 0 && table_phys < 0x10_0000_0000_0000 ==> (table_phys | 1u64 | 2u64) & 1u64 != 0
        && (table_phys | 1u64 | 2u64) & 0x000F_FFFF_FFFF_F000u64 == table_phys) by (bit_vector);
}

/// Pages to map for an MMIO region: the aligned physical start, the virtual
/// base reserved for it, the page count, and each page's (virtual, physical) pair.
pub struct MmioPlan {
    pub phys_aligned: u64,
    pub virt_base: u64,
    pub pages: Vec<(u64, u64)>,
    /// Address the device is reached at: the base plus the offset into the first page.
    pub addr: u64,
}

/// Number of pages spanned by `size` bytes starting `offset` bytes into a page.
pub open spec fn mmio_pages(size: int, offset: int) -> int {
    (size + offset + PAGE_SIZE - 1) / PAGE_SIZE as int
}

/// The mapping of a region fits below 2^64 in both address spaces.
pub open spec fn mmio_fits(state: PagingState, phys_addr: u64, size: usize) -> bool {
    let offset = phys_addr % 4096;
    let n = mmio_pages(size as int, offset as int);
    &&& size + offset + PAGE_SIZE <= u64::MAX
    &&& state.mmio_next + offset <= u64::MAX
    &&& n > 0 ==> state.mmio_next + (n - 1) * PAGE_SIZE <= u64::MAX
    &&& n > 0 ==> (phys_addr - offset) + (n - 1) * PAGE_SIZE <= u64::MAX
}

/// `plan` is the mapping of the MMIO region of `size` bytes at `phys_addr`
/// planned in `before`, leaving `after`: it starts at the next free MMIO
/// address, lists its pages one after another, and the next free address
/// moves past them.
pub open spec fn mmio_planned(before: PagingState, after: PagingState, phys_addr: u64, size: usize, plan: MmioPlan) -> bool {
    let offset = phys_addr % 4096;
    let n = mmio_pages(size as int, offset as int);
    &&& plan.phys_aligned == phys_addr - offset
    &&& plan.virt_base == before.mmio_next
    &&& plan.addr == before.mmio_next + offset
    &&& plan.pages@.len() == n
    &&& forall|i: int| 0 <= i < n ==> #[trigger] plan.pages@[i] == (
        (before.mmio_next + i * PAGE_SIZE) as u64, (phys_addr - offset + i * PAGE_SIZE) as u64)
    &&& after.mmio_next == before.mmio_next.wrapping_add((n * PAGE_SIZE) as u64)
}

/// Plan the mapping of the MMIO region `[phys_addr, phys_addr + size)`: reserve
/// virtual space after the previous mappings and list the pages to map.
/// `None` (nothing reserved) while the HHDM offset is unset.
pub fn map_mmio(state: &mut PagingState, phys_addr: u64, size: usize) -> (r: Option<MmioPlan>)
    requires
        mmio_fits(*old(state), phys_addr, size),
    ensures
        final(state).hhdm == old(state).hhdm,
        old(state).hhdm == 0 ==> r is None && final(state).mmio_next == old(state).mmio_next,
        old(state).hhdm != 0 ==> (r matches Some(plan) && mmio_planned(*old(state), *final(state), phys_addr, size, plan)),
{
    if state.hhdm == 0 {
        return None;
    }
    let offset_in_page = phys_addr & 0xFFF;
    let phys_aligned = phys_addr & !0xFFFu64;
    assert(offset_in_page == phys_addr % 4096 && phys_aligned == phys_addr - phys_addr % 4096) by (bit_vector)
        requires
            offset_in_page == phys_addr & 0xFFF,
            phys_aligned == phys_addr & !0xFFFu64,
    ;
        let pages_needed: u64 = (size as u64 + offset_in_page + PAGE_SIZE - 1) / PAGE_SIZE;
    let ghost n = mmio_pages(size as int, offset_in_page as int);
    assert(pages_needed == n);
    assert(pages_needed * PAGE_SIZE <= size + offset_in_page + PAGE_SIZE - 1) by (nonlinear_arith)
        requires
            pages_needed == (size + offset_in_page + PAGE_SIZE - 1) / PAGE_SIZE as int,
    ;
    let virt_base = state.mmio_next;
    state.mmio_next = state.mmio_next.wrapping_add(pages_needed * PAGE_SIZE);
    let mut pages: Vec<(u64, u64)> = Vec::new();
    let mut i: u64 = 0;
    while i < pages_needed
        invariant
            i <= pages_needed,
            pages_needed == n,
            n > 0 ==> virt_base + (n - 1) * PAGE_SIZE <= u64::MAX,
            n > 0 ==> phys_aligned + (n - 1) * PAGE_SIZE <= u64::MAX,
            pages@.len() == i,
            forall|j: int| 0 <= j < i ==> #[trigger] pages@[j] == (
                (virt_base + j * PAGE_SIZE) as u64, (phys_aligned + j * PAGE_SIZE) as u64),
        decreases pages_needed - i,
    {
        assert(i * PAGE_SIZE <= (n - 1) * PAGE_SIZE) by (nonlinear_arith)
            requires
                i < n,
        ;
        let v = virt_base + i * PAGE_SIZE;
        let p = phys_aligned + i * PAGE_SIZE;
        pages.push((v, p));
        i = i + 1;
    }
    Some(MmioPlan { phys_aligned, virt_base, pages, addr: virt_base + offset_in_page })
}

/// Successive MMIO mappings never overlap and stay in the MMIO region: when
/// the first starts at or above `MMIO_MAP_BASE` and neither reservation runs
/// past the top of the address space, every page of the first mapping lies
/// below every page of the second, and all of them at or above the base.
pub proof fn lemma_mmio_mappings_disjoint(
    s0: PagingState,
    s1: PagingState,
    s2: PagingState,
    phys1: u64,
    size1: usize,
    plan1: MmioPlan,
    phys2: u64,
    size2: usize,
    plan2: MmioPlan,
)
    requires
        mmio_planned(s0, s1, phys1, size1, plan1),
        mmio_planned(s1, s2, phys2, size2, plan2),
        s0.mmio_next >= MMIO_MAP_BASE,
        s0.mmio_next + plan1.pages@.len() * PAGE_SIZE <= u64::MAX,
        s1.mmio_next + plan2.pages@.len() * PAGE_SIZE <= u64::MAX,
    ensures
        s0.mmio_next <= s1.mmio_next <= s2.mmio_next,
        forall|i: int| 0 <= i < plan1.pages@.len() ==> MMIO_MAP_BASE <= #[trigger] plan1.pages@[i].0 < s1.mmio_next,
        forall|j: int| 0 <= j < plan2.pages@.len() ==> s1.mmio_next <= #[trigger] plan2.pages@[j].0 < s2.mmio_next,
        forall|i: int, j: int| 0 <= i < plan1.pages@.len() && 0 <= j < plan2.pages@.len()
            ==> #[trigger] plan1.pages@[i].0 < #[trigger] plan2.pages@[j].0,
{
    let n1 = plan1.pages@.len() as int;
    let n2 = plan2.pages@.len() as int;
    assert(s1.mmio_next == s0.mmio_next + n1 * PAGE_SIZE);
    assert(s2.mmio_next == s1.mmio_next + n2 * PAGE_SIZE);
    assert forall|i: int| 0 <= i < n1 implies MMIO_MAP_BASE <= #[trigger] plan1.pages@[i].0 < s1.mmio_next by {
        assert(i * PAGE_SIZE < n1 * PAGE_SIZE) by (nonlinear_arith)
            requires
                i < n1,
        ;
        assert(plan1.pages@[i].0 == s0.mmio_next + i * PAGE_SIZE);
    }
    assert forall|j: int| 0 <= j < n2 implies s1.mmio_next <= #[trigger] plan2.pages@[j].0 < s2.mmio_next by {
        assert(j * PAGE_SIZE < n2 * PAGE_SIZE) by (nonlinear_arith)
            requires
                j < n2,
        ;
        assert(plan2.pages@[j].0 == s1.mmio_next + j * PAGE_SIZE);
    }
}

/// Take a DMA page for a new page table: its physical address, or `None`
/// when the pool is exhausted.
pub fn alloc_page_table_page(pool: &mut DmaAllocator, hhdm: u64) -> (r: Option<u64>)
    requires
        old(pool).wf(),
        take_safe(old(pool).page_table(), old(pool).added() as int, old(pool).taken() as int, hhdm),
    ensures
        final(pool).wf(),
        final(pool).page_table() == old(pool).page_table(),
        final(pool).added() == old(pool).added(),
        final(pool).taken() == old(pool).taken().wrapping_add(1),
        r == match take_result(old(pool).page_table(), old(pool).added() as int, old(pool).taken() as int, hhdm) {
            Some(p) => Some(p.0),
            None => None,
        },
{
    match alloc_dma_page(pool, hhdm) {
        Some((phys, _virt)) => Some(phys),
        None => None,
    }
}

} // verus!
