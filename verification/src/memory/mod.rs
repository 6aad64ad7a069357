//! Kernel memory bookkeeping: the heap, the DMA page pool and MMIO mappings.

pub mod allocator;
pub mod dma;
pub mod paging;
