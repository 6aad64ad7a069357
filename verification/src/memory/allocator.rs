//! Heap set-up.

use vstd::prelude::*;

verus! {

/// Heap size: 64 MB.
pub const HEAP_SIZE: usize = 67108864;

/// Initialize the heap allocator. The allocator claims its static heap on the
/// first allocation, so there is nothing to do here.
pub fn init() {
}

} // verus!
