//! Sizes fixed at build time.
use vstd::prelude::*;

verus! {

/// Size in bytes of the region handed to the kernel's heap allocator (8 MiB).
pub const KERNEL_HEAP_SIZE: usize = 0x80_0000;

} // verus!
