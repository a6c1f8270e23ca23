//! The handle of the allocator that the host database provides.

use vstd::prelude::*;

verus! {

/// The allocator that the embedding database lends to this library. It holds
/// no state: allocation and release are the host's own calls.
pub struct DuckDBAllocator {}

impl DuckDBAllocator {
    /// An allocator handle.
    pub fn new() -> (r: DuckDBAllocator)
        ensures
            r == (DuckDBAllocator {}),
    {
        DuckDBAllocator {}
    }
}

} // verus!
