//! The typed addressing error a memory region reports, so that each region
//! stays self-contained and testable in isolation.

use vstd::prelude::*;

verus! {

/// A region-local addressing error.
#[derive(Clone, Copy, Debug, PartialEq, Eq, Structural)]
pub enum MemoryError {
    /// The address lies outside the region's range.
    InvalidAddress(u16),
    /// The address lies inside the region's range, but the region rejects
    /// writes.
    WriteNotAllowed(u16),
}

} // verus!
