//! The capability a memory region offers the bus: reads and writes with
//! region-relative bounds checking, reported through a typed error.

use vstd::prelude::*;
use crate::error::memory_error::MemoryError;

verus! {

/// A fixed-size memory region owning the addresses `lo()..=hi()`.
///
/// `contents()` is the region's byte content, indexed from `lo()`. A region
/// that does not accept writes (`accepts_writes()` false) rejects every write
/// with a typed error; every region rejects addresses outside its own range,
/// so that a routing bug in a caller surfaces as an error value rather than
/// as silent corruption.
pub trait BUS: Sized {
    /// First address the region owns.
    spec fn lo(&self) -> u16;

    /// Last address the region owns.
    spec fn hi(&self) -> u16;

    /// Whether the region accepts writes at all.
    spec fn accepts_writes(&self) -> bool;

    /// The region's backing store has its fixed size.
    spec fn wf(&self) -> bool;

    /// The region's bytes, indexed from `lo()`.
    spec fn contents(&self) -> Seq<u8>;

    /// The byte at `address`, or `InvalidAddress` when the region does not
    /// own it.
    fn read(&self, address: u16) -> (r: Result<u8, MemoryError>)
        requires
            self.wf(),
        ensures
            self.lo() <= address <= self.hi() ==> r == Ok::<u8, MemoryError>(
                self.contents()[address - self.lo()],
            ),
            !(self.lo() <= address <= self.hi()) ==> r == Err::<u8, MemoryError>(
                MemoryError::InvalidAddress(address),
            ),
    ;

    /// Stores `value` at `address`, or reports why it cannot: the region
    /// does not own the address, or does not accept writes.
    fn write(&mut self, address: u16, value: u8) -> (r: Result<(), MemoryError>)
        requires
            old(self).wf(),
        ensures
            final(self).wf(),
            final(self).lo() == old(self).lo(),
            final(self).hi() == old(self).hi(),
            final(self).accepts_writes() == old(self).accepts_writes(),
            old(self).lo() <= address <= old(self).hi() && old(self).accepts_writes() ==> (r
                == Ok::<(), MemoryError>(()) && final(self).contents() == old(
                self,
            ).contents().update(address - old(self).lo(), value)),
            old(self).lo() <= address <= old(self).hi() && !old(self).accepts_writes() ==> (r
                == Err::<(), MemoryError>(MemoryError::WriteNotAllowed(address)) && *final(self)
                == *old(self)),
            !(old(self).lo() <= address <= old(self).hi()) ==> (r == Err::<(), MemoryError>(
                MemoryError::InvalidAddress(address),
            ) && *final(self) == *old(self)),
    ;
}

} // verus!
