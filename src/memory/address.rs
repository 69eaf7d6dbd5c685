//! Physical addresses.
use vstd::prelude::*;

verus! {

/// A physical memory address, kept apart from plain integers and virtual
/// addresses by its type.
#[derive(Clone, Copy, Debug, PartialEq, Eq, PartialOrd, Ord, Structural)]
pub struct PhysicalAddress(pub usize);

impl PhysicalAddress {
    /// The address as a number.
    pub fn as_usize(&self) -> (r: usize)
        ensures
            r == self.0,
    {
        self.0
    }
}

} // verus!
