//! Access to the memory of the target, and what a read gives.
use vstd::prelude::*;
use crate::error::ReadError;

verus! {

/// The size of a page of target memory, in bytes.
pub const PAGE_SIZE: usize = 0x1000;

/// What every read of a target's memory gives: the memory as the library
/// sees it during one run.
pub struct MemoryView {
    /// The outcome of a read of physical memory, by address and length.
    pub physical: spec_fn(u64, nat) -> Result<Seq<u8>, ReadError>,
    /// The outcome of a read of virtual memory, by translation root,
    /// address and length.
    pub translated: spec_fn(u64, u64, nat) -> Result<Seq<u8>, ReadError>,
}

/// The bytes or the error that a read handed back.
pub open spec fn read_outcome(r: Result<Vec<u8>, ReadError>) -> Result<Seq<u8>, ReadError> {
    match r {
        Ok(bytes) => Ok(bytes@),
        Err(e) => Err(e),
    }
}

/// The capability that the caller supplies: reads of physical memory, and
/// reads of virtual memory under a translation root.
///
/// An implementation promises that during one run the same read gives the
/// same outcome, and that a read that succeeds gives as many bytes as were
/// asked for.
pub trait MemoryAccess {
    spec fn view(&self) -> MemoryView;

    fn read_physical(&mut self, address: u64, length: usize) -> (r: Result<Vec<u8>, ReadError>)
        ensures
            final(self).view() == old(self).view(),
            read_outcome(r) == (old(self).view().physical)(address, length as nat),
            r matches Ok(bytes) ==> bytes@.len() == length,
    ;

    fn read_virtual(&mut self, root: u64, address: u64, length: usize) -> (r: Result<
        Vec<u8>,
        ReadError,
    >)
        ensures
            final(self).view() == old(self).view(),
            read_outcome(r) == (old(self).view().translated)(root, address, length as nat),
            r matches Ok(bytes) ==> bytes@.len() == length,
    ;
}

} // verus!
