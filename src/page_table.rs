use vstd::prelude::*;

use crate::cap::PageTableCap;
use crate::PAGE_SIZE;

verus! {

/// Handle on an address-space root page table, known by the byte address at
/// which the table starts.
#[derive(Clone, Copy, Debug, PartialEq, Eq, Structural)]
pub struct PageTable {
    pub addr: usize,
}

impl PageTable {
    /// The page table that starts at byte address `addr`.
    pub fn new(addr: usize) -> (r: Self)
        ensures
            r.addr == addr,
    {
        PageTable { addr }
    }

    /// The page table that a page-table capability refers to.
    pub fn from_cap(cap: &PageTableCap) -> (r: Self)
        ensures
            r.addr == cap.frame() * PAGE_SIZE,
    {
        PageTable { addr: cap.base_ptr() * PAGE_SIZE }
    }

    pub fn get_ptr(&self) -> (r: usize)
        ensures
            r == self.addr,
    {
        self.addr
    }
}

} // verus!
