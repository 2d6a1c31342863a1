//! The paging model: bring-up identity-maps every page of RAM the memory
//! map reports, then unmaps the page at virtual address zero so that a
//! null dereference faults deterministically.
use vstd::prelude::*;

verus! {

/// Bytes per page.
pub const PAGE_SIZE: usize = 4096;

/// The CPU exception vector raised by a page fault.
pub const VECTOR_PAGE_FAULT: usize = 0x0E;

/// The address-translation state after bring-up: pages `1..ram_pages` are
/// identity-mapped, page `0` is unmapped.
pub struct Paging {
    pub ram_pages: usize,
}

impl Paging {
    /// Build the identity mapping over `ram_pages` pages of RAM and unmap
    /// the first page.
    pub fn init(ram_pages: usize) -> (p: Paging)
        ensures
            p.ram_pages == ram_pages,
    {
        Paging { ram_pages }
    }

    /// Whether a virtual address translates at all.
    pub open spec fn spec_mapped(self, vaddr: usize) -> bool {
        (vaddr as int) / (PAGE_SIZE as int) >= 1 && (vaddr as int) / (PAGE_SIZE as int)
            < self.ram_pages
    }

    /// The physical address a load from `vaddr` reaches, or the exception
    /// vector it raises. Any load from the first page — in particular from
    /// virtual address zero — raises the page-fault vector.
    pub fn load(&self, vaddr: usize) -> (r: Result<usize, usize>)
        ensures
            self.spec_mapped(vaddr) ==> r == Ok::<usize, usize>(vaddr),
            !self.spec_mapped(vaddr) ==> r == Err::<usize, usize>(VECTOR_PAGE_FAULT),
            vaddr < PAGE_SIZE ==> r == Err::<usize, usize>(VECTOR_PAGE_FAULT),
    {
        let page = vaddr / PAGE_SIZE;
        if page >= 1 && page < self.ram_pages {
            Ok(vaddr)
        } else {
            Err(VECTOR_PAGE_FAULT)
        }
    }
}

} // verus!
