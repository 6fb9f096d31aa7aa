//! Physical memory frames: owned 4K physical pages obtained from a
//! host-supplied allocator, used to back the per-vCPU control structures and
//! the nested page tables.

use vstd::prelude::*;

use crate::err::HvError;
use crate::PAGE_SIZE;

verus! {

/// The capabilities the host must supply for physical-frame management:
/// allocate one page, free one page, and translate a physical address into
/// an address through which the page's bytes can be accessed. These are the
/// only points where this layer touches memory management outside its own
/// frame, and the host must make allocation and freeing safe to call
/// concurrently from multiple cores.
///
/// Implementations outside this crate are not verified; they are trusted to
/// meet the stated contracts, in particular that an allocated page's address
/// is never the null physical address.
pub trait FrameHal: Sized {
    /// Requests one free physical page from the host and returns its base
    /// address, or `None` when no page is available. A returned address is
    /// never null.
    fn alloc_frame(&self) -> (r: Option<usize>)
        ensures
            r matches Some(paddr) ==> paddr != 0,
    ;

    /// Returns a page previously handed out by `alloc_frame` to the host.
    fn dealloc_frame(&self, paddr: usize);

    /// The translation `phys_to_virt` returns for `paddr`: a function of
    /// this host and the address alone. An implementation with a mapping of
    /// its own overrides this; the default is the identity, the
    /// direct-mapped host.
    open spec fn spec_phys_to_virt(&self, paddr: usize) -> usize {
        paddr
    }

    /// Translates the physical base address of an allocated page into an
    /// address through which the page's bytes can be read and written.
    fn phys_to_virt(&self, paddr: usize) -> (r: usize)
        ensures
            r == self.spec_phys_to_virt(paddr),
    ;

    /// Writes `byte` to `len` consecutive bytes starting at the accessible
    /// address `vaddr`, which must lie within a translation obtained from
    /// `phys_to_virt`.
    fn write_bytes(&self, vaddr: usize, byte: u8, len: usize);
}

/// A 4K-sized contiguous physical memory page; the page is returned to the
/// host allocator when the frame is destroyed with `release`.
///
/// A frame may also be an unallocated placeholder that owns no page, used
/// only to satisfy eager field initialization before the real page is known;
/// a placeholder's contents must never be accessed.
pub struct PhysFrame<H: FrameHal> {
    start_paddr: Option<usize>,
    hal: H,
}

impl<H: FrameHal> PhysFrame<H> {
    /// True when this frame owns a backing page.
    pub closed spec fn is_allocated(self) -> bool {
        self.start_paddr is Some
    }

    /// The backing page's base physical address (meaningful only when the
    /// frame is allocated).
    pub closed spec fn paddr(self) -> usize {
        match self.start_paddr {
            Some(p) => p,
            None => 0,
        }
    }

    /// A frame that owns a page records a non-null physical address.
    pub closed spec fn wf(self) -> bool {
        self.start_paddr matches Some(p) ==> p != 0
    }

    /// The host's translation of the backing page's base address: where the
    /// access window returned by `as_mut_vaddr` begins.
    pub closed spec fn spec_vaddr(self) -> usize {
        self.hal.spec_phys_to_virt(self.paddr())
    }

    /// Turns the host allocator's answer into the allocation result: a
    /// returned page becomes an allocated frame recording that very address,
    /// and no page is the out-of-memory error. A null returned address would
    /// be a broken host; the precondition holds the host to its contract.
    pub fn from_alloc_answer(hal: H, answer: Option<usize>) -> (r: Result<Self, HvError>)
        requires
            answer matches Some(paddr) ==> paddr != 0,
        ensures
            answer matches Some(paddr) ==> (r matches Ok(f) && f.wf() && f.is_allocated()
                && f.paddr() == paddr),
            answer is None ==> (r matches Err(e) && e == HvError::NoMemory),
    {
        match answer {
            Some(start_paddr) => Ok(PhysFrame { start_paddr: Some(start_paddr), hal }),
            None => Err(HvError::NoMemory),
        }
    }

    /// Allocates one physical page through the host capability: asks the
    /// host for a page and decodes its answer with `from_alloc_answer`, so
    /// an `Ok` frame records the very address the host returned and
    /// `NoMemory` comes exactly when the host had no page.
    pub fn allocate(hal: H) -> (r: Result<Self, HvError>)
        ensures
            r matches Ok(f) ==> f.wf() && f.is_allocated() && f.paddr() != 0,
            r matches Err(e) ==> e == HvError::NoMemory,
    {
        let answer = hal.alloc_frame();
        Self::from_alloc_answer(hal, answer)
    }

    /// Allocates one physical page and fills it with zero bytes. Fails with
    /// `NoMemory` exactly when the host has no page available.
    pub fn alloc_zero(hal: H) -> (r: Result<Self, HvError>)
        ensures
            r matches Ok(f) ==> f.wf() && f.is_allocated() && f.paddr() != 0,
            r matches Err(e) ==> e == HvError::NoMemory,
    {
        match Self::allocate(hal) {
            Ok(mut f) => {
                f.fill(0);
                Ok(f)
            },
            Err(e) => Err(e),
        }
    }

    /// Produces a placeholder that owns no page. Its contents must never be
    /// accessed; the accessors below exclude it by precondition.
    pub fn uninit(hal: H) -> (r: Self)
        ensures
            !r.is_allocated(),
            r.wf(),
    {
        PhysFrame { start_paddr: None, hal }
    }

    /// The backing page's base physical address. Calling this on a
    /// placeholder is a programmer error and is excluded by precondition.
    pub fn start_paddr(&self) -> (r: usize)
        requires
            self.is_allocated(),
            self.wf(),
        ensures
            r == self.paddr(),
            r != 0,
    {
        match self.start_paddr {
            Some(p) => p,
            None => vstd::pervasive::unreached(),
        }
    }

    /// Like `start_paddr`, but total: reading the address of a placeholder
    /// fails with `None` instead of being a caller error.
    pub fn try_start_paddr(&self) -> (r: Option<usize>)
        ensures
            self.is_allocated() ==> r == Some(self.paddr()),
            !self.is_allocated() ==> r is None,
    {
        self.start_paddr
    }

    /// The accessible address of the page's first byte: the host's
    /// physical-to-virtual translation of the frame's own page. The access
    /// window is one page wide and must not be retained past the frame's
    /// lifetime.
    pub fn as_mut_vaddr(&self) -> (r: usize)
        requires
            self.is_allocated(),
            self.wf(),
        ensures
            r == self.spec_vaddr(),
    {
        let paddr = self.start_paddr();
        self.hal.phys_to_virt(paddr)
    }

    /// Writes `byte` across the whole backing page.
    pub fn fill(&mut self, byte: u8)
        requires
            old(self).is_allocated(),
            old(self).wf(),
        ensures
            *final(self) == *old(self),
    {
        let vaddr = self.as_mut_vaddr();
        self.hal.write_bytes(vaddr, byte, PAGE_SIZE);
    }

    /// Destroys the frame: returns the backing page, if any, to the host
    /// allocator; releasing a placeholder does nothing. Because `release`
    /// consumes the frame, an allocated page is freed at most once, and a
    /// released frame can no longer be accessed.
    pub fn release(self) {
        if let Some(paddr) = self.start_paddr {
            self.hal.dealloc_frame(paddr);
        }
    }
}

} // verus!

