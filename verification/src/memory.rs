//! Physical frames and the translation between physical and virtual addresses.

use memory_addr::PhysAddr;
use memory_addr::VirtAddr;
use vstd::prelude::*;

verus! {

/// `memory_addr::PhysAddr`: a physical memory address.
#[verifier::external_type_specification]
#[verifier::external_body]
pub struct ExPhysAddr(memory_addr::PhysAddr);

/// `memory_addr::VirtAddr`: a virtual memory address.
#[verifier::external_type_specification]
#[verifier::external_body]
pub struct ExVirtAddr(memory_addr::VirtAddr);

/// The operations on memory that the host supplies.
pub trait MemoryIf {
    /// Allocates one frame, or returns `None` when none is left.
    fn alloc_frame() -> Option<PhysAddr>;

    /// Allocates `num_frames` frames in a row, the first aligned to
    /// `2^frame_align_pow2` frames, or returns `None`.
    fn alloc_contiguous_frames(num_frames: usize, frame_align_pow2: usize) -> Option<PhysAddr>;

    /// Frees a frame that [`MemoryIf::alloc_frame`] returned.
    fn dealloc_frame(addr: PhysAddr);

    /// Frees frames that [`MemoryIf::alloc_contiguous_frames`] returned.
    fn dealloc_contiguous_frames(first_addr: PhysAddr, num_frames: usize);

    /// The virtual address at which the host maps a physical address.
    fn phys_to_virt(addr: PhysAddr) -> VirtAddr;

    /// The physical address that a virtual address of the host maps to.
    fn virt_to_phys(addr: VirtAddr) -> PhysAddr;
}

/// The memory operations in the shape that an address space asks for: each
/// hands its arguments to the implementation `I` and returns what comes back.
pub struct AxMmHalApiImpl;

impl AxMmHalApiImpl {
    /// Allocates one frame through `I`.
    pub fn alloc_frame<I: MemoryIf>() -> (frame: Option<PhysAddr>)
        ensures
            call_ensures(I::alloc_frame, (), frame),
    {
        I::alloc_frame()
    }

    /// Frees one frame through `I`.
    pub fn dealloc_frame<I: MemoryIf>(addr: PhysAddr)
        ensures
            call_ensures(I::dealloc_frame, (addr,), ()),
    {
        I::dealloc_frame(addr)
    }

    /// Translates a physical address through `I`.
    pub fn phys_to_virt<I: MemoryIf>(addr: PhysAddr) -> (virt: VirtAddr)
        ensures
            call_ensures(I::phys_to_virt, (addr,), virt),
    {
        I::phys_to_virt(addr)
    }

    /// Translates a virtual address through `I`.
    pub fn virt_to_phys<I: MemoryIf>(addr: VirtAddr) -> (phys: PhysAddr)
        ensures
            call_ensures(I::virt_to_phys, (addr,), phys),
    {
        I::virt_to_phys(addr)
    }
}

} // verus!
