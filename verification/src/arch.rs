//! Operations that belong to one CPU architecture.
//!
//! All of them concern the interrupt controller of AArch64 hosts.

use crate::vmm::InterruptVector;
use memory_addr::PhysAddr;
use vstd::prelude::*;

verus! {

/// The architecture's operations that the host supplies.
pub trait ArchIf {
    /// Injects a virtual interrupt into the current virtual CPU through the
    /// interrupt controller's virtualization interface.
    fn hardware_inject_virtual_interrupt(vector: InterruptVector);

    /// The distributor's type register.
    fn read_vgicd_typer() -> u32;

    /// The distributor's implementer identification register.
    fn read_vgicd_iidr() -> u32;

    /// The physical address of the host's distributor.
    fn get_host_gicd_base() -> PhysAddr;

    /// The physical address of the host's redistributor.
    fn get_host_gicr_base() -> PhysAddr;
}

} // verus!
