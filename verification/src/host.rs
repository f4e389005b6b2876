//! The machine that the hypervisor runs on.

use vstd::prelude::*;

verus! {

/// The operations that describe the host.
pub trait HostIf {
    /// The number of CPUs of the host.
    fn get_host_cpu_num() -> usize;
}

} // verus!
