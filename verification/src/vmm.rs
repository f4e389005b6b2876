//! Virtual machines and their virtual CPUs.

use vstd::prelude::*;

verus! {

/// Identifies a virtual machine.
pub type VMId = usize;

/// Identifies a virtual CPU within its virtual machine, counted from 0.
pub type VCpuId = usize;

/// The number of an interrupt to inject into a guest.
pub type InterruptVector = u8;

/// The operations on virtual machines that the monitor supplies.
pub trait VmmIf {
    /// The virtual machine that the caller runs in.
    fn current_vm_id() -> VMId;

    /// The virtual CPU that the caller runs on.
    fn current_vcpu_id() -> VCpuId;

    /// The number of virtual CPUs of a virtual machine, or `None` for an
    /// identifier that names none.
    fn vcpu_num(vm_id: VMId) -> Option<usize>;

    /// The virtual CPUs of a virtual machine that are active, bit N for
    /// virtual CPU N, or `None` for an identifier that names none.
    fn active_vcpus(vm_id: VMId) -> Option<usize>;

    /// Queues an interrupt for a virtual CPU.
    fn inject_interrupt(vm_id: VMId, vcpu_id: VCpuId, vector: InterruptVector);

    /// Tells the monitor that a virtual CPU's timer has expired.
    fn notify_vcpu_timer_expired(vm_id: VMId, vcpu_id: VCpuId);
}

/// Whether `I` knows the number of virtual CPUs of the machine that the caller
/// runs in: whatever identifier it reports as current, it answers for it.
pub open spec fn knows_vcpu_num<I: VmmIf>() -> bool {
    forall|vm_id: VMId, num: Option<usize>|
        call_ensures(I::current_vm_id, (), vm_id) && #[trigger] call_ensures(
            I::vcpu_num,
            (vm_id,),
            num,
        ) ==> num is Some
}

/// Whether `I` knows the active virtual CPUs of the machine that the caller
/// runs in: whatever identifier it reports as current, it answers for it.
pub open spec fn knows_active_vcpus<I: VmmIf>() -> bool {
    forall|vm_id: VMId, mask: Option<usize>|
        call_ensures(I::current_vm_id, (), vm_id) && #[trigger] call_ensures(
            I::active_vcpus,
            (vm_id,),
            mask,
        ) ==> mask is Some
}

/// The number of virtual CPUs of the current virtual machine: what the monitor
/// answers for the identifier that it reports as current. It is to be called
/// from within a virtual machine only.
pub fn current_vm_vcpu_num<I: VmmIf>() -> (num: usize)
    requires
        knows_vcpu_num::<I>(),
    ensures
        exists|vm_id: VMId|
            call_ensures(I::current_vm_id, (), vm_id) && call_ensures(
                I::vcpu_num,
                (vm_id,),
                Some(num),
            ),
{
    let vm_id: VMId = I::current_vm_id();
    let answer = I::vcpu_num(vm_id);
    assert(call_ensures(I::current_vm_id, (), vm_id) && call_ensures(I::vcpu_num, (vm_id,), answer));
    answer.unwrap()
}

/// The active virtual CPUs of the current virtual machine, bit N for virtual
/// CPU N: what the monitor answers for the identifier that it reports as
/// current. It is to be called from within a virtual machine only.
pub fn current_vm_active_vcpus<I: VmmIf>() -> (mask: usize)
    requires
        knows_active_vcpus::<I>(),
    ensures
        exists|vm_id: VMId|
            call_ensures(I::current_vm_id, (), vm_id) && call_ensures(
                I::active_vcpus,
                (vm_id,),
                Some(mask),
            ),
{
    let vm_id: VMId = I::current_vm_id();
    let answer = I::active_vcpus(vm_id);
    assert(call_ensures(I::current_vm_id, (), vm_id) && call_ensures(
        I::active_vcpus,
        (vm_id,),
        answer,
    ));
    answer.unwrap()
}

} // verus!
