use vstd::prelude::*;

verus! {

/// Path of the virtualization device node.
pub const DEVICE_PATH: &'static str = "/dev/kvm";

/// Request code that creates a virtual machine on the device descriptor.
pub const KVM_CREATE_VM: u64 = 0xae01;

/// Request code that creates a virtual CPU on a virtual machine descriptor.
pub const KVM_CREATE_VCPU: u64 = 0xae41;

/// Request code that asks the device for the size of a vCPU's shared state region.
pub const KVM_GET_VCPU_MMAP_SIZE: u64 = 0xae04;

/// The host kernel's request codes, so that another host ABI can supply its own.
#[derive(Clone, Copy, Debug, PartialEq, Eq, Structural)]
pub struct RequestCodes {
    pub create_vm: u64,
    pub create_vcpu: u64,
    pub get_vcpu_mmap_size: u64,
}

impl RequestCodes {
    /// The request codes of the Linux KVM interface.
    pub fn kvm() -> (r: RequestCodes)
        ensures
            r.create_vm == KVM_CREATE_VM,
            r.create_vcpu == KVM_CREATE_VCPU,
            r.get_vcpu_mmap_size == KVM_GET_VCPU_MMAP_SIZE,
    {
        RequestCodes {
            create_vm: KVM_CREATE_VM,
            create_vcpu: KVM_CREATE_VCPU,
            get_vcpu_mmap_size: KVM_GET_VCPU_MMAP_SIZE,
        }
    }
}

} // verus!
