//! Owning types for the kernel resources of a session. Each one is built only
//! from the kernel's answer to the request that creates it, and only with a
//! reference to the resource it derives from; each is released by a method
//! that consumes it, so a released resource cannot be used or released again.

use vstd::prelude::*;
use crate::error::{BootError, ErrorKind, Reply, Stage, convert_os_err, error_of};

verus! {

/// The open virtualization device.
#[derive(Debug)]
pub struct DeviceHandle {
    fd: i64,
}

/// A virtual machine created on a device.
#[derive(Debug)]
pub struct VmContext {
    fd: i64,
    device: i64,
}

/// A virtual CPU created in a virtual machine.
#[derive(Debug)]
pub struct VcpuContext {
    fd: i64,
    vm: i64,
}

/// The size, in bytes, of a vCPU's shared state region, as the device reported it.
#[derive(Clone, Copy, Debug)]
pub struct MappingSize {
    bytes: usize,
}

/// A vCPU's shared state region, mapped into the process.
#[derive(Debug)]
pub struct SharedStateMapping {
    addr: usize,
    len: usize,
    vcpu: i64,
}

/// What the mapping-size query yields for a kernel reply: the query's error,
/// a rejected size, or the size.
pub open spec fn mapping_size_result(reply: Reply) -> Result<usize, BootError> {
    if reply.ret < 0 {
        Err(error_of(ErrorKind::QueryFailed, Stage::QueryMappingSize, reply))
    } else if reply.ret == 0 || reply.ret > usize::MAX {
        Err(error_of(ErrorKind::InvalidSize, Stage::QueryMappingSize, reply))
    } else {
        Ok(reply.ret as usize)
    }
}

impl DeviceHandle {
    #[verifier::type_invariant]
    spec fn inv(self) -> bool {
        self.fd >= 0
    }

    pub closed spec fn fd(self) -> i64 {
        self.fd
    }

    /// Takes ownership of the descriptor that opening the device returned.
    pub fn open(reply: Reply) -> (r: Result<DeviceHandle, BootError>)
        ensures
            r is Ok <==> reply.ret >= 0,
            r is Ok ==> r->Ok_0.fd() == reply.ret,
            r is Err ==> r->Err_0 == error_of(ErrorKind::ResourceUnavailable, Stage::OpenDevice, reply),
    {
        match convert_os_err(reply.ret, reply.errno) {
            Ok(fd) => Ok(DeviceHandle { fd }),
            Err(_) => Err(BootError::new(ErrorKind::ResourceUnavailable, Stage::OpenDevice, reply)),
        }
    }

    /// The raw descriptor, to issue requests on.
    pub fn descriptor(&self) -> (r: i64)
        ensures
            r == self.fd(),
            r >= 0,
    {
        proof {
            use_type_invariant(self);
        }
        self.fd
    }

    /// Gives up the handle; the caller closes the returned descriptor.
    pub fn release(self) -> (r: i64)
        ensures
            r == self.fd(),
            r >= 0,
    {
        proof {
            use_type_invariant(&self);
        }
        self.fd
    }
}

/// Reads the device's answer to the mapping-size query.
pub fn query_mapping_size(device: &DeviceHandle, reply: Reply) -> (r: Result<MappingSize, BootError>)
    ensures
        match mapping_size_result(reply) {
            Ok(n) => r is Ok && r->Ok_0.bytes() == n,
            Err(e) => r == Err::<MappingSize, BootError>(e),
        },
{
    if reply.ret < 0 {
        Err(BootError::new(ErrorKind::QueryFailed, Stage::QueryMappingSize, reply))
    } else if reply.ret == 0 || reply.ret as u64 > usize::MAX as u64 {
        Err(BootError::new(ErrorKind::InvalidSize, Stage::QueryMappingSize, reply))
    } else {
        Ok(MappingSize { bytes: reply.ret as usize })
    }
}

impl MappingSize {
    #[verifier::type_invariant]
    spec fn inv(self) -> bool {
        self.bytes > 0
    }

    pub closed spec fn bytes(self) -> usize {
        self.bytes
    }

    pub fn len(&self) -> (r: usize)
        ensures
            r == self.bytes(),
            r > 0,
    {
        proof {
            use_type_invariant(self);
        }
        self.bytes
    }
}

impl VmContext {
    #[verifier::type_invariant]
    spec fn inv(self) -> bool {
        self.fd >= 0 && self.device >= 0
    }

    pub closed spec fn fd(self) -> i64 {
        self.fd
    }

    /// The device this virtual machine was created on.
    pub closed spec fn device(self) -> i64 {
        self.device
    }

    /// Takes ownership of the descriptor that the VM-creation request on
    /// `device` returned.
    pub fn create(device: &DeviceHandle, reply: Reply) -> (r: Result<VmContext, BootError>)
        ensures
            r is Ok <==> reply.ret >= 0,
            r is Ok ==> r->Ok_0.fd() == reply.ret && r->Ok_0.device() == device.fd(),
            r is Err ==> r->Err_0 == error_of(ErrorKind::ResourceUnavailable, Stage::CreateVm, reply),
    {
        match convert_os_err(reply.ret, reply.errno) {
            Ok(fd) => Ok(VmContext { fd, device: device.descriptor() }),
            Err(_) => Err(BootError::new(ErrorKind::ResourceUnavailable, Stage::CreateVm, reply)),
        }
    }

    pub fn descriptor(&self) -> (r: i64)
        ensures
            r == self.fd(),
            r >= 0,
    {
        proof {
            use_type_invariant(self);
        }
        self.fd
    }

    /// Gives up the context; the caller closes the returned descriptor.
    pub fn release(self) -> (r: i64)
        ensures
            r == self.fd(),
            r >= 0,
    {
        proof {
            use_type_invariant(&self);
        }
        self.fd
    }
}

impl VcpuContext {
    #[verifier::type_invariant]
    spec fn inv(self) -> bool {
        self.fd >= 0 && self.vm >= 0
    }

    pub closed spec fn fd(self) -> i64 {
        self.fd
    }

    /// The virtual machine this vCPU belongs to.
    pub closed spec fn vm(self) -> i64 {
        self.vm
    }

    /// Takes ownership of the descriptor that the vCPU-creation request on
    /// `vm` returned.
    pub fn create(vm: &VmContext, reply: Reply) -> (r: Result<VcpuContext, BootError>)
        ensures
            r is Ok <==> reply.ret >= 0,
            r is Ok ==> r->Ok_0.fd() == reply.ret && r->Ok_0.vm() == vm.fd(),
            r is Err ==> r->Err_0 == error_of(ErrorKind::ResourceUnavailable, Stage::CreateVcpu, reply),
    {
        match convert_os_err(reply.ret, reply.errno) {
            Ok(fd) => Ok(VcpuContext { fd, vm: vm.descriptor() }),
            Err(_) => Err(BootError::new(ErrorKind::ResourceUnavailable, Stage::CreateVcpu, reply)),
        }
    }

    pub fn descriptor(&self) -> (r: i64)
        ensures
            r == self.fd(),
            r >= 0,
    {
        proof {
            use_type_invariant(self);
        }
        self.fd
    }

    /// Gives up the context; the caller closes the returned descriptor.
    pub fn release(self) -> (r: i64)
        ensures
            r == self.fd(),
            r >= 0,
    {
        proof {
            use_type_invariant(&self);
        }
        self.fd
    }
}

impl SharedStateMapping {
    #[verifier::type_invariant]
    spec fn inv(self) -> bool {
        self.len > 0 && self.vcpu >= 0
    }

    pub closed spec fn addr(self) -> usize {
        self.addr
    }

    pub closed spec fn len(self) -> usize {
        self.len
    }

    /// The vCPU whose state backs the region.
    pub closed spec fn vcpu(self) -> i64 {
        self.vcpu
    }

    /// Takes ownership of the region that mapping `size` bytes of `vcpu`
    /// returned; a negative reply means the mapping failed and nothing is held.
    pub fn map(vcpu: &VcpuContext, size: MappingSize, reply: Reply) -> (r: Result<SharedStateMapping, BootError>)
        ensures
            r is Ok <==> reply.ret >= 0,
            r is Ok ==> r->Ok_0.addr() == reply.ret as usize && r->Ok_0.len() == size.bytes()
                && r->Ok_0.vcpu() == vcpu.fd(),
            r is Err ==> r->Err_0 == error_of(ErrorKind::MappingFailed, Stage::MapState, reply),
    {
        match convert_os_err(reply.ret, reply.errno) {
            Ok(addr) => Ok(SharedStateMapping { addr: addr as usize, len: size.len(), vcpu: vcpu.descriptor() }),
            Err(_) => Err(BootError::new(ErrorKind::MappingFailed, Stage::MapState, reply)),
        }
    }

    pub fn address(&self) -> (r: usize)
        ensures
            r == self.addr(),
    {
        self.addr
    }

    pub fn length(&self) -> (r: usize)
        ensures
            r == self.len(),
            r > 0,
    {
        proof {
            use_type_invariant(self);
        }
        self.len
    }

    /// Gives up the region; the caller unmaps the returned address and length.
    pub fn release(self) -> (r: (usize, usize))
        ensures
            r.0 == self.addr(),
            r.1 == self.len(),
            r.1 > 0,
    {
        proof {
            use_type_invariant(&self);
        }
        (self.addr, self.len)
    }
}

} // verus!
