use vstd::prelude::*;

verus! {

/// What a kernel call answered: its integer return value and the `errno`
/// read right after it. For a mapping request the return value is the
/// region's address, or a negative value when the mapping failed.
#[derive(Clone, Copy, Debug, PartialEq, Eq, Structural)]
pub struct Reply {
    pub ret: i64,
    pub errno: i32,
}

/// The kind of a failure.
#[derive(Clone, Copy, Debug, PartialEq, Eq, Structural)]
pub enum ErrorKind {
    /// The device could not be opened, or the kernel refused a VM or vCPU.
    ResourceUnavailable,
    /// The mapping-size query was rejected.
    QueryFailed,
    /// The mapping-size query returned a size that is not positive or does
    /// not fit an address-space length.
    InvalidSize,
    /// Mapping or unmapping the shared state region was rejected.
    MappingFailed,
    /// Closing a descriptor was rejected.
    ReleaseFailed,
}

/// The step of the session at which a failure happened.
#[derive(Clone, Copy, Debug, PartialEq, Eq, Structural)]
pub enum Stage {
    OpenDevice,
    QueryMappingSize,
    CreateVm,
    CreateVcpu,
    MapState,
    UnmapState,
    CloseVcpu,
    CloseVm,
    CloseDevice,
}

/// A failure, with the kernel's answer kept for diagnostics: `errno` is the
/// OS error code, `ret` the value the call returned.
#[derive(Clone, Copy, Debug, PartialEq, Eq, Structural)]
pub struct BootError {
    pub kind: ErrorKind,
    pub stage: Stage,
    pub errno: i32,
    pub ret: i64,
}

/// The error built from a failed reply at a given stage.
pub open spec fn error_of(kind: ErrorKind, stage: Stage, reply: Reply) -> BootError {
    BootError { kind, stage, errno: reply.errno, ret: reply.ret }
}

impl BootError {
    pub fn new(kind: ErrorKind, stage: Stage, reply: Reply) -> (r: BootError)
        ensures
            r == error_of(kind, stage, reply),
    {
        BootError { kind, stage, errno: reply.errno, ret: reply.ret }
    }
}

/// Turns a C-style return value into a `Result`: a negative value is a
/// failure that carries the OS error code, any other value is kept.
pub fn convert_os_err(ret: i64, errno: i32) -> (r: Result<i64, i32>)
    ensures
        ret < 0 ==> r == Err::<i64, i32>(errno),
        ret >= 0 ==> r == Ok::<i64, i32>(ret),
{
    if ret < 0 {
        Err(errno)
    } else {
        Ok(ret)
    }
}

} // verus!
