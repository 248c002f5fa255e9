use vstd::prelude::*;

verus! {

/// Right to create a thread in the process.
pub const PROCESS_CREATE_THREAD: u32 = 0x0002;
/// Right to allocate and reprotect memory in the process.
pub const PROCESS_VM_OPERATION: u32 = 0x0008;
/// Right to read the process's memory.
pub const PROCESS_VM_READ: u32 = 0x0010;
/// Right to write the process's memory.
pub const PROCESS_VM_WRITE: u32 = 0x0020;
/// Right to query the process, needed by thread creation.
pub const PROCESS_QUERY_INFORMATION: u32 = 0x0400;

/// Pages that can be read and written, not executed.
pub const PAGE_READWRITE: u32 = 0x04;
/// Pages that can be executed, read and written.
pub const PAGE_EXECUTE_READWRITE: u32 = 0x40;

/// The wait ended because the object was signalled.
pub const WAIT_OBJECT_0: u32 = 0;
/// The wait ended because its time ran out.
pub const WAIT_TIMEOUT: u32 = 0x102;
/// The wait itself failed.
pub const WAIT_FAILED: u32 = 0xFFFF_FFFF;

/// How a wait on a handle ended.
#[derive(Debug, Clone, Copy, PartialEq, Eq, Structural)]
pub enum WaitStatus {
    Signaled,
    TimedOut,
    Abandoned,
    Failed,
}

/// What a status code returned by a wait means.
pub open spec fn spec_wait_status(code: u32) -> WaitStatus {
    if code == WAIT_OBJECT_0 {
        WaitStatus::Signaled
    } else if code == WAIT_TIMEOUT {
        WaitStatus::TimedOut
    } else if code == WAIT_FAILED {
        WaitStatus::Failed
    } else {
        WaitStatus::Abandoned
    }
}

/// Reads the status code returned by a wait on a single handle.
pub fn wait_status(code: u32) -> (r: WaitStatus)
    ensures
        r == spec_wait_status(code),
{
    if code == WAIT_OBJECT_0 {
        WaitStatus::Signaled
    } else if code == WAIT_TIMEOUT {
        WaitStatus::TimedOut
    } else if code == WAIT_FAILED {
        WaitStatus::Failed
    } else {
        WaitStatus::Abandoned
    }
}

/// The access rights that an injection asks for when it opens the target:
/// memory read, write and allocation, and thread creation.
pub open spec fn spec_injection_access() -> u32 {
    PROCESS_CREATE_THREAD | PROCESS_QUERY_INFORMATION | PROCESS_VM_OPERATION | PROCESS_VM_WRITE
        | PROCESS_VM_READ
}

pub fn injection_access() -> (r: u32)
    ensures
        r == spec_injection_access(),
        r & PROCESS_CREATE_THREAD != 0,
        r & PROCESS_VM_OPERATION != 0,
        r & PROCESS_VM_WRITE != 0,
        r & PROCESS_VM_READ != 0,
{
    let r = PROCESS_CREATE_THREAD | PROCESS_QUERY_INFORMATION | PROCESS_VM_OPERATION
        | PROCESS_VM_WRITE | PROCESS_VM_READ;
    assert(r == 0x43Au32) by (bit_vector)
        requires r == 0x0002u32 | 0x0400u32 | 0x0008u32 | 0x0020u32 | 0x0010u32;
    assert(r & 0x0002u32 != 0 && r & 0x0008u32 != 0 && r & 0x0020u32 != 0 && r & 0x0010u32 != 0)
        by (bit_vector)
        requires r == 0x43Au32;
    r
}

} // verus!
