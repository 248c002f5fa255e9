use vstd::prelude::*;

verus! {

/// A failed operating-system call, with the error code that the system
/// reported for it.
#[derive(Debug, Clone, Copy, PartialEq, Eq, Structural)]
pub enum Error {
    /// A handle could not be obtained, used or closed.
    Handle(u32),
    /// A memory operation (query, protect, read, write, free) failed.
    MemoryError(u32),
    /// Memory could not be allocated or reprotected in another process.
    Allocation(u32),
    /// A wait did not end with the object signalled.
    Timeout,
    /// A thread could not be created.
    ProcessError(u32),
    /// An exported symbol could not be found.
    ProcessAddress(u32),
    /// A console could not be allocated.
    ConsoleAllocation(u32),
    /// The console could not be freed.
    ConsoleDeallocation(u32),
}

/// Why an injection attempt failed.
#[derive(Debug, Clone, Copy, PartialEq, Eq, Structural)]
pub enum InjectionError {
    /// The target process could not be opened: it is gone, or access was denied.
    TargetUnreachable,
    /// Memory could not be reserved inside the target.
    AllocationFailed,
    /// The staged data could not be written whole into the target.
    WriteFailed,
    /// The entry point could not be resolved or made executable.
    SymbolResolutionFailed,
    /// The remote thread could not be created, or the loader it ran failed.
    RemoteExecutionFailed,
    /// The remote thread did not signal completion within the configured time.
    Timeout,
    /// A transient allocation or a handle could not be released.
    CleanupFailed,
    /// The module was missing or unusable before any system call was made.
    InvalidInput,
}

} // verus!
