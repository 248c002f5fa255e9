use vstd::prelude::*;

verus! {

/// A wait that never times out, as the system encodes it.
pub const INFINITE_WAIT: u32 = 0xFFFF_FFFF;

/// The timeout, in milliseconds, of the default configuration.
pub const DEFAULT_WAIT_TIMEOUT_MS: u32 = 10_000;

/// How the target is made to run the module.
#[derive(Debug, Clone, Copy, PartialEq, Eq, Structural)]
pub enum InjectionMethod {
    /// Write the module's path into the target and start a thread at the
    /// target's own library loader.
    LoadLibraryInvocation,
    /// Lay the module's image out in the target and start a thread at the
    /// image's own entry point.
    ManualMap,
}

/// The settings of an injector: which method, how long to wait for the remote
/// thread, and whether transient allocations are freed after a run that
/// succeeded. Allocations are always freed after a failure.
#[derive(Debug, Clone, Copy, PartialEq, Eq, Structural)]
pub struct Config {
    pub method: InjectionMethod,
    pub wait_timeout_ms: u32,
    pub free_transient_allocations: bool,
}

impl Config {
    /// A configuration with a finite wait: a `timeout` of `INFINITE_WAIT` is
    /// brought down by one millisecond.
    pub fn new(method: InjectionMethod, timeout_ms: u32, free_transient_allocations: bool) -> (r:
        Config)
        ensures
            r.method == method,
            r.wait_timeout_ms == (if timeout_ms == INFINITE_WAIT {
                (INFINITE_WAIT - 1) as u32
            } else {
                timeout_ms
            }),
            r.free_transient_allocations == free_transient_allocations,
            r.wf(),
    {
        let t: u32 = if timeout_ms == INFINITE_WAIT {
            INFINITE_WAIT - 1
        } else {
            timeout_ms
        };
        Config { method, wait_timeout_ms: t, free_transient_allocations }
    }

    /// The wait is bounded.
    pub open spec fn wf(&self) -> bool {
        self.wait_timeout_ms != INFINITE_WAIT
    }
}

impl Default for Config {
    /// Loader invocation, a ten-second wait, transient allocations freed.
    fn default() -> (r: Config)
        ensures
            r.method == InjectionMethod::LoadLibraryInvocation,
            r.wait_timeout_ms == DEFAULT_WAIT_TIMEOUT_MS,
            r.free_transient_allocations,
            r.wf(),
    {
        Config {
            method: InjectionMethod::LoadLibraryInvocation,
            wait_timeout_ms: DEFAULT_WAIT_TIMEOUT_MS,
            free_transient_allocations: true,
        }
    }
}

} // verus!
