use vstd::prelude::*;
use crate::config::{Config, InjectionMethod};
use crate::error::InjectionError;
use crate::image::{ImageInfo, load_image, parse_image, spec_image_valid, spec_loaded_image};
use crate::os::{PAGE_EXECUTE_READWRITE, PAGE_READWRITE, injection_access, spec_injection_access};

verus! {

/// The module, already present in every target, whose loader is invoked.
pub const LOADER_MODULE: &'static str = "kernel32.dll";
/// The loader's exported entry point, which takes a path to a module.
pub const LOADER_SYMBOL: &'static str = "LoadLibraryA";

/// What a successful injection hands back.
#[derive(Debug, Clone, Copy, PartialEq, Eq, Structural)]
pub struct Injected {
    /// Where the module lies inside the target: the staged region for a
    /// manual map; for loader invocation, the loader's return value as far as
    /// the thread's exit code carries it.
    pub module_base: usize,
    /// The remote thread's exit code.
    pub exit_code: u32,
}

/// A system call that the caller performs for the engine, or the end of the
/// attempt.
#[derive(Debug, PartialEq, Eq)]
pub enum Action {
    /// Open the target with these access rights.
    OpenProcess { pid: u32, access: u32 },
    /// Reserve and commit `size` bytes in the target with this protection.
    Allocate { size: usize, protection: u32 },
    /// Write `data` into the target at `address`.
    Write { address: usize, data: Vec<u8> },
    /// Find the address of `symbol`, exported by `module`.
    ResolveExport { module: &'static str, symbol: &'static str },
    /// Change the protection of a region of the target.
    Protect { address: usize, size: usize, protection: u32 },
    /// Start a thread in the target at `entry`, with `argument` as its one
    /// parameter (zero stands for none).
    CreateRemoteThread { entry: usize, argument: usize },
    /// Wait for the remote thread, at most `timeout_ms` milliseconds.
    Wait { timeout_ms: u32 },
    /// Release the region of the target at `address`.
    Free { address: usize },
    /// Close the target's handle.
    CloseHandle,
    /// The attempt is over, with this outcome.
    Finish(Result<Injected, InjectionError>),
}

/// How the caller's last system call went.
#[derive(Debug, Clone, Copy, PartialEq, Eq, Structural)]
pub enum Reply {
    /// The call failed, or, for a wait, the thread did not signal in time.
    Failed,
    /// The call succeeded, with this value: the address it returned, or the
    /// number of bytes it wrote.
    Value(usize),
    /// The remote thread signalled completion with this exit code.
    Exited(u32),
}

/// Where an attempt stands: the reply it awaits next.
#[derive(Debug, Clone, Copy, PartialEq, Eq, Structural)]
pub enum Phase {
    Opening,
    Allocating,
    Writing,
    Resolving,
    Protecting,
    CreatingThread,
    Waiting,
    Freeing,
    Closing,
    Done,
}

/// A region reserved inside the target.
#[derive(Debug, Clone, Copy, PartialEq, Eq, Structural)]
pub struct RemoteAllocation {
    pub base: usize,
    pub size: usize,
    pub protection: u32,
    /// The region has become the loaded module's own image, which the target
    /// keeps.
    pub persistent: bool,
    /// Its release was requested.
    pub freed: bool,
}

/// The value carried by a reply to any call but a wait.
pub open spec fn reply_value(r: Reply) -> Option<usize> {
    match r {
        Reply::Value(v) => Some(v),
        _ => None,
    }
}

/// How far an attempt is from its end: every step brings it closer.
pub open spec fn phase_rank(p: Phase) -> nat {
    match p {
        Phase::Opening => 8,
        Phase::Allocating => 7,
        Phase::Writing => 6,
        Phase::Resolving => 5,
        Phase::Protecting => 5,
        Phase::CreatingThread => 4,
        Phase::Waiting => 3,
        Phase::Freeing => 2,
        Phase::Closing => 1,
        Phase::Done => 0,
    }
}

/// A module path that can be handed to the loader: not empty, no NUL byte.
pub open spec fn spec_path_valid(p: Seq<u8>) -> bool {
    p.len() > 0 && forall|i: int| 0 <= i < p.len() ==> p[i] != 0
}

/// Failures that come before any remote thread could be requested.
pub open spec fn before_execution(e: InjectionError) -> bool {
    match e {
        InjectionError::TargetUnreachable | InjectionError::AllocationFailed
        | InjectionError::WriteFailed | InjectionError::SymbolResolutionFailed
        | InjectionError::InvalidInput => true,
        _ => false,
    }
}

pub open spec fn has_free(h: Seq<Action>) -> bool {
    exists|i: int| 0 <= i < h.len() && h[i] is Free
}

pub open spec fn frees_at_most_once(h: Seq<Action>) -> bool {
    forall|i: int, j: int| 0 <= i < j < h.len() ==> !(#[trigger] h[i] is Free && #[trigger] h[j] is Free)
}

/// Every wait handed out is bounded by `t` milliseconds.
pub open spec fn waits_within(h: Seq<Action>, t: u32) -> bool {
    forall|i: int| 0 <= i < h.len() && #[trigger] h[i] is Wait ==> h[i]->timeout_ms == t
}

pub open spec fn has_action(h: Seq<Action>, a: Action) -> bool {
    exists|i: int| 0 <= i < h.len() && h[i] == a
}

/// What appending an action does to the facts kept about the history.
pub proof fn lemma_history_push(h: Seq<Action>, a: Action)
    ensures
        !(a is Free) ==> has_free(h.push(a)) == has_free(h),
        !(a is Free) && frees_at_most_once(h) ==> frees_at_most_once(h.push(a)),
        a is Free ==> has_free(h.push(a)),
        a is Free && !has_free(h) ==> frees_at_most_once(h.push(a)),
        !(a is CreateRemoteThread) ==> has_thread_request(h.push(a)) == has_thread_request(h),
        a is CreateRemoteThread ==> has_thread_request(h.push(a)),
        has_action(h.push(a), a),
        forall|x: Action| has_action(h, x) ==> has_action(h.push(a), x),
        forall|t: u32| waits_within(h, t) && (a is Wait ==> a->timeout_ms == t) ==> waits_within(
            h.push(a),
            t,
        ),
{
    let g = h.push(a);
    assert forall|i: int| 0 <= i < h.len() implies g[i] == h[i] by {}
    assert(g[h.len() as int] == a);
    if has_free(g) && !(a is Free) {
        let i = choose|i: int| 0 <= i < g.len() && g[i] is Free;
        assert(h[i] is Free);
    }
    if has_free(h) {
        let i = choose|i: int| 0 <= i < h.len() && h[i] is Free;
        assert(g[i] is Free);
    }
    if has_thread_request(g) && !(a is CreateRemoteThread) {
        let i = choose|i: int| 0 <= i < g.len() && g[i] is CreateRemoteThread;
        assert(h[i] is CreateRemoteThread);
    }
    if has_thread_request(h) {
        let i = choose|i: int| 0 <= i < h.len() && h[i] is CreateRemoteThread;
        assert(g[i] is CreateRemoteThread);
    }
    assert forall|x: Action| has_action(h, x) implies has_action(g, x) by {
        let i = choose|i: int| 0 <= i < h.len() && h[i] == x;
        assert(g[i] == x);
    }
    if !(a is Free) && frees_at_most_once(h) {
        assert forall|i: int, j: int| 0 <= i < j < g.len() implies !(#[trigger] g[i] is Free
            && #[trigger] g[j] is Free) by {
            if j < h.len() {
                assert(g[i] == h[i] && g[j] == h[j]);
            }
        }
    }
    assert forall|t: u32| waits_within(h, t) && (a is Wait ==> a->timeout_ms == t) implies waits_within(
        g,
        t,
    ) by {
        assert forall|i: int| 0 <= i < g.len() && #[trigger] g[i] is Wait implies g[i]->timeout_ms
            == t by {
            if i < h.len() {
                assert(g[i] == h[i]);
            }
        }
    }
    if a is Free && !has_free(h) {
        assert forall|i: int, j: int| 0 <= i < j < g.len() implies !(#[trigger] g[i] is Free
            && #[trigger] g[j] is Free) by {
            assert(g[i] == h[i]);
            if h[i] is Free {
                assert(has_free(h));
            }
        }
    }
}

pub open spec fn has_thread_request(h: Seq<Action>) -> bool {
    exists|i: int| 0 <= i < h.len() && h[i] is CreateRemoteThread
}

/// One injection attempt into one target, driven by the replies to the system
/// calls it asks for.
pub struct Attempt {
    pub config: Config,
    pub target: u32,
    /// The bytes to stage: the module path with its terminating NUL, or the
    /// module file for a manual map.
    pub staged: Vec<u8>,
    /// The headers of the module file, for a manual map.
    pub image: Option<ImageInfo>,
    pub phase: Phase,
    pub allocation: Option<RemoteAllocation>,
    pub thread_requested: bool,
    /// The primary outcome, once known.
    pub outcome: Option<Result<Injected, InjectionError>>,
    /// A release of an allocation or of the handle failed; never overrides
    /// the outcome.
    pub cleanup_failed: bool,
    /// Every action handed out so far, in order.
    pub history: Ghost<Seq<Action>>,
}

impl Attempt {
    /// The allocation still has to be released on the way out.
    pub open spec fn must_free(&self) -> bool {
        self.allocation matches Some(al) && !al.freed && !al.persistent
    }

    /// The allocation, if any, was released or handed over to the target.
    pub open spec fn allocation_settled(&self) -> bool {
        self.allocation matches Some(al) ==> al.freed || al.persistent
    }

    /// The bytes written into the target once the region at `base` exists.
    pub open spec fn spec_stage_data(&self, base: usize) -> Seq<u8> {
        match self.image {
            Some(info) => spec_loaded_image(self.staged@, info, base as u64),
            None => self.staged@,
        }
    }

    pub open spec fn spec_stage_size(&self) -> int {
        match self.image {
            Some(info) => info.size_of_image as int,
            None => self.staged@.len() as int,
        }
    }

    pub open spec fn wf(&self) -> bool {
        &&& self.config.wf()
        &&& (self.image is Some ==> self.config.method == InjectionMethod::ManualMap)
        &&& (self.phase != Phase::Done && self.config.method == InjectionMethod::ManualMap ==> self.image is Some)
        &&& (self.image matches Some(info) ==> spec_image_valid(self.staged@) && info.describes(
            self.staged@,
        ))
        &&& (self.config.method == InjectionMethod::LoadLibraryInvocation ==> self.image is None
            && self.staged@.len() > 0)
        &&& (self.allocation matches Some(al) ==> al.size == self.spec_stage_size())
        &&& (self.phase == Phase::Protecting ==> self.image is Some)
        &&& (self.phase == Phase::Resolving ==> self.image is None)
        &&& frees_at_most_once(self.history@)
        &&& waits_within(self.history@, self.config.wait_timeout_ms)
        &&& (has_free(self.history@) <==> (self.allocation matches Some(al) && al.freed))
        &&& (self.allocation is Some && self.allocation->0.freed ==> has_action(
            self.history@,
            Action::Free { address: self.allocation->0.base },
        ))
        &&& (self.thread_requested <==> has_thread_request(self.history@))
        &&& (self.allocation matches Some(al) && al.persistent ==> self.thread_requested
            && self.config.method == InjectionMethod::ManualMap)
        &&& (self.phase == Phase::Opening || self.phase == Phase::Allocating) ==> (
        self.allocation is None && self.outcome is None && !self.thread_requested)
        &&& (self.phase == Phase::Writing || self.phase == Phase::Resolving || self.phase
            == Phase::Protecting) ==> (self.outcome is None && !self.thread_requested
            && self.must_free())
        &&& self.phase == Phase::CreatingThread ==> (self.outcome is None && self.thread_requested
            && self.must_free())
        &&& self.phase == Phase::Waiting ==> (self.outcome is None && self.thread_requested
            && self.allocation is Some && !self.allocation->0.freed)
        &&& self.phase == Phase::Freeing ==> (self.outcome is Some && self.allocation is Some
            && self.allocation->0.freed && !self.allocation->0.persistent)
        &&& (self.phase == Phase::Closing || self.phase == Phase::Done) ==> (self.outcome is Some
            && (self.allocation_settled() || (self.outcome matches Some(Ok(_))
            && !self.config.free_transient_allocations)))
        &&& (self.outcome matches Some(Err(e)) && before_execution(e) ==> !self.thread_requested)
        &&& (self.outcome matches Some(Ok(_)) ==> self.thread_requested)
    }
}


/// The configuration that an attempt runs with: as given, but with a wait that
/// never ends brought down by one millisecond.
pub open spec fn bounded(c: Config) -> Config {
    if c.wf() {
        c
    } else {
        Config { wait_timeout_ms: (c.wait_timeout_ms - 1) as u32, ..c }
    }
}

/// The cleanup that an attempt starts with once its outcome is known.
pub open spec fn spec_cleanup_action(a: Attempt) -> Action {
    if a.must_free() {
        Action::Free { address: a.allocation->0.base }
    } else {
        Action::CloseHandle
    }
}

pub open spec fn spec_cleanup_phase(a: Attempt) -> Phase {
    if a.must_free() {
        Phase::Freeing
    } else {
        Phase::Closing
    }
}

impl Attempt {
    /// Starts an attempt to inject `module` into process `target`. For loader
    /// invocation, `module` is the module's path; for a manual map, it is the
    /// module file's contents. Returns the attempt and its first action: the
    /// opening of the target, or, when the module is unusable, the end of the
    /// attempt with `InvalidInput` before any system call.
    pub fn new(config: Config, target: u32, module: Vec<u8>) -> (r: (Attempt, Action))
        ensures
            r.0.wf(),
            r.0.config == bounded(config),
            r.0.target == target,
            r.0.history@ == seq![r.1],
            !r.0.cleanup_failed,
            r.0.allocation is None,
            config.method == InjectionMethod::LoadLibraryInvocation ==> r.0.staged@ == module@.push(
                0,
            ),
            config.method == InjectionMethod::ManualMap ==> r.0.staged@ == module@,
            ({
                let valid = match config.method {
                    InjectionMethod::LoadLibraryInvocation => spec_path_valid(module@),
                    InjectionMethod::ManualMap => spec_image_valid(module@),
                };
                if valid {
                    &&& r.0.phase == Phase::Opening
                    &&& r.1 == (Action::OpenProcess { pid: target, access: spec_injection_access() })
                } else {
                    &&& r.0.phase == Phase::Done
                    &&& r.0.outcome == Some(Err::<Injected, InjectionError>(InjectionError::InvalidInput))
                    &&& r.1 == Action::Finish(Err(InjectionError::InvalidInput))
                }
            }),
    {
        let mut config = config;
        if config.wait_timeout_ms == crate::config::INFINITE_WAIT {
            config.wait_timeout_ms = config.wait_timeout_ms - 1;
        }
        let (valid, image) = match config.method {
            InjectionMethod::LoadLibraryInvocation => (path_valid(&module), None),
            InjectionMethod::ManualMap => {
                let info = parse_image(&module);
                (info.is_some(), info)
            },
        };
        let mut staged = module;
        if config.method == InjectionMethod::LoadLibraryInvocation {
            staged.push(0u8);
        }
        if !valid {
            let action = Action::Finish(Err(InjectionError::InvalidInput));
            let attempt = Attempt {
                config,
                target,
                staged,
                image,
                phase: Phase::Done,
                allocation: None,
                thread_requested: false,
                outcome: Some(Err(InjectionError::InvalidInput)),
                cleanup_failed: false,
                history: Ghost(Seq::empty().push(action)),
            };
            proof {
                if config.method == InjectionMethod::ManualMap {
                    assert(image is None);
                }
            }
            return (attempt, action);
        }
        let action = Action::OpenProcess { pid: target, access: injection_access() };
        let attempt = Attempt {
            config,
            target,
            staged,
            image,
            phase: Phase::Opening,
            allocation: None,
            thread_requested: false,
            outcome: None,
            cleanup_failed: false,
            history: Ghost(Seq::empty().push(action)),
        };
        (attempt, action)
    }
}

/// Tells whether `p` can be handed to the loader as a path.
pub fn path_valid(p: &Vec<u8>) -> (r: bool)
    ensures
        r == spec_path_valid(p@),
{
    if p.len() == 0 {
        return false;
    }
    let mut i: usize = 0;
    while i < p.len()
        invariant
            i <= p@.len(),
            forall|k: int| 0 <= k < i ==> p@[k] != 0,
        decreases p@.len() - i,
    {
        if p[i] == 0 {
            return false;
        }
        i = i + 1;
    }
    true
}


impl Attempt {
    /// Records `a` as handed out.
    fn emit(&mut self, a: Action) -> (r: Action)
        ensures
            r == a,
            final(self).history@ == old(self).history@.push(a),
            final(self).config == old(self).config,
            final(self).target == old(self).target,
            final(self).staged == old(self).staged,
            final(self).image == old(self).image,
            final(self).phase == old(self).phase,
            final(self).allocation == old(self).allocation,
            final(self).thread_requested == old(self).thread_requested,
            final(self).outcome == old(self).outcome,
            final(self).cleanup_failed == old(self).cleanup_failed,
    {
        self.history = Ghost(self.history@.push(a));
        a
    }

    /// Sets the outcome and starts the cleanup: the release of the staged
    /// region where one is owed, else the closing of the handle.
    fn settle(&mut self, outcome: Result<Injected, InjectionError>, free: bool) -> (r: Action)
        requires
            old(self).phase != Phase::Done,
        ensures
            final(self).outcome == Some(outcome),
            free && old(self).must_free() ==> r == (Action::Free {
                address: old(self).allocation->0.base,
            }) && final(self).phase == Phase::Freeing && final(self).allocation == Some(
                RemoteAllocation { freed: true, ..old(self).allocation->0 },
            ),
            !(free && old(self).must_free()) ==> r == Action::CloseHandle && final(self).phase
                == Phase::Closing && final(self).allocation == old(self).allocation,
            final(self).history@ == old(self).history@.push(r),
            final(self).config == old(self).config,
            final(self).target == old(self).target,
            final(self).staged == old(self).staged,
            final(self).image == old(self).image,
            final(self).thread_requested == old(self).thread_requested,
            final(self).cleanup_failed == old(self).cleanup_failed,
    {
        self.outcome = Some(outcome);
        let owed = match self.allocation {
            Some(al) => !al.freed && !al.persistent,
            None => false,
        };
        if free && owed {
            self.phase = Phase::Freeing;
            let al = self.allocation.unwrap();
            self.allocation = Some(RemoteAllocation { freed: true, ..al });
            self.emit(Action::Free { address: al.base })
        } else {
            self.phase = Phase::Closing;
            self.emit(Action::CloseHandle)
        }
    }

    /// Takes the reply to the last action and returns the next one.
    ///
    /// The phases run strictly in order: open the target, allocate a
    /// read-write region, write the staged bytes, locate the entry point
    /// (the loader's export, or the image's entry made executable), start the
    /// remote thread, wait for it within the configured time, then release the
    /// region and close the handle. The first failure ends the phases; the
    /// region is released and the handle closed on every way out, and a failed
    /// release is noted apart from the outcome.
    pub fn step(&mut self, reply: Reply) -> (r: Action)
        requires
            old(self).wf(),
        ensures
            final(self).wf(),
            final(self).config == old(self).config,
            final(self).target == old(self).target,
            final(self).staged == old(self).staged,
            final(self).image == old(self).image,
            final(self).history@ == old(self).history@.push(r),
            old(self).phase != Phase::Done ==> phase_rank(final(self).phase) < phase_rank(
                old(self).phase,
            ),
            (final(self).phase == Phase::Done) <==> (r is Finish),
            r is Finish ==> final(self).outcome == Some(r->Finish_0),
            old(self).outcome is Some ==> final(self).outcome == old(self).outcome,
            old(self).allocation is Some ==> final(self).allocation is Some
                && final(self).allocation->0.base == old(self).allocation->0.base
                && final(self).allocation->0.size == old(self).allocation->0.size,
            old(self).allocation is None && old(self).phase != Phase::Allocating
                ==> final(self).allocation is None,
            ({
                let o = *old(self);
                let f = *final(self);
                o.phase != Phase::Allocating && o.phase != Phase::Protecting && o.phase
                    != Phase::CreatingThread ==> f.allocation == o.allocation || (f.allocation
                    == Some(RemoteAllocation { freed: true, ..o.allocation->0 }) && r == (
                Action::Free { address: o.allocation->0.base }))
            }),
            final(self).cleanup_failed == (old(self).cleanup_failed || ((old(self).phase
                == Phase::Freeing || old(self).phase == Phase::Closing) && reply_value(reply) is None)),
            ({
                let o = *old(self);
                let v = reply_value(reply);
                let base = o.allocation->0.base;
                match o.phase {
                    Phase::Opening => if v is Some {
                        &&& final(self).phase == Phase::Allocating
                        &&& r == (Action::Allocate {
                            size: o.spec_stage_size() as usize,
                            protection: PAGE_READWRITE,
                        })
                    } else {
                        &&& final(self).phase == Phase::Done
                        &&& final(self).outcome == Some(
                            Err::<Injected, InjectionError>(InjectionError::TargetUnreachable),
                        )
                    },
                    Phase::Allocating => if v is Some && v->0 != 0 {
                        &&& final(self).phase == Phase::Writing
                        &&& final(self).allocation == Some(
                            RemoteAllocation {
                                base: v->0,
                                size: o.spec_stage_size() as usize,
                                protection: PAGE_READWRITE,
                                persistent: false,
                                freed: false,
                            },
                        )
                        &&& r is Write
                        &&& r->Write_address == v->0
                        &&& r->Write_data@ == o.spec_stage_data(v->0)
                    } else {
                        &&& final(self).phase == Phase::Closing
                        &&& final(self).outcome == Some(
                            Err::<Injected, InjectionError>(InjectionError::AllocationFailed),
                        )
                        &&& r == Action::CloseHandle
                    },
                    Phase::Writing => if v == Some(o.allocation->0.size) {
                        if o.image is None {
                            &&& final(self).phase == Phase::Resolving
                            &&& final(self).allocation == o.allocation
                            &&& r == (Action::ResolveExport {
                                module: LOADER_MODULE,
                                symbol: LOADER_SYMBOL,
                            })
                        } else {
                            &&& final(self).phase == Phase::Protecting
                            &&& final(self).allocation == o.allocation
                            &&& r == (Action::Protect {
                                address: base,
                                size: o.allocation->0.size,
                                protection: PAGE_EXECUTE_READWRITE,
                            })
                        }
                    } else {
                        &&& final(self).phase == Phase::Freeing
                        &&& final(self).outcome == Some(
                            Err::<Injected, InjectionError>(InjectionError::WriteFailed),
                        )
                        &&& r == (Action::Free { address: base })
                    },
                    Phase::Resolving => if v is Some && v->0 != 0 {
                        &&& final(self).phase == Phase::CreatingThread
                        &&& final(self).allocation == o.allocation
                        &&& r == (Action::CreateRemoteThread { entry: v->0, argument: base })
                    } else {
                        &&& final(self).phase == Phase::Freeing
                        &&& final(self).outcome == Some(
                            Err::<Injected, InjectionError>(InjectionError::SymbolResolutionFailed),
                        )
                        &&& r == (Action::Free { address: base })
                    },
                    Phase::Protecting => if v is Some && base + o.image->0.entry_rva
                        <= usize::MAX {
                        &&& final(self).phase == Phase::CreatingThread
                        &&& final(self).allocation == Some(
                            RemoteAllocation { protection: PAGE_EXECUTE_READWRITE, ..o.allocation->0 },
                        )
                        &&& r == (Action::CreateRemoteThread {
                            entry: (base + o.image->0.entry_rva) as usize,
                            argument: 0,
                        })
                    } else {
                        &&& final(self).phase == Phase::Freeing
                        &&& final(self).outcome == Some(
                            Err::<Injected, InjectionError>(InjectionError::SymbolResolutionFailed),
                        )
                        &&& r == (Action::Free { address: base })
                    },
                    Phase::CreatingThread => if v is Some {
                        &&& final(self).phase == Phase::Waiting
                        &&& final(self).allocation == Some(
                            RemoteAllocation { persistent: o.image is Some, ..o.allocation->0 },
                        )
                        &&& r == (Action::Wait { timeout_ms: o.config.wait_timeout_ms })
                    } else {
                        &&& final(self).phase == Phase::Freeing
                        &&& final(self).outcome == Some(
                            Err::<Injected, InjectionError>(InjectionError::RemoteExecutionFailed),
                        )
                        &&& r == (Action::Free { address: base })
                    },
                    Phase::Waiting => match reply {
                        Reply::Exited(code) => if o.image is None && code == 0 {
                            &&& final(self).outcome == Some(
                                Err::<Injected, InjectionError>(
                                    InjectionError::RemoteExecutionFailed,
                                ),
                            )
                            &&& r == spec_cleanup_action(o)
                            &&& final(self).phase == spec_cleanup_phase(o)
                        } else {
                            &&& final(self).outcome == Some(
                                Ok::<Injected, InjectionError>(
                                    Injected {
                                        module_base: if o.image is None {
                                            code as usize
                                        } else {
                                            base
                                        },
                                        exit_code: code,
                                    },
                                ),
                            )
                            &&& o.config.free_transient_allocations ==> r == spec_cleanup_action(o)
                                && final(self).phase == spec_cleanup_phase(o)
                            &&& !o.config.free_transient_allocations ==> r == Action::CloseHandle
                                && final(self).phase == Phase::Closing
                        },
                        _ => {
                            &&& final(self).outcome == Some(
                                Err::<Injected, InjectionError>(InjectionError::Timeout),
                            )
                            &&& r == spec_cleanup_action(o)
                            &&& final(self).phase == spec_cleanup_phase(o)
                        },
                    },
                    Phase::Freeing => {
                        &&& final(self).phase == Phase::Closing
                        &&& final(self).allocation == o.allocation
                        &&& r == Action::CloseHandle
                    },
                    Phase::Closing => {
                        &&& final(self).phase == Phase::Done
                        &&& r == Action::Finish(o.outcome->0)
                    },
                    Phase::Done => {
                        &&& final(self).phase == Phase::Done
                        &&& r == Action::Finish(o.outcome->0)
                    },
                }
            }),
    {
        let ghost o = *self;
        let v: Option<usize> = match reply {
            Reply::Value(x) => Some(x),
            _ => None,
        };
        let r = match self.phase {
            Phase::Opening => {
                if v.is_some() {
                    self.phase = Phase::Allocating;
                    let size: usize = match self.image {
                        Some(info) => info.size_of_image as usize,
                        None => self.staged.len(),
                    };
                    self.emit(Action::Allocate { size, protection: PAGE_READWRITE })
                } else {
                    self.phase = Phase::Done;
                    self.outcome = Some(Err(InjectionError::TargetUnreachable));
                    self.emit(Action::Finish(Err(InjectionError::TargetUnreachable)))
                }
            },
            Phase::Allocating => {
                match v {
                    Some(b) if b != 0 => {
                        let (size, data) = match self.image {
                            Some(info) => (
                                info.size_of_image as usize,
                                load_image(&self.staged, info, b as u64),
                            ),
                            None => (self.staged.len(), copy_bytes(&self.staged)),
                        };
                        self.allocation = Some(
                            RemoteAllocation {
                                base: b,
                                size,
                                protection: PAGE_READWRITE,
                                persistent: false,
                                freed: false,
                            },
                        );
                        self.phase = Phase::Writing;
                        self.emit(Action::Write { address: b, data })
                    },
                    _ => self.settle(Err(InjectionError::AllocationFailed), true),
                }
            },
            Phase::Writing => {
                let al = self.allocation.unwrap();
                if v == Some(al.size) {
                    match self.image {
                        None => {
                            self.phase = Phase::Resolving;
                            self.emit(
                                Action::ResolveExport { module: LOADER_MODULE, symbol: LOADER_SYMBOL },
                            )
                        },
                        Some(_) => {
                            self.phase = Phase::Protecting;
                            self.emit(
                                Action::Protect {
                                    address: al.base,
                                    size: al.size,
                                    protection: PAGE_EXECUTE_READWRITE,
                                },
                            )
                        },
                    }
                } else {
                    self.settle(Err(InjectionError::WriteFailed), true)
                }
            },
            Phase::Resolving => {
                let al = self.allocation.unwrap();
                match v {
                    Some(entry) if entry != 0 => {
                        self.phase = Phase::CreatingThread;
                        self.thread_requested = true;
                        self.emit(Action::CreateRemoteThread { entry, argument: al.base })
                    },
                    _ => self.settle(Err(InjectionError::SymbolResolutionFailed), true),
                }
            },
            Phase::Protecting => {
                let al = self.allocation.unwrap();
                let rva = self.image.unwrap().entry_rva as usize;
                if v.is_some() && rva <= usize::MAX - al.base {
                    self.allocation = Some(
                        RemoteAllocation { protection: PAGE_EXECUTE_READWRITE, ..al },
                    );
                    self.phase = Phase::CreatingThread;
                    self.thread_requested = true;
                    self.emit(Action::CreateRemoteThread { entry: al.base + rva, argument: 0 })
                } else {
                    self.settle(Err(InjectionError::SymbolResolutionFailed), true)
                }
            },
            Phase::CreatingThread => {
                if v.is_some() {
                    let al = self.allocation.unwrap();
                    self.allocation = Some(
                        RemoteAllocation { persistent: self.image.is_some(), ..al },
                    );
                    self.phase = Phase::Waiting;
                    self.emit(Action::Wait { timeout_ms: self.config.wait_timeout_ms })
                } else {
                    self.settle(Err(InjectionError::RemoteExecutionFailed), true)
                }
            },
            Phase::Waiting => {
                match reply {
                    Reply::Exited(code) => {
                        if self.image.is_none() && code == 0 {
                            self.settle(Err(InjectionError::RemoteExecutionFailed), true)
                        } else {
                            let module_base = match self.image {
                                None => code as usize,
                                Some(_) => self.allocation.unwrap().base,
                            };
                            let free = self.config.free_transient_allocations;
                            self.settle(Ok(Injected { module_base, exit_code: code }), free)
                        }
                    },
                    _ => self.settle(Err(InjectionError::Timeout), true),
                }
            },
            Phase::Freeing => {
                if v.is_none() {
                    self.cleanup_failed = true;
                }
                self.phase = Phase::Closing;
                self.emit(Action::CloseHandle)
            },
            Phase::Closing => {
                if v.is_none() {
                    self.cleanup_failed = true;
                }
                self.phase = Phase::Done;
                let outcome = self.outcome.unwrap();
                self.emit(Action::Finish(outcome))
            },
            Phase::Done => {
                let outcome = self.outcome.unwrap();
                self.emit(Action::Finish(outcome))
            },
        };
        proof {
            lemma_history_push(o.history@, r);
        }
        r
    }
}

/// A copy of `b`.
fn copy_bytes(b: &Vec<u8>) -> (r: Vec<u8>)
    ensures
        r@ == b@,
{
    let mut r: Vec<u8> = Vec::new();
    let mut i: usize = 0;
    while i < b.len()
        invariant
            i <= b@.len(),
            r@ == b@.subrange(0, i as int),
        decreases b@.len() - i,
    {
        r.push(b[i]);
        i = i + 1;
        assert(r@ =~= b@.subrange(0, i as int));
    }
    assert(r@ =~= b@);
    r
}


/// An injector: one configuration, used for any number of attempts.
#[derive(Debug, Clone, Copy)]
pub struct Injector {
    pub config: Config,
}

impl Injector {
    pub fn new(config: Config) -> (r: Injector)
        ensures
            r.config == config,
    {
        Injector { config }
    }

    /// Starts an attempt on `target` with this injector's configuration; see
    /// `Attempt::new`.
    pub fn begin(&self, target: u32, module: Vec<u8>) -> (r: (Attempt, Action))
        ensures
            r.0.wf(),
            r.0.config == bounded(self.config),
            r.0.target == target,
            r.0.history@ == seq![r.1],
            !r.0.cleanup_failed,
            r.0.allocation is None,
            ({
                let valid = match self.config.method {
                    InjectionMethod::LoadLibraryInvocation => spec_path_valid(module@),
                    InjectionMethod::ManualMap => spec_image_valid(module@),
                };
                &&& valid ==> r.0.phase == Phase::Opening && r.1 == (Action::OpenProcess {
                    pid: target,
                    access: spec_injection_access(),
                })
                &&& self.config.method == InjectionMethod::LoadLibraryInvocation ==> r.0.staged@
                    == module@.push(0)
                &&& self.config.method == InjectionMethod::ManualMap ==> r.0.staged@ == module@
                &&& !valid ==> r.0.phase == Phase::Done && r.1 == Action::Finish(
                    Err(InjectionError::InvalidInput),
                )
            }),
    {
        Attempt::new(self.config, target, module)
    }
}

} // verus!
