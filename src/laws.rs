use vstd::prelude::*;
use crate::config::{INFINITE_WAIT, InjectionMethod};
use crate::engine::{
    Action, Attempt, Phase, frees_at_most_once, has_action, has_thread_request, waits_within,
};
use crate::error::InjectionError;
use crate::locator::{Locator, LocatorPhase, SnapshotAction};

verus! {

/// An attempt that has ended holds exactly one outcome, success or one kind
/// of failure; it reports success only after it asked for the remote thread.
pub proof fn lemma_outcome_definite(a: Attempt)
    requires
        a.wf(),
        a.phase == Phase::Done,
    ensures
        a.outcome is Some,
        a.outcome matches Some(Ok(_)) ==> has_thread_request(a.history@),
{
}

/// The release of a staged region is asked for at most once, and a region
/// marked as released was asked for by address.
pub proof fn lemma_free_at_most_once(a: Attempt)
    requires
        a.wf(),
    ensures
        frees_at_most_once(a.history@),
        a.allocation is Some && a.allocation->0.freed ==> has_action(
            a.history@,
            (Action::Free { address: a.allocation->0.base }),
        ),
{
}

/// When the entry point cannot be found or made executable, no remote thread
/// is ever asked for.
pub proof fn lemma_no_thread_without_entry(a: Attempt)
    requires
        a.wf(),
        a.outcome == Some(Err::<crate::engine::Injected, InjectionError>(
            InjectionError::SymbolResolutionFailed,
        )),
    ensures
        !has_thread_request(a.history@),
{
}

/// A failed attempt that has ended asked for the release of the region it
/// staged, unless the region became the image of a manually mapped module
/// whose thread was started.
pub proof fn lemma_failed_attempt_released(a: Attempt)
    requires
        a.wf(),
        a.phase == Phase::Done,
        a.outcome matches Some(Err(_)),
        a.allocation is Some,
    ensures
        has_action(a.history@, (Action::Free { address: a.allocation->0.base })) || (
        a.allocation->0.persistent && a.config.method == InjectionMethod::ManualMap
            && has_thread_request(a.history@)),
{
}

/// Every wait that an attempt asks for is bounded by the configured timeout,
/// which is never the endless wait.
pub proof fn lemma_wait_bounded(a: Attempt)
    requires
        a.wf(),
    ensures
        a.config.wait_timeout_ms != INFINITE_WAIT,
        waits_within(a.history@, a.config.wait_timeout_ms),
{
}

/// A search that took a snapshot releases it before it finishes, whether or
/// not a process matched.
pub proof fn lemma_snapshot_released(l: Locator)
    requires
        l.wf(),
        l.phase == LocatorPhase::Done,
        l.opened,
    ensures
        l.history@.contains(SnapshotAction::CloseSnapshot),
{
}

} // verus!
