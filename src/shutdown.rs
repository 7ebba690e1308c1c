//! Shutdown: bounded draining of the server tasks, then the final outcome.
use vstd::prelude::*;
use crate::error::{exit_code_of, EdgedError, ErrorKind, EXIT_FAILURE, EXIT_SUCCESS};
use crate::steady_state::WatchdogAction;

verus! {

/// Server tasks that run until shutdown: the workload API and the
/// management API. Each one counts itself out when it ends.
pub const SERVER_TASKS: usize = 2;

/// How long shutdown waits for the server tasks, in milliseconds.
pub const SHUTDOWN_TIMEOUT_MS: u64 = 10_000;

/// How often shutdown looks at the count of live tasks, in milliseconds.
pub const POLL_PERIOD_MS: u64 = 100;

/// What to do after looking at the count of live server tasks.
#[derive(Clone, Copy, PartialEq, Eq, Structural, Debug)]
pub enum DrainStep {
    /// Every task has ended.
    Finished,
    /// The time is up with this many tasks still running; shut down anyway.
    TimedOut(usize),
    /// Sleep this many milliseconds, then look again.
    Wait(u64),
}

/// The wait for the server tasks to end, measured in time already waited.
#[derive(Debug)]
pub struct Drain {
    waited_ms: u64,
}

/// One look at the count of live tasks after `waited` milliseconds: the step
/// to take and the time waited after it.
pub open spec fn drain_step(waited: u64, outstanding: usize) -> (DrainStep, u64) {
    if outstanding == 0 {
        (DrainStep::Finished, waited)
    } else if waited >= SHUTDOWN_TIMEOUT_MS {
        (DrainStep::TimedOut(outstanding), waited)
    } else {
        (DrainStep::Wait(POLL_PERIOD_MS), (waited + POLL_PERIOD_MS) as u64)
    }
}

/// Looks at the counts in `seen`, one per poll, from `waited` milliseconds
/// on: the step that ends the drain and the time waited by then, or `None`
/// when the counts run out first.
pub open spec fn drain_run(waited: u64, seen: Seq<usize>) -> Option<(DrainStep, u64)>
    decreases seen.len(),
{
    if seen.len() == 0 {
        None
    } else {
        let (step, next) = drain_step(waited, seen[0]);
        match step {
            DrainStep::Wait(_) => drain_run(next, seen.drop_first()),
            _ => Some((step, next)),
        }
    }
}

/// Polls left before the time is up, from `waited` milliseconds on.
pub open spec fn polls_left(waited: u64) -> int {
    (SHUTDOWN_TIMEOUT_MS - waited) / (POLL_PERIOD_MS as int)
}

/// A waited time that the drain can reach: a whole number of poll periods,
/// within the timeout.
pub open spec fn reachable_wait(waited: u64) -> bool {
    waited <= SHUTDOWN_TIMEOUT_MS && waited % POLL_PERIOD_MS == 0
}

impl Drain {
    pub closed spec fn waited(&self) -> u64 {
        self.waited_ms
    }

    pub open spec fn wf(&self) -> bool {
        reachable_wait(self.waited())
    }

    pub fn new() -> (r: Drain)
        ensures
            r.wf(),
            r.waited() == 0,
    {
        Drain { waited_ms: 0 }
    }

    pub fn waited_ms(&self) -> (r: u64)
        ensures
            r == self.waited(),
    {
        self.waited_ms
    }

    /// Takes one look at the count of live tasks. The drain is finished when
    /// none is left; it times out when some are left and the whole timeout
    /// has been waited; otherwise it waits one more poll period.
    pub fn poll(&mut self, outstanding: usize) -> (r: DrainStep)
        requires
            old(self).wf(),
        ensures
            final(self).wf(),
            (r, final(self).waited()) == drain_step(old(self).waited(), outstanding),
            r is Wait ==> polls_left(final(self).waited()) == polls_left(old(self).waited()) - 1,
    {
        if outstanding == 0 {
            DrainStep::Finished
        } else if self.waited_ms >= SHUTDOWN_TIMEOUT_MS {
            DrainStep::TimedOut(outstanding)
        } else {
            self.waited_ms = self.waited_ms + POLL_PERIOD_MS;
            DrainStep::Wait(POLL_PERIOD_MS)
        }
    }
}

/// Whether the shutdown reason asks for the device to be provisioned again
/// once the server tasks are drained.
pub fn needs_reprovision(reason: WatchdogAction) -> (r: bool)
    ensures
        r == (reason == WatchdogAction::Reprovision),
{
    reason == WatchdogAction::Reprovision
}

/// The outcome of the daemon, one of a clean stop, a completed
/// reprovisioning or a failed one.
pub open spec fn outcome_of(reason: WatchdogAction, reprovisioned: Option<Result<(), String>>) -> Result<
    (),
    ErrorKind,
> {
    match reason {
        WatchdogAction::Reprovision => match reprovisioned {
            Some(Ok(())) => Err(ErrorKind::Reprovisioned),
            _ => Err(ErrorKind::Reprovision),
        },
        _ => Ok(()),
    }
}

/// The outcome once the server tasks are drained. `reprovisioned` is what
/// reprovisioning returned, given exactly when the reason asked for it.
///
/// A completed reprovisioning ends the daemon with the distinguished
/// `Reprovisioned` outcome; a failed one is fatal; any other reason is a clean
/// stop.
pub fn final_outcome(reason: WatchdogAction, reprovisioned: Option<Result<(), String>>) -> (r: Result<
    (),
    EdgedError,
>)
    requires
        reprovisioned is Some <==> reason == WatchdogAction::Reprovision,
    ensures
        r is Ok <==> outcome_of(reason, reprovisioned) is Ok,
        r matches Err(e) ==> outcome_of(reason, reprovisioned) == Err::<(), ErrorKind>(e.kind),
{
    match reprovisioned {
        Some(Ok(())) => Err(EdgedError::reprovisioned()),
        Some(Err(message)) => Err(EdgedError::new(ErrorKind::Reprovision, message)),
        None => Ok(()),
    }
}

/// The drain never hangs: however the counts of live tasks go, it ends within
/// one poll more than the timeout allows, having waited at most the timeout.
/// When some task never ends it times out with exactly the whole timeout
/// waited, reporting the count it saw last.
pub proof fn lemma_drain_is_bounded(waited: u64, seen: Seq<usize>)
    requires
        reachable_wait(waited),
        seen.len() > polls_left(waited),
    ensures
        drain_run(waited, seen) matches Some((step, end)) && step !is Wait && waited <= end
            <= SHUTDOWN_TIMEOUT_MS,
        (forall|i| 0 <= i < seen.len() ==> #[trigger] seen[i] > 0) ==> drain_run(waited, seen)
            == Some((DrainStep::TimedOut(seen[polls_left(waited)]), SHUTDOWN_TIMEOUT_MS)),
    decreases seen.len(),
{
    if seen[0] != 0 && waited < SHUTDOWN_TIMEOUT_MS {
        let next = (waited + POLL_PERIOD_MS) as u64;
        assert(polls_left(next) == polls_left(waited) - 1);
        lemma_drain_is_bounded(next, seen.drop_first());
        if forall|i| 0 <= i < seen.len() ==> #[trigger] seen[i] > 0 {
            assert forall|i| 0 <= i < seen.drop_first().len() implies #[trigger] seen.drop_first()[i]
                > 0 by {
                assert(seen[i + 1] > 0);
            }
        }
    }
}

/// Once every server task has counted itself out the drain ends: the count
/// starts at the number of server tasks, and at the first poll that sees
/// none left the drain finishes, having waited one poll period for each
/// earlier poll and no more than the timeout.
pub proof fn lemma_drain_ends_when_tasks_done(waited: u64, seen: Seq<usize>, k: int)
    requires
        reachable_wait(waited),
        0 <= k < seen.len(),
        k <= polls_left(waited),
        seen[k] == 0,
        forall|i| 0 <= i < k ==> #[trigger] seen[i] > 0,
    ensures
        SERVER_TASKS == 2,
        drain_run(waited, seen) == Some((DrainStep::Finished, (waited + k * POLL_PERIOD_MS) as u64)),
        waited + k * POLL_PERIOD_MS <= SHUTDOWN_TIMEOUT_MS,
    decreases k,
{
    if k > 0 {
        assert(seen[0] > 0);
        let next = (waited + POLL_PERIOD_MS) as u64;
        assert(polls_left(next) == polls_left(waited) - 1);
        assert forall|i| 0 <= i < k - 1 implies #[trigger] seen.drop_first()[i] > 0 by {
            assert(seen[i + 1] > 0);
        }
        lemma_drain_ends_when_tasks_done(next, seen.drop_first(), k - 1);
    }
}

/// A reprovisioning shutdown whose reprovisioning succeeds ends with the
/// distinguished `Reprovisioned` outcome, whose exit code is neither that of
/// a clean stop nor that of a generic failure.
pub proof fn lemma_reprovision_outcome()
    ensures
        outcome_of(WatchdogAction::Reprovision, Some(Ok(())))
            == Err::<(), ErrorKind>(ErrorKind::Reprovisioned),
        exit_code_of(ErrorKind::Reprovisioned) != EXIT_SUCCESS,
        exit_code_of(ErrorKind::Reprovisioned) != EXIT_FAILURE,
{
}

} // verus!
