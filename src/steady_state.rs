//! The steady state: health supervision, raced against image maintenance
//! when image garbage collection is enabled.
use vstd::prelude::*;
use crate::error::{exit_code_of, EdgedError, ErrorKind, EXIT_SUCCESS};

verus! {

/// Why the health supervisor ended the steady state.
#[derive(Clone, Copy, PartialEq, Eq, Structural, Debug)]
pub enum WatchdogAction {
    /// A termination signal arrived.
    Signal,
    /// The device identity must be provisioned again.
    Reprovision,
}

/// What runs during the steady state.
#[derive(Clone, Copy, PartialEq, Eq, Structural, Debug)]
pub enum SteadyStatePlan {
    /// Only the health supervisor runs; its result ends the steady state.
    HealthOnly,
    /// The health supervisor and the maintenance loop run side by side; the
    /// first to finish ends the steady state and the other is abandoned.
    HealthRacingMaintenance,
}

/// The task that finished first, with what it returned.
#[derive(Debug)]
pub enum SteadyStateEnd {
    /// The health supervisor finished with an action, or with the message of
    /// its error.
    HealthFinished(Result<WatchdogAction, String>),
    /// The maintenance loop stopped, with the message of its error if it
    /// returned one.
    MaintenanceStopped(Option<String>),
}

pub open spec fn plan_for(gc_enabled: bool) -> SteadyStatePlan {
    if gc_enabled {
        SteadyStatePlan::HealthRacingMaintenance
    } else {
        SteadyStatePlan::HealthOnly
    }
}

/// Whether the steady state can end as `end` under `plan`: without image
/// garbage collection only the health supervisor can end it.
pub open spec fn can_end(plan: SteadyStatePlan, end: SteadyStateEnd) -> bool {
    plan == SteadyStatePlan::HealthOnly ==> end is HealthFinished
}

/// The shutdown reason that ends the steady state, or the kind of the fatal
/// error instead.
pub open spec fn reason_of(end: SteadyStateEnd) -> Result<WatchdogAction, ErrorKind> {
    match end {
        SteadyStateEnd::HealthFinished(Ok(a)) => Ok(a),
        SteadyStateEnd::HealthFinished(Err(_)) => Err(ErrorKind::HealthSupervisor),
        SteadyStateEnd::MaintenanceStopped(_) => Err(ErrorKind::MaintenanceStopped),
    }
}

/// What runs during the steady state: the maintenance loop is started only
/// when image garbage collection is enabled.
pub fn steady_state_plan(gc_enabled: bool) -> (r: SteadyStatePlan)
    ensures
        r == plan_for(gc_enabled),
{
    if gc_enabled {
        SteadyStatePlan::HealthRacingMaintenance
    } else {
        SteadyStatePlan::HealthOnly
    }
}

/// The shutdown reason once the steady state has ended.
///
/// When the health supervisor finished first its action is the reason, or
/// its error is fatal. When the maintenance loop stopped, for whatever
/// cause, the daemon fails: that loop never ends while healthy.
pub fn shutdown_reason(plan: SteadyStatePlan, end: SteadyStateEnd) -> (r: Result<
    WatchdogAction,
    EdgedError,
>)
    requires
        can_end(plan, end),
    ensures
        r matches Ok(a) ==> reason_of(end) == Ok::<WatchdogAction, ErrorKind>(a),
        r matches Err(e) ==> reason_of(end) == Err::<WatchdogAction, ErrorKind>(e.kind),
{
    match end {
        SteadyStateEnd::HealthFinished(Ok(a)) => Ok(a),
        SteadyStateEnd::HealthFinished(Err(message)) => Err(
            EdgedError::new(ErrorKind::HealthSupervisor, message),
        ),
        SteadyStateEnd::MaintenanceStopped(Some(message)) => Err(
            EdgedError::new(ErrorKind::MaintenanceStopped, message),
        ),
        SteadyStateEnd::MaintenanceStopped(None) => Err(
            EdgedError::new(
                ErrorKind::MaintenanceStopped,
                "image garbage collection unexpectedly stopped".to_owned(),
            ),
        ),
    }
}

/// The race between health supervision and maintenance: when the health
/// supervisor finishes first with an action, that action is the shutdown
/// reason and no error arises from the abandoned maintenance loop; when the
/// maintenance loop stops, whatever it returned, the daemon ends with a
/// failure, never with a clean stop or a reprovisioning.
pub proof fn lemma_race_outcome(end: SteadyStateEnd)
    requires
        can_end(SteadyStatePlan::HealthRacingMaintenance, end),
    ensures
        end matches SteadyStateEnd::HealthFinished(Ok(a)) ==> reason_of(end) == Ok::<
            WatchdogAction,
            ErrorKind,
        >(a),
        end is MaintenanceStopped ==> (reason_of(end) matches Err(kind) && kind
            != ErrorKind::Reprovisioned && exit_code_of(kind) != EXIT_SUCCESS),
{
}

/// With image garbage collection disabled only the health supervisor runs:
/// the maintenance loop is never started, so only the health supervisor can
/// end the steady state.
pub proof fn lemma_gc_disabled_runs_health_only(end: SteadyStateEnd)
    requires
        can_end(plan_for(false), end),
    ensures
        plan_for(false) == SteadyStatePlan::HealthOnly,
        end is HealthFinished,
{
}

} // verus!
