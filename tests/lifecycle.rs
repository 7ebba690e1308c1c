use aziot_edged::error::{EdgedError, ErrorKind};
use aziot_edged::home_dirs::{required_home_dirs, HomeDir};
use aziot_edged::shutdown::{
    final_outcome, needs_reprovision, Drain, DrainStep, POLL_PERIOD_MS, SERVER_TASKS,
    SHUTDOWN_TIMEOUT_MS,
};
use aziot_edged::steady_state::{
    shutdown_reason, steady_state_plan, SteadyStateEnd, SteadyStatePlan, WatchdogAction,
};

#[test]
fn drain_finishes_when_both_tasks_are_done() {
    let mut live = SERVER_TASKS;
    assert_eq!(live, 2);
    let mut drain = Drain::new();
    assert_eq!(drain.poll(live), DrainStep::Wait(POLL_PERIOD_MS));
    live -= 1;
    assert_eq!(drain.poll(live), DrainStep::Wait(POLL_PERIOD_MS));
    live -= 1;
    assert_eq!(live, 0);
    assert_eq!(drain.poll(live), DrainStep::Finished);
    assert_eq!(drain.waited_ms(), 200);
    assert!(drain.waited_ms() < SHUTDOWN_TIMEOUT_MS);
}

#[test]
fn drain_finishes_at_once_when_no_task_is_left() {
    let mut drain = Drain::new();
    assert_eq!(drain.poll(0), DrainStep::Finished);
    assert_eq!(drain.waited_ms(), 0);
}

#[test]
fn drain_times_out_when_a_task_never_ends() {
    let mut drain = Drain::new();
    let mut polls = 0;
    let end = loop {
        polls += 1;
        match drain.poll(1) {
            DrainStep::Wait(ms) => assert_eq!(ms, 100),
            other => break other,
        }
        assert!(polls <= 101);
    };
    assert_eq!(end, DrainStep::TimedOut(1));
    assert_eq!(polls, 101);
    assert_eq!(drain.waited_ms(), 10_000);
}

#[test]
fn health_result_is_the_shutdown_reason() {
    let plan = steady_state_plan(true);
    assert_eq!(plan, SteadyStatePlan::HealthRacingMaintenance);
    let r = shutdown_reason(plan, SteadyStateEnd::HealthFinished(Ok(WatchdogAction::Signal)));
    assert_eq!(r.unwrap(), WatchdogAction::Signal);
    let r = shutdown_reason(plan, SteadyStateEnd::HealthFinished(Ok(WatchdogAction::Reprovision)));
    assert_eq!(r.unwrap(), WatchdogAction::Reprovision);
}

#[test]
fn health_error_is_fatal() {
    let r = shutdown_reason(
        SteadyStatePlan::HealthOnly,
        SteadyStateEnd::HealthFinished(Err("watchdog failed".to_string())),
    );
    let err = r.unwrap_err();
    assert_eq!(err.kind(), ErrorKind::HealthSupervisor);
    assert_eq!(err.message(), "watchdog failed");
    assert_eq!(err.exit_code(), 1);
}

#[test]
fn maintenance_stop_is_always_fatal() {
    let plan = steady_state_plan(true);
    let err = shutdown_reason(plan, SteadyStateEnd::MaintenanceStopped(None)).unwrap_err();
    assert_eq!(err.kind(), ErrorKind::MaintenanceStopped);
    assert_eq!(err.message(), "image garbage collection unexpectedly stopped");
    assert_ne!(err.exit_code(), 0);

    let err = shutdown_reason(
        plan,
        SteadyStateEnd::MaintenanceStopped(Some("docker unreachable".to_string())),
    )
    .unwrap_err();
    assert_eq!(err.kind(), ErrorKind::MaintenanceStopped);
    assert_eq!(err.message(), "docker unreachable");
    assert!(!err.is_reprovisioned());
}

#[test]
fn gc_disabled_runs_only_the_health_supervisor() {
    assert_eq!(steady_state_plan(false), SteadyStatePlan::HealthOnly);
}

#[test]
fn reprovision_success_is_the_reprovisioned_outcome() {
    assert!(needs_reprovision(WatchdogAction::Reprovision));
    let err = final_outcome(WatchdogAction::Reprovision, Some(Ok(()))).unwrap_err();
    assert_eq!(err.kind(), ErrorKind::Reprovisioned);
    assert!(err.is_reprovisioned());
    assert_eq!(err.exit_code(), 75);
    assert_eq!(err.exit_code(), EdgedError::reprovisioned().exit_code());
}

#[test]
fn reprovision_failure_is_fatal() {
    let err = final_outcome(
        WatchdogAction::Reprovision,
        Some(Err("identity service unreachable".to_string())),
    )
    .unwrap_err();
    assert_eq!(err.kind(), ErrorKind::Reprovision);
    assert!(!err.is_reprovisioned());
    assert_eq!(err.exit_code(), 1);
}

#[test]
fn signal_is_a_clean_stop() {
    assert!(!needs_reprovision(WatchdogAction::Signal));
    assert!(final_outcome(WatchdogAction::Signal, None).is_ok());
}

#[test]
fn exit_codes_by_kind() {
    assert_eq!(ErrorKind::Settings.exit_code(), 78);
    assert_eq!(ErrorKind::InvalidSettings.exit_code(), 78);
    assert_eq!(ErrorKind::Reprovisioned.exit_code(), 75);
    assert_eq!(ErrorKind::Directory.exit_code(), 1);
    assert_eq!(ErrorKind::RuntimeInit.exit_code(), 1);
}

#[test]
fn home_directories_are_cache_mnt_gc() {
    let names: Vec<&str> = required_home_dirs().iter().map(|d| d.name()).collect();
    assert_eq!(names, vec!["cache", "mnt", "gc"]);
    assert_eq!(HomeDir::Cache.name(), "cache");
    assert_eq!(required_home_dirs(), required_home_dirs());
}
