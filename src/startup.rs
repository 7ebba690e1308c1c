//! The startup sequence: the phases in their order, and which failures end
//! the daemon.
use vstd::prelude::*;
use crate::error::ErrorKind;

verus! {

#[derive(Clone, Copy, PartialEq, Eq, Structural, Debug)]
pub enum Phase {
    /// Create the directories under the daemon home.
    CreateDirectories,
    /// Resolve the device identity, from the cache or by provisioning.
    ResolveIdentity,
    /// Validate the image garbage-collection policy.
    ValidateSettings,
    /// Construct the module runtime.
    ConstructRuntime,
    /// Start the workload API.
    StartWorkload,
    /// Stop the modules that an earlier run left behind.
    StopStaleModules,
    /// Cache the device identity.
    UpdateIdentityCache,
    /// Start the management API.
    StartManagement,
    /// Run the workload API's setup and leave it serving.
    ServeWorkload,
    /// Listen for termination signals.
    InstallSignalHandlers,
    /// Startup is over; the steady state runs.
    SteadyState,
}

/// The position of a phase in the startup sequence.
pub open spec fn phase_index(p: Phase) -> nat {
    match p {
        Phase::CreateDirectories => 0,
        Phase::ResolveIdentity => 1,
        Phase::ValidateSettings => 2,
        Phase::ConstructRuntime => 3,
        Phase::StartWorkload => 4,
        Phase::StopStaleModules => 5,
        Phase::UpdateIdentityCache => 6,
        Phase::StartManagement => 7,
        Phase::ServeWorkload => 8,
        Phase::InstallSignalHandlers => 9,
        Phase::SteadyState => 10,
    }
}

/// The phase that follows `p`; the steady state is the last.
pub open spec fn next_phase(p: Phase) -> Phase {
    match p {
        Phase::CreateDirectories => Phase::ResolveIdentity,
        Phase::ResolveIdentity => Phase::ValidateSettings,
        Phase::ValidateSettings => Phase::ConstructRuntime,
        Phase::ConstructRuntime => Phase::StartWorkload,
        Phase::StartWorkload => Phase::StopStaleModules,
        Phase::StopStaleModules => Phase::UpdateIdentityCache,
        Phase::UpdateIdentityCache => Phase::StartManagement,
        Phase::StartManagement => Phase::ServeWorkload,
        Phase::ServeWorkload => Phase::InstallSignalHandlers,
        Phase::InstallSignalHandlers => Phase::SteadyState,
        Phase::SteadyState => Phase::SteadyState,
    }
}

/// The kind of error with which a failure of the phase ends the daemon, or
/// `None` where a failure is only logged.
pub open spec fn failure_kind(p: Phase) -> Option<ErrorKind> {
    match p {
        Phase::CreateDirectories => Some(ErrorKind::Directory),
        Phase::ResolveIdentity => Some(ErrorKind::Provisioning),
        Phase::ValidateSettings => Some(ErrorKind::InvalidSettings),
        Phase::ConstructRuntime => Some(ErrorKind::RuntimeInit),
        Phase::StartWorkload => Some(ErrorKind::SubsystemStart),
        Phase::StopStaleModules => None,
        Phase::UpdateIdentityCache => Some(ErrorKind::Provisioning),
        Phase::StartManagement => Some(ErrorKind::SubsystemStart),
        Phase::ServeWorkload => Some(ErrorKind::SubsystemStart),
        Phase::InstallSignalHandlers => None,
        Phase::SteadyState => None,
    }
}

impl Phase {
    pub fn next(&self) -> (r: Phase)
        ensures
            r == next_phase(*self),
    {
        match self {
            Phase::CreateDirectories => Phase::ResolveIdentity,
            Phase::ResolveIdentity => Phase::ValidateSettings,
            Phase::ValidateSettings => Phase::ConstructRuntime,
            Phase::ConstructRuntime => Phase::StartWorkload,
            Phase::StartWorkload => Phase::StopStaleModules,
            Phase::StopStaleModules => Phase::UpdateIdentityCache,
            Phase::UpdateIdentityCache => Phase::StartManagement,
            Phase::StartManagement => Phase::ServeWorkload,
            Phase::ServeWorkload => Phase::InstallSignalHandlers,
            Phase::InstallSignalHandlers => Phase::SteadyState,
            Phase::SteadyState => Phase::SteadyState,
        }
    }

    pub fn failure_kind(&self) -> (r: Option<ErrorKind>)
        ensures
            r == failure_kind(*self),
    {
        match self {
            Phase::CreateDirectories => Some(ErrorKind::Directory),
            Phase::ResolveIdentity => Some(ErrorKind::Provisioning),
            Phase::ValidateSettings => Some(ErrorKind::InvalidSettings),
            Phase::ConstructRuntime => Some(ErrorKind::RuntimeInit),
            Phase::StartWorkload => Some(ErrorKind::SubsystemStart),
            Phase::StopStaleModules => None,
            Phase::UpdateIdentityCache => Some(ErrorKind::Provisioning),
            Phase::StartManagement => Some(ErrorKind::SubsystemStart),
            Phase::ServeWorkload => Some(ErrorKind::SubsystemStart),
            Phase::InstallSignalHandlers => None,
            Phase::SteadyState => None,
        }
    }
}

/// What to do once the current phase has ended.
#[derive(Clone, Copy, PartialEq, Eq, Structural, Debug)]
pub enum StartupStep {
    /// Go on with this phase.
    Run(Phase),
    /// Stop the daemon with an error of this kind.
    Abort(ErrorKind),
}

/// Where the startup sequence stands: the phase being run.
#[derive(Debug)]
pub struct Startup {
    phase: Phase,
}

impl Startup {
    pub closed spec fn phase(&self) -> Phase {
        self.phase
    }

    pub fn new() -> (r: Startup)
        ensures
            r.phase() == Phase::CreateDirectories,
    {
        Startup { phase: Phase::CreateDirectories }
    }

    pub fn current(&self) -> (r: Phase)
        ensures
            r == self.phase(),
    {
        self.phase
    }

    /// Records the end of the current phase. Success, or a failure that is
    /// only logged, moves on to the next phase; any other failure aborts
    /// with the phase's error kind and leaves the sequence where it is.
    pub fn complete(&mut self, succeeded: bool) -> (r: StartupStep)
        requires
            old(self).phase() != Phase::SteadyState,
        ensures
            (succeeded || failure_kind(old(self).phase()) is None) ==> r == StartupStep::Run(
                next_phase(old(self).phase()),
            ) && final(self).phase() == next_phase(old(self).phase()),
            !(succeeded || failure_kind(old(self).phase()) is None) ==> r == StartupStep::Abort(
                failure_kind(old(self).phase())->0,
            ) && final(self).phase() == old(self).phase(),
    {
        if !succeeded {
            if let Some(kind) = self.phase.failure_kind() {
                return StartupStep::Abort(kind);
            }
        }
        let next = self.phase.next();
        self.phase = next;
        StartupStep::Run(next)
    }
}

/// The startup order: each phase comes after the one before it, so stale
/// modules are stopped before the identity is cached, the identity is cached
/// before the management API starts, both APIs are up before the signal
/// handlers are installed, and those before the steady state begins.
pub proof fn lemma_startup_order(p: Phase)
    requires
        p != Phase::SteadyState,
    ensures
        phase_index(next_phase(p)) == phase_index(p) + 1,
        phase_index(Phase::StopStaleModules) < phase_index(Phase::UpdateIdentityCache),
        phase_index(Phase::UpdateIdentityCache) < phase_index(Phase::StartManagement),
        phase_index(Phase::StartManagement) < phase_index(Phase::InstallSignalHandlers),
        phase_index(Phase::ServeWorkload) < phase_index(Phase::InstallSignalHandlers),
        phase_index(Phase::InstallSignalHandlers) < phase_index(Phase::SteadyState),
{
}

/// Failures of the best-effort phases never end the daemon; failures of the
/// other startup phases always do.
pub proof fn lemma_only_best_effort_failures_are_survived(p: Phase)
    requires
        p != Phase::SteadyState,
    ensures
        failure_kind(p) is None <==> (p == Phase::StopStaleModules || p
            == Phase::InstallSignalHandlers),
{
}

} // verus!
