use vstd::prelude::*;

verus! {

/// Exit code of a generic failure.
pub const EXIT_FAILURE: i32 = 1;

/// Exit code of a clean shutdown.
pub const EXIT_SUCCESS: i32 = 0;

/// What went wrong, one kind per phase of the daemon's life.
#[derive(Clone, Copy, PartialEq, Eq, Structural, Debug)]
pub enum ErrorKind {
    /// The settings could not be loaded.
    Settings,
    /// The image garbage-collection policy is invalid.
    InvalidSettings,
    /// A directory under the daemon home could not be created.
    Directory,
    /// The device identity could not be resolved or cached.
    Provisioning,
    /// The module runtime could not be constructed.
    RuntimeInit,
    /// The workload or management API could not be started.
    SubsystemStart,
    /// The health supervisor failed.
    HealthSupervisor,
    /// The image maintenance loop stopped, which it never does when healthy.
    MaintenanceStopped,
    /// Reprovisioning the device failed.
    Reprovision,
    /// The device was reprovisioned; the daemon must restart.
    Reprovisioned,
}

/// Relies on the constant `exitcode::CONFIG` (78): the exit code for a
/// configuration error.
#[verifier::external_body]
fn config_exit_code() -> (r: i32)
    ensures
        r == 78,
{
    exitcode::CONFIG
}

/// Relies on the constant `exitcode::TEMPFAIL` (75): the exit code for a
/// temporary failure after which the caller is invited to retry.
#[verifier::external_body]
fn tempfail_exit_code() -> (r: i32)
    ensures
        r == 75,
{
    exitcode::TEMPFAIL
}

/// The process exit code of each kind of error: a configuration error exits
/// with the configuration code, a completed reprovisioning with the code that
/// asks the supervising process to start the daemon again, and every other
/// failure with the generic failure code.
pub open spec fn exit_code_of(kind: ErrorKind) -> i32 {
    match kind {
        ErrorKind::Settings | ErrorKind::InvalidSettings => 78,
        ErrorKind::Reprovisioned => 75,
        _ => EXIT_FAILURE,
    }
}

impl ErrorKind {
    pub fn exit_code(&self) -> (r: i32)
        ensures
            r == exit_code_of(*self),
    {
        match self {
            ErrorKind::Settings | ErrorKind::InvalidSettings => config_exit_code(),
            ErrorKind::Reprovisioned => tempfail_exit_code(),
            _ => EXIT_FAILURE,
        }
    }
}

/// An error that ends the daemon, with a message for the log.
#[derive(Debug)]
pub struct EdgedError {
    pub kind: ErrorKind,
    pub message: String,
}

impl EdgedError {
    pub fn new(kind: ErrorKind, message: String) -> (r: EdgedError)
        ensures
            r.kind == kind,
            r.message@ == message@,
    {
        EdgedError { kind, message }
    }

    /// The outcome of a completed reprovisioning.
    pub fn reprovisioned() -> (r: EdgedError)
        ensures
            r.kind == ErrorKind::Reprovisioned,
    {
        EdgedError { kind: ErrorKind::Reprovisioned, message: "Device reprovisioned".to_owned() }
    }

    pub fn kind(&self) -> (r: ErrorKind)
        ensures
            r == self.kind,
    {
        self.kind
    }

    pub fn message(&self) -> (r: String)
        ensures
            r@ == self.message@,
    {
        self.message.clone()
    }

    pub fn exit_code(&self) -> (r: i32)
        ensures
            r == exit_code_of(self.kind),
    {
        self.kind.exit_code()
    }

    /// Whether this error is the informational outcome of a completed
    /// reprovisioning rather than a failure.
    pub fn is_reprovisioned(&self) -> (r: bool)
        ensures
            r == (self.kind == ErrorKind::Reprovisioned),
    {
        self.kind == ErrorKind::Reprovisioned
    }
}

} // verus!
