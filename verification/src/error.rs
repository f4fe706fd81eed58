//! The ways in which a registry operation is refused.

use vstd::prelude::*;

verus! {

/// Why the registry refused an operation. None of these is transient: each
/// reflects misuse or a platform that cannot be recovered, and the registry
/// is left exactly as it was.
#[derive(Clone, Copy, Debug, PartialEq, Eq, Structural)]
pub enum RegistryError {
    /// The source is already a member of the running loop.
    DuplicateSource,
    /// The loop thread did not report a handle over the rendezvous.
    StartupFailed,
    /// The operation needs the running loop, and there is none.
    NotRunning,
    /// A freshly started loop was reported while another one is running.
    AlreadyRunning,
}

impl RegistryError {
    /// The wording of each refusal.
    pub open spec fn description(self) -> Seq<char> {
        match self {
            RegistryError::DuplicateSource => "source already registered"@,
            RegistryError::StartupFailed => "failed to start run loop thread"@,
            RegistryError::NotRunning => "runloop should exist while events are registered"@,
            RegistryError::AlreadyRunning => "run loop thread is already running"@,
        }
    }

    /// The refusal in words, for a log line or a fatal exit.
    pub fn message(&self) -> (text: &'static str)
        ensures
            text@ == self.description(),
    {
        match self {
            RegistryError::DuplicateSource => "source already registered",
            RegistryError::StartupFailed => "failed to start run loop thread",
            RegistryError::NotRunning => "runloop should exist while events are registered",
            RegistryError::AlreadyRunning => "run loop thread is already running",
        }
    }
}

} // verus!
