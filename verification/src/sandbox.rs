//! Entry to the sandbox helper, which exists on Linux and Android only.
//!
//! The platform is a value that the caller passes in, so that one build of
//! the library serves every platform and the decision can be stated. A caller
//! asks [`TargetOs::has_sandbox`] first. On a platform without the helper it
//! gives up with [`unsupported_message`]; entering the helper there is a
//! mistake that [`run_main`] does not admit.

use vstd::prelude::*;
use vstd::pervasive::unreached;

verus! {

/// The operating system that the process runs on.
#[derive(Clone, Copy, Debug, PartialEq, Eq, Structural)]
pub enum TargetOs {
    Linux,
    Android,
    Other,
}

/// A platform on which the sandbox helper runs.
#[derive(Clone, Copy, Debug, PartialEq, Eq, Structural)]
pub enum SandboxTarget {
    Linux,
    Android,
}

impl TargetOs {
    /// Whether the sandbox helper runs on this system.
    pub open spec fn runs_sandbox(self) -> bool {
        self is Linux || self is Android
    }

    pub fn has_sandbox(self) -> (yes: bool)
        ensures
            yes == self.runs_sandbox(),
    {
        match self {
            TargetOs::Linux => true,
            TargetOs::Android => true,
            TargetOs::Other => false,
        }
    }
}

impl SandboxTarget {
    /// The operating system that this platform is.
    pub open spec fn os(self) -> TargetOs {
        match self {
            SandboxTarget::Linux => TargetOs::Linux,
            SandboxTarget::Android => TargetOs::Android,
        }
    }
}

/// The message with which a caller gives up on a platform that has no
/// sandbox helper.
pub fn unsupported_message() -> (text: &'static str)
    ensures
        text@ == "codex-linux-sandbox is only supported on Linux and Android"@,
{
    "codex-linux-sandbox is only supported on Linux and Android"
}

/// Enters the sandbox helper on `os`: the result names the platform that the
/// helper is started for, and the caller hands control to it, never to get
/// it back.
pub fn run_main(os: TargetOs) -> (target: SandboxTarget)
    requires
        os.runs_sandbox(),
    ensures
        target.os() == os,
{
    match os {
        TargetOs::Linux => SandboxTarget::Linux,
        TargetOs::Android => SandboxTarget::Android,
        TargetOs::Other => unreached(),
    }
}

} // verus!
