//! Attaching a child process to the slave side of a pseudo-terminal.
//!
//! The child gets three duplicates of the slave descriptor, one for each of
//! its standard streams, so that closing the slave handle afterwards takes
//! nothing away from it. Before the target program runs, the child starts a
//! session of its own and then tries to make the terminal its controlling
//! terminal. The second of these is tried and never insisted on: where the
//! environment denies it, the program still runs, without the signals that a
//! controlling terminal would deliver.

use vstd::prelude::*;
use crate::os_error::OsError;
use crate::os_error::SysReturn;
use crate::android_pty::AndroidPtySlave;

verus! {

/// The descriptor on which the child asks for its controlling terminal: its
/// standard input, which by then is the slave side.
pub const CONTROLLING_TERMINAL_FD: i32 = 0;

/// The descriptors that become the child's standard streams.
#[derive(Clone, Copy, Debug, PartialEq, Eq, Structural)]
pub struct ChildStdio {
    pub stdin: i32,
    pub stdout: i32,
    pub stderr: i32,
}

/// A child that could not be given its streams. The caller closes every
/// descriptor in `release` and then reports `error`.
pub struct AttachFailure {
    pub release: Vec<i32>,
    pub error: OsError,
}

/// The descriptor that a duplication produced, as a sequence of one, or the
/// empty sequence where it produced none.
pub open spec fn duplicate_of(dup: SysReturn) -> Seq<i32> {
    if dup.ret < 0 {
        Seq::empty()
    } else {
        seq![dup.ret]
    }
}

/// The error of the first of three duplications that failed, if one did.
pub open spec fn first_failure(stdin: SysReturn, stdout: SysReturn, stderr: SysReturn) -> Option<
    OsError,
> {
    if stdin.ret < 0 {
        Some(stdin.error())
    } else if stdout.ret < 0 {
        Some(stdout.error())
    } else if stderr.ret < 0 {
        Some(stderr.error())
    } else {
        None
    }
}

impl AndroidPtySlave {
    /// Decides how a command is attached, from the results of duplicating
    /// this handle's descriptor three times: for the child's standard input,
    /// output and error, in that order.
    ///
    /// Where all three succeeded, the child gets them, each stream its own
    /// duplicate. Where one failed, nothing is spawned: the error is that of
    /// the first failure and the duplicates that were made are handed back
    /// for closing, in the order in which they were made. The slave
    /// descriptor itself is never given away.
    pub fn spawn_command(&self, stdin: SysReturn, stdout: SysReturn, stderr: SysReturn) -> (r:
        Result<ChildStdio, AttachFailure>)
        ensures
            match first_failure(stdin, stdout, stderr) {
                None => r == Ok::<ChildStdio, AttachFailure>(
                    ChildStdio { stdin: stdin.ret, stdout: stdout.ret, stderr: stderr.ret },
                ),
                Some(error) => {
                    &&& r matches Err(failure)
                    &&& failure.error == error
                    &&& failure.release@ == duplicate_of(stdin) + duplicate_of(stdout)
                        + duplicate_of(stderr)
                },
            },
    {
        let a = stdin.descriptor();
        let b = stdout.descriptor();
        let c = stderr.descriptor();
        let error = match (a, b, c) {
            (Ok(stdin_fd), Ok(stdout_fd), Ok(stderr_fd)) => {
                return Ok(ChildStdio { stdin: stdin_fd, stdout: stdout_fd, stderr: stderr_fd });
            },
            (Err(e), _, _) => e,
            (_, Err(e), _) => e,
            (_, _, Err(e)) => e,
        };
        let mut release: Vec<i32> = Vec::new();
        if let Ok(fd) = a {
            release.push(fd);
        }
        if let Ok(fd) = b {
            release.push(fd);
        }
        if let Ok(fd) = c {
            release.push(fd);
        }
        assert(release@ =~= duplicate_of(stdin) + duplicate_of(stdout) + duplicate_of(stderr));
        Err(AttachFailure { release, error })
    }
}

/// What the child does between being forked and running the program.
#[derive(Clone, Copy, Debug, PartialEq, Eq, Structural)]
pub enum ChildSetup {
    /// Start a new session (`setsid`), leaving the parent's.
    NewSession,
    /// Ask for the terminal on [`CONTROLLING_TERMINAL_FD`] as controlling
    /// terminal (`ioctl` with `TIOCSCTTY`).
    AcquireTerminal,
}

/// What a setup step led to.
#[derive(Clone, Copy, Debug, PartialEq, Eq, Structural)]
pub enum ChildSetupProgress {
    /// Perform the next setup call.
    Continue(ChildSetup),
    /// Setup is over: run the program.
    Run,
    /// Setup failed: the spawn fails with this error.
    Abort(OsError),
}

impl ChildSetup {
    /// What follows the setup call `self` when it returned `outcome`. A new
    /// session that cannot be started aborts the spawn. The request for the
    /// controlling terminal is best effort: whatever it returned, the
    /// program runs.
    pub open spec fn next(self, outcome: SysReturn) -> ChildSetupProgress {
        match self {
            ChildSetup::NewSession => match outcome.completion_spec() {
                Ok(_) => ChildSetupProgress::Continue(ChildSetup::AcquireTerminal),
                Err(error) => ChildSetupProgress::Abort(error),
            },
            ChildSetup::AcquireTerminal => ChildSetupProgress::Run,
        }
    }

    /// The first setup call.
    pub fn start() -> (setup: ChildSetup)
        ensures
            setup == ChildSetup::NewSession,
    {
        ChildSetup::NewSession
    }

    pub fn step(self, outcome: SysReturn) -> (progress: ChildSetupProgress)
        ensures
            progress == self.next(outcome),
    {
        match self {
            ChildSetup::NewSession => match outcome.completion() {
                Ok(_) => ChildSetupProgress::Continue(ChildSetup::AcquireTerminal),
                Err(error) => ChildSetupProgress::Abort(error),
            },
            ChildSetup::AcquireTerminal => ChildSetupProgress::Run,
        }
    }
}

/// The program runs exactly when the new session could be started. Whether
/// the controlling terminal was granted plays no part in it.
pub proof fn lemma_terminal_denial_is_not_fatal(session: SysReturn, terminal: SysReturn)
    ensures
        session.ret != -1 ==> ChildSetup::NewSession.next(session) == ChildSetupProgress::Continue(
            ChildSetup::AcquireTerminal,
        ) && ChildSetup::AcquireTerminal.next(terminal) == ChildSetupProgress::Run,
        session.ret == -1 ==> ChildSetup::NewSession.next(session) == ChildSetupProgress::Abort(
            session.error(),
        ),
{
}

} // verus!
