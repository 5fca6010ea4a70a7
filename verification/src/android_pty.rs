//! Bringing up a pseudo-terminal pair from the raw terminal primitives, and
//! the handles that own its descriptors.
//!
//! Construction is a short protocol of operating-system calls. The caller
//! performs the call that the current stage names and reports what came back;
//! [`AndroidPty::step`] decides what follows. Whenever a step fails after the
//! master side was opened, the step hands the master descriptor back for
//! closing together with the error, so that no failure path keeps it open.

use vstd::prelude::*;
use crate::os_error::OsError;
use crate::os_error::SysReturn;
use crate::os_error::IoReturn;

verus! {

/// The operating-system call that construction waits for.
#[derive(Clone, Copy, Debug, PartialEq, Eq, Structural)]
pub enum PtyStage {
    /// Open the terminal multiplexer device for reading and writing.
    OpenMaster,
    /// Grant access to the slave side (`grantpt` on the master descriptor).
    Grant,
    /// Unlock the slave side (`unlockpt` on the master descriptor).
    Unlock,
    /// Resolve the slave's device path (`ptsname_r` on the master descriptor).
    ResolveSlave,
    /// Open the slave's device path for reading and writing.
    OpenSlave,
}

/// A pseudo-terminal pair under construction.
///
/// `master_fd` has a meaning once the master side is open, that is in every
/// stage but the first; `slave_path` once the slave's path was resolved, that
/// is in the last stage.
pub struct AndroidPty {
    pub stage: PtyStage,
    pub master_fd: i32,
    pub slave_path: String,
}

/// Owner of the master descriptor until it is turned into the writer.
pub struct AndroidPtyMaster {
    fd: i32,
}

/// Owner of the slave descriptor, with the device path it was opened from.
pub struct AndroidPtySlave {
    fd: i32,
    path: String,
}

/// Owner of one duplicate of the master descriptor, for reading.
pub struct AndroidPtyReader {
    fd: i32,
}

/// Owner of the master descriptor itself, for writing.
pub struct AndroidPtyWriter {
    fd: i32,
}

/// What the operating system reported of one construction step: the result
/// of the call, and the path that the resolution wrote. `name` is `None`
/// where the resolution wrote none, and for every other call.
pub struct PtyReport {
    pub outcome: SysReturn,
    pub name: Option<String>,
}

/// What a construction step led to.
pub enum PtyProgress {
    /// Construction goes on: perform the call that the new stage names.
    Pending(AndroidPty),
    /// Both sides are open.
    Ready(AndroidPtyMaster, AndroidPtySlave),
    /// Construction is over. The caller closes `release`, where there is one,
    /// and then reports `error`.
    Failed { release: Option<i32>, error: OsError },
}

/// How a construction ends.
pub enum PtyVerdict {
    /// The reports ran out before construction was over.
    Unfinished,
    /// Both sides were opened.
    Built { master: i32, slave: i32, path: String },
    /// A step failed: `release` is handed back for closing, `error` is surfaced.
    Failed { release: Option<i32>, error: OsError },
}

/// The device that hands out pseudo-terminal masters.
pub fn multiplexer_path() -> (path: &'static str)
    ensures
        path@ == "/dev/ptmx"@,
{
    "/dev/ptmx"
}

impl AndroidPty {
    /// The master descriptor that this construction has open, if any.
    pub open spec fn held_master(&self) -> Option<i32> {
        if self.stage is OpenMaster {
            None
        } else {
            Some(self.master_fd)
        }
    }

    /// Whether the reported result lets construction go on from this stage.
    /// The path resolution has to return zero and to give a path; no other
    /// stage reads `name`.
    pub open spec fn succeeds(&self, report: PtyReport) -> bool {
        match self.stage {
            PtyStage::OpenMaster => report.outcome.descriptor_spec() is Ok,
            PtyStage::Grant => report.outcome.status_spec() is Ok,
            PtyStage::Unlock => report.outcome.status_spec() is Ok,
            PtyStage::ResolveSlave => report.outcome.status_spec() is Ok && report.name is Some,
            PtyStage::OpenSlave => report.outcome.descriptor_spec() is Ok,
        }
    }

    /// The construction after a successful step of any stage but the last.
    pub open spec fn advanced(self, report: PtyReport) -> AndroidPty {
        match self.stage {
            PtyStage::OpenMaster => AndroidPty {
                stage: PtyStage::Grant,
                master_fd: report.outcome.ret,
                slave_path: self.slave_path,
            },
            PtyStage::Grant => AndroidPty { stage: PtyStage::Unlock, ..self },
            PtyStage::Unlock => AndroidPty { stage: PtyStage::ResolveSlave, ..self },
            PtyStage::ResolveSlave => AndroidPty {
                stage: PtyStage::OpenSlave,
                master_fd: self.master_fd,
                slave_path: report.name->Some_0,
            },
            PtyStage::OpenSlave => self,
        }
    }

    /// What [`AndroidPty::step`] returns: `progress` is what the step that
    /// `report` answers leads to. A step that fails ends construction and
    /// hands back the master descriptor, if one is open. The last step, when
    /// it succeeds, gives the two descriptors to their handles. Any other
    /// step moves construction on to the next stage.
    pub open spec fn leads_to(self, report: PtyReport, progress: PtyProgress) -> bool {
        if !self.succeeds(report) {
            progress == (PtyProgress::Failed {
                release: self.held_master(),
                error: report.outcome.error(),
            })
        } else if self.stage is OpenSlave {
            &&& progress matches PtyProgress::Ready(master, slave)
            &&& master.fd() == self.master_fd
            &&& slave.fd() == report.outcome.ret
            &&& slave.path_view() == self.slave_path@
        } else {
            progress == PtyProgress::Pending(self.advanced(report))
        }
    }

    /// A construction that has nothing open yet.
    pub fn new() -> (pty: AndroidPty)
        ensures
            pty.stage is OpenMaster,
            pty.held_master() is None,
            pty.slave_path@ == Seq::<char>::empty(),
    {
        AndroidPty { stage: PtyStage::OpenMaster, master_fd: -1, slave_path: String::new() }
    }

    /// Takes the result of the call that `self.stage` names and decides what
    /// follows.
    pub fn step(self, report: PtyReport) -> (progress: PtyProgress)
        ensures
            self.leads_to(report, progress),
    {
        let outcome = report.outcome;
        let name = report.name;
        let failed = match self.stage {
            PtyStage::OpenMaster => outcome.descriptor().is_err(),
            PtyStage::Grant => outcome.status().is_err(),
            PtyStage::Unlock => outcome.status().is_err(),
            PtyStage::ResolveSlave => outcome.status().is_err() || name.is_none(),
            PtyStage::OpenSlave => outcome.descriptor().is_err(),
        };
        if failed {
            let release = match self.stage {
                PtyStage::OpenMaster => None,
                _ => Some(self.master_fd),
            };
            return PtyProgress::Failed { release, error: OsError { code: outcome.errno } };
        }
        match self.stage {
            PtyStage::OpenMaster => PtyProgress::Pending(
                AndroidPty {
                    stage: PtyStage::Grant,
                    master_fd: outcome.ret,
                    slave_path: self.slave_path,
                },
            ),
            PtyStage::Grant => PtyProgress::Pending(
                AndroidPty {
                    stage: PtyStage::Unlock,
                    master_fd: self.master_fd,
                    slave_path: self.slave_path,
                },
            ),
            PtyStage::Unlock => PtyProgress::Pending(
                AndroidPty {
                    stage: PtyStage::ResolveSlave,
                    master_fd: self.master_fd,
                    slave_path: self.slave_path,
                },
            ),
            PtyStage::ResolveSlave => PtyProgress::Pending(
                AndroidPty {
                    stage: PtyStage::OpenSlave,
                    master_fd: self.master_fd,
                    slave_path: name.unwrap(),
                },
            ),
            PtyStage::OpenSlave => PtyProgress::Ready(
                AndroidPtyMaster { fd: self.master_fd },
                AndroidPtySlave { fd: outcome.ret, path: self.slave_path },
            ),
        }
    }
}

impl AndroidPty {
    /// The end that construction comes to when its steps are answered by
    /// `reports`, one after the other.
    pub open spec fn outcome_of(self, reports: Seq<PtyReport>) -> PtyVerdict
        decreases reports.len(),
    {
        if reports.len() == 0 {
            PtyVerdict::Unfinished
        } else if !self.succeeds(reports[0]) {
            PtyVerdict::Failed { release: self.held_master(), error: reports[0].outcome.error() }
        } else if self.stage is OpenSlave {
            PtyVerdict::Built {
                master: self.master_fd,
                slave: reports[0].outcome.ret,
                path: self.slave_path,
            }
        } else {
            self.advanced(reports[0]).outcome_of(reports.skip(1))
        }
    }

    /// One step is a run of length one: a failed step is a failed run with
    /// the same descriptor to release and the same error, the last step
    /// builds the pair that the run builds, and any other step leaves the
    /// run unfinished.
    pub proof fn lemma_step_is_run(self, report: PtyReport, progress: PtyProgress)
        requires
            self.leads_to(report, progress),
        ensures
            match self.outcome_of(seq![report]) {
                PtyVerdict::Failed { release, error } => progress == (PtyProgress::Failed {
                    release,
                    error,
                }),
                PtyVerdict::Built { master, slave, path } => {
                    &&& progress matches PtyProgress::Ready(m, s)
                    &&& m.fd() == master
                    &&& s.fd() == slave
                    &&& s.path_view() == path@
                },
                PtyVerdict::Unfinished => progress is Pending,
            },
    {
        let reports = seq![report];
        assert(reports.skip(1).len() == 0);
        reveal_with_fuel(AndroidPty::outcome_of, 2);
    }

    /// Once the master side is open it is accounted for however construction
    /// ends: a failure hands exactly that descriptor back for closing, and a
    /// success gives exactly that descriptor to the master handle.
    pub proof fn lemma_master_accounted_for(self, reports: Seq<PtyReport>)
        requires
            self.held_master() is Some,
        ensures
            match self.outcome_of(reports) {
                PtyVerdict::Failed { release, error } => release == self.held_master(),
                PtyVerdict::Built { master, slave, path } => Some(master) == self.held_master(),
                PtyVerdict::Unfinished => true,
            },
        decreases reports.len(),
    {
        if reports.len() > 0 && self.succeeds(reports[0]) && !(self.stage is OpenSlave) {
            self.advanced(reports[0]).lemma_master_accounted_for(reports.skip(1));
        }
    }

    /// No failure path leaks a descriptor: a construction that starts with
    /// nothing open and fails releases the master descriptor if and only if
    /// its first step opened one, and then it is that one. The slave side is
    /// opened by the last step only, so a failed construction never holds it.
    pub proof fn lemma_failure_releases_what_was_opened(self, reports: Seq<PtyReport>)
        requires
            self.stage is OpenMaster,
            self.outcome_of(reports) is Failed,
        ensures
            reports.len() > 0,
            self.outcome_of(reports)->Failed_release == (if reports[0].outcome.ret < 0 {
                None
            } else {
                Some(reports[0].outcome.ret)
            }),
    {
        if self.succeeds(reports[0]) {
            self.advanced(reports[0]).lemma_master_accounted_for(reports.skip(1));
        }
    }

    /// A construction brings up both sides exactly when each of its five
    /// calls succeeds; the pair then holds the descriptor that the first call
    /// opened, the descriptor that the last call opened, and the path that
    /// the resolution reported. Otherwise it fails with the error of the
    /// first call that failed.
    pub proof fn lemma_construction(
        self,
        open: SysReturn,
        grant: SysReturn,
        unlock: SysReturn,
        resolve: SysReturn,
        name: Option<String>,
        slave: SysReturn,
    )
        requires
            self.stage is OpenMaster,
        ensures
            ({
                let end = self.outcome_of(
                    seq![
                        PtyReport { outcome: open, name: None },
                        PtyReport { outcome: grant, name: None },
                        PtyReport { outcome: unlock, name: None },
                        PtyReport { outcome: resolve, name },
                        PtyReport { outcome: slave, name: None },
                    ],
                );
                if open.ret < 0 {
                    end == (PtyVerdict::Failed { release: None, error: open.error() })
                } else if grant.ret != 0 {
                    end == (PtyVerdict::Failed { release: Some(open.ret), error: grant.error() })
                } else if unlock.ret != 0 {
                    end == (PtyVerdict::Failed { release: Some(open.ret), error: unlock.error() })
                } else if resolve.ret != 0 || name is None {
                    end == (PtyVerdict::Failed { release: Some(open.ret), error: resolve.error() })
                } else if slave.ret < 0 {
                    end == (PtyVerdict::Failed { release: Some(open.ret), error: slave.error() })
                } else {
                    end == (PtyVerdict::Built {
                        master: open.ret,
                        slave: slave.ret,
                        path: name->Some_0,
                    })
                }
            }),
    {
        let r0 = seq![
            PtyReport { outcome: open, name: None },
            PtyReport { outcome: grant, name: None },
            PtyReport { outcome: unlock, name: None },
            PtyReport { outcome: resolve, name },
            PtyReport { outcome: slave, name: None },
        ];
        let r1 = r0.skip(1);
        let r2 = r1.skip(1);
        let r3 = r2.skip(1);
        let r4 = r3.skip(1);
        assert(r1[0] == r0[1]);
        assert(r2[0] == r0[2]);
        assert(r3[0] == r0[3]);
        assert(r4[0] == r0[4]);
        reveal_with_fuel(AndroidPty::outcome_of, 6);
    }
}

impl AndroidPtyMaster {
    /// The descriptor that this handle owns.
    pub closed spec fn fd(&self) -> i32 {
        self.fd
    }

    pub fn raw_fd(&self) -> (fd: i32)
        ensures
            fd == self.fd(),
    {
        self.fd
    }

    /// Makes a reader from the result of duplicating this handle's
    /// descriptor. The master keeps its own descriptor either way.
    pub fn try_clone_reader(&self, dup: SysReturn) -> (r: Result<AndroidPtyReader, OsError>)
        ensures
            match dup.descriptor_spec() {
                Ok(fd) => r matches Ok(reader) && reader.fd() == fd,
                Err(error) => r matches Err(e) && e == error,
            },
    {
        match dup.descriptor() {
            Ok(fd) => Ok(AndroidPtyReader { fd }),
            Err(error) => Err(error),
        }
    }

    /// Turns the master into the writer. The descriptor changes owner and is
    /// not duplicated, so a terminal never has two writers.
    pub fn take_writer(self) -> (r: Result<AndroidPtyWriter, OsError>)
        ensures
            r matches Ok(writer) && writer.fd() == self.fd(),
    {
        Ok(AndroidPtyWriter { fd: self.fd })
    }
}

impl AndroidPtySlave {
    /// The descriptor that this handle owns.
    pub closed spec fn fd(&self) -> i32 {
        self.fd
    }

    /// The device path that the slave was opened from.
    pub closed spec fn path_view(&self) -> Seq<char> {
        self.path@
    }

    pub fn raw_fd(&self) -> (fd: i32)
        ensures
            fd == self.fd(),
    {
        self.fd
    }

    pub fn path(&self) -> (path: &str)
        ensures
            path@ == self.path_view(),
    {
        self.path.as_str()
    }
}

impl AndroidPtyReader {
    /// The descriptor that this handle owns.
    pub closed spec fn fd(&self) -> i32 {
        self.fd
    }

    pub fn raw_fd(&self) -> (fd: i32)
        ensures
            fd == self.fd(),
    {
        self.fd
    }

    /// Reads the result of a blocking read on this handle's descriptor: the
    /// number of bytes that were put into the buffer, zero at the end of the
    /// stream, or the error.
    pub fn read(&self, outcome: IoReturn) -> (r: Result<usize, OsError>)
        ensures
            r == outcome.transferred_spec(),
            r matches Ok(n) ==> n == outcome.count,
    {
        outcome.transferred()
    }
}

impl AndroidPtyWriter {
    /// The descriptor that this handle owns.
    pub closed spec fn fd(&self) -> i32 {
        self.fd
    }

    pub fn raw_fd(&self) -> (fd: i32)
        ensures
            fd == self.fd(),
    {
        self.fd
    }

    /// Reads the result of a blocking write on this handle's descriptor: the
    /// number of bytes that the terminal took, or the error.
    pub fn write(&self, outcome: IoReturn) -> (r: Result<usize, OsError>)
        ensures
            r == outcome.transferred_spec(),
            r matches Ok(n) ==> n == outcome.count,
    {
        outcome.transferred()
    }

    /// Reads the result of synchronising this handle's descriptor.
    pub fn flush(&self, outcome: SysReturn) -> (r: Result<(), OsError>)
        ensures
            r == outcome.completion_spec(),
    {
        outcome.completion()
    }
}

} // verus!
