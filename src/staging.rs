use vstd::prelude::*;

use crate::error::{Service, ToolError};
use crate::paths::{
    bundle_dir, bundle_dir_spec, package_file, package_file_spec, staging_root,
    staging_root_spec,
};

verus! {

/// How ensuring one directory ended.
#[derive(Debug, Clone, Copy, PartialEq, Eq, Structural)]
pub enum EnsureOutcome {
    Created,
    AlreadyExists,
    CreateFailed,
    /// The create call reported success but the path could not be probed after it.
    VerifyAfterCreateFailed,
}

/// The probe, create, re-probe procedure that makes sure a directory exists.
#[derive(Debug, Clone, Copy, PartialEq, Eq, Structural)]
pub enum EnsureStep {
    /// Probing the path's metadata.
    Probe,
    /// Creating the directory.
    Create,
    /// Probing again after creating it.
    Reprobe,
    Done(EnsureOutcome),
}

pub open spec fn ensure_succeeded(o: EnsureOutcome) -> bool {
    o is Created || o is AlreadyExists
}

/// The step after the reply `ok` to the exchange of step `s`.
pub open spec fn ensure_after(s: EnsureStep, ok: bool) -> EnsureStep {
    match s {
        EnsureStep::Probe => if ok {
            EnsureStep::Done(EnsureOutcome::AlreadyExists)
        } else {
            EnsureStep::Create
        },
        EnsureStep::Create => if ok {
            EnsureStep::Reprobe
        } else {
            EnsureStep::Done(EnsureOutcome::CreateFailed)
        },
        EnsureStep::Reprobe => if ok {
            EnsureStep::Done(EnsureOutcome::Created)
        } else {
            EnsureStep::Done(EnsureOutcome::VerifyAfterCreateFailed)
        },
        EnsureStep::Done(_) => s,
    }
}

/// Where the procedure stands after the replies `replies`, from step `s`.
pub open spec fn ensure_run(s: EnsureStep, replies: Seq<bool>) -> EnsureStep
    decreases replies.len(),
{
    if replies.len() == 0 || s is Done {
        s
    } else {
        ensure_run(ensure_after(s, replies[0]), replies.drop_first())
    }
}

/// The steps whose exchange was performed on the way, from step `s`.
pub open spec fn ensure_steps(s: EnsureStep, replies: Seq<bool>) -> Seq<EnsureStep>
    decreases replies.len(),
{
    if replies.len() == 0 || s is Done {
        Seq::empty()
    } else {
        seq![s] + ensure_steps(ensure_after(s, replies[0]), replies.drop_first())
    }
}

/// The step after the reply `ok` to the exchange of step `s`.
pub fn ensure_next(s: EnsureStep, ok: bool) -> (r: EnsureStep)
    requires
        !(s is Done),
    ensures
        r == ensure_after(s, ok),
{
    match s {
        EnsureStep::Probe => if ok {
            EnsureStep::Done(EnsureOutcome::AlreadyExists)
        } else {
            EnsureStep::Create
        },
        EnsureStep::Create => if ok {
            EnsureStep::Reprobe
        } else {
            EnsureStep::Done(EnsureOutcome::CreateFailed)
        },
        EnsureStep::Reprobe => if ok {
            EnsureStep::Done(EnsureOutcome::Created)
        } else {
            EnsureStep::Done(EnsureOutcome::VerifyAfterCreateFailed)
        },
        EnsureStep::Done(o) => EnsureStep::Done(o),
    }
}

/// Ensuring a directory is idempotent: once a run has confirmed the path, a
/// second run on it, whose probe finds the path present, ends with
/// `AlreadyExists` after that one probe and never reaches the creation step.
pub proof fn lemma_ensure_idempotent(first: Seq<bool>, second: Seq<bool>)
    requires
        ensure_run(EnsureStep::Probe, first) is Done,
        ensure_succeeded(ensure_run(EnsureStep::Probe, first)->Done_0),
        second.len() > 0,
        second[0],
    ensures
        ensure_run(EnsureStep::Probe, second) == EnsureStep::Done(EnsureOutcome::AlreadyExists),
        ensure_steps(EnsureStep::Probe, second) == seq![EnsureStep::Probe],
        !ensure_steps(EnsureStep::Probe, second).contains(EnsureStep::Create),
{
    let done = EnsureStep::Done(EnsureOutcome::AlreadyExists);
    assert(ensure_after(EnsureStep::Probe, true) == done);
    assert(ensure_run(done, second.drop_first()) == done);
    assert(ensure_steps(done, second.drop_first()) == Seq::<EnsureStep>::empty());
    assert(seq![EnsureStep::Probe] + Seq::<EnsureStep>::empty() =~= seq![EnsureStep::Probe]);
    assert(seq![EnsureStep::Probe][0] != EnsureStep::Create);
}

/// The exchange that `StagePackage` asks the device side to perform next.
#[derive(Debug)]
pub enum StageAction {
    AcquireDevice,
    OpenStagingSession,
    /// Query the metadata of a path on the file-staging service.
    ProbePath(String),
    CreateDirectory(String),
    /// Open a file for writing.
    OpenFile(String),
    /// Write these bytes, in full, to the opened file.
    WriteFile(Vec<u8>),
    /// The operation is over; close every session and report the result.
    Finish(Result<(), ToolError>),
}

/// Where a `StagePackage` run stands.
#[derive(Debug, Clone, Copy)]
pub enum StageState {
    AwaitDevice,
    AwaitStagingSession,
    EnsureRoot(EnsureStep),
    EnsureBundleDir(EnsureStep),
    AwaitOpen,
    AwaitWrite,
    Finished(Result<(), ToolError>),
}

/// What follows ensuring a directory that ended with `o`.
pub open spec fn after_ensure(o: EnsureOutcome, then: StageState) -> StageState {
    if ensure_succeeded(o) {
        then
    } else {
        StageState::Finished(Err(ToolError::DirectoryEnsureFailed))
    }
}

/// The state after the reply `ok` in state `s`.
pub open spec fn staging_after(s: StageState, ok: bool) -> StageState {
    match s {
        StageState::AwaitDevice => if ok {
            StageState::AwaitStagingSession
        } else {
            StageState::Finished(Err(ToolError::DeviceNotFound))
        },
        StageState::AwaitStagingSession => if ok {
            StageState::EnsureRoot(EnsureStep::Probe)
        } else {
            StageState::Finished(Err(ToolError::ServiceUnavailable(Service::Staging)))
        },
        StageState::EnsureRoot(e) => match ensure_after(e, ok) {
            EnsureStep::Done(o) => after_ensure(o, StageState::EnsureBundleDir(EnsureStep::Probe)),
            e2 => StageState::EnsureRoot(e2),
        },
        StageState::EnsureBundleDir(e) => match ensure_after(e, ok) {
            EnsureStep::Done(o) => after_ensure(o, StageState::AwaitOpen),
            e2 => StageState::EnsureBundleDir(e2),
        },
        StageState::AwaitOpen => if ok {
            StageState::AwaitWrite
        } else {
            StageState::Finished(Err(ToolError::FileOpenFailed))
        },
        StageState::AwaitWrite => if ok {
            StageState::Finished(Ok(()))
        } else {
            StageState::Finished(Err(ToolError::FileWriteFailed))
        },
        StageState::Finished(_) => s,
    }
}

/// The exchange of ensure step `e` on the directory `dir`.
pub open spec fn ensure_action_fits(e: EnsureStep, dir: Seq<char>, a: StageAction) -> bool {
    match e {
        EnsureStep::Create => a is CreateDirectory && a->CreateDirectory_0@ == dir,
        _ => a is ProbePath && a->ProbePath_0@ == dir,
    }
}

/// One `StagePackage` operation: makes sure the staging root and the bundle's
/// directory exist, then writes the package bytes to the bundle's package file.
pub struct StagePackage {
    bundle_id: String,
    bytes: Vec<u8>,
    state: StageState,
}

impl StagePackage {
    pub closed spec fn state(&self) -> StageState {
        self.state
    }

    pub closed spec fn bundle_id(&self) -> Seq<char> {
        self.bundle_id@
    }

    pub closed spec fn bytes(&self) -> Seq<u8> {
        self.bytes@
    }

    pub closed spec fn wf(&self) -> bool {
        &&& !(self.state matches StageState::EnsureRoot(EnsureStep::Done(_)))
        &&& !(self.state matches StageState::EnsureBundleDir(EnsureStep::Done(_)))
    }

    /// `a` is what this run asks for in its current state.
    pub open spec fn action_fits(&self, a: StageAction) -> bool {
        match self.state() {
            StageState::AwaitDevice => a is AcquireDevice,
            StageState::AwaitStagingSession => a is OpenStagingSession,
            StageState::EnsureRoot(e) => ensure_action_fits(e, staging_root_spec(), a),
            StageState::EnsureBundleDir(e) => ensure_action_fits(
                e,
                bundle_dir_spec(self.bundle_id()),
                a,
            ),
            StageState::AwaitOpen => a is OpenFile && a->OpenFile_0@ == package_file_spec(
                self.bundle_id(),
            ),
            StageState::AwaitWrite => a is WriteFile && a->WriteFile_0@ == self.bytes(),
            StageState::Finished(r) => a == StageAction::Finish(r),
        }
    }

    /// A run that stages `bytes` for the application `bundle_id`.
    pub fn new(bundle_id: String, bytes: Vec<u8>) -> (m: StagePackage)
        ensures
            m.wf(),
            m.state() == StageState::AwaitDevice,
            m.bundle_id() == bundle_id@,
            m.bytes() == bytes@,
    {
        StagePackage { bundle_id, bytes, state: StageState::AwaitDevice }
    }

    /// The exchange to perform next.
    pub fn next_action(&self) -> (a: StageAction)
        requires
            self.wf(),
        ensures
            self.action_fits(a),
    {
        match self.state {
            StageState::AwaitDevice => StageAction::AcquireDevice,
            StageState::AwaitStagingSession => StageAction::OpenStagingSession,
            StageState::EnsureRoot(e) => match e {
                EnsureStep::Create => StageAction::CreateDirectory(staging_root()),
                _ => StageAction::ProbePath(staging_root()),
            },
            StageState::EnsureBundleDir(e) => match e {
                EnsureStep::Create => StageAction::CreateDirectory(bundle_dir(&self.bundle_id)),
                _ => StageAction::ProbePath(bundle_dir(&self.bundle_id)),
            },
            StageState::AwaitOpen => StageAction::OpenFile(package_file(&self.bundle_id)),
            StageState::AwaitWrite => StageAction::WriteFile(copy_bytes(&self.bytes)),
            StageState::Finished(r) => StageAction::Finish(r),
        }
    }

    /// Feeds in the success or failure of the pending exchange.
    pub fn reply(&mut self, ok: bool)
        requires
            old(self).wf(),
            !(old(self).state() is Finished),
        ensures
            final(self).wf(),
            final(self).state() == staging_after(old(self).state(), ok),
            final(self).bundle_id() == old(self).bundle_id(),
            final(self).bytes() == old(self).bytes(),
    {
        let next = match self.state {
            StageState::AwaitDevice => if ok {
                StageState::AwaitStagingSession
            } else {
                StageState::Finished(Err(ToolError::DeviceNotFound))
            },
            StageState::AwaitStagingSession => if ok {
                StageState::EnsureRoot(EnsureStep::Probe)
            } else {
                StageState::Finished(Err(ToolError::ServiceUnavailable(Service::Staging)))
            },
            StageState::EnsureRoot(e) => match ensure_next(e, ok) {
                EnsureStep::Done(o) => finish_ensure(o, StageState::EnsureBundleDir(EnsureStep::Probe)),
                e2 => StageState::EnsureRoot(e2),
            },
            StageState::EnsureBundleDir(e) => match ensure_next(e, ok) {
                EnsureStep::Done(o) => finish_ensure(o, StageState::AwaitOpen),
                e2 => StageState::EnsureBundleDir(e2),
            },
            StageState::AwaitOpen => if ok {
                StageState::AwaitWrite
            } else {
                StageState::Finished(Err(ToolError::FileOpenFailed))
            },
            StageState::AwaitWrite => if ok {
                StageState::Finished(Ok(()))
            } else {
                StageState::Finished(Err(ToolError::FileWriteFailed))
            },
            StageState::Finished(r) => StageState::Finished(r),
        };
        self.state = next;
    }

    /// The result once the run is over; `None` while it goes on.
    pub fn outcome(&self) -> (o: Option<Result<(), ToolError>>)
        ensures
            match self.state() {
                StageState::Finished(r) => o == Some(r),
                _ => o is None,
            },
    {
        match self.state {
            StageState::Finished(r) => Some(r),
            _ => None,
        }
    }
}

/// What a staging run writes is the caller's buffer, unchanged: a write that
/// the run asks for carries exactly the bytes it was created with (which
/// `reply` keeps), and it is asked for only once the package file
/// `<root>/<bundle_id>/app.ipa` has been opened.
pub proof fn lemma_write_carries_buffer(m: StagePackage, a: StageAction)
    requires
        m.wf(),
        m.action_fits(a),
        a is WriteFile,
    ensures
        a->WriteFile_0@ == m.bytes(),
        m.state() is AwaitWrite,
        staging_after(StageState::AwaitOpen, true) == m.state(),
{
}

/// What follows ensuring a directory that ended with `o`.
fn finish_ensure(o: EnsureOutcome, then: StageState) -> (r: StageState)
    ensures
        r == after_ensure(o, then),
{
    match o {
        EnsureOutcome::Created | EnsureOutcome::AlreadyExists => then,
        _ => StageState::Finished(Err(ToolError::DirectoryEnsureFailed)),
    }
}

/// A byte-for-byte copy of `b`.
fn copy_bytes(b: &Vec<u8>) -> (r: Vec<u8>)
    ensures
        r@ == b@,
{
    let mut r: Vec<u8> = Vec::with_capacity(b.len());
    let mut i: usize = 0;
    while i < b.len()
        invariant
            i <= b@.len(),
            r@ == b@.subrange(0, i as int),
        decreases b.len() - i,
    {
        r.push(b[i]);
        i = i + 1;
    }
    assert(r@ =~= b@);
    r
}

} // verus!
