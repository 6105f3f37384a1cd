use vstd::prelude::*;

verus! {

/// A device-side service that an operation opens a session with.
#[derive(Debug, Clone, Copy, PartialEq, Eq, Structural)]
pub enum Service {
    Lookup,
    Staging,
    Control,
}

/// One step of the control-command sequence that enables JIT.
#[derive(Debug, Clone, Copy, PartialEq, Eq, Structural)]
pub enum JitStage {
    PacketSize,
    WorkingDir,
    Argv,
    LaunchConfirm,
    Detach,
}

/// The name under which a stage is reported.
pub open spec fn stage_label(k: JitStage) -> Seq<char> {
    match k {
        JitStage::PacketSize => "packet-size"@,
        JitStage::WorkingDir => "working-dir"@,
        JitStage::Argv => "argv"@,
        JitStage::LaunchConfirm => "launch-confirm"@,
        JitStage::Detach => "detach"@,
    }
}

impl JitStage {
    /// The name under which this stage is reported.
    pub fn label(&self) -> (s: &'static str)
        ensures
            s@ == stage_label(*self),
    {
        match self {
            JitStage::PacketSize => "packet-size",
            JitStage::WorkingDir => "working-dir",
            JitStage::Argv => "argv",
            JitStage::LaunchConfirm => "launch-confirm",
            JitStage::Detach => "detach",
        }
    }
}

/// Why an operation stopped.
#[derive(Debug, Clone, Copy, PartialEq, Eq, Structural)]
pub enum ToolError {
    DeviceNotFound,
    ServiceUnavailable(Service),
    NotInstalled,
    LookupFailed,
    DirectoryEnsureFailed,
    FileOpenFailed,
    FileWriteFailed,
    ControlCommandFailed(JitStage),
    InstallFailed,
}

/// The status code handed to the host: `0` on success, `-1` on any failure.
pub open spec fn status_of(r: Result<(), ToolError>) -> i32 {
    match r {
        Ok(()) => 0i32,
        Err(_) => -1i32,
    }
}

/// Collapses an operation's result into the host-facing status code.
pub fn status_code(r: &Result<(), ToolError>) -> (c: i32)
    ensures
        c == status_of(*r),
{
    match r {
        Ok(()) => 0,
        Err(_) => -1,
    }
}

} // verus!
