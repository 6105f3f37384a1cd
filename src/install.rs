use vstd::prelude::*;
use vstd::string::*;

use crate::error::{Service, ToolError};
use crate::paths::{package_file, package_file_spec};

verus! {

/// The exchange that `InstallPackage` asks the device side to perform next.
#[derive(Debug)]
pub enum InstallAction {
    AcquireDevice,
    OpenLookupSession,
    /// Install the package at `package_path` with these options, given as
    /// key and string value.
    Install { package_path: String, options: Vec<(String, String)> },
    /// The operation is over; close every session and report the result.
    Finish(Result<(), ToolError>),
}

/// Where an `InstallPackage` run stands.
#[derive(Debug, Clone, Copy)]
pub enum InstallState {
    AwaitDevice,
    AwaitLookupSession,
    AwaitInstall,
    Finished(Result<(), ToolError>),
}

/// The state after the reply `ok` in state `s`.
pub open spec fn install_after(s: InstallState, ok: bool) -> InstallState {
    match s {
        InstallState::AwaitDevice => if ok {
            InstallState::AwaitLookupSession
        } else {
            InstallState::Finished(Err(ToolError::DeviceNotFound))
        },
        InstallState::AwaitLookupSession => if ok {
            InstallState::AwaitInstall
        } else {
            InstallState::Finished(Err(ToolError::ServiceUnavailable(Service::Lookup)))
        },
        InstallState::AwaitInstall => if ok {
            InstallState::Finished(Ok(()))
        } else {
            InstallState::Finished(Err(ToolError::InstallFailed))
        },
        InstallState::Finished(_) => s,
    }
}

/// The installation options: the single entry `CFBundleIdentifier = bundle_id`.
pub open spec fn options_fit(options: Seq<(String, String)>, bundle_id: Seq<char>) -> bool {
    &&& options.len() == 1
    &&& options[0].0@ == "CFBundleIdentifier"@
    &&& options[0].1@ == bundle_id
}

/// The options mapping that targets the application `bundle_id`.
pub fn install_options(bundle_id: &String) -> (r: Vec<(String, String)>)
    ensures
        options_fit(r@, bundle_id@),
{
    let mut r: Vec<(String, String)> = Vec::new();
    r.push((String::from_str("CFBundleIdentifier"), bundle_id.clone()));
    r
}

/// One `InstallPackage` operation: installs the package staged for an
/// application from its fixed staging path.
pub struct InstallPackage {
    bundle_id: String,
    state: InstallState,
}

impl InstallPackage {
    pub closed spec fn state(&self) -> InstallState {
        self.state
    }

    pub closed spec fn bundle_id(&self) -> Seq<char> {
        self.bundle_id@
    }

    /// `a` is what this run asks for in its current state.
    pub open spec fn action_fits(&self, a: InstallAction) -> bool {
        match self.state() {
            InstallState::AwaitDevice => a is AcquireDevice,
            InstallState::AwaitLookupSession => a is OpenLookupSession,
            InstallState::AwaitInstall => a is Install && a->Install_package_path@
                == package_file_spec(self.bundle_id()) && options_fit(
                a->Install_options@,
                self.bundle_id(),
            ),
            InstallState::Finished(r) => a == InstallAction::Finish(r),
        }
    }

    /// A run that installs the package staged for `bundle_id`.
    pub fn new(bundle_id: String) -> (m: InstallPackage)
        ensures
            m.state() == InstallState::AwaitDevice,
            m.bundle_id() == bundle_id@,
    {
        InstallPackage { bundle_id, state: InstallState::AwaitDevice }
    }

    /// The exchange to perform next.
    pub fn next_action(&self) -> (a: InstallAction)
        ensures
            self.action_fits(a),
    {
        match self.state {
            InstallState::AwaitDevice => InstallAction::AcquireDevice,
            InstallState::AwaitLookupSession => InstallAction::OpenLookupSession,
            InstallState::AwaitInstall => InstallAction::Install {
                package_path: package_file(&self.bundle_id),
                options: install_options(&self.bundle_id),
            },
            InstallState::Finished(r) => InstallAction::Finish(r),
        }
    }

    /// Feeds in the success or failure of the pending exchange; a failed
    /// installation, such as one of a package never staged, ends the run
    /// with `InstallFailed`.
    pub fn reply(&mut self, ok: bool)
        requires
            !(old(self).state() is Finished),
        ensures
            final(self).state() == install_after(old(self).state(), ok),
            final(self).bundle_id() == old(self).bundle_id(),
    {
        let next = match self.state {
            InstallState::AwaitDevice => if ok {
                InstallState::AwaitLookupSession
            } else {
                InstallState::Finished(Err(ToolError::DeviceNotFound))
            },
            InstallState::AwaitLookupSession => if ok {
                InstallState::AwaitInstall
            } else {
                InstallState::Finished(Err(ToolError::ServiceUnavailable(Service::Lookup)))
            },
            InstallState::AwaitInstall => if ok {
                InstallState::Finished(Ok(()))
            } else {
                InstallState::Finished(Err(ToolError::InstallFailed))
            },
            InstallState::Finished(r) => InstallState::Finished(r),
        };
        self.state = next;
    }

    /// The result once the run is over; `None` while it goes on.
    pub fn outcome(&self) -> (o: Option<Result<(), ToolError>>)
        ensures
            match self.state() {
                InstallState::Finished(r) => o == Some(r),
                _ => o is None,
            },
    {
        match self.state {
            InstallState::Finished(r) => Some(r),
            _ => None,
        }
    }
}

/// An installation reaches the service only at the path where staging
/// writes the same bundle's package, and its failure ends the run with
/// `InstallFailed`.
pub proof fn lemma_install_targets_staged_file(m: InstallPackage, a: InstallAction)
    requires
        m.action_fits(a),
        a is Install,
    ensures
        a->Install_package_path@ == package_file_spec(m.bundle_id()),
        install_after(m.state(), false) == InstallState::Finished(Err(ToolError::InstallFailed)),
{
}

} // verus!
