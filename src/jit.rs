use vstd::prelude::*;
use vstd::string::*;

use crate::error::{JitStage, Service, ToolError};
use crate::locate::{
    find_container, is_listed, lemma_listed_iff_found, listed_container, ApplicationRecord,
    InventoryEntry,
};

verus! {

/// The control commands, in the one order in which they are issued.
pub open spec fn stage_order() -> Seq<JitStage> {
    seq![
        JitStage::PacketSize,
        JitStage::WorkingDir,
        JitStage::Argv,
        JitStage::LaunchConfirm,
        JitStage::Detach,
    ]
}

/// Position of a stage in `stage_order`.
pub open spec fn stage_index(k: JitStage) -> nat {
    match k {
        JitStage::PacketSize => 0,
        JitStage::WorkingDir => 1,
        JitStage::Argv => 2,
        JitStage::LaunchConfirm => 3,
        JitStage::Detach => 4,
    }
}

/// The stage that follows `k`, if any.
pub open spec fn stage_after(k: JitStage) -> Option<JitStage> {
    match k {
        JitStage::PacketSize => Some(JitStage::WorkingDir),
        JitStage::WorkingDir => Some(JitStage::Argv),
        JitStage::Argv => Some(JitStage::LaunchConfirm),
        JitStage::LaunchConfirm => Some(JitStage::Detach),
        JitStage::Detach => None,
    }
}

/// The stage that follows `k`, if any.
pub fn next_stage(k: JitStage) -> (r: Option<JitStage>)
    ensures
        r == stage_after(k),
{
    match k {
        JitStage::PacketSize => Some(JitStage::WorkingDir),
        JitStage::WorkingDir => Some(JitStage::Argv),
        JitStage::Argv => Some(JitStage::LaunchConfirm),
        JitStage::LaunchConfirm => Some(JitStage::Detach),
        JitStage::Detach => None,
    }
}

/// The exchange that `EnableJit` asks the device side to perform next.
#[derive(Debug)]
pub enum JitAction {
    AcquireDevice,
    OpenLookupSession,
    /// Query the lookup service for all applications.
    LookupApplications,
    /// Ask the lookup service for the executable path of the bundle.
    ResolveBundlePath,
    OpenControlSession,
    /// Send one text command over the control session.
    SendCommand(String),
    /// Set the launched process's arguments over the control session.
    SetArgv(Vec<String>),
    /// The operation is over; close every session and report the result.
    Finish(Result<(), ToolError>),
}

/// Where an `EnableJit` run stands.
#[derive(Debug)]
pub enum JitState {
    AwaitDevice,
    AwaitLookupSession,
    AwaitInventory,
    /// Holds the resolved container path.
    AwaitBundlePath(String),
    AwaitControlSession(ApplicationRecord),
    /// The command of this stage has been issued; its reply is awaited.
    Commanding(ApplicationRecord, JitStage),
    Finished(Result<(), ToolError>),
}

/// `a` is the control exchange of stage `k` for the application `rec`.
pub open spec fn is_command_for(a: JitAction, rec: ApplicationRecord, k: JitStage) -> bool {
    match k {
        JitStage::PacketSize => a is SendCommand && a->SendCommand_0@
            == "QSetMaxPacketSize: 1024"@,
        JitStage::WorkingDir => a is SendCommand && a->SendCommand_0@ == "QSetWorkingDir: "@
            + rec.container_path@,
        JitStage::Argv => a is SetArgv && a->SetArgv_0@.len() == 2 && a->SetArgv_0@[0]@
            == rec.bundle_path@ && a->SetArgv_0@[1]@ == rec.bundle_path@,
        JitStage::LaunchConfirm => a is SendCommand && a->SendCommand_0@ == "qLaunchSuccess"@,
        JitStage::Detach => a is SendCommand && a->SendCommand_0@ == "D"@,
    }
}

/// `a` is what a run in state `s` asks for.
pub open spec fn action_fits(s: JitState, a: JitAction) -> bool {
    match s {
        JitState::AwaitDevice => a is AcquireDevice,
        JitState::AwaitLookupSession => a is OpenLookupSession,
        JitState::AwaitInventory => a is LookupApplications,
        JitState::AwaitBundlePath(_) => a is ResolveBundlePath,
        JitState::AwaitControlSession(_) => a is OpenControlSession,
        JitState::Commanding(rec, k) => is_command_for(a, rec, k),
        JitState::Finished(r) => a == JitAction::Finish(r),
    }
}

/// States whose pending exchange answers with success or failure alone.
pub open spec fn awaits_reply(s: JitState) -> bool {
    s is AwaitDevice || s is AwaitLookupSession || s is AwaitControlSession || s is Commanding
}

/// The state after a success-or-failure reply in state `s`.
pub open spec fn after_reply(s: JitState, ok: bool) -> JitState {
    match s {
        JitState::AwaitDevice => if ok {
            JitState::AwaitLookupSession
        } else {
            JitState::Finished(Err(ToolError::DeviceNotFound))
        },
        JitState::AwaitLookupSession => if ok {
            JitState::AwaitInventory
        } else {
            JitState::Finished(Err(ToolError::ServiceUnavailable(Service::Lookup)))
        },
        JitState::AwaitControlSession(rec) => if ok {
            JitState::Commanding(rec, JitStage::PacketSize)
        } else {
            JitState::Finished(Err(ToolError::ServiceUnavailable(Service::Control)))
        },
        JitState::Commanding(rec, k) => if !ok {
            JitState::Finished(Err(ToolError::ControlCommandFailed(k)))
        } else {
            match stage_after(k) {
                Some(k2) => JitState::Commanding(rec, k2),
                None => JitState::Finished(Ok(())),
            }
        },
        _ => s,
    }
}

/// How many control commands a run in state `s` has issued.
pub open spec fn issued_count(s: JitState) -> nat {
    match s {
        JitState::Commanding(_, k) => stage_index(k),
        JitState::Finished(Ok(())) => 5,
        JitState::Finished(Err(ToolError::ControlCommandFailed(k))) => stage_index(k) + 1,
        _ => 0,
    }
}

/// A run in state `s` has tried to open the control session.
pub open spec fn control_reached(s: JitState) -> bool {
    match s {
        JitState::Commanding(_, _) => true,
        JitState::Finished(Ok(())) => true,
        JitState::Finished(Err(ToolError::ControlCommandFailed(_))) => true,
        JitState::Finished(Err(ToolError::ServiceUnavailable(Service::Control))) => true,
        _ => false,
    }
}

/// One `EnableJIT` operation: resolves the application through the lookup
/// service, then drives the control service through its command sequence.
pub struct EnableJit {
    bundle_id: String,
    state: JitState,
    /// The control commands issued so far, in order.
    issued: Ghost<Seq<JitStage>>,
    /// Whether opening the control session has been tried.
    control_attempted: Ghost<bool>,
    /// Whether the inventory came back without the application.
    unlisted: Ghost<bool>,
}

impl EnableJit {
    pub closed spec fn state(&self) -> JitState {
        self.state
    }

    pub closed spec fn bundle_id(&self) -> Seq<char> {
        self.bundle_id@
    }

    pub closed spec fn issued(&self) -> Seq<JitStage> {
        self.issued@
    }

    pub closed spec fn control_attempted(&self) -> bool {
        self.control_attempted@
    }

    pub closed spec fn unlisted(&self) -> bool {
        self.unlisted@
    }

    pub closed spec fn wf(&self) -> bool {
        &&& self.issued@ == stage_order().take(issued_count(self.state) as int)
        &&& self.control_attempted@ == control_reached(self.state)
        &&& self.unlisted@ ==> self.state == JitState::Finished(Err(ToolError::NotInstalled))
        &&& self.state matches JitState::AwaitControlSession(rec) ==> rec.bundle_identifier@
            == self.bundle_id@
        &&& self.state matches JitState::Commanding(rec, _) ==> rec.bundle_identifier@
            == self.bundle_id@
    }

    /// A run for the application `bundle_id`, before any exchange.
    pub fn new(bundle_id: String) -> (m: EnableJit)
        ensures
            m.wf(),
            m.state() is AwaitDevice,
            m.bundle_id() == bundle_id@,
            m.issued() == Seq::<JitStage>::empty(),
            !m.unlisted(),
    {
        assert(stage_order().take(0) =~= Seq::<JitStage>::empty());
        EnableJit {
            bundle_id,
            state: JitState::AwaitDevice,
            issued: Ghost(Seq::empty()),
            control_attempted: Ghost(false),
            unlisted: Ghost(false),
        }
    }

    /// The application this run is for.
    pub fn bundle_identifier(&self) -> (r: &String)
        ensures
            r@ == self.bundle_id(),
    {
        &self.bundle_id
    }

    /// The exchange to perform next.
    pub fn next_action(&self) -> (a: JitAction)
        requires
            self.wf(),
        ensures
            action_fits(self.state(), a),
    {
        match &self.state {
            JitState::AwaitDevice => JitAction::AcquireDevice,
            JitState::AwaitLookupSession => JitAction::OpenLookupSession,
            JitState::AwaitInventory => JitAction::LookupApplications,
            JitState::AwaitBundlePath(_) => JitAction::ResolveBundlePath,
            JitState::AwaitControlSession(_) => JitAction::OpenControlSession,
            JitState::Commanding(rec, k) => command_for(rec, *k),
            JitState::Finished(r) => JitAction::Finish(*r),
        }
    }

    /// Feeds in the success or failure of the pending exchange: acquiring
    /// the device, opening a session, or a control command.
    pub fn reply(&mut self, ok: bool)
        requires
            old(self).wf(),
            awaits_reply(old(self).state()),
        ensures
            final(self).wf(),
            final(self).state() == after_reply(old(self).state(), ok),
            final(self).bundle_id() == old(self).bundle_id(),
            final(self).unlisted() == old(self).unlisted(),
            final(self).issued() == match old(self).state() {
                JitState::Commanding(_, k) => old(self).issued().push(k),
                _ => old(self).issued(),
            },
    {
        let mut st = JitState::AwaitDevice;
        core::mem::swap(&mut st, &mut self.state);
        let next = match st {
            JitState::AwaitDevice => if ok {
                JitState::AwaitLookupSession
            } else {
                JitState::Finished(Err(ToolError::DeviceNotFound))
            },
            JitState::AwaitLookupSession => if ok {
                JitState::AwaitInventory
            } else {
                JitState::Finished(Err(ToolError::ServiceUnavailable(Service::Lookup)))
            },
            JitState::AwaitControlSession(rec) => {
                self.control_attempted = Ghost(true);
                if ok {
                    JitState::Commanding(rec, JitStage::PacketSize)
                } else {
                    JitState::Finished(Err(ToolError::ServiceUnavailable(Service::Control)))
                }
            },
            JitState::Commanding(rec, k) => {
                self.issued = Ghost(self.issued@.push(k));
                proof {
                    let n = stage_index(k) as int;
                    assert(stage_order()[n] == k);
                    assert(stage_order().take(n).push(k) =~= stage_order().take(n + 1));
                }
                if !ok {
                    JitState::Finished(Err(ToolError::ControlCommandFailed(k)))
                } else {
                    match next_stage(k) {
                        Some(k2) => JitState::Commanding(rec, k2),
                        None => JitState::Finished(Ok(())),
                    }
                }
            },
            other => other,
        };
        self.state = next;
    }

    /// Feeds in the reply to the inventory query: `None` when the query
    /// failed, else the applications the lookup service lists.
    pub fn inventory_received(&mut self, inventory: Option<Vec<InventoryEntry>>)
        requires
            old(self).wf(),
            old(self).state() is AwaitInventory,
        ensures
            final(self).wf(),
            final(self).bundle_id() == old(self).bundle_id(),
            final(self).issued() == old(self).issued(),
            match inventory {
                None => final(self).state() == JitState::Finished(Err(ToolError::LookupFailed)),
                Some(inv) => match listed_container(inv@, old(self).bundle_id()) {
                    Some(Some(c)) => final(self).state() is AwaitBundlePath
                        && final(self).state()->AwaitBundlePath_0@ == c,
                    _ => final(self).state() == JitState::Finished(Err(ToolError::NotInstalled)),
                },
            },
            final(self).unlisted() == (inventory is Some && !is_listed(
                inventory->Some_0@,
                old(self).bundle_id(),
            )),
    {
        match inventory {
            None => {
                self.state = JitState::Finished(Err(ToolError::LookupFailed));
            },
            Some(inv) => {
                proof {
                    lemma_listed_iff_found(inv@, self.bundle_id@);
                }
                self.unlisted = Ghost(!is_listed(inv@, self.bundle_id@));
                match find_container(&inv, &self.bundle_id) {
                    Ok(c) => {
                        self.state = JitState::AwaitBundlePath(c);
                    },
                    Err(_) => {
                        self.state = JitState::Finished(Err(ToolError::NotInstalled));
                    },
                }
            },
        }
    }

    /// Feeds in the reply to the bundle-path query: `None` when it failed.
    pub fn bundle_path_received(&mut self, path: Option<String>)
        requires
            old(self).wf(),
            old(self).state() is AwaitBundlePath,
        ensures
            final(self).wf(),
            final(self).bundle_id() == old(self).bundle_id(),
            final(self).issued() == old(self).issued(),
            final(self).unlisted() == old(self).unlisted(),
            match path {
                None => final(self).state() == JitState::Finished(Err(ToolError::LookupFailed)),
                Some(p) => final(self).state() is AwaitControlSession && ({
                    let rec = final(self).state()->AwaitControlSession_0;
                    &&& rec.bundle_identifier@ == old(self).bundle_id()
                    &&& rec.container_path@ == old(self).state()->AwaitBundlePath_0@
                    &&& rec.bundle_path@ == p@
                }),
            },
    {
        let mut st = JitState::AwaitDevice;
        core::mem::swap(&mut st, &mut self.state);
        let next = match (st, path) {
            (JitState::AwaitBundlePath(container), Some(p)) => JitState::AwaitControlSession(
                ApplicationRecord {
                    bundle_identifier: self.bundle_id.clone(),
                    container_path: container,
                    bundle_path: p,
                },
            ),
            (_, _) => JitState::Finished(Err(ToolError::LookupFailed)),
        };
        self.state = next;
    }

    /// The result once the run is over; `None` while it goes on.
    pub fn outcome(&self) -> (o: Option<Result<(), ToolError>>)
        ensures
            match self.state() {
                JitState::Finished(r) => o == Some(r),
                _ => o is None,
            },
    {
        match &self.state {
            JitState::Finished(r) => Some(*r),
            _ => None,
        }
    }
}

/// An application that the lookup service does not list never reaches the
/// control service: the run ends with `NotInstalled`, has issued no control
/// command and has not tried to open a control session. No exchange is
/// asked for after that, since a finished run accepts no further reply.
pub proof fn lemma_unlisted_app_never_commanded(m: EnableJit)
    requires
        m.wf(),
        m.unlisted(),
    ensures
        m.state() == JitState::Finished(Err(ToolError::NotInstalled)),
        m.issued() == Seq::<JitStage>::empty(),
        !m.control_attempted(),
{
    assert(stage_order().take(0) =~= Seq::<JitStage>::empty());
}

/// Control commands go out in one fixed order, each only after the one
/// before it succeeded: what has been issued is always a prefix of that
/// order; a successful run issued all five; a run that failed at stage `k`
/// issued nothing after `k`.
pub proof fn lemma_command_order(m: EnableJit)
    requires
        m.wf(),
    ensures
        m.issued().is_prefix_of(stage_order()),
        m.state() == JitState::Finished(Ok(())) ==> m.issued() == stage_order(),
        forall|k: JitStage|
            m.state() == JitState::Finished(Err(ToolError::ControlCommandFailed(k))) ==> {
                &&& m.issued() == stage_order().take(stage_index(k) + 1int)
                &&& m.issued().last() == k
            },
{
    assert(stage_order().take(5) =~= stage_order());
    assert forall|k: JitStage|
        m.state() == JitState::Finished(Err(ToolError::ControlCommandFailed(k))) implies m.issued().last() == k by {
        assert(stage_order()[stage_index(k) as int] == k);
    }
}

/// The control exchange of stage `k` for the application `rec`.
pub fn command_for(rec: &ApplicationRecord, k: JitStage) -> (a: JitAction)
    ensures
        is_command_for(a, *rec, k),
{
    match k {
        JitStage::PacketSize => JitAction::SendCommand(String::from_str("QSetMaxPacketSize: 1024")),
        JitStage::WorkingDir => {
            let mut c = String::from_str("QSetWorkingDir: ");
            c.append(rec.container_path.as_str());
            JitAction::SendCommand(c)
        },
        JitStage::Argv => {
            let mut v: Vec<String> = Vec::new();
            v.push(rec.bundle_path.clone());
            v.push(rec.bundle_path.clone());
            JitAction::SetArgv(v)
        },
        JitStage::LaunchConfirm => JitAction::SendCommand(String::from_str("qLaunchSuccess")),
        JitStage::Detach => JitAction::SendCommand(String::from_str("D")),
    }
}

} // verus!
