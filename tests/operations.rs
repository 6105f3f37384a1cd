use minimuxer_tools::error::{status_code, JitStage, Service, ToolError};
use minimuxer_tools::install::{install_options, InstallAction, InstallPackage};
use minimuxer_tools::jit::{command_for, next_stage, EnableJit, JitAction};
use minimuxer_tools::locate::{
    find_container, lookup_attributes, lookup_filter, ApplicationRecord, InventoryEntry,
};
use minimuxer_tools::paths::{bundle_dir, package_file, staging_root};
use minimuxer_tools::staging::{ensure_next, EnsureOutcome, EnsureStep, StageAction, StagePackage};

fn entry(id: &str, container: Option<&str>) -> InventoryEntry {
    InventoryEntry {
        bundle_identifier: id.to_string(),
        container: container.map(|c| c.to_string()),
    }
}

fn text(a: &JitAction) -> String {
    match a {
        JitAction::SendCommand(c) => c.clone(),
        other => panic!("expected a text command, got {:?}", other),
    }
}

/// Runs an `EnableJit` up to its control session with the given inventory and bundle path.
fn jit_until_control(id: &str, inventory: Vec<InventoryEntry>, path: &str) -> EnableJit {
    let mut m = EnableJit::new(id.to_string());
    assert!(matches!(m.next_action(), JitAction::AcquireDevice));
    m.reply(true);
    assert!(matches!(m.next_action(), JitAction::OpenLookupSession));
    m.reply(true);
    assert!(matches!(m.next_action(), JitAction::LookupApplications));
    m.inventory_received(Some(inventory));
    assert!(matches!(m.next_action(), JitAction::ResolveBundlePath));
    m.bundle_path_received(Some(path.to_string()));
    assert!(matches!(m.next_action(), JitAction::OpenControlSession));
    m
}

#[test]
fn status_code_is_zero_only_on_success() {
    assert_eq!(status_code(&Ok(())), 0);
    assert_eq!(status_code(&Err(ToolError::DeviceNotFound)), -1);
    assert_eq!(status_code(&Err(ToolError::ControlCommandFailed(JitStage::Detach))), -1);
}

#[test]
fn stage_labels() {
    assert_eq!(JitStage::PacketSize.label(), "packet-size");
    assert_eq!(JitStage::WorkingDir.label(), "working-dir");
    assert_eq!(JitStage::Argv.label(), "argv");
    assert_eq!(JitStage::LaunchConfirm.label(), "launch-confirm");
    assert_eq!(JitStage::Detach.label(), "detach");
}

#[test]
fn staging_paths() {
    let id = "com.example.app".to_string();
    assert_eq!(staging_root(), "./PublicStaging");
    assert_eq!(bundle_dir(&id), "./PublicStaging/com.example.app");
    assert_eq!(package_file(&id), "./PublicStaging/com.example.app/app.ipa");
}

#[test]
fn inventory_query_values() {
    let f = lookup_filter();
    assert_eq!(f, vec![("ApplicationType".to_string(), "Any".to_string())]);
    assert_eq!(
        lookup_attributes(),
        vec!["CFBundleIdentifier", "CFBundleExecutable", "CFBundlePath", "BundlePath", "Container"]
    );
}

#[test]
fn find_container_of_listed_app() {
    let inv = vec![entry("com.other", Some("/c/other")), entry("com.example.app", Some("/c/app"))];
    let id = "com.example.app".to_string();
    assert_eq!(find_container(&inv, &id), Ok("/c/app".to_string()));
}

#[test]
fn find_container_unlisted_or_without_container() {
    let inv = vec![entry("com.other", Some("/c/other")), entry("com.nopath", None)];
    assert_eq!(find_container(&inv, &"com.example.app".to_string()), Err(ToolError::NotInstalled));
    assert_eq!(find_container(&inv, &"com.nopath".to_string()), Err(ToolError::NotInstalled));
    assert_eq!(find_container(&vec![], &"com.other".to_string()), Err(ToolError::NotInstalled));
}

#[test]
fn find_container_takes_first_entry() {
    let inv = vec![entry("a", Some("/first")), entry("a", Some("/second"))];
    assert_eq!(find_container(&inv, &"a".to_string()), Ok("/first".to_string()));
}

#[test]
fn control_commands_of_each_stage() {
    let rec = ApplicationRecord {
        bundle_identifier: "com.example.app".to_string(),
        container_path: "/var/c".to_string(),
        bundle_path: "/var/b/App.app".to_string(),
    };
    assert_eq!(text(&command_for(&rec, JitStage::PacketSize)), "QSetMaxPacketSize: 1024");
    assert_eq!(text(&command_for(&rec, JitStage::WorkingDir)), "QSetWorkingDir: /var/c");
    match command_for(&rec, JitStage::Argv) {
        JitAction::SetArgv(v) => assert_eq!(v, vec!["/var/b/App.app", "/var/b/App.app"]),
        other => panic!("expected argv, got {:?}", other),
    }
    assert_eq!(text(&command_for(&rec, JitStage::LaunchConfirm)), "qLaunchSuccess");
    assert_eq!(text(&command_for(&rec, JitStage::Detach)), "D");
    assert_eq!(next_stage(JitStage::LaunchConfirm), Some(JitStage::Detach));
    assert_eq!(next_stage(JitStage::Detach), None);
}

#[test]
fn enable_jit_unlisted_app_opens_no_control_session() {
    let mut m = EnableJit::new("com.example.app".to_string());
    m.reply(true);
    m.reply(true);
    m.inventory_received(Some(vec![entry("com.other", Some("/c/other"))]));
    assert_eq!(m.outcome(), Some(Err(ToolError::NotInstalled)));
    match m.next_action() {
        JitAction::Finish(r) => assert_eq!(status_code(&r), -1),
        other => panic!("expected the run to finish, got {:?}", other),
    }
}

#[test]
fn enable_jit_issues_commands_in_order() {
    let inv = vec![entry("com.example.app", Some("/var/c"))];
    let mut m = jit_until_control("com.example.app", inv, "/var/b/App.app");
    m.reply(true);
    let mut seen: Vec<String> = Vec::new();
    loop {
        match m.next_action() {
            JitAction::SendCommand(c) => seen.push(c),
            JitAction::SetArgv(v) => seen.push(format!("argv {}", v.join(" "))),
            JitAction::Finish(r) => {
                assert_eq!(r, Ok(()));
                break;
            }
            other => panic!("unexpected action {:?}", other),
        }
        m.reply(true);
    }
    assert_eq!(
        seen,
        vec![
            "QSetMaxPacketSize: 1024",
            "QSetWorkingDir: /var/c",
            "argv /var/b/App.app /var/b/App.app",
            "qLaunchSuccess",
            "D",
        ]
    );
    assert_eq!(m.outcome(), Some(Ok(())));
}

#[test]
fn enable_jit_stops_at_failed_command() {
    let inv = vec![entry("com.example.app", Some("/var/c"))];
    let mut m = jit_until_control("com.example.app", inv, "/var/b/App.app");
    m.reply(true);
    m.reply(true);
    m.reply(true);
    assert!(matches!(m.next_action(), JitAction::SetArgv(_)));
    m.reply(false);
    assert_eq!(m.outcome(), Some(Err(ToolError::ControlCommandFailed(JitStage::Argv))));
    assert!(matches!(
        m.next_action(),
        JitAction::Finish(Err(ToolError::ControlCommandFailed(JitStage::Argv)))
    ));
}

#[test]
fn enable_jit_early_failures() {
    let mut m = EnableJit::new("a".to_string());
    m.reply(false);
    assert_eq!(m.outcome(), Some(Err(ToolError::DeviceNotFound)));

    let mut m = EnableJit::new("a".to_string());
    m.reply(true);
    m.reply(false);
    assert_eq!(m.outcome(), Some(Err(ToolError::ServiceUnavailable(Service::Lookup))));

    let mut m = EnableJit::new("a".to_string());
    m.reply(true);
    m.reply(true);
    m.inventory_received(None);
    assert_eq!(m.outcome(), Some(Err(ToolError::LookupFailed)));

    let mut m = EnableJit::new("a".to_string());
    m.reply(true);
    m.reply(true);
    m.inventory_received(Some(vec![entry("a", Some("/c"))]));
    assert_eq!(m.outcome(), None);
    m.bundle_path_received(None);
    assert_eq!(m.outcome(), Some(Err(ToolError::LookupFailed)));

    let mut m = jit_until_control("a", vec![entry("a", Some("/c"))], "/b");
    m.reply(false);
    assert_eq!(m.outcome(), Some(Err(ToolError::ServiceUnavailable(Service::Control))));

    let mut m = jit_until_control("a", vec![entry("a", Some("/c"))], "/b");
    m.reply(true);
    m.reply(false);
    assert_eq!(m.outcome(), Some(Err(ToolError::ControlCommandFailed(JitStage::PacketSize))));
}

#[test]
fn ensure_directory_steps() {
    assert_eq!(ensure_next(EnsureStep::Probe, true), EnsureStep::Done(EnsureOutcome::AlreadyExists));
    assert_eq!(ensure_next(EnsureStep::Probe, false), EnsureStep::Create);
    assert_eq!(ensure_next(EnsureStep::Create, true), EnsureStep::Reprobe);
    assert_eq!(ensure_next(EnsureStep::Create, false), EnsureStep::Done(EnsureOutcome::CreateFailed));
    assert_eq!(ensure_next(EnsureStep::Reprobe, true), EnsureStep::Done(EnsureOutcome::Created));
    assert_eq!(
        ensure_next(EnsureStep::Reprobe, false),
        EnsureStep::Done(EnsureOutcome::VerifyAfterCreateFailed)
    );
}

#[test]
fn ensure_directory_twice_creates_once() {
    // First run on a missing directory: probe, create, re-probe.
    let mut s = EnsureStep::Probe;
    for ok in [false, true, true] {
        s = ensure_next(s, ok);
    }
    assert_eq!(s, EnsureStep::Done(EnsureOutcome::Created));
    // Second run: the probe now finds it.
    assert_eq!(ensure_next(EnsureStep::Probe, true), EnsureStep::Done(EnsureOutcome::AlreadyExists));
}

/// Drives a staging run, answering every exchange with `answer`, and records the actions.
fn run_stage(m: &mut StagePackage, mut answer: impl FnMut(&StageAction) -> bool) -> Vec<StageAction> {
    let mut seen = Vec::new();
    loop {
        let a = m.next_action();
        if matches!(a, StageAction::Finish(_)) {
            seen.push(a);
            return seen;
        }
        let ok = answer(&a);
        seen.push(a);
        m.reply(ok);
    }
}

#[test]
fn stage_package_on_fresh_device() {
    let bytes: Vec<u8> = (0..1024u32).map(|i| (i % 251) as u8).collect();
    let mut m = StagePackage::new("com.example.app".to_string(), bytes.clone());
    let mut probes = 0;
    let seen = run_stage(&mut m, |a| match a {
        StageAction::ProbePath(_) => {
            probes += 1;
            // Each directory is missing at the first probe and present at the second.
            probes % 2 == 0
        }
        _ => true,
    });
    let names: Vec<String> = seen
        .iter()
        .map(|a| match a {
            StageAction::AcquireDevice => "device".to_string(),
            StageAction::OpenStagingSession => "session".to_string(),
            StageAction::ProbePath(p) => format!("probe {}", p),
            StageAction::CreateDirectory(p) => format!("mkdir {}", p),
            StageAction::OpenFile(p) => format!("open {}", p),
            StageAction::WriteFile(b) => format!("write {}", b.len()),
            StageAction::Finish(r) => format!("finish {:?}", r),
        })
        .collect();
    assert_eq!(
        names,
        vec![
            "device",
            "session",
            "probe ./PublicStaging",
            "mkdir ./PublicStaging",
            "probe ./PublicStaging",
            "probe ./PublicStaging/com.example.app",
            "mkdir ./PublicStaging/com.example.app",
            "probe ./PublicStaging/com.example.app",
            "open ./PublicStaging/com.example.app/app.ipa",
            "write 1024",
            "finish Ok(())",
        ]
    );
    match &seen[9] {
        StageAction::WriteFile(b) => assert_eq!(*b, bytes),
        other => panic!("expected a write, got {:?}", other),
    }
    assert_eq!(m.outcome(), Some(Ok(())));
}

#[test]
fn stage_package_existing_directories_are_not_created() {
    let mut m = StagePackage::new("com.example.app".to_string(), vec![1, 2, 3]);
    let seen = run_stage(&mut m, |_| true);
    assert!(!seen.iter().any(|a| matches!(a, StageAction::CreateDirectory(_))));
    assert_eq!(seen.len(), 7);
    assert_eq!(m.outcome(), Some(Ok(())));
}

#[test]
fn stage_package_failures() {
    let mut m = StagePackage::new("b".to_string(), vec![]);
    run_stage(&mut m, |a| !matches!(a, StageAction::AcquireDevice));
    assert_eq!(m.outcome(), Some(Err(ToolError::DeviceNotFound)));

    let mut m = StagePackage::new("b".to_string(), vec![]);
    run_stage(&mut m, |a| !matches!(a, StageAction::OpenStagingSession));
    assert_eq!(m.outcome(), Some(Err(ToolError::ServiceUnavailable(Service::Staging))));

    let mut m = StagePackage::new("b".to_string(), vec![]);
    run_stage(&mut m, |a| !matches!(a, StageAction::ProbePath(_) | StageAction::CreateDirectory(_)));
    assert_eq!(m.outcome(), Some(Err(ToolError::DirectoryEnsureFailed)));

    // The create call succeeds but the directory cannot be probed afterwards.
    let mut m = StagePackage::new("b".to_string(), vec![]);
    run_stage(&mut m, |a| !matches!(a, StageAction::ProbePath(_)));
    assert_eq!(m.outcome(), Some(Err(ToolError::DirectoryEnsureFailed)));

    let mut m = StagePackage::new("b".to_string(), vec![]);
    run_stage(&mut m, |a| !matches!(a, StageAction::OpenFile(_)));
    assert_eq!(m.outcome(), Some(Err(ToolError::FileOpenFailed)));

    let mut m = StagePackage::new("b".to_string(), vec![]);
    run_stage(&mut m, |a| !matches!(a, StageAction::WriteFile(_)));
    assert_eq!(m.outcome(), Some(Err(ToolError::FileWriteFailed)));
}

#[test]
fn install_options_target_bundle() {
    let o = install_options(&"com.example.app".to_string());
    assert_eq!(o, vec![("CFBundleIdentifier".to_string(), "com.example.app".to_string())]);
}

#[test]
fn install_package_after_staging() {
    let mut m = InstallPackage::new("com.example.app".to_string());
    assert!(matches!(m.next_action(), InstallAction::AcquireDevice));
    m.reply(true);
    assert!(matches!(m.next_action(), InstallAction::OpenLookupSession));
    m.reply(true);
    match m.next_action() {
        InstallAction::Install { package_path, options } => {
            assert_eq!(package_path, "./PublicStaging/com.example.app/app.ipa");
            assert_eq!(options[0].1, "com.example.app");
        }
        other => panic!("expected an install, got {:?}", other),
    }
    m.reply(true);
    assert_eq!(m.outcome(), Some(Ok(())));
    assert!(matches!(m.next_action(), InstallAction::Finish(Ok(()))));
}

#[test]
fn install_package_without_staged_file_fails() {
    let mut m = InstallPackage::new("com.example.app".to_string());
    m.reply(true);
    m.reply(true);
    // The service reports that the source path does not exist.
    m.reply(false);
    assert_eq!(m.outcome(), Some(Err(ToolError::InstallFailed)));

    let mut m = InstallPackage::new("x".to_string());
    m.reply(false);
    assert_eq!(m.outcome(), Some(Err(ToolError::DeviceNotFound)));

    let mut m = InstallPackage::new("x".to_string());
    m.reply(true);
    m.reply(false);
    assert_eq!(m.outcome(), Some(Err(ToolError::ServiceUnavailable(Service::Lookup))));
}
