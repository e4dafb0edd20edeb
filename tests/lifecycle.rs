use alfred::config::DaemonConfig;
use alfred::lifecycle::{
    activation_result, daemon_binary_candidates, find_alferd_binary, install, is_service_installed,
    launchd_plist, pid_record, read_pid, service_descriptor_path, start, status, stop,
    systemd_unit, uninstall, LifecycleError, Platform, StartPlan, StopAction, StopEvent,
    StopOutcome, StopPhase, UninstallPlan,
};

#[test]
fn start_twice_spawns_nothing() {
    assert_eq!(start(true), StartPlan::AlreadyRunning);
    assert_eq!(start(true), StartPlan::AlreadyRunning);
    assert_eq!(start(false), StartPlan::Launch);
}

#[test]
fn stop_unreachable_is_already_stopped() {
    let (phase, action) = stop(StopPhase::Probing, StopEvent::Probed { reachable: false });
    assert!(matches!(phase, StopPhase::Done));
    assert!(matches!(action, StopAction::Finish(Ok(StopOutcome::AlreadyStopped))));
}

#[test]
fn stop_reachable_graceful() {
    let (p, a) = stop(StopPhase::Probing, StopEvent::Probed { reachable: true });
    assert!(matches!(a, StopAction::SendShutdown));
    let (p, a) = stop(p, StopEvent::Acknowledged(true));
    assert!(matches!(a, StopAction::RemovePid));
    let (_, a) = stop(p, StopEvent::Cleaned);
    assert!(matches!(a, StopAction::Finish(Ok(StopOutcome::Stopped))));
}

#[test]
fn stop_stuck_daemon_is_signalled() {
    let (p, _) = stop(StopPhase::Probing, StopEvent::Probed { reachable: true });
    let (p, a) = stop(p, StopEvent::Acknowledged(false));
    assert!(matches!(a, StopAction::ReadPid));
    let (p, a) = stop(p, StopEvent::PidRead(Ok(4242)));
    assert!(matches!(a, StopAction::Signal(4242)));
    let (p, a) = stop(p, StopEvent::Signalled);
    assert!(matches!(a, StopAction::RemovePid));
    let (_, a) = stop(p, StopEvent::Cleaned);
    assert!(matches!(a, StopAction::Finish(Ok(StopOutcome::Stopped))));
}

#[test]
fn stop_without_pid_record_still_cleans_up() {
    let (p, _) = stop(StopPhase::Probing, StopEvent::Probed { reachable: true });
    let (p, _) = stop(p, StopEvent::Acknowledged(false));
    let (p, a) = stop(p, StopEvent::PidRead(Err(LifecycleError::NoPidRecord)));
    assert!(matches!(a, StopAction::RemovePid));
    let (_, a) = stop(p, StopEvent::Cleaned);
    assert!(matches!(a, StopAction::Finish(Err(LifecycleError::NoPidRecord))));
}

#[test]
fn pid_records() {
    assert_eq!(read_pid(&Some(" 1234\n".to_string())).unwrap(), 1234);
    assert_eq!(read_pid(&Some("+7".to_string())).unwrap(), 7);
    assert!(matches!(read_pid(&None), Err(LifecycleError::NoPidRecord)));
    assert!(matches!(read_pid(&Some("abc".to_string())), Err(LifecycleError::InvalidPid)));
    assert!(matches!(read_pid(&Some("4294967296".to_string())), Err(LifecycleError::InvalidPid)));
    assert!(matches!(read_pid(&Some("".to_string())), Err(LifecycleError::InvalidPid)));
    assert_eq!(pid_record(4294967295), "4294967295");
    assert_eq!(read_pid(&Some(pid_record(90210))).unwrap(), 90210);
    assert_eq!(pid_record(0), "0");
}

#[test]
fn status_reports_three_facts() {
    let cfg = DaemonConfig { port: 7000, idle_timeout_minutes: 15, auto_start: false };
    let r = status(true, Some(12), &cfg, false);
    assert!(r.running);
    assert_eq!(r.pid, Some(12));
    assert_eq!(r.port, 7000);
    assert_eq!(r.idle_timeout, "15 minutes");
    assert!(!r.service_installed);
    let cfg = DaemonConfig { port: 7000, idle_timeout_minutes: 0, auto_start: false };
    let r = status(false, Some(12), &cfg, true);
    assert!(!r.running);
    assert_eq!(r.pid, None);
    assert_eq!(r.idle_timeout, "disabled");
    assert!(r.service_installed);
}

#[test]
fn binary_search_order() {
    let c = daemon_binary_candidates(
        &Some("/opt/bin".to_string()),
        &Some(" /usr/x/alferd\n".to_string()),
        "/home/u",
    );
    assert_eq!(
        c,
        vec![
            "/opt/bin/alferd".to_string(),
            "/usr/x/alferd".to_string(),
            "/usr/local/bin/alferd".to_string(),
            "/usr/bin/alferd".to_string(),
            "/home/u/.cargo/bin/alferd".to_string(),
        ]
    );
    let c = daemon_binary_candidates(&None, &Some("  ".to_string()), "/home/u/");
    assert_eq!(c.len(), 3);
    assert_eq!(c[2], "/home/u/.cargo/bin/alferd");
    assert_eq!(find_alferd_binary(&c, &vec![false, true, true]).unwrap(), "/usr/bin/alferd");
    let e = find_alferd_binary(&c, &vec![false, false, false]).unwrap_err();
    assert!(matches!(e, LifecycleError::BinaryNotFound));
    assert!(e.message().starts_with("Could not find alferd binary."));
}

#[test]
fn service_paths_and_presence() {
    assert_eq!(
        service_descriptor_path(Platform::Linux, "/home/u").unwrap(),
        "/home/u/.config/systemd/user/alfred.service"
    );
    assert_eq!(
        service_descriptor_path(Platform::MacOs, "/Users/u").unwrap(),
        "/Users/u/Library/LaunchAgents/com.alfred.daemon.plist"
    );
    assert_eq!(service_descriptor_path(Platform::Windows, "C:"), None);
    assert!(is_service_installed(Platform::Linux, true));
    assert!(!is_service_installed(Platform::Windows, true));
}

#[test]
fn descriptors_name_the_executable() {
    let unit = systemd_unit("/usr/bin/alferd");
    assert!(unit.starts_with("[Unit]\nDescription=Alfred AI Daemon\n"));
    assert!(unit.contains("\nExecStart=/usr/bin/alferd\nRestart=on-failure\n"));
    assert!(unit.ends_with("WantedBy=default.target\n"));
    let plist = launchd_plist("/usr/bin/alferd", "/Users/u/.alfred");
    assert!(plist.contains("<string>/usr/bin/alferd</string>"));
    assert!(plist.contains("<string>/Users/u/.alfred/alferd.log</string>"));
    assert!(plist.contains("<string>/Users/u/.alfred/alferd.error.log</string>"));
    assert!(plist.ends_with("</plist>\n"));
}

#[test]
fn install_plans() {
    let p = install(Platform::Linux, "/usr/bin/alferd", "/home/u").unwrap();
    assert_eq!(p.descriptor_path, "/home/u/.config/systemd/user/alfred.service");
    assert_eq!(p.prepare, vec![vec!["systemctl".to_string(), "--user".to_string(), "daemon-reload".to_string()]]);
    assert_eq!(p.activate, vec!["systemctl", "--user", "enable", "--now", "alfred"]);
    let p = install(Platform::MacOs, "/usr/bin/alferd", "/Users/u").unwrap();
    assert_eq!(
        p.activate,
        vec!["launchctl", "load", "-w", "/Users/u/Library/LaunchAgents/com.alfred.daemon.plist"]
    );
    assert!(p.content.contains("<string>/Users/u/.alfred/alferd.log</string>"));
    assert!(matches!(install(Platform::Windows, "x", "y"), Err(LifecycleError::Unsupported)));
}

#[test]
fn uninstall_plans() {
    assert!(matches!(uninstall(Platform::Linux, false, "/home/u"), Ok(UninstallPlan::NotInstalled)));
    match uninstall(Platform::Linux, true, "/home/u").unwrap() {
        UninstallPlan::Remove { descriptor_path, before, after } => {
            assert_eq!(descriptor_path, "/home/u/.config/systemd/user/alfred.service");
            assert_eq!(before, vec![vec!["systemctl", "--user", "disable", "--now", "alfred"]]);
            assert_eq!(after, vec![vec!["systemctl", "--user", "daemon-reload"]]);
        }
        UninstallPlan::NotInstalled => panic!(),
    }
    assert!(matches!(uninstall(Platform::Windows, true, "/home/u"), Err(LifecycleError::Unsupported)));
}

#[test]
fn activation_failures_carry_stderr() {
    assert!(activation_result(Platform::Linux, true, "").is_ok());
    let e = activation_result(Platform::Linux, false, "no bus").unwrap_err();
    assert_eq!(e.message(), "Failed to enable systemd service: no bus");
    let e = activation_result(Platform::MacOs, false, "denied").unwrap_err();
    assert_eq!(e.message(), "Failed to load launchd service: denied");
}
