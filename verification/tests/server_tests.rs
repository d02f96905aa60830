use mcp_device_management::platform::Platform;
use mcp_device_management::server::{
    confirmation_granted, declined_message, device_not_found, disk_usage_plan, disk_usage_report,
    error_answer, firewall_question, large_files_plan, large_files_report, login_items_plan,
    login_items_report, os_updates_plan, os_updates_report, purge_plan, restart_allowed,
    ps_escape_exec, restart_question, restart_service_plan, summarize, ConfirmationOutcome, FindLargeFilesInput,
    GetDiskUsageInput, GetRecentCrashesInput, KillProcessInput, ListBrewPackagesInput,
    ListRunningProcessesInput, PingHostInput, RenewDhcpInput, RestartMachineInput,
};
use mcp_device_management::types::{
    ComplianceState, Device, DevicePosture, DeviceStatus, DeviceType, HardwareInfo, OsInfo,
};

fn line(c: &mcp_device_management::platform::Command) -> String {
    let mut s = c.program.clone();
    for a in &c.args {
        s.push(' ');
        s.push_str(a);
    }
    s
}

#[test]
fn tool_defaults() {
    let p = ListRunningProcessesInput { sort_by: None, limit: None };
    assert_eq!(p.limit_or_default(), 10);
    assert_eq!(p.sort_by_or_default(), "cpu");
    let q = ListRunningProcessesInput { sort_by: Some("mem".into()), limit: Some(3) };
    assert_eq!(q.limit_or_default(), 3);
    assert_eq!(q.sort_by_or_default(), "mem");
    assert_eq!(PingHostInput { host: "h".into(), count: None }.count_or_default(), 4);
    assert_eq!(GetRecentCrashesInput { limit: None }.limit_or_default(), 10);
    assert_eq!(RenewDhcpInput { interface: None }.interface_or_default(), "en0");
    assert_eq!(ListBrewPackagesInput { outdated_only: Some(true) }.action(), "outdated");
    assert_eq!(ListBrewPackagesInput { outdated_only: None }.action(), "list");
    assert_eq!(ListBrewPackagesInput { outdated_only: Some(false) }.action(), "list");
    let f = FindLargeFilesInput { path: None, min_size_mb: None };
    assert_eq!(f.path_or_default(), ".");
    assert_eq!(f.min_size_or_default(), 100);
}

#[test]
fn confirmation_rules() {
    assert!(confirmation_granted(ConfirmationOutcome::Answered { accepted: true }));
    assert!(!confirmation_granted(ConfirmationOutcome::Answered { accepted: false }));
    assert!(!confirmation_granted(ConfirmationOutcome::Failed));
    assert!(!confirmation_granted(ConfirmationOutcome::SchemaUnavailable));
    assert!(confirmation_granted(ConfirmationOutcome::Unsupported));
    let forced = RestartMachineInput { force: Some(true) };
    assert!(!forced.needs_confirmation());
    assert!(restart_allowed(&forced, None));
    let asked = RestartMachineInput { force: None };
    assert!(asked.needs_confirmation());
    assert!(!restart_allowed(&asked, Some(ConfirmationOutcome::Answered { accepted: false })));
    assert!(restart_allowed(&asked, Some(ConfirmationOutcome::Answered { accepted: true })));
    assert!(!restart_allowed(&asked, Some(ConfirmationOutcome::Failed)));
    assert!(restart_allowed(&asked, Some(ConfirmationOutcome::Unsupported)));
    assert!(RestartMachineInput { force: Some(false) }.needs_confirmation());
}

#[test]
fn messages() {
    assert_eq!(
        KillProcessInput { pid: Some(42), name: None }.confirmation_message(),
        "Kill process '42'? This may cause data loss if the process has unsaved state."
    );
    assert_eq!(
        KillProcessInput { pid: Some(42), name: Some("node".into()) }.confirmation_message(),
        "Kill process '42'? This may cause data loss if the process has unsaved state."
    );
    assert_eq!(
        KillProcessInput { pid: None, name: Some("node".into()) }.confirmation_message(),
        "Kill process 'node'? This may cause data loss if the process has unsaved state."
    );
    assert_eq!(
        KillProcessInput { pid: None, name: None }.confirmation_message(),
        "Kill process 'unknown'? This may cause data loss if the process has unsaved state."
    );
    assert_eq!(declined_message(), "User declined or cancelled.");
    assert_eq!(device_not_found("X"), "Device not found: X");
    assert_eq!(error_answer("boom"), "Error: boom");
    assert!(firewall_question().starts_with("Enable the system firewall?"));
    assert!(restart_question().starts_with("Restart this machine?"));
}

#[test]
fn device_summary() {
    let d = Device {
        id: "D1".into(),
        name: "alpha".into(),
        device_type: DeviceType::Laptop,
        status: DeviceStatus::Active,
        owner: "ann".into(),
        os: OsInfo { name: "macOS".into(), version: "14.5".into(), build: "b".into(), patch_level: "p".into(), last_updated: 0 },
        hardware: HardwareInfo { manufacturer: "Apple".into(), model: "MacBook Pro".into(), serial_number: "s".into(), cpu: "c".into(), ram_gb: 1, storage_gb: 2, storage_free_gb: 1 },
        posture: DevicePosture { compliance: ComplianceState::Compliant, encryption_enabled: true, firewall_enabled: true, antivirus_active: true, os_up_to_date: true, disk_encrypted: true, screen_lock_enabled: true, risk_score_tenths: 15, last_assessed: 0 },
        installed_apps: vec![],
        last_seen: 77,
        enrolled_at: 0,
    };
    let s = summarize(&d);
    assert_eq!(s.os, "macOS 14.5");
    assert_eq!(s.model, "Apple MacBook Pro");
    assert_eq!(s.risk_score_tenths, 15);
    assert_eq!(s.last_seen, 77);
}

#[test]
fn remaining_tool_plans() {
    assert_eq!(line(&os_updates_plan(Platform::MacOs)), "softwareupdate -l --no-scan");
    assert_eq!(line(&os_updates_plan(Platform::Windows)), "powershell -Command Get-WindowsUpdate");
    assert_eq!(os_updates_report(&"a\nb\n".to_string()), vec!["a", "b"]);
    let home = Some("/Users/ann".to_string());
    assert_eq!(GetDiskUsageInput { path: None }.root(&home), "/Users/ann");
    assert_eq!(GetDiskUsageInput { path: Some("~".into()) }.root(&None), "/");
    assert_eq!(GetDiskUsageInput { path: Some("/var".into()) }.root(&home), "/var");
    let du = disk_usage_plan("/var");
    assert_eq!(du.program, "sh");
    assert_eq!(du.args, vec!["-c", "du -sh \"$1\"/*/", "sh", "/var"]);
    let e = disk_usage_report(&"12K\t/var/a/\nonly\n".to_string());
    assert_eq!(e[0].size.as_deref(), Some("12K"));
    assert_eq!(e[0].path.as_deref(), Some("/var/a/"));
    assert!(e[1].path.is_none());
    assert_eq!(line(&large_files_plan(Platform::Linux, ".", 100)), "find . -type f -size +100M -exec ls -lh {} ;");
    assert_eq!(
        large_files_plan(Platform::Windows, "C:\\", 5).args[1],
        "Get-ChildItem -Path 'C:\\' -Recurse -File | Where-Object { $_.Length -gt 5MB } | Select-Object FullName,Length -First 20"
    );
    assert_eq!(large_files_report(&"f1\nf2\n".to_string()), vec!["f1", "f2"]);
    let mac = login_items_plan(Platform::MacOs, "/Users/ann");
    assert_eq!(line(&mac[0]), "ls /Users/ann/Library/LaunchAgents");
    assert_eq!(line(&mac[1]), "ls /Library/LaunchAgents");
    let items = login_items_report(Platform::MacOs, &vec!["a.plist\nb.txt\n".to_string(), "c.plist\n".to_string()]);
    assert_eq!(items, vec!["a.plist", "c.plist"]);
    assert_eq!(login_items_report(Platform::Windows, &vec!["Name Command\n  x  \n\n".to_string()]), vec!["x"]);
    assert!(login_items_plan(Platform::Other, "/h").is_empty());
    assert!(login_items_report(Platform::Other, &vec![]).is_empty());
    let svc = restart_service_plan(Platform::MacOs, "com.x").unwrap();
    assert_eq!(line(&svc[0]), "launchctl stop com.x");
    assert_eq!(line(&svc[1]), "launchctl start com.x");
    assert_eq!(restart_service_plan(Platform::Windows, "Spooler").unwrap()[0].args[1], "Restart-Service 'Spooler'");
    assert_eq!(
        restart_service_plan(Platform::Windows, "x'; Stop-Computer; '").unwrap()[0].args[1],
        "Restart-Service 'x''; Stop-Computer; '''"
    );
    assert_eq!(ps_escape_exec("a\u{2019}b"), "a\u{2019}\u{2019}b");
    assert!(restart_service_plan(Platform::Other, "x").is_none());
    let (cmds, msg) = purge_plan(Platform::MacOs, "/Users/ann");
    assert_eq!(cmds[0].program, "find");
    assert_eq!(cmds[0].args, vec!["/Users/ann/Library/Caches", "-mindepth", "1", "-delete"]);
    assert_eq!(msg, "Caches purged");
    let (none, msg2) = purge_plan(Platform::Other, "");
    assert!(none.is_empty());
    assert_eq!(msg2, "Unsupported");
}
