use mcp_device_management::store::{assess_health, DeviceStore};
use mcp_device_management::types::{
    ComplianceState, Device, DevicePosture, DeviceStatus, DeviceType, HardwareInfo, HealthState,
    InstalledApp, OsInfo,
};

fn device(id: &str, name: &str, owner: &str, compliance: ComplianceState, risk: u32) -> Device {
    Device {
        id: id.to_string(),
        name: name.to_string(),
        device_type: DeviceType::Laptop,
        status: DeviceStatus::Active,
        owner: owner.to_string(),
        os: OsInfo {
            name: "macOS".to_string(),
            version: "14.5".to_string(),
            build: "23F79".to_string(),
            patch_level: "current".to_string(),
            last_updated: 1_700_000_000_000,
        },
        hardware: HardwareInfo {
            manufacturer: "Apple".to_string(),
            model: "MacBook Pro".to_string(),
            serial_number: "C02XK1ABJG5H".to_string(),
            cpu: "Apple M2".to_string(),
            ram_gb: 16,
            storage_gb: 460,
            storage_free_gb: 220,
        },
        posture: DevicePosture {
            compliance,
            encryption_enabled: true,
            firewall_enabled: false,
            antivirus_active: true,
            os_up_to_date: true,
            disk_encrypted: true,
            screen_lock_enabled: true,
            risk_score_tenths: risk,
            last_assessed: 1_700_000_000_000,
        },
        installed_apps: vec![InstalledApp {
            name: "Safari".to_string(),
            version: "installed".to_string(),
            publisher: String::new(),
            install_date: None,
        }],
        last_seen: 1_700_000_000_000,
        enrolled_at: 1_690_000_000_000,
    }
}

fn posture(compliance: ComplianceState, risk: u32) -> DevicePosture {
    device("x", "x", "x", compliance, risk).posture
}

#[test]
fn health_rule_thresholds() {
    assert_eq!(assess_health(&posture(ComplianceState::Compliant, 29)), HealthState::Healthy);
    assert_eq!(assess_health(&posture(ComplianceState::Compliant, 30)), HealthState::Degraded);
    assert_eq!(assess_health(&posture(ComplianceState::NonCompliant, 10)), HealthState::Degraded);
    assert_eq!(assess_health(&posture(ComplianceState::Unknown, 59)), HealthState::Degraded);
    assert_eq!(assess_health(&posture(ComplianceState::Compliant, 60)), HealthState::Critical);
    assert_eq!(assess_health(&posture(ComplianceState::GracePeriod, 80)), HealthState::Critical);
}

#[test]
fn added_device_is_found_and_replaced_by_id() {
    let mut store = DeviceStore::new();
    store.add_device(device("D1", "alpha", "ann", ComplianceState::Compliant, 10));
    store.add_device(device("D2", "beta", "bob", ComplianceState::Compliant, 10));
    let (p, name) = store.get_posture("D1").unwrap();
    assert_eq!(name, "alpha");
    assert_eq!(p.risk_score_tenths, 10);
    store.add_device(device("D1", "alpha2", "ann", ComplianceState::NonCompliant, 45));
    let (p, name) = store.get_posture("D1").unwrap();
    assert_eq!(name, "alpha2");
    assert_eq!(p.compliance, ComplianceState::NonCompliant);
    assert_eq!(store.lookup_device("").len(), 2);
    assert_eq!(store.get_posture("D2").unwrap().1, "beta");
    assert!(store.get_posture("D3").is_none());
}

#[test]
fn lookup_ignores_case_and_searches_four_fields() {
    let mut store = DeviceStore::new();
    store.add_device(device("LOCAL-host", "Work MacBook", "ann", ComplianceState::Compliant, 10));
    let mut other = device("D2", "server", "bob", ComplianceState::Compliant, 10);
    other.hardware.model = "PowerEdge".to_string();
    other.hardware.serial_number = "SRV-99".to_string();
    store.add_device(other);
    let ids = |q: &str| -> Vec<String> { store.lookup_device(q).into_iter().map(|d| d.id).collect() };
    assert_eq!(ids("MACBOOK"), vec!["LOCAL-host"]);
    assert_eq!(ids("local-HOST"), vec!["LOCAL-host"]);
    assert_eq!(ids("srv-99"), vec!["D2"]);
    assert_eq!(ids("poweredge"), vec!["D2"]);
    assert_eq!(ids("c02xk1"), vec!["LOCAL-host"]);
    assert_eq!(ids("nothing"), Vec::<String>::new());
    assert_eq!(ids(""), vec!["LOCAL-host", "D2"]);
}

#[test]
fn user_devices_are_those_of_the_owner() {
    let mut store = DeviceStore::new();
    store.add_device(device("D1", "a", "ann", ComplianceState::Compliant, 10));
    store.add_device(device("D2", "b", "bob", ComplianceState::Compliant, 10));
    store.add_device(device("D3", "c", "ann", ComplianceState::Compliant, 10));
    let ids: Vec<String> = store.list_user_devices("ann").into_iter().map(|d| d.id).collect();
    assert_eq!(ids, vec!["D1", "D3"]);
    assert!(store.list_user_devices("Ann").is_empty());
}

#[test]
fn installed_apps_of_known_and_unknown_devices() {
    let mut store = DeviceStore::new();
    store.add_device(device("D1", "a", "ann", ComplianceState::Compliant, 10));
    let apps = store.get_installed_apps("D1").unwrap();
    assert_eq!(apps.len(), 1);
    assert_eq!(apps[0].name, "Safari");
    assert!(store.get_installed_apps("nope").is_none());
}

#[test]
fn collected_logs_format_the_device() {
    let mut store = DeviceStore::new();
    store.add_device(device("D1", "alpha", "ann", ComplianceState::Compliant, 10));
    let l = store.collect_logs_at("D1", 42).unwrap();
    assert_eq!(l.device_id, "D1");
    assert_eq!(l.device_name, "alpha");
    assert_eq!(l.collected_at, 42);
    assert_eq!(l.os, "macOS 14.5 (23F79)");
    assert_eq!(l.hardware, "Apple MacBook Pro — Apple M2 — 16 GB RAM");
    assert_eq!(l.used_pct, "52%");
    assert_eq!(l.storage_total_gb, 460);
    assert_eq!(l.storage_free_gb, 220);
    assert!(l.encryption && !l.firewall);
    assert!(store.collect_logs("missing").is_none());
    let live = store.collect_logs("D1").unwrap();
    assert!(live.collected_at > 1_600_000_000_000);
}

#[test]
fn collected_logs_of_a_device_without_storage() {
    let mut store = DeviceStore::new();
    let mut d = device("D1", "alpha", "ann", ComplianceState::Compliant, 10);
    d.hardware.storage_gb = 0;
    d.hardware.storage_free_gb = 0;
    store.add_device(d);
    assert_eq!(store.collect_logs_at("D1", 0).unwrap().used_pct, "0%");
}

#[test]
fn health_check_reports_posture() {
    let mut store = DeviceStore::new();
    store.add_device(device("D1", "alpha", "ann", ComplianceState::Compliant, 20));
    store.add_device(device("D2", "beta", "bob", ComplianceState::NonCompliant, 65));
    let h = store.run_health_check_at("D1", 7).unwrap();
    assert_eq!(h.health, HealthState::Healthy);
    assert_eq!(h.checked_at, 7);
    assert!(h.encryption && !h.firewall && h.antivirus && h.os_updated && h.disk_encrypted && h.screen_lock);
    assert_eq!(store.run_health_check("D2").unwrap().health, HealthState::Critical);
    assert!(store.run_health_check("D3").is_none());
}

#[test]
fn remediation_for_unknown_device_is_an_error() {
    let mut store = DeviceStore::new();
    let r = store.create_remediation("ghost", "enable_encryption", "policy");
    assert_eq!(r.unwrap_err(), "Device not found: ghost");
    assert!(store.remediation_tasks().is_empty());
}

#[test]
fn remediation_task_is_pending_and_recorded() {
    let mut store = DeviceStore::new();
    store.add_device(device("D1", "alpha", "ann", ComplianceState::Compliant, 10));
    let t = store.record_remediation("D1", "force_update", "outdated", "9f8e7d6c5b4a39281706f5e4d3c2b1a0", 5).unwrap();
    assert_eq!(t.id, "REM-9F8E7D6C");
    assert_eq!(t.device_id, "D1");
    assert_eq!(t.action, "force_update");
    assert_eq!(t.reason, "outdated");
    assert_eq!(t.status, "pending");
    assert_eq!(t.created_at, 5);
    let t2 = store.create_remediation("D1", "enable_firewall", "off").unwrap();
    assert_eq!(t2.id.len(), 12);
    assert!(t2.id.starts_with("REM-"));
    assert!(t2.id[4..].chars().all(|c| c.is_ascii_digit() || ('A'..='F').contains(&c)));
    let tasks = store.remediation_tasks();
    assert_eq!(tasks.len(), 2);
    assert_eq!(tasks[0].id, "REM-9F8E7D6C");
    assert_eq!(tasks[1].id, t2.id);
}

#[test]
fn two_remediations_get_different_ids() {
    let mut store = DeviceStore::new();
    store.add_device(device("D1", "alpha", "ann", ComplianceState::Compliant, 10));
    let a = store.create_remediation("D1", "a", "r").unwrap();
    let b = store.create_remediation("D1", "a", "r").unwrap();
    assert_ne!(a.id, b.id);
}
