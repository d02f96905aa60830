use mcp_device_management::fleet::{FleetBackend, FleetHost};
use mcp_device_management::intune::{IntuneBackend, IntuneDevice};
use mcp_device_management::jamf::{JamfBackend, JamfComputer};
use mcp_device_management::kandji::{KandjiBackend, KandjiDevice};
use mcp_device_management::store::DeviceStore;
use mcp_device_management::types::{ComplianceState, DeviceStatus, DeviceType, HealthState};

fn some(s: &str) -> Option<String> {
    Some(s.to_string())
}

#[test]
fn fleet_host_becomes_a_device() {
    let h = FleetHost {
        id_json: "42".to_string(),
        hostname: some("build-01"),
        platform: some("darwin"),
        status: some("online"),
        primary_user: some("ann@example.com"),
        os_version: some("macOS 14.5"),
        build: some("23F79"),
        hardware_vendor: some("Apple Inc."),
        hardware_model: some("Mac14,7"),
        hardware_serial: some("SER1"),
        cpu_type: some("arm64"),
        memory: Some(17179869184),
        storage_gb: 400,
        storage_free_gb: 200,
        disk_encryption_enabled: Some(true),
    };
    let d = FleetBackend::device_from_host(&h, 5);
    assert_eq!(d.id, "42");
    assert_eq!(d.device_type, DeviceType::Laptop);
    assert_eq!(d.status, DeviceStatus::Active);
    assert_eq!(d.os.name, "darwin");
    assert_eq!(d.hardware.ram_gb, 16);
    assert_eq!(d.posture.compliance, ComplianceState::Unknown);
    assert!(d.posture.encryption_enabled);
    assert_eq!(d.posture.risk_score_tenths, 30);
    let offline = FleetHost { platform: some("windows"), status: some("offline"), memory: None, disk_encryption_enabled: None, ..h };
    let d2 = FleetBackend::device_from_host(&offline, 5);
    assert_eq!(d2.device_type, DeviceType::Desktop);
    assert_eq!(d2.status, DeviceStatus::Inactive);
    assert_eq!(d2.hardware.ram_gb, 0);
    assert!(!d2.posture.encryption_enabled);
    let b = FleetBackend::from_settings(some("https://fleet.example.com"), some("t")).unwrap();
    assert_eq!(b.hosts_url(), "https://fleet.example.com/api/v1/fleet/hosts");
    assert!(FleetBackend::from_settings(None, some("t")).is_none());
    assert_eq!(b.list_hosts_from(&vec![offline]).len(), 1);
}

#[test]
fn intune_device_becomes_a_device() {
    let e = IntuneDevice {
        id: some("abc"),
        device_name: some("LAPTOP-1"),
        device_type: some("windowsRT"),
        compliance_state: some("compliant"),
        user_principal_name: some("bob@example.com"),
        operating_system: some("Windows"),
        os_version: some("10.0.22631"),
        manufacturer: some("Dell"),
        model: some("Latitude"),
        serial_number: some("S2"),
        total_storage_bytes: Some(512 * 1073741824),
        free_storage_bytes: Some(100 * 1073741824 + 5),
        is_encrypted: Some(true),
    };
    let d = IntuneBackend::device_from_entry(&e, 1);
    assert_eq!(d.device_type, DeviceType::Laptop);
    assert_eq!(d.posture.compliance, ComplianceState::Compliant);
    assert_eq!(d.hardware.storage_gb, 512);
    assert_eq!(d.hardware.storage_free_gb, 100);
    assert_eq!(d.posture.risk_score_tenths, 20);
    assert_eq!(d.os.build, "");
    let other = IntuneDevice { device_type: some("android"), compliance_state: some("noncompliant"), id: None, ..e };
    let d2 = IntuneBackend::device_from_entry(&other, 1);
    assert_eq!(d2.device_type, DeviceType::Desktop);
    assert_eq!(d2.posture.compliance, ComplianceState::NonCompliant);
    assert_eq!(d2.id, "");
    let b = IntuneBackend::from_settings(some("tenant"), some("cid"), some("secret")).unwrap();
    assert_eq!(b.token_url(), "https://login.microsoftonline.com/tenant/oauth2/v2.0/token");
    let form = b.token_form();
    assert_eq!(form[0], ("grant_type".to_string(), "client_credentials".to_string()));
    assert_eq!(form[2], ("client_secret".to_string(), "secret".to_string()));
    assert_eq!(IntuneBackend::token_from_answer(None).unwrap_err(), "Failed to get token");
    assert_eq!(IntuneBackend::token_from_answer(some("tok")).unwrap(), "tok");
    assert!(IntuneBackend::from_settings(some("t"), None, some("s")).is_none());
}

fn jamf_sample() -> JamfComputer {
    JamfComputer {
        id: some("7"),
        name: some("Design Mac"),
        username: some("carol"),
        os_version: some("14.4"),
        os_build: some("23E214"),
        model: some("MacBook Air"),
        serial_number: some("S3"),
        processor_type: some("Apple M3"),
        total_ram_megabytes: Some(16384),
        rapid_security_response: some("(a)"),
        disk_size_megabytes: Some(512000),
        boot_drive_available_megabytes: Some(204800),
        filevault_state: some("ENCRYPTED"),
        firewall_enabled: Some(true),
        xprotect_version: some("5287"),
        auto_login_disabled: Some(true),
        pending_updates: Some(0),
    }
}

#[test]
fn jamf_computer_becomes_a_device() {
    let c = jamf_sample();
    let d = JamfBackend::device_from_computer(&c, 2);
    assert_eq!(d.os.name, "macOS");
    assert_eq!(d.os.patch_level, "(a)");
    assert_eq!(d.hardware.manufacturer, "Apple");
    assert_eq!(d.hardware.ram_gb, 16);
    assert_eq!(d.hardware.storage_gb, 500);
    assert_eq!(d.hardware.storage_free_gb, 200);
    assert_eq!(d.posture.risk_score_tenths, 15);
    assert_eq!(d.posture.compliance, ComplianceState::Compliant);
    assert!(d.posture.encryption_enabled && d.posture.firewall_enabled && d.posture.antivirus_active);
    assert!(d.posture.os_up_to_date && d.posture.screen_lock_enabled);
    let open = JamfComputer {
        filevault_state: some("NOT_ENCRYPTED"),
        firewall_enabled: Some(false),
        xprotect_version: None,
        auto_login_disabled: None,
        pending_updates: Some(3),
        ..jamf_sample()
    };
    let o = JamfBackend::device_from_computer(&open, 2);
    assert_eq!(o.posture.compliance, ComplianceState::NonCompliant);
    assert_eq!(o.posture.risk_score_tenths, 40);
    assert!(!o.posture.encryption_enabled && !o.posture.firewall_enabled && !o.posture.antivirus_active);
    assert!(!o.posture.os_up_to_date && !o.posture.screen_lock_enabled);
    let huge = JamfComputer { total_ram_megabytes: Some((1u64 << 32) + 2048), ..c };
    assert_eq!(JamfBackend::device_from_computer(&huge, 2).hardware.ram_gb, 2);
    let b = JamfBackend::from_settings(some("https://jamf"), some("t")).unwrap();
    assert_eq!(
        b.inventory_url(),
        "https://jamf/api/v1/computers-inventory?section=GENERAL&section=HARDWARE&section=OPERATING_SYSTEM&section=USER_AND_LOCATION&section=STORAGE&section=DISK_ENCRYPTION&section=SECURITY&section=SOFTWARE_UPDATES"
    );
}

#[test]
fn kandji_device_becomes_a_device() {
    let e = KandjiDevice {
        device_id: some("k1"),
        device_name: some("iMac"),
        user_email: some("dan@example.com"),
        os_version: some("14.5"),
        model: some("iMac"),
        serial_number: some("S4"),
        blueprint_status: some("success"),
        filevault_enabled: Some(true),
        firewall_enabled: None,
    };
    let d = KandjiBackend::device_from_entry(&e, 3);
    assert_eq!(d.posture.compliance, ComplianceState::Compliant);
    assert!(d.posture.encryption_enabled && !d.posture.firewall_enabled);
    let failed = KandjiDevice { blueprint_status: some("failed"), ..e };
    assert_eq!(KandjiBackend::device_from_entry(&failed, 3).posture.compliance, ComplianceState::NonCompliant);
    let b = KandjiBackend::from_settings(some("https://k"), some("t")).unwrap();
    assert_eq!(b.devices_url(), "https://k/api/v1/devices");
}

#[test]
fn backend_devices_check_as_their_rules_say() {
    let mut store = DeviceStore::new();
    let jamf = JamfComputer {
        id: some("j"),
        name: None,
        username: None,
        os_version: None,
        os_build: None,
        model: None,
        serial_number: None,
        processor_type: None,
        total_ram_megabytes: None,
        rapid_security_response: None,
        disk_size_megabytes: None,
        boot_drive_available_megabytes: None,
        filevault_state: some("ENCRYPTED"),
        firewall_enabled: Some(true),
        xprotect_version: None,
        auto_login_disabled: None,
        pending_updates: None,
    };
    store.add_device(JamfBackend::device_from_computer(&jamf, 0));
    let kandji = KandjiDevice {
        device_id: some("k"),
        device_name: None,
        user_email: None,
        os_version: None,
        model: None,
        serial_number: None,
        blueprint_status: None,
        filevault_enabled: None,
        firewall_enabled: None,
    };
    store.add_device(KandjiBackend::device_from_entry(&kandji, 0));
    assert_eq!(store.run_health_check("j").unwrap().health, HealthState::Healthy);
    assert_eq!(store.run_health_check("k").unwrap().health, HealthState::Degraded);
}
