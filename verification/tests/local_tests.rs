use mcp_device_management::local::{
    local_device_id_exec, LinuxProbe, LocalBackend, LocalProbe, MacProbe, OtherProbe,
    PlatformProbe,
};
use mcp_device_management::store::DeviceStore;
use mcp_device_management::types::{ComplianceState, DeviceStatus, DeviceType};

fn mac_probe(filevault: &str, firewall: &str) -> MacProbe {
    MacProbe {
        product_name: "macOS\n".to_string(),
        product_version: "14.5\n".to_string(),
        build_version: "23F79\n".to_string(),
        hardware_overview: "Hardware:\n\n    Hardware Overview:\n\n      Model Name: MacBook Pro\n      Chip: Apple M2 Pro\n      Serial Number (system): C02XK1ABJG5H\n".to_string(),
        memsize: "17179869184\n".to_string(),
        df_root: "Filesystem 1G-blocks Used Available Capacity\n/dev/disk3s1s1 460 230 220 52% /\n".to_string(),
        filevault_status: filevault.to_string(),
        firewall_state: firewall.to_string(),
        version_extra: "(a)\n".to_string(),
        software_updates: "Software Update Tool\n\nFinding available software\nNo new software available.\n".to_string(),
        xprotect_version: "5287\n".to_string(),
        screen_lock: "1\n".to_string(),
    }
}

fn linux_probe() -> LinuxProbe {
    LinuxProbe {
        distributor: "Ubuntu\n".to_string(),
        release: "22.04\n".to_string(),
        kernel: "6.5.0-41-generic\n".to_string(),
        lscpu: "Architecture: x86_64\nModel name:  Intel(R) Core(TM) i7\nThread(s) per core: 2\n".to_string(),
        meminfo: "MemTotal:       32768000 kB\n".to_string(),
        product_name: "XPS 15\n".to_string(),
        product_serial: "ABC123\n".to_string(),
        df_root: "Filesystem     1024-blocks      Used Available Capacity Mounted on\n/dev/nvme0n1p2   524288000 314572800 209715200      60% /\n".to_string(),
        block_devices: "NAME FSTYPE\nnvme0n1\nnvme0n1p2 crypto_LUKS\n".to_string(),
        firewall_status: "Status: active\n".to_string(),
        antivirus_status: "active\n".to_string(),
        upgradable: "Listing... Done\n".to_string(),
        screen_lock: "true\n".to_string(),
    }
}

fn empty_linux_probe() -> LinuxProbe {
    LinuxProbe {
        distributor: String::new(),
        release: String::new(),
        kernel: String::new(),
        lscpu: String::new(),
        meminfo: String::new(),
        product_name: String::new(),
        product_serial: String::new(),
        df_root: String::new(),
        block_devices: String::new(),
        firewall_status: String::new(),
        antivirus_status: String::new(),
        upgradable: String::new(),
        screen_lock: String::new(),
    }
}

#[test]
fn mac_information_is_parsed() {
    let b = LocalBackend::new();
    let (os, hw, p) = b.macos_info(&mac_probe("FileVault is On.\n", "1\n"), 9);
    assert_eq!(os.name, "macOS");
    assert_eq!(os.version, "14.5");
    assert_eq!(os.build, "23F79");
    assert_eq!(os.patch_level, "(a)");
    assert_eq!(hw.manufacturer, "Apple");
    assert_eq!(hw.model, "MacBook Pro");
    assert_eq!(hw.serial_number, "C02XK1ABJG5H");
    assert_eq!(hw.cpu, "Apple M2 Pro");
    assert_eq!(hw.ram_gb, 16);
    assert_eq!(hw.storage_gb, 460);
    assert_eq!(hw.storage_free_gb, 220);
    assert_eq!(p.compliance, ComplianceState::Compliant);
    assert!(p.encryption_enabled && p.firewall_enabled && p.disk_encrypted);
    assert_eq!(p.risk_score_tenths, 10);
    assert!(p.antivirus_active && p.os_up_to_date && p.screen_lock_enabled);
    assert_eq!(p.last_assessed, 9);
}

#[test]
fn mac_checks_follow_the_machine() {
    let b = LocalBackend::new();
    let mut probe = mac_probe("FileVault is On.", "1");
    probe.version_extra = String::new();
    probe.software_updates = "Software Update found the following new or updated software:\n* Label: macOS Sonoma 14.6-23G80\n".to_string();
    probe.xprotect_version = String::new();
    probe.screen_lock = "0\n".to_string();
    let (os, _, p) = b.macos_info(&probe, 0);
    assert_eq!(os.patch_level, "");
    assert!(!p.os_up_to_date);
    assert!(!p.antivirus_active);
    assert!(!p.screen_lock_enabled);
    assert_eq!(p.compliance, ComplianceState::Compliant);
}

#[test]
fn mac_without_firewall_is_non_compliant() {
    let b = LocalBackend::new();
    let (_, _, p) = b.macos_info(&mac_probe("FileVault is On.", " 0 \n"), 0);
    assert_eq!(p.compliance, ComplianceState::NonCompliant);
    assert!(!p.firewall_enabled);
    assert_eq!(p.risk_score_tenths, 40);
    let (_, _, q) = b.macos_info(&mac_probe("FileVault is Off.", ""), 0);
    assert!(!q.encryption_enabled && !q.firewall_enabled);
}

#[test]
fn mac_missing_output_gives_defaults() {
    let b = LocalBackend::new();
    let mut p = mac_probe("", "");
    p.hardware_overview = String::new();
    p.memsize = "unknown".to_string();
    p.df_root = String::new();
    let (_, hw, _) = b.macos_info(&p, 0);
    assert_eq!(hw.model, "");
    assert_eq!(hw.cpu, "");
    assert_eq!(hw.ram_gb, 0);
    assert_eq!(hw.storage_gb, 0);
}

#[test]
fn linux_information_is_parsed() {
    let b = LocalBackend::new();
    let probe = linux_probe();
    let (os, hw, p) = b.linux_info(&probe, 3);
    assert_eq!(os.name, "Ubuntu");
    assert_eq!(os.version, "22.04");
    assert_eq!(os.build, "6.5.0-41-generic");
    assert_eq!(hw.manufacturer, "Linux");
    assert_eq!(hw.cpu, "Intel(R) Core(TM) i7");
    assert_eq!(hw.ram_gb, 31);
    assert_eq!(hw.model, "XPS 15");
    assert_eq!(hw.storage_gb, 500);
    assert_eq!(hw.storage_free_gb, 200);
    assert_eq!(os.patch_level, "current");
    assert_eq!(p.compliance, ComplianceState::Compliant);
    assert!(p.encryption_enabled && p.disk_encrypted && p.firewall_enabled);
    assert!(p.antivirus_active && p.os_up_to_date && p.screen_lock_enabled);
    assert_eq!(p.risk_score_tenths, 10);
}

#[test]
fn linux_checks_follow_the_machine() {
    let b = LocalBackend::new();
    let mut probe = linux_probe();
    probe.df_root = "Filesystem 1024-blocks Used Available Capacity Mounted on\n/dev/sda1 104857600 52428800 31457280 63% /\n".to_string();
    probe.firewall_status = "Status: inactive\n".to_string();
    probe.antivirus_status = "inactive\n".to_string();
    probe.upgradable = "Listing... Done\ncurl/jammy-updates 7.81.0-1ubuntu1.16 amd64 [upgradable from: 7.81.0-1ubuntu1.15]\n".to_string();
    probe.screen_lock = "false\n".to_string();
    let (os, hw, p) = b.linux_info(&probe, 0);
    assert_eq!(hw.storage_gb, 100);
    assert_eq!(hw.storage_free_gb, 30);
    assert_eq!(os.patch_level, "updates available");
    assert!(p.encryption_enabled && !p.firewall_enabled);
    assert!(!p.antivirus_active && !p.os_up_to_date && !p.screen_lock_enabled);
    assert_eq!(p.compliance, ComplianceState::NonCompliant);
    assert_eq!(p.risk_score_tenths, 40);
}

#[test]
fn other_platform_falls_back() {
    let b = LocalBackend::new();
    let (os, hw, p) = b.fallback_info(&OtherProbe { os_name: "freebsd".to_string(), arch: "x86_64".to_string() }, 1);
    assert_eq!(os.name, "freebsd");
    assert_eq!(os.version, "unknown");
    assert_eq!(hw.cpu, "x86_64");
    assert_eq!(hw.ram_gb, 0);
    assert_eq!(p.risk_score_tenths, 80);
    assert!(!p.os_up_to_date);
}

#[test]
fn local_id_replaces_dots_and_keeps_twenty_chars() {
    assert_eq!(local_device_id_exec("james.macbook.local"), "LOCAL-james-macbook-local");
    assert_eq!(local_device_id_exec("a.very.long.hostname.example.com"), "LOCAL-a-very-long-hostname");
    assert_eq!(local_device_id_exec(""), "LOCAL-");
}

#[test]
fn applications_are_the_app_bundles_among_the_first_twenty() {
    let b = LocalBackend::new();
    let mut listing = String::new();
    for i in 0..25 {
        listing.push_str(&format!("App{}.app\n", i));
    }
    listing.push_str("Utilities\n");
    let apps = b.get_apps(&Some(listing));
    assert_eq!(apps.len(), 20);
    assert_eq!(apps[0].name, "App0");
    assert_eq!(apps[0].version, "installed");
    assert_eq!(apps[0].publisher, "");
    assert!(apps[0].install_date.is_none());
    let mixed = b.get_apps(&Some("Safari.app\nUtilities\nx.app.app\n".to_string()));
    let names: Vec<String> = mixed.into_iter().map(|a| a.name).collect();
    assert_eq!(names, vec!["Safari", "x"]);
    assert!(b.get_apps(&None).is_empty());
}

#[test]
fn local_device_is_detected_into_the_store() {
    let probe = LocalProbe {
        platform: PlatformProbe::MacOs(mac_probe("FileVault is On.", "1")),
        hostname: "james.local\n".to_string(),
        user: None,
        applications: Some("Notes.app\n".to_string()),
    };
    let d = LocalBackend::new().device_from_probe(&probe, 11);
    assert_eq!(d.id, "LOCAL-james-local");
    assert_eq!(d.name, "james.local");
    assert_eq!(d.owner, "unknown");
    assert_eq!(d.device_type, DeviceType::Laptop);
    assert_eq!(d.status, DeviceStatus::Active);
    assert_eq!(d.last_seen, 11);
    assert_eq!(d.enrolled_at, 11);
    assert_eq!(d.installed_apps.len(), 1);
    let mut store = DeviceStore::new();
    store.detect_local(&probe);
    let found = store.lookup_device("james");
    assert_eq!(found.len(), 1);
    assert_eq!(found[0].id, "LOCAL-james-local");
    assert!(found[0].last_seen > 1_600_000_000_000);
}

#[test]
fn protected_mac_checks_healthy_and_unprotected_degraded() {
    let mut store = DeviceStore::new();
    let mut probe = LocalProbe {
        platform: PlatformProbe::MacOs(mac_probe("FileVault is On.", "1")),
        hostname: "good".to_string(),
        user: Some("ann".to_string()),
        applications: None,
    };
    store.detect_local(&probe);
    assert_eq!(
        store.run_health_check("LOCAL-good").unwrap().health,
        mcp_device_management::types::HealthState::Healthy
    );
    probe.hostname = "weak".to_string();
    probe.platform = PlatformProbe::MacOs(mac_probe("FileVault is Off.", "1"));
    store.detect_local(&probe);
    assert_eq!(
        store.run_health_check("LOCAL-weak").unwrap().health,
        mcp_device_management::types::HealthState::Degraded
    );
    assert_eq!(store.list_user_devices("ann").len(), 2);
}

#[test]
fn linux_checks_degraded_and_other_systems_critical() {
    let mut store = DeviceStore::new();
    let linux = LocalProbe {
        platform: PlatformProbe::Linux(empty_linux_probe()),
        hostname: "lin".to_string(),
        user: None,
        applications: None,
    };
    store.detect_local(&linux);
    let other = LocalProbe {
        platform: PlatformProbe::Other(OtherProbe { os_name: "haiku".to_string(), arch: "x86".to_string() }),
        hostname: "oth".to_string(),
        user: None,
        applications: None,
    };
    store.detect_local(&other);
    assert_eq!(store.run_health_check("LOCAL-lin").unwrap().health, mcp_device_management::types::HealthState::Degraded);
    assert_eq!(store.run_health_check("LOCAL-oth").unwrap().health, mcp_device_management::types::HealthState::Critical);
}
