//! Jamf Pro: the records its computer inventory gives, and the devices the
//! inventory makes of them.
use vstd::prelude::*;

use crate::store::health_of;
use crate::sys::now_millis;
use crate::text::{concat2, owned, str_eq};
use crate::types::{
    opt_or_empty, or_empty_string, ComplianceState, Device, HealthState, DevicePosture, DeviceStatus,
    DeviceType, DeviceView, HardwareInfo, HardwareView, OsInfo, OsInfoView,
};

verus! {

/// The connection settings of a Jamf Pro server (`JAMF_URL`, `JAMF_API_TOKEN`).
pub struct JamfBackend {
    pub base_url: String,
    pub token: String,
}

/// What the backend reads of one entry of `results` in the answer of
/// `GET /api/v1/computers-inventory`; a field is `None` where the entry has
/// no value of that kind.
pub struct JamfComputer {
    pub id: Option<String>,
    /// `general.name`
    pub name: Option<String>,
    /// `userAndLocation.username`
    pub username: Option<String>,
    /// `operatingSystem.version`
    pub os_version: Option<String>,
    /// `operatingSystem.build`
    pub os_build: Option<String>,
    /// `hardware.model`
    pub model: Option<String>,
    /// `hardware.serialNumber`
    pub serial_number: Option<String>,
    /// `hardware.processorType`
    pub processor_type: Option<String>,
    /// `hardware.totalRamMegabytes`
    pub total_ram_megabytes: Option<u64>,
    /// `operatingSystem.rapidSecurityResponse`
    pub rapid_security_response: Option<String>,
    /// `storage.disks[0].sizeMegabytes`
    pub disk_size_megabytes: Option<u64>,
    /// `storage.bootDriveAvailableSpaceMegabytes`
    pub boot_drive_available_megabytes: Option<u64>,
    /// `diskEncryption.bootPartitionEncryptionDetails.partitionFileVault2State`
    pub filevault_state: Option<String>,
    /// `security.firewallEnabled`
    pub firewall_enabled: Option<bool>,
    /// `security.xprotectVersion`
    pub xprotect_version: Option<String>,
    /// `security.autoLoginDisabled`
    pub auto_login_disabled: Option<bool>,
    /// The number of entries of `softwareUpdates`, where the inventory has it.
    pub pending_updates: Option<u64>,
}

/// The gigabytes of RAM of a computer: its megabytes cut to 32 bits, then
/// divided by 1024.
pub open spec fn jamf_ram_gb(mb: Option<u64>) -> u32 {
    let m = match mb {
        Some(m) => m,
        None => 0,
    };
    ((m as u32) / 1024) as u32
}

/// Gigabytes from an optional count of megabytes, 0 when there is none.
pub open spec fn jamf_mb_to_gb(mb: Option<u64>) -> u32 {
    match mb {
        Some(m) => (m / 1024) as u32,
        None => 0,
    }
}

/// Whether the inventory reports the boot volume FileVault-encrypted.
pub open spec fn jamf_encryption(c: JamfComputer) -> bool {
    opt_or_empty(c.filevault_state) == "ENCRYPTED"@
}

/// Whether the inventory reports the firewall on.
pub open spec fn jamf_firewall(c: JamfComputer) -> bool {
    c.firewall_enabled == Some(true)
}

/// Whether the inventory reports an XProtect version.
pub open spec fn jamf_antivirus(c: JamfComputer) -> bool {
    opt_or_empty(c.xprotect_version).len() > 0
}

/// Whether the inventory lists no pending software update.
pub open spec fn jamf_updates_current(c: JamfComputer) -> bool {
    c.pending_updates == Some(0u64)
}

/// Whether the inventory reports automatic login off, so that the machine
/// asks for a password to be unlocked.
pub open spec fn jamf_screen_lock(c: JamfComputer) -> bool {
    c.auto_login_disabled == Some(true)
}

/// The posture the inventory gives a computer: compliant with risk 1.5
/// when FileVault and the firewall are both on, else non-compliant with
/// risk 4.0; each check as the inventory reports it, and off where the
/// inventory does not report it.
pub open spec fn jamf_posture(c: JamfComputer, now: i64) -> DevicePosture {
    let enc = jamf_encryption(c);
    let fw = jamf_firewall(c);
    DevicePosture {
        compliance: if enc && fw {
            ComplianceState::Compliant
        } else {
            ComplianceState::NonCompliant
        },
        encryption_enabled: enc,
        firewall_enabled: fw,
        antivirus_active: jamf_antivirus(c),
        os_up_to_date: jamf_updates_current(c),
        disk_encrypted: enc,
        screen_lock_enabled: jamf_screen_lock(c),
        risk_score_tenths: if enc && fw {
            15
        } else {
            40
        },
        last_assessed: now,
    }
}

/// The device the inventory makes of a Jamf computer, seen at `now`: an
/// Apple laptop with the hardware, storage and posture the inventory gives.
pub open spec fn jamf_device(c: JamfComputer, now: i64) -> DeviceView {
    DeviceView {
        id: opt_or_empty(c.id),
        name: opt_or_empty(c.name),
        device_type: DeviceType::Laptop,
        status: DeviceStatus::Active,
        owner: opt_or_empty(c.username),
        os: OsInfoView {
            name: "macOS"@,
            version: opt_or_empty(c.os_version),
            build: opt_or_empty(c.os_build),
            patch_level: opt_or_empty(c.rapid_security_response),
            last_updated: now,
        },
        hardware: HardwareView {
            manufacturer: "Apple"@,
            model: opt_or_empty(c.model),
            serial_number: opt_or_empty(c.serial_number),
            cpu: opt_or_empty(c.processor_type),
            ram_gb: jamf_ram_gb(c.total_ram_megabytes),
            storage_gb: jamf_mb_to_gb(c.disk_size_megabytes),
            storage_free_gb: jamf_mb_to_gb(c.boot_drive_available_megabytes),
        },
        posture: jamf_posture(c, now),
        installed_apps: Seq::empty(),
        last_seen: now,
        enrolled_at: now,
    }
}

/// A Jamf computer checks healthy when the inventory reports FileVault and
/// the firewall both on, and degraded otherwise.
pub proof fn lemma_jamf_health(c: JamfComputer, now: i64)
    ensures
        health_of(jamf_device(c, now).posture.compliance, jamf_device(c, now).posture.risk_score_tenths)
            == (if jamf_encryption(c) && jamf_firewall(c) {
            HealthState::Healthy
        } else {
            HealthState::Degraded
        }),
{
}

/// Gigabytes from an optional count of megabytes, 0 when there is none.
fn mb_to_gb(mb: Option<u64>) -> (r: u32)
    ensures
        r == jamf_mb_to_gb(mb),
{
    match mb {
        Some(m) => (m / 1024) as u32,
        None => 0,
    }
}

/// The path and query of the computer inventory request.
pub open spec fn inventory_path() -> Seq<char> {
    "/api/v1/computers-inventory?section=GENERAL&section=HARDWARE&section=OPERATING_SYSTEM&section=USER_AND_LOCATION&section=STORAGE&section=DISK_ENCRYPTION&section=SECURITY&section=SOFTWARE_UPDATES"@
}

impl JamfBackend {
    /// The backend for a server, when both its URL and token are set.
    pub fn from_settings(base_url: Option<String>, token: Option<String>) -> (r: Option<JamfBackend>)
        ensures
            r is Some <==> (base_url is Some && token is Some),
            r matches Some(b) ==> b.base_url@ == base_url->0@ && b.token@ == token->0@,
    {
        match (base_url, token) {
            (Some(u), Some(t)) => Some(JamfBackend { base_url: u, token: t }),
            _ => None,
        }
    }

    /// The address of the computer inventory, asking for the sections the
    /// devices are made of.
    pub fn inventory_url(&self) -> (r: String)
        ensures
            r@ == self.base_url@ + inventory_path(),
    {
        concat2(
            self.base_url.as_str(),
            "/api/v1/computers-inventory?section=GENERAL&section=HARDWARE&section=OPERATING_SYSTEM&section=USER_AND_LOCATION&section=STORAGE&section=DISK_ENCRYPTION&section=SECURITY&section=SOFTWARE_UPDATES",
        )
    }

    /// The device made of computer `c`, seen at `now`.
    pub fn device_from_computer(c: &JamfComputer, now: i64) -> (d: Device)
        ensures
            d@ == jamf_device(*c, now),
    {
        let mb = match c.total_ram_megabytes {
            Some(m) => m,
            None => 0,
        };
        let d = Device {
            id: or_empty_string(&c.id),
            name: or_empty_string(&c.name),
            device_type: DeviceType::Laptop,
            status: DeviceStatus::Active,
            owner: or_empty_string(&c.username),
            os: OsInfo {
                name: owned("macOS"),
                version: or_empty_string(&c.os_version),
                build: or_empty_string(&c.os_build),
                patch_level: or_empty_string(&c.rapid_security_response),
                last_updated: now,
            },
            hardware: HardwareInfo {
                manufacturer: owned("Apple"),
                model: or_empty_string(&c.model),
                serial_number: or_empty_string(&c.serial_number),
                cpu: or_empty_string(&c.processor_type),
                ram_gb: (mb as u32) / 1024,
                storage_gb: mb_to_gb(c.disk_size_megabytes),
                storage_free_gb: mb_to_gb(c.boot_drive_available_megabytes),
            },
            posture: Self::posture_of(c, now),
            installed_apps: Vec::new(),
            last_seen: now,
            enrolled_at: now,
        };
        assert(crate::types::apps_view(d.installed_apps@) =~= Seq::<crate::types::AppView>::empty());
        assert(d@ == jamf_device(*c, now));
        d
    }

    /// The posture the inventory gives computer `c`, assessed at `now`.
    pub fn posture_of(c: &JamfComputer, now: i64) -> (p: DevicePosture)
        ensures
            p == jamf_posture(*c, now),
    {
        proof {
            reveal_strlit("ENCRYPTED");
        }
        let enc = match &c.filevault_state {
            Some(st) => {
                let b = str_eq(st.as_str(), "ENCRYPTED");
                assert(b == (st@ == "ENCRYPTED"@));
                b
            },
            None => {
                assert(Seq::<char>::empty().len() != "ENCRYPTED"@.len());
                false
            },
        };
        let fw = match c.firewall_enabled {
            Some(b) => b,
            None => false,
        };
        let av = match &c.xprotect_version {
            Some(v) => v.as_str().unicode_len() > 0,
            None => false,
        };
        let updates_current = match c.pending_updates {
            Some(n) => n == 0,
            None => false,
        };
        let lock = match c.auto_login_disabled {
            Some(b) => b,
            None => false,
        };
        let both = enc && fw;
        DevicePosture {
            compliance: if both {
                ComplianceState::Compliant
            } else {
                ComplianceState::NonCompliant
            },
            encryption_enabled: enc,
            firewall_enabled: fw,
            antivirus_active: av,
            os_up_to_date: updates_current,
            disk_encrypted: enc,
            screen_lock_enabled: lock,
            risk_score_tenths: if both {
                15
            } else {
                40
            },
            last_assessed: now,
        }
    }

    /// The devices made of the computers a listing returned, seen at `now`.
    pub fn devices_from_computers(computers: &Vec<JamfComputer>, now: i64) -> (r: Vec<Device>)
        ensures
            r@.len() == computers@.len(),
            forall|i: int|
                0 <= i < computers@.len() ==> (#[trigger] r@[i])@ == jamf_device(computers@[i], now),
    {
        let mut r: Vec<Device> = Vec::new();
        let mut i: usize = 0;
        while i < computers.len()
            invariant
                i <= computers.len(),
                r@.len() == i,
                forall|k: int| 0 <= k < i ==> (#[trigger] r@[k])@ == jamf_device(computers@[k], now),
            decreases computers.len() - i,
        {
            r.push(Self::device_from_computer(&computers[i], now));
            i = i + 1;
        }
        r
    }

    /// The devices made of the computers a listing returned, seen now.
    pub fn list_computers_from(&self, computers: &Vec<JamfComputer>) -> (r: Vec<Device>)
        ensures
            r@.len() == computers@.len(),
            forall|i: int|
                0 <= i < computers@.len() ==> (#[trigger] r@[i])@ == jamf_device(
                    computers@[i],
                    r@[i].last_seen,
                ),
    {
        let now = now_millis();
        Self::devices_from_computers(computers, now)
    }
}

} // verus!
