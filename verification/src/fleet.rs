//! Fleet (fleetdm.com), the open-source osquery-based device manager: the
//! records its host list gives, and the devices the inventory makes of them.
use vstd::prelude::*;

use crate::store::health_of;
use crate::sys::now_millis;
use crate::text::{concat2, copy_string};
use crate::types::{
    opt_is, opt_or_empty, opt_equals, or_empty_string, ComplianceState, Device, HealthState, DevicePosture,
    DeviceStatus, DeviceType, DeviceView, HardwareInfo, HardwareView, OsInfo, OsInfoView,
};

verus! {

/// The connection settings of a Fleet server (`FLEET_URL`, `FLEET_API_TOKEN`).
pub struct FleetBackend {
    pub base_url: String,
    pub token: String,
}

/// What the backend reads of one host in the answer of
/// `GET /api/v1/fleet/hosts`; a field is `None` where the answer has no
/// value of that kind.
pub struct FleetHost {
    /// The `id` value as JSON text (a number prints as digits).
    pub id_json: String,
    pub hostname: Option<String>,
    pub platform: Option<String>,
    pub status: Option<String>,
    pub primary_user: Option<String>,
    pub os_version: Option<String>,
    pub build: Option<String>,
    pub hardware_vendor: Option<String>,
    pub hardware_model: Option<String>,
    pub hardware_serial: Option<String>,
    pub cpu_type: Option<String>,
    /// Memory in bytes.
    pub memory: Option<u64>,
    /// Twice `gigs_disk_space_available`, truncated to whole gigabytes.
    pub storage_gb: u32,
    /// `gigs_disk_space_available`, truncated to whole gigabytes.
    pub storage_free_gb: u32,
    pub disk_encryption_enabled: Option<bool>,
}

/// The device type of a Fleet platform: `"darwin"` is a laptop, anything
/// else a desktop.
pub open spec fn fleet_device_type(platform: Option<String>) -> DeviceType {
    if opt_is(platform, "darwin"@) {
        DeviceType::Laptop
    } else {
        DeviceType::Desktop
    }
}

/// The device the inventory makes of a Fleet host, seen at `now`.
pub open spec fn fleet_device(h: FleetHost, now: i64) -> DeviceView {
    let enc = match h.disk_encryption_enabled {
        Some(b) => b,
        None => false,
    };
    let memory = match h.memory {
        Some(m) => m,
        None => 0,
    };
    DeviceView {
        id: h.id_json@,
        name: opt_or_empty(h.hostname),
        device_type: fleet_device_type(h.platform),
        status: if opt_is(h.status, "online"@) {
            DeviceStatus::Active
        } else {
            DeviceStatus::Inactive
        },
        owner: opt_or_empty(h.primary_user),
        os: OsInfoView {
            name: opt_or_empty(h.platform),
            version: opt_or_empty(h.os_version),
            build: opt_or_empty(h.build),
            patch_level: Seq::empty(),
            last_updated: now,
        },
        hardware: HardwareView {
            manufacturer: opt_or_empty(h.hardware_vendor),
            model: opt_or_empty(h.hardware_model),
            serial_number: opt_or_empty(h.hardware_serial),
            cpu: opt_or_empty(h.cpu_type),
            ram_gb: (memory / 1073741824) as u32,
            storage_gb: h.storage_gb,
            storage_free_gb: h.storage_free_gb,
        },
        posture: DevicePosture {
            compliance: ComplianceState::Unknown,
            encryption_enabled: enc,
            firewall_enabled: true,
            antivirus_active: true,
            os_up_to_date: true,
            disk_encrypted: enc,
            screen_lock_enabled: true,
            risk_score_tenths: 30,
            last_assessed: now,
        },
        installed_apps: Seq::empty(),
        last_seen: now,
        enrolled_at: now,
    }
}

/// A Fleet host checks degraded: its compliance is unknown and its risk 3.0.
pub proof fn lemma_fleet_health(h: FleetHost, now: i64)
    ensures
        health_of(fleet_device(h, now).posture.compliance, fleet_device(h, now).posture.risk_score_tenths)
            == HealthState::Degraded,
{
}

impl FleetBackend {
    /// The backend for a server, when both its URL and token are set.
    pub fn from_settings(base_url: Option<String>, token: Option<String>) -> (r: Option<FleetBackend>)
        ensures
            r is Some <==> (base_url is Some && token is Some),
            r matches Some(b) ==> b.base_url@ == base_url->0@ && b.token@ == token->0@,
    {
        match (base_url, token) {
            (Some(u), Some(t)) => Some(FleetBackend { base_url: u, token: t }),
            _ => None,
        }
    }

    /// The address of the host list.
    pub fn hosts_url(&self) -> (r: String)
        ensures
            r@ == self.base_url@ + "/api/v1/fleet/hosts"@,
    {
        concat2(self.base_url.as_str(), "/api/v1/fleet/hosts")
    }

    /// The device made of host `h`, seen at `now`.
    pub fn device_from_host(h: &FleetHost, now: i64) -> (d: Device)
        ensures
            d@ == fleet_device(*h, now),
    {
        let enc = match h.disk_encryption_enabled {
            Some(b) => b,
            None => false,
        };
        let memory = match h.memory {
            Some(m) => m,
            None => 0,
        };
        let d = Device {
            id: copy_string(&h.id_json),
            name: or_empty_string(&h.hostname),
            device_type: if opt_equals(&h.platform, "darwin") {
                DeviceType::Laptop
            } else {
                DeviceType::Desktop
            },
            status: if opt_equals(&h.status, "online") {
                DeviceStatus::Active
            } else {
                DeviceStatus::Inactive
            },
            owner: or_empty_string(&h.primary_user),
            os: OsInfo {
                name: or_empty_string(&h.platform),
                version: or_empty_string(&h.os_version),
                build: or_empty_string(&h.build),
                patch_level: String::new(),
                last_updated: now,
            },
            hardware: HardwareInfo {
                manufacturer: or_empty_string(&h.hardware_vendor),
                model: or_empty_string(&h.hardware_model),
                serial_number: or_empty_string(&h.hardware_serial),
                cpu: or_empty_string(&h.cpu_type),
                ram_gb: (memory / 1073741824) as u32,
                storage_gb: h.storage_gb,
                storage_free_gb: h.storage_free_gb,
            },
            posture: DevicePosture {
                compliance: ComplianceState::Unknown,
                encryption_enabled: enc,
                firewall_enabled: true,
                antivirus_active: true,
                os_up_to_date: true,
                disk_encrypted: enc,
                screen_lock_enabled: true,
                risk_score_tenths: 30,
                last_assessed: now,
            },
            installed_apps: Vec::new(),
            last_seen: now,
            enrolled_at: now,
        };
        assert(d.os.patch_level@ =~= Seq::<char>::empty());
        assert(crate::types::apps_view(d.installed_apps@) =~= Seq::<crate::types::AppView>::empty());
        assert(d@ == fleet_device(*h, now));
        d
    }

    /// The devices made of the hosts a listing returned, seen at `now`.
    pub fn devices_from_hosts(hosts: &Vec<FleetHost>, now: i64) -> (r: Vec<Device>)
        ensures
            r@.len() == hosts@.len(),
            forall|i: int| 0 <= i < hosts@.len() ==> (#[trigger] r@[i])@ == fleet_device(hosts@[i], now),
    {
        let mut r: Vec<Device> = Vec::new();
        let mut i: usize = 0;
        while i < hosts.len()
            invariant
                i <= hosts.len(),
                r@.len() == i,
                forall|k: int| 0 <= k < i ==> (#[trigger] r@[k])@ == fleet_device(hosts@[k], now),
            decreases hosts.len() - i,
        {
            r.push(Self::device_from_host(&hosts[i], now));
            i = i + 1;
        }
        r
    }

    /// The devices made of the hosts a listing returned, seen now.
    pub fn list_hosts_from(&self, hosts: &Vec<FleetHost>) -> (r: Vec<Device>)
        ensures
            r@.len() == hosts@.len(),
            forall|i: int|
                0 <= i < hosts@.len() ==> (#[trigger] r@[i])@ == fleet_device(hosts@[i], r@[i].last_seen),
    {
        let now = now_millis();
        Self::devices_from_hosts(hosts, now)
    }
}

} // verus!
