//! Kandji, the Apple device management platform: the records its device
//! list gives, and the devices the inventory makes of them.
use vstd::prelude::*;

use crate::store::health_of;
use crate::sys::now_millis;
use crate::text::{concat2, owned};
use crate::types::{
    opt_is, opt_or_empty, opt_equals, or_empty_string, ComplianceState, Device, HealthState, DevicePosture,
    DeviceStatus, DeviceType, DeviceView, HardwareInfo, HardwareView, OsInfo, OsInfoView,
};

verus! {

/// The connection settings of a Kandji tenant (`KANDJI_URL`, `KANDJI_API_TOKEN`).
pub struct KandjiBackend {
    pub base_url: String,
    pub token: String,
}

/// What the backend reads of one entry in the answer of
/// `GET /api/v1/devices`; a field is `None` where the entry has no value of
/// that kind.
pub struct KandjiDevice {
    pub device_id: Option<String>,
    pub device_name: Option<String>,
    /// `user.email`
    pub user_email: Option<String>,
    pub os_version: Option<String>,
    pub model: Option<String>,
    pub serial_number: Option<String>,
    pub blueprint_status: Option<String>,
    pub filevault_enabled: Option<bool>,
    pub firewall_enabled: Option<bool>,
}

/// The device the inventory makes of a Kandji device, seen at `now`:
/// compliant when its blueprint status is `"success"`, risk 2.0.
pub open spec fn kandji_device(d: KandjiDevice, now: i64) -> DeviceView {
    let fv = match d.filevault_enabled {
        Some(b) => b,
        None => false,
    };
    let fw = match d.firewall_enabled {
        Some(b) => b,
        None => false,
    };
    DeviceView {
        id: opt_or_empty(d.device_id),
        name: opt_or_empty(d.device_name),
        device_type: DeviceType::Laptop,
        status: DeviceStatus::Active,
        owner: opt_or_empty(d.user_email),
        os: OsInfoView {
            name: "macOS"@,
            version: opt_or_empty(d.os_version),
            build: Seq::empty(),
            patch_level: Seq::empty(),
            last_updated: now,
        },
        hardware: HardwareView {
            manufacturer: "Apple"@,
            model: opt_or_empty(d.model),
            serial_number: opt_or_empty(d.serial_number),
            cpu: Seq::empty(),
            ram_gb: 0,
            storage_gb: 0,
            storage_free_gb: 0,
        },
        posture: DevicePosture {
            compliance: if opt_is(d.blueprint_status, "success"@) {
                ComplianceState::Compliant
            } else {
                ComplianceState::NonCompliant
            },
            encryption_enabled: fv,
            firewall_enabled: fw,
            antivirus_active: true,
            os_up_to_date: true,
            disk_encrypted: fv,
            screen_lock_enabled: true,
            risk_score_tenths: 20,
            last_assessed: now,
        },
        installed_apps: Seq::empty(),
        last_seen: now,
        enrolled_at: now,
    }
}

/// A Kandji device checks healthy when its blueprint succeeded, and
/// degraded otherwise.
pub proof fn lemma_kandji_health(d: KandjiDevice, now: i64)
    ensures
        health_of(kandji_device(d, now).posture.compliance, kandji_device(d, now).posture.risk_score_tenths)
            == (if opt_is(d.blueprint_status, "success"@) {
            HealthState::Healthy
        } else {
            HealthState::Degraded
        }),
{
}

impl KandjiBackend {
    /// The backend for a tenant, when both its URL and token are set.
    pub fn from_settings(base_url: Option<String>, token: Option<String>) -> (r: Option<KandjiBackend>)
        ensures
            r is Some <==> (base_url is Some && token is Some),
            r matches Some(b) ==> b.base_url@ == base_url->0@ && b.token@ == token->0@,
    {
        match (base_url, token) {
            (Some(u), Some(t)) => Some(KandjiBackend { base_url: u, token: t }),
            _ => None,
        }
    }

    /// The address of the device list.
    pub fn devices_url(&self) -> (r: String)
        ensures
            r@ == self.base_url@ + "/api/v1/devices"@,
    {
        concat2(self.base_url.as_str(), "/api/v1/devices")
    }

    /// The device made of Kandji device `d`, seen at `now`.
    pub fn device_from_entry(d: &KandjiDevice, now: i64) -> (r: Device)
        ensures
            r@ == kandji_device(*d, now),
    {
        let fv = match d.filevault_enabled {
            Some(b) => b,
            None => false,
        };
        let fw = match d.firewall_enabled {
            Some(b) => b,
            None => false,
        };
        let r = Device {
            id: or_empty_string(&d.device_id),
            name: or_empty_string(&d.device_name),
            device_type: DeviceType::Laptop,
            status: DeviceStatus::Active,
            owner: or_empty_string(&d.user_email),
            os: OsInfo {
                name: owned("macOS"),
                version: or_empty_string(&d.os_version),
                build: String::new(),
                patch_level: String::new(),
                last_updated: now,
            },
            hardware: HardwareInfo {
                manufacturer: owned("Apple"),
                model: or_empty_string(&d.model),
                serial_number: or_empty_string(&d.serial_number),
                cpu: String::new(),
                ram_gb: 0,
                storage_gb: 0,
                storage_free_gb: 0,
            },
            posture: DevicePosture {
                compliance: if opt_equals(&d.blueprint_status, "success") {
                    ComplianceState::Compliant
                } else {
                    ComplianceState::NonCompliant
                },
                encryption_enabled: fv,
                firewall_enabled: fw,
                antivirus_active: true,
                os_up_to_date: true,
                disk_encrypted: fv,
                screen_lock_enabled: true,
                risk_score_tenths: 20,
                last_assessed: now,
            },
            installed_apps: Vec::new(),
            last_seen: now,
            enrolled_at: now,
        };
        assert(r.os.build@ =~= Seq::<char>::empty());
        assert(r.os.patch_level@ =~= Seq::<char>::empty());
        assert(r.hardware.cpu@ =~= Seq::<char>::empty());
        assert(crate::types::apps_view(r.installed_apps@) =~= Seq::<crate::types::AppView>::empty());
        assert(r@ == kandji_device(*d, now));
        r
    }

    /// The devices made of the entries a listing returned, seen at `now`.
    pub fn devices_from_entries(entries: &Vec<KandjiDevice>, now: i64) -> (r: Vec<Device>)
        ensures
            r@.len() == entries@.len(),
            forall|i: int|
                0 <= i < entries@.len() ==> (#[trigger] r@[i])@ == kandji_device(entries@[i], now),
    {
        let mut r: Vec<Device> = Vec::new();
        let mut i: usize = 0;
        while i < entries.len()
            invariant
                i <= entries.len(),
                r@.len() == i,
                forall|k: int| 0 <= k < i ==> (#[trigger] r@[k])@ == kandji_device(entries@[k], now),
            decreases entries.len() - i,
        {
            r.push(Self::device_from_entry(&entries[i], now));
            i = i + 1;
        }
        r
    }

    /// The devices made of the entries a listing returned, seen now.
    pub fn list_devices_from(&self, entries: &Vec<KandjiDevice>) -> (r: Vec<Device>)
        ensures
            r@.len() == entries@.len(),
            forall|i: int|
                0 <= i < entries@.len() ==> (#[trigger] r@[i])@ == kandji_device(
                    entries@[i],
                    r@[i].last_seen,
                ),
    {
        let now = now_millis();
        Self::devices_from_entries(entries, now)
    }
}

} // verus!
