//! Microsoft Intune: the requests the backend makes of Microsoft Graph, the
//! records its managed-device list gives, and the devices made of them.
use vstd::prelude::*;

use crate::store::health_of;
use crate::sys::now_millis;
use crate::text::{concat3, owned};
use crate::types::{
    opt_is, opt_or_empty, opt_equals, or_empty_string, ComplianceState, Device, HealthState, DevicePosture,
    DeviceStatus, DeviceType, DeviceView, HardwareInfo, HardwareView, OsInfo, OsInfoView,
};

verus! {

/// The credentials of an Intune tenant (`INTUNE_TENANT_ID`,
/// `INTUNE_CLIENT_ID`, `INTUNE_CLIENT_SECRET`).
pub struct IntuneBackend {
    pub tenant_id: String,
    pub client_id: String,
    pub client_secret: String,
}

/// What the backend reads of one entry of `value` in the answer of
/// `GET /v1.0/deviceManagement/managedDevices`; a field is `None` where the
/// entry has no value of that kind.
pub struct IntuneDevice {
    pub id: Option<String>,
    pub device_name: Option<String>,
    pub device_type: Option<String>,
    pub compliance_state: Option<String>,
    pub user_principal_name: Option<String>,
    pub operating_system: Option<String>,
    pub os_version: Option<String>,
    pub manufacturer: Option<String>,
    pub model: Option<String>,
    pub serial_number: Option<String>,
    pub total_storage_bytes: Option<u64>,
    pub free_storage_bytes: Option<u64>,
    pub is_encrypted: Option<bool>,
}

/// The gigabytes of a byte count that may be missing.
pub open spec fn gigabytes(bytes: Option<u64>) -> u32 {
    let b = match bytes {
        Some(b) => b,
        None => 0,
    };
    (b / 1073741824) as u32
}

/// The device the inventory makes of an Intune managed device, seen at `now`.
pub open spec fn intune_device(d: IntuneDevice, now: i64) -> DeviceView {
    let enc = match d.is_encrypted {
        Some(b) => b,
        None => false,
    };
    DeviceView {
        id: opt_or_empty(d.id),
        name: opt_or_empty(d.device_name),
        device_type: if opt_is(d.device_type, "macMDM"@) || opt_is(d.device_type, "windowsRT"@) {
            DeviceType::Laptop
        } else {
            DeviceType::Desktop
        },
        status: DeviceStatus::Active,
        owner: opt_or_empty(d.user_principal_name),
        os: OsInfoView {
            name: opt_or_empty(d.operating_system),
            version: opt_or_empty(d.os_version),
            build: Seq::empty(),
            patch_level: Seq::empty(),
            last_updated: now,
        },
        hardware: HardwareView {
            manufacturer: opt_or_empty(d.manufacturer),
            model: opt_or_empty(d.model),
            serial_number: opt_or_empty(d.serial_number),
            cpu: Seq::empty(),
            ram_gb: 0,
            storage_gb: gigabytes(d.total_storage_bytes),
            storage_free_gb: gigabytes(d.free_storage_bytes),
        },
        posture: DevicePosture {
            compliance: if opt_is(d.compliance_state, "compliant"@) {
                ComplianceState::Compliant
            } else {
                ComplianceState::NonCompliant
            },
            encryption_enabled: enc,
            firewall_enabled: true,
            antivirus_active: true,
            os_up_to_date: true,
            disk_encrypted: enc,
            screen_lock_enabled: true,
            risk_score_tenths: 20,
            last_assessed: now,
        },
        installed_apps: Seq::empty(),
        last_seen: now,
        enrolled_at: now,
    }
}

/// The gigabytes of a byte count that may be missing.
fn gigabytes_exec(bytes: Option<u64>) -> (r: u32)
    ensures
        r == gigabytes(bytes),
{
    let b = match bytes {
        Some(b) => b,
        None => 0,
    };
    (b / 1073741824) as u32
}

/// An Intune device checks healthy when Intune reports it compliant, and
/// degraded otherwise.
pub proof fn lemma_intune_health(d: IntuneDevice, now: i64)
    ensures
        health_of(intune_device(d, now).posture.compliance, intune_device(d, now).posture.risk_score_tenths)
            == (if opt_is(d.compliance_state, "compliant"@) {
            HealthState::Healthy
        } else {
            HealthState::Degraded
        }),
{
}

impl IntuneBackend {
    /// The backend for a tenant, when all three credentials are set.
    pub fn from_settings(
        tenant_id: Option<String>,
        client_id: Option<String>,
        client_secret: Option<String>,
    ) -> (r: Option<IntuneBackend>)
        ensures
            r is Some <==> (tenant_id is Some && client_id is Some && client_secret is Some),
            r matches Some(b) ==> b.tenant_id@ == tenant_id->0@ && b.client_id@ == client_id->0@
                && b.client_secret@ == client_secret->0@,
    {
        match (tenant_id, client_id, client_secret) {
            (Some(t), Some(c), Some(s)) => Some(
                IntuneBackend { tenant_id: t, client_id: c, client_secret: s },
            ),
            _ => None,
        }
    }

    /// The address the token request goes to.
    pub fn token_url(&self) -> (r: String)
        ensures
            r@ == "https://login.microsoftonline.com/"@ + self.tenant_id@ + "/oauth2/v2.0/token"@,
    {
        concat3("https://login.microsoftonline.com/", self.tenant_id.as_str(), "/oauth2/v2.0/token")
    }

    /// The form of the client-credentials token request, in order.
    pub fn token_form(&self) -> (r: Vec<(String, String)>)
        ensures
            r@.len() == 4,
            r@[0].0@ == "grant_type"@ && r@[0].1@ == "client_credentials"@,
            r@[1].0@ == "client_id"@ && r@[1].1@ == self.client_id@,
            r@[2].0@ == "client_secret"@ && r@[2].1@ == self.client_secret@,
            r@[3].0@ == "scope"@ && r@[3].1@ == "https://graph.microsoft.com/.default"@,
    {
        let mut r: Vec<(String, String)> = Vec::new();
        r.push((owned("grant_type"), owned("client_credentials")));
        r.push((owned("client_id"), crate::text::copy_string(&self.client_id)));
        r.push((owned("client_secret"), crate::text::copy_string(&self.client_secret)));
        r.push((owned("scope"), owned("https://graph.microsoft.com/.default")));
        r
    }

    /// The address of the managed-device list.
    pub fn devices_url(&self) -> (r: String)
        ensures
            r@ == "https://graph.microsoft.com/v1.0/deviceManagement/managedDevices"@,
    {
        owned("https://graph.microsoft.com/v1.0/deviceManagement/managedDevices")
    }

    /// The token of a token answer: its `access_token` text, else the error
    /// `"Failed to get token"`.
    pub fn token_from_answer(access_token: Option<String>) -> (r: Result<String, String>)
        ensures
            access_token matches Some(t) ==> (r matches Ok(s) && s@ == t@),
            access_token is None ==> (r matches Err(e) && e@ == "Failed to get token"@),
    {
        match access_token {
            Some(t) => Ok(t),
            None => Err(owned("Failed to get token")),
        }
    }

    /// The device made of managed device `d`, seen at `now`.
    pub fn device_from_entry(d: &IntuneDevice, now: i64) -> (r: Device)
        ensures
            r@ == intune_device(*d, now),
    {
        let enc = match d.is_encrypted {
            Some(b) => b,
            None => false,
        };
        let laptop = opt_equals(&d.device_type, "macMDM") || opt_equals(&d.device_type, "windowsRT");
        let r = Device {
            id: or_empty_string(&d.id),
            name: or_empty_string(&d.device_name),
            device_type: if laptop {
                DeviceType::Laptop
            } else {
                DeviceType::Desktop
            },
            status: DeviceStatus::Active,
            owner: or_empty_string(&d.user_principal_name),
            os: OsInfo {
                name: or_empty_string(&d.operating_system),
                version: or_empty_string(&d.os_version),
                build: String::new(),
                patch_level: String::new(),
                last_updated: now,
            },
            hardware: HardwareInfo {
                manufacturer: or_empty_string(&d.manufacturer),
                model: or_empty_string(&d.model),
                serial_number: or_empty_string(&d.serial_number),
                cpu: String::new(),
                ram_gb: 0,
                storage_gb: gigabytes_exec(d.total_storage_bytes),
                storage_free_gb: gigabytes_exec(d.free_storage_bytes),
            },
            posture: DevicePosture {
                compliance: if opt_equals(&d.compliance_state, "compliant") {
                    ComplianceState::Compliant
                } else {
                    ComplianceState::NonCompliant
                },
                encryption_enabled: enc,
                firewall_enabled: true,
                antivirus_active: true,
                os_up_to_date: true,
                disk_encrypted: enc,
                screen_lock_enabled: true,
                risk_score_tenths: 20,
                last_assessed: now,
            },
            installed_apps: Vec::new(),
            last_seen: now,
            enrolled_at: now,
        };
        assert(r.os.build@ =~= Seq::<char>::empty());
        assert(r.os.patch_level@ =~= Seq::<char>::empty());
        assert(r.hardware.cpu@ =~= Seq::<char>::empty());
        assert(crate::types::apps_view(r.installed_apps@) =~= Seq::<crate::types::AppView>::empty());
        assert(r@ == intune_device(*d, now));
        r
    }

    /// The devices made of the entries a listing returned, seen at `now`.
    pub fn devices_from_entries(entries: &Vec<IntuneDevice>, now: i64) -> (r: Vec<Device>)
        ensures
            r@.len() == entries@.len(),
            forall|i: int|
                0 <= i < entries@.len() ==> (#[trigger] r@[i])@ == intune_device(entries@[i], now),
    {
        let mut r: Vec<Device> = Vec::new();
        let mut i: usize = 0;
        while i < entries.len()
            invariant
                i <= entries.len(),
                r@.len() == i,
                forall|k: int| 0 <= k < i ==> (#[trigger] r@[k])@ == intune_device(entries@[k], now),
            decreases entries.len() - i,
        {
            r.push(Self::device_from_entry(&entries[i], now));
            i = i + 1;
        }
        r
    }

    /// The devices made of the entries a listing returned, seen now.
    pub fn list_devices_from(&self, entries: &Vec<IntuneDevice>) -> (r: Vec<Device>)
        ensures
            r@.len() == entries@.len(),
            forall|i: int|
                0 <= i < entries@.len() ==> (#[trigger] r@[i])@ == intune_device(
                    entries@[i],
                    r@[i].last_seen,
                ),
    {
        let now = now_millis();
        Self::devices_from_entries(entries, now)
    }
}

/// An Intune device is reported encrypted exactly when its entry says
/// `isEncrypted: true`: an entry with `isEncrypted: false`, or without the
/// field, gives a device whose encryption and disk encryption are off.
pub proof fn law_intune_encryption_follows_entry(d: IntuneDevice, now: i64)
    ensures
        intune_device(d, now).posture.encryption_enabled == (d.is_encrypted == Some(true)),
        intune_device(d, now).posture.disk_encrypted == (d.is_encrypted == Some(true)),
        d.is_encrypted == Some(false) ==> !intune_device(d, now).posture.encryption_enabled,
{
}

} // verus!
