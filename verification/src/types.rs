//! The inventory's records: devices, their operating system, hardware,
//! security posture and installed applications, and remediation tasks.
//!
//! Instants are milliseconds since the Unix epoch (UTC). A risk score is held
//! in tenths: a score of 4.0 is `40`.
use vstd::prelude::*;

use crate::text::{copy_string, str_eq};

verus! {

/// The form factor of a managed device.
#[derive(Debug, Clone, Copy, PartialEq, Eq, Structural)]
pub enum DeviceType {
    Laptop,
    Desktop,
    Mobile,
    Tablet,
    Server,
    Virtual,
}

/// The lifecycle state of a managed device.
#[derive(Debug, Clone, Copy, PartialEq, Eq, Structural)]
pub enum DeviceStatus {
    Active,
    Inactive,
    Lost,
    Retired,
    PendingWipe,
}

/// Whether a device meets its compliance policy.
#[derive(Debug, Clone, Copy, PartialEq, Eq, Structural)]
pub enum ComplianceState {
    Compliant,
    NonCompliant,
    Unknown,
    GracePeriod,
}

/// The overall health that a health check assigns to a device.
#[derive(Debug, Clone, Copy, PartialEq, Eq, Structural)]
pub enum HealthState {
    Healthy,
    Degraded,
    Critical,
    Unknown,
}

/// The operating system of a device.
#[derive(Debug, Clone)]
pub struct OsInfo {
    pub name: String,
    pub version: String,
    pub build: String,
    pub patch_level: String,
    /// Milliseconds since the Unix epoch.
    pub last_updated: i64,
}

/// The hardware of a device; sizes are in whole gigabytes.
#[derive(Debug, Clone)]
pub struct HardwareInfo {
    pub manufacturer: String,
    pub model: String,
    pub serial_number: String,
    pub cpu: String,
    pub ram_gb: u32,
    pub storage_gb: u32,
    pub storage_free_gb: u32,
}

/// The security posture of a device.
#[derive(Debug, Clone, Copy, PartialEq, Eq, Structural)]
pub struct DevicePosture {
    pub compliance: ComplianceState,
    pub encryption_enabled: bool,
    pub firewall_enabled: bool,
    pub antivirus_active: bool,
    pub os_up_to_date: bool,
    pub disk_encrypted: bool,
    pub screen_lock_enabled: bool,
    /// The risk score in tenths (0.0 to 10.0 is 0 to 100).
    pub risk_score_tenths: u32,
    /// Milliseconds since the Unix epoch.
    pub last_assessed: i64,
}

/// An application installed on a device.
#[derive(Debug, Clone)]
pub struct InstalledApp {
    pub name: String,
    pub version: String,
    pub publisher: String,
    pub install_date: Option<String>,
}

/// A managed device.
#[derive(Debug, Clone)]
pub struct Device {
    pub id: String,
    pub name: String,
    pub device_type: DeviceType,
    pub status: DeviceStatus,
    pub owner: String,
    pub os: OsInfo,
    pub hardware: HardwareInfo,
    pub posture: DevicePosture,
    pub installed_apps: Vec<InstalledApp>,
    /// Milliseconds since the Unix epoch.
    pub last_seen: i64,
    /// Milliseconds since the Unix epoch.
    pub enrolled_at: i64,
}

/// A tracked remediation task for a device.
#[derive(Debug, Clone)]
pub struct RemediationTask {
    pub id: String,
    pub device_id: String,
    pub action: String,
    pub reason: String,
    pub status: String,
    /// Milliseconds since the Unix epoch.
    pub created_at: i64,
}

// ---------------------------------------------------------------------------
// Mathematical views
// ---------------------------------------------------------------------------

pub struct OsInfoView {
    pub name: Seq<char>,
    pub version: Seq<char>,
    pub build: Seq<char>,
    pub patch_level: Seq<char>,
    pub last_updated: i64,
}

pub struct HardwareView {
    pub manufacturer: Seq<char>,
    pub model: Seq<char>,
    pub serial_number: Seq<char>,
    pub cpu: Seq<char>,
    pub ram_gb: u32,
    pub storage_gb: u32,
    pub storage_free_gb: u32,
}

pub struct AppView {
    pub name: Seq<char>,
    pub version: Seq<char>,
    pub publisher: Seq<char>,
    pub install_date: Option<Seq<char>>,
}

pub struct DeviceView {
    pub id: Seq<char>,
    pub name: Seq<char>,
    pub device_type: DeviceType,
    pub status: DeviceStatus,
    pub owner: Seq<char>,
    pub os: OsInfoView,
    pub hardware: HardwareView,
    pub posture: DevicePosture,
    pub installed_apps: Seq<AppView>,
    pub last_seen: i64,
    pub enrolled_at: i64,
}

pub struct TaskView {
    pub id: Seq<char>,
    pub device_id: Seq<char>,
    pub action: Seq<char>,
    pub reason: Seq<char>,
    pub status: Seq<char>,
    pub created_at: i64,
}

/// The characters of an optional string.
pub open spec fn opt_view(o: Option<String>) -> Option<Seq<char>> {
    match o {
        Some(s) => Some(s@),
        None => None,
    }
}

impl View for OsInfo {
    type V = OsInfoView;

    open spec fn view(&self) -> OsInfoView {
        OsInfoView {
            name: self.name@,
            version: self.version@,
            build: self.build@,
            patch_level: self.patch_level@,
            last_updated: self.last_updated,
        }
    }
}

impl View for HardwareInfo {
    type V = HardwareView;

    open spec fn view(&self) -> HardwareView {
        HardwareView {
            manufacturer: self.manufacturer@,
            model: self.model@,
            serial_number: self.serial_number@,
            cpu: self.cpu@,
            ram_gb: self.ram_gb,
            storage_gb: self.storage_gb,
            storage_free_gb: self.storage_free_gb,
        }
    }
}

impl View for InstalledApp {
    type V = AppView;

    open spec fn view(&self) -> AppView {
        AppView {
            name: self.name@,
            version: self.version@,
            publisher: self.publisher@,
            install_date: opt_view(self.install_date),
        }
    }
}

/// The views of a sequence of installed applications.
pub open spec fn apps_view(apps: Seq<InstalledApp>) -> Seq<AppView> {
    apps.map_values(|a: InstalledApp| a@)
}

impl View for Device {
    type V = DeviceView;

    open spec fn view(&self) -> DeviceView {
        DeviceView {
            id: self.id@,
            name: self.name@,
            device_type: self.device_type,
            status: self.status,
            owner: self.owner@,
            os: self.os@,
            hardware: self.hardware@,
            posture: self.posture,
            installed_apps: apps_view(self.installed_apps@),
            last_seen: self.last_seen,
            enrolled_at: self.enrolled_at,
        }
    }
}

/// The views of a sequence of devices.
pub open spec fn devices_view(devices: Seq<Device>) -> Seq<DeviceView> {
    devices.map_values(|d: Device| d@)
}

impl View for RemediationTask {
    type V = TaskView;

    open spec fn view(&self) -> TaskView {
        TaskView {
            id: self.id@,
            device_id: self.device_id@,
            action: self.action@,
            reason: self.reason@,
            status: self.status@,
            created_at: self.created_at,
        }
    }
}

// ---------------------------------------------------------------------------
// Copies
// ---------------------------------------------------------------------------

/// The characters of an optional string, or none: `.unwrap_or("")`.
pub open spec fn opt_or_empty(o: Option<String>) -> Seq<char> {
    match o {
        Some(s) => s@,
        None => Seq::empty(),
    }
}

/// Whether an optional string holds exactly `lit`: `o.as_deref() == Some(lit)`.
pub open spec fn opt_is(o: Option<String>, lit: Seq<char>) -> bool {
    match o {
        Some(s) => s@ == lit,
        None => false,
    }
}

/// The string an optional string holds, or the empty string.
pub fn or_empty_string(o: &Option<String>) -> (r: String)
    ensures
        r@ == opt_or_empty(*o),
{
    match o {
        Some(s) => copy_string(s),
        None => {
            let r = String::new();
            assert(r@ =~= Seq::<char>::empty());
            r
        },
    }
}

/// Whether an optional string holds exactly `lit`.
pub fn opt_equals(o: &Option<String>, lit: &str) -> (b: bool)
    ensures
        b == opt_is(*o, lit@),
{
    match o {
        Some(s) => str_eq(s.as_str(), lit),
        None => false,
    }
}

/// A copy of an optional string.
pub fn copy_opt_string(o: &Option<String>) -> (r: Option<String>)
    ensures
        opt_view(r) == opt_view(*o),
{
    match o {
        Some(s) => Some(copy_string(s)),
        None => None,
    }
}

impl OsInfo {
    /// A copy of this record.
    pub fn duplicate(&self) -> (r: OsInfo)
        ensures
            r@ == self@,
    {
        OsInfo {
            name: copy_string(&self.name),
            version: copy_string(&self.version),
            build: copy_string(&self.build),
            patch_level: copy_string(&self.patch_level),
            last_updated: self.last_updated,
        }
    }
}

impl HardwareInfo {
    /// A copy of this record.
    pub fn duplicate(&self) -> (r: HardwareInfo)
        ensures
            r@ == self@,
    {
        HardwareInfo {
            manufacturer: copy_string(&self.manufacturer),
            model: copy_string(&self.model),
            serial_number: copy_string(&self.serial_number),
            cpu: copy_string(&self.cpu),
            ram_gb: self.ram_gb,
            storage_gb: self.storage_gb,
            storage_free_gb: self.storage_free_gb,
        }
    }
}

impl InstalledApp {
    /// A copy of this record.
    pub fn duplicate(&self) -> (r: InstalledApp)
        ensures
            r@ == self@,
    {
        InstalledApp {
            name: copy_string(&self.name),
            version: copy_string(&self.version),
            publisher: copy_string(&self.publisher),
            install_date: copy_opt_string(&self.install_date),
        }
    }
}

/// A copy of a list of installed applications.
pub fn copy_apps(apps: &Vec<InstalledApp>) -> (r: Vec<InstalledApp>)
    ensures
        apps_view(r@) == apps_view(apps@),
{
    let mut r: Vec<InstalledApp> = Vec::new();
    let mut i: usize = 0;
    while i < apps.len()
        invariant
            i <= apps.len(),
            r@.len() == i,
            forall|k: int| 0 <= k < i ==> (#[trigger] r@[k])@ == apps@[k]@,
        decreases apps.len() - i,
    {
        let a = apps[i].duplicate();
        r.push(a);
        i = i + 1;
    }
    assert(apps_view(r@) =~= apps_view(apps@));
    r
}

impl Device {
    /// A copy of this record.
    pub fn duplicate(&self) -> (r: Device)
        ensures
            r@ == self@,
    {
        Device {
            id: copy_string(&self.id),
            name: copy_string(&self.name),
            device_type: self.device_type,
            status: self.status,
            owner: copy_string(&self.owner),
            os: self.os.duplicate(),
            hardware: self.hardware.duplicate(),
            posture: self.posture,
            installed_apps: copy_apps(&self.installed_apps),
            last_seen: self.last_seen,
            enrolled_at: self.enrolled_at,
        }
    }
}

impl RemediationTask {
    /// A copy of this record.
    pub fn duplicate(&self) -> (r: RemediationTask)
        ensures
            r@ == self@,
    {
        RemediationTask {
            id: copy_string(&self.id),
            device_id: copy_string(&self.device_id),
            action: copy_string(&self.action),
            reason: copy_string(&self.reason),
            status: copy_string(&self.status),
            created_at: self.created_at,
        }
    }
}

} // verus!
