//! The device inventory: devices keyed by id, and the remediation tasks
//! created for them, with the queries and reports the server answers from.
use vstd::prelude::*;

use crate::local::{local_device, LocalBackend, LocalProbe};
use crate::sys::{lowercase_of, now_millis, random_uuid_simple, to_lowercase};
use crate::text::{
    ascii_upper, ascii_upper_char, chars_of, concat2, contains, contains_exec, copy_string,
    ascii_lowercase, decimal, is_ascii_char, is_ascii_text, owned, push_char, push_decimal, str_eq, append_str,
};
use crate::types::{
    apps_view, copy_apps, devices_view, ComplianceState, Device, DevicePosture, DeviceView,
    HealthState, InstalledApp, RemediationTask, TaskView,
};

verus! {

// ---------------------------------------------------------------------------
// The health rule
// ---------------------------------------------------------------------------

/// The health that a check assigns: healthy when compliant with a risk
/// score under 3.0, degraded when the score is under 6.0, critical otherwise.
pub open spec fn health_of(compliance: ComplianceState, risk_score_tenths: u32) -> HealthState {
    if compliance == ComplianceState::Compliant && risk_score_tenths < 30 {
        HealthState::Healthy
    } else if risk_score_tenths < 60 {
        HealthState::Degraded
    } else {
        HealthState::Critical
    }
}

/// The health of a device with the given posture.
pub fn assess_health(posture: &DevicePosture) -> (h: HealthState)
    ensures
        h == health_of(posture.compliance, posture.risk_score_tenths),
{
    if posture.compliance == ComplianceState::Compliant && posture.risk_score_tenths < 30 {
        HealthState::Healthy
    } else if posture.risk_score_tenths < 60 {
        HealthState::Degraded
    } else {
        HealthState::Critical
    }
}

/// The rank of a health state, worst last.
pub open spec fn health_rank(h: HealthState) -> int {
    match h {
        HealthState::Healthy => 0,
        HealthState::Degraded => 1,
        HealthState::Critical => 2,
        HealthState::Unknown => 3,
    }
}

/// A higher risk score never gives a better health, and losing compliance
/// never does either.
pub proof fn lemma_health_monotone(c1: ComplianceState, r1: u32, c2: ComplianceState, r2: u32)
    requires
        r1 <= r2,
        c2 == ComplianceState::Compliant ==> c1 == ComplianceState::Compliant,
    ensures
        health_rank(health_of(c1, r1)) <= health_rank(health_of(c2, r2)),
{
}

/// A health check never answers `Unknown`; a score of 6.0 or more is always
/// critical, and only a compliant device can be healthy.
pub proof fn lemma_health_cases(c: ComplianceState, r: u32)
    ensures
        health_of(c, r) != HealthState::Unknown,
        r >= 60 ==> health_of(c, r) == HealthState::Critical,
        health_of(c, r) == HealthState::Healthy ==> c == ComplianceState::Compliant && r < 30,
        c != ComplianceState::Compliant && r < 60 ==> health_of(c, r) == HealthState::Degraded,
{
}

// ---------------------------------------------------------------------------
// Specifications of the inventory
// ---------------------------------------------------------------------------

/// No two devices share an id.
pub open spec fn ids_unique(devs: Seq<DeviceView>) -> bool {
    forall|i: int, j: int| 0 <= i < j < devs.len() ==> devs[i].id != devs[j].id
}

/// The index of the first device from `i` on whose id is `id`, or -1.
pub open spec fn id_index_from(devs: Seq<DeviceView>, id: Seq<char>, i: int) -> int
    decreases devs.len() - i,
{
    if i < 0 || i >= devs.len() {
        -1
    } else if devs[i].id == id {
        i
    } else {
        id_index_from(devs, id, i + 1)
    }
}

/// The index of the device whose id is `id`, or -1.
pub open spec fn id_index(devs: Seq<DeviceView>, id: Seq<char>) -> int {
    id_index_from(devs, id, 0)
}

/// The device whose id is `id`, if any.
pub open spec fn lookup(devs: Seq<DeviceView>, id: Seq<char>) -> Option<DeviceView> {
    let k = id_index(devs, id);
    if 0 <= k < devs.len() {
        Some(devs[k])
    } else {
        None
    }
}

/// The inventory after adding `d`: it replaces the device with its id, in
/// place, or is appended.
pub open spec fn insert_device(devs: Seq<DeviceView>, d: DeviceView) -> Seq<DeviceView> {
    let k = id_index(devs, d.id);
    if 0 <= k < devs.len() {
        devs.update(k, d)
    } else {
        devs.push(d)
    }
}

pub proof fn lemma_id_index_from(devs: Seq<DeviceView>, id: Seq<char>, i: int)
    requires
        0 <= i,
    ensures
        id_index_from(devs, id, i) == -1 || (i <= id_index_from(devs, id, i) < devs.len()),
        id_index_from(devs, id, i) == -1 ==> forall|k: int|
            i <= k < devs.len() ==> #[trigger] devs[k].id != id,
        id_index_from(devs, id, i) != -1 ==> devs[id_index_from(devs, id, i)].id == id,
        id_index_from(devs, id, i) != -1 ==> forall|k: int|
            i <= k < id_index_from(devs, id, i) ==> #[trigger] devs[k].id != id,
    decreases devs.len() - i,
{
    if i < devs.len() && devs[i].id != id {
        lemma_id_index_from(devs, id, i + 1);
    }
}

/// With unique ids, `lookup` finds the device at `k` by its id.
pub proof fn lemma_lookup_at(devs: Seq<DeviceView>, k: int)
    requires
        ids_unique(devs),
        0 <= k < devs.len(),
    ensures
        lookup(devs, devs[k].id) == Some(devs[k]),
{
    lemma_id_index_from(devs, devs[k].id, 0);
}

/// Adding a device keeps the ids unique; afterwards its id finds it, and
/// every other id finds what it found before.
pub proof fn lemma_insert_device(devs: Seq<DeviceView>, d: DeviceView)
    requires
        ids_unique(devs),
    ensures
        ids_unique(insert_device(devs, d)),
        lookup(insert_device(devs, d), d.id) == Some(d),
        forall|id: Seq<char>|
            id != d.id ==> #[trigger] lookup(insert_device(devs, d), id) == lookup(devs, id),
{
    lemma_id_index_from(devs, d.id, 0);
    let after = insert_device(devs, d);
    let j = id_index(devs, d.id);
    assert(ids_unique(after));
    lemma_id_index_from(after, d.id, 0);
    let k = id_index(after, d.id);
    if 0 <= j < devs.len() {
        assert(after[j] == d);
        assert(forall|m: int| 0 <= m < j ==> #[trigger] after[m].id != d.id);
        if k != j {
            if k < j {
                assert(after[k].id == d.id);
            } else {
                assert(after[j].id == d.id);
            }
        }
    } else {
        assert(after[devs.len() as int] == d);
        assert(forall|m: int| 0 <= m < devs.len() ==> #[trigger] after[m].id != d.id);
        if k != devs.len() {
            assert(after[devs.len() as int].id == d.id);
        }
    }
    assert forall|id: Seq<char>| id != d.id implies #[trigger] lookup(after, id) == lookup(devs, id) by {
        lemma_id_index_from(devs, id, 0);
        lemma_id_index_from(after, id, 0);
        let a = id_index(after, id);
        let b = id_index(devs, id);
        if a != -1 {
            assert(after[a].id == id);
            if b != -1 {
                assert(a == b) by {
                    if a < b {
                        assert(devs[a].id == id);
                    } else if b < a {
                        assert(after[b].id == id);
                    }
                }
            } else {
                assert(devs[a].id == id);
            }
        } else if b != -1 {
            assert(after[b].id == id);
        }
    }
}

/// Whether a device matches a lower-cased search text: its id, name, serial
/// number or model, lower-cased, contains it.
pub open spec fn matches_query(d: DeviceView, q: Seq<char>) -> bool {
    contains(lowercase_of(d.id), q) || contains(lowercase_of(d.name), q) || contains(
        lowercase_of(d.hardware.serial_number),
        q,
    ) || contains(lowercase_of(d.hardware.model), q)
}

/// The filter of a device search for the search text `query`.
pub open spec fn query_filter(query: Seq<char>) -> spec_fn(DeviceView) -> bool {
    |d: DeviceView| matches_query(d, lowercase_of(query))
}

/// The filter of devices owned by `owner`.
pub open spec fn owner_filter(owner: Seq<char>) -> spec_fn(DeviceView) -> bool {
    |d: DeviceView| d.owner == owner
}

/// A device search ignores case: two search texts with the same lower-case
/// form find the same devices. (For texts that are all ASCII,
/// `lookup_device` states what their lower-case form is.)
pub proof fn lemma_search_ignores_case(devs: Seq<DeviceView>, q1: Seq<char>, q2: Seq<char>)
    requires
        lowercase_of(q1) == lowercase_of(q2),
    ensures
        devs.filter(query_filter(q1)) == devs.filter(query_filter(q2)),
{
    assert(query_filter(q1) =~= query_filter(q2));
}

/// A search text whose lower-case form is empty finds every device.
pub proof fn lemma_empty_search_finds_all(devs: Seq<DeviceView>, q: Seq<char>)
    requires
        lowercase_of(q).len() == 0,
    ensures
        devs.filter(query_filter(q)) == devs,
    decreases devs.len(),
{
    reveal_with_fuel(Seq::<_>::filter, 1);
    if devs.len() > 0 {
        lemma_empty_search_finds_all(devs.drop_last(), q);
        let d = devs.last();
        lemma_empty_occurs(lowercase_of(d.id), lowercase_of(q));
        assert(matches_query(d, lowercase_of(q)));
        assert(devs.drop_last().push(d) =~= devs);
    }
}

/// An empty text occurs in any text.
proof fn lemma_empty_occurs(h: Seq<char>, n: Seq<char>)
    requires
        n.len() == 0,
    ensures
        contains(h, n),
{
    assert(h.subrange(0, 0) =~= n);
    assert(crate::text::occurs_at(h, n, 0));
}

/// A device's owner finds all of that owner's devices and no others.
pub proof fn lemma_owner_listing(devs: Seq<DeviceView>, owner: Seq<char>)
    ensures
        forall|i: int|
            0 <= i < devs.filter(owner_filter(owner)).len() ==> (#[trigger] devs.filter(
                owner_filter(owner),
            )[i]).owner == owner,
        forall|i: int|
            0 <= i < devs.len() && (#[trigger] devs[i]).owner == owner ==> devs.filter(
                owner_filter(owner),
            ).contains(devs[i]),
{
    assert forall|i: int|
        0 <= i < devs.filter(owner_filter(owner)).len() implies (#[trigger] devs.filter(
        owner_filter(owner),
    )[i]).owner == owner by {
        devs.lemma_filter_pred(owner_filter(owner), i);
    }
    assert forall|i: int| 0 <= i < devs.len() && (#[trigger] devs[i]).owner == owner implies devs.filter(
        owner_filter(owner),
    ).contains(devs[i]) by {
        devs.lemma_filter_contains(owner_filter(owner), i);
    }
}

/// The used share of a disk with no more free space than total is at most
/// 100 percent.
pub proof fn lemma_disk_pct_bounded(storage_gb: u32, storage_free_gb: u32)
    requires
        storage_free_gb <= storage_gb,
    ensures
        0 <= disk_used_pct(storage_gb, storage_free_gb) <= 100,
{
    if storage_gb > 0 {
        let used = storage_gb - storage_free_gb;
        assert(0 <= used * 100 / (storage_gb as int) <= 100) by (nonlinear_arith)
            requires
                0 <= used <= storage_gb,
                storage_gb > 0,
        ;
    }
}

/// The percentage of a disk in use, as the collected logs report it.
pub open spec fn disk_used_pct(storage_gb: u32, storage_free_gb: u32) -> int {
    if storage_gb > 0 {
        (storage_gb - storage_free_gb) * 100 / (storage_gb as int)
    } else {
        0
    }
}

/// Whether the disk usage of `d` can be computed in 32-bit arithmetic: no
/// more free space than total, and the used space times 100 within `u32`.
pub open spec fn disk_figures_in_range(d: DeviceView) -> bool {
    d.hardware.storage_gb > 0 ==> (d.hardware.storage_free_gb <= d.hardware.storage_gb && (
    d.hardware.storage_gb - d.hardware.storage_free_gb) * 100 <= u32::MAX)
}

/// `"{name} {version} ({build})"`.
pub open spec fn os_summary(d: DeviceView) -> Seq<char> {
    d.os.name + seq![' '] + d.os.version + seq![' ', '('] + d.os.build + seq![')']
}

/// `"{manufacturer} {model} — {cpu} — {ram} GB RAM"`.
pub open spec fn hardware_summary(d: DeviceView) -> Seq<char> {
    d.hardware.manufacturer + seq![' '] + d.hardware.model + seq![' ', '—', ' '] + d.hardware.cpu
        + seq![' ', '—', ' '] + decimal(d.hardware.ram_gb as nat) + seq![
        ' ',
        'G',
        'B',
        ' ',
        'R',
        'A',
        'M',
    ]
}

/// The id a remediation task gets from the simple form of a UUID:
/// `"REM-"` and its first eight characters in upper case.
pub open spec fn task_id_of(uuid_simple: Seq<char>) -> Seq<char> {
    seq!['R', 'E', 'M', '-'] + uuid_simple.take(8).map_values(|c: char| ascii_upper(c))
}

/// Whether `c` is a digit or one of `'A'..='F'`.
pub open spec fn is_upper_hex(c: char) -> bool {
    ('0' <= c && c <= '9') || ('A' <= c && c <= 'F')
}

/// The message of the error for an unknown device.
pub open spec fn not_found_message(device_id: Seq<char>) -> Seq<char> {
    seq!['D', 'e', 'v', 'i', 'c', 'e', ' ', 'n', 'o', 't', ' ', 'f', 'o', 'u', 'n', 'd', ':', ' ']
        + device_id
}

// ---------------------------------------------------------------------------
// Reports
// ---------------------------------------------------------------------------

/// The diagnostic summary that `collect_logs` gathers for a device.
#[derive(Debug, Clone)]
pub struct DeviceLogs {
    pub device_id: String,
    pub device_name: String,
    /// Milliseconds since the Unix epoch.
    pub collected_at: i64,
    pub os: String,
    pub hardware: String,
    pub storage_total_gb: u32,
    pub storage_free_gb: u32,
    /// The used share of the disk, such as `"52%"`.
    pub used_pct: String,
    pub compliance: ComplianceState,
    pub encryption: bool,
    pub firewall: bool,
    pub risk_score_tenths: u32,
}

/// The result of a health check on a device.
#[derive(Debug, Clone)]
pub struct HealthReport {
    pub device_id: String,
    pub device_name: String,
    pub health: HealthState,
    pub os_updated: bool,
    pub encryption: bool,
    pub firewall: bool,
    pub antivirus: bool,
    pub disk_encrypted: bool,
    pub screen_lock: bool,
    pub risk_score_tenths: u32,
    pub compliance: ComplianceState,
    /// Milliseconds since the Unix epoch.
    pub checked_at: i64,
}

/// What a health report holds for device `d`, apart from the time of the check.
pub open spec fn health_report_matches(r: HealthReport, d: DeviceView) -> bool {
    &&& r.device_id@ == d.id
    &&& r.device_name@ == d.name
    &&& r.health == health_of(d.posture.compliance, d.posture.risk_score_tenths)
    &&& r.os_updated == d.posture.os_up_to_date
    &&& r.encryption == d.posture.encryption_enabled
    &&& r.firewall == d.posture.firewall_enabled
    &&& r.antivirus == d.posture.antivirus_active
    &&& r.disk_encrypted == d.posture.disk_encrypted
    &&& r.screen_lock == d.posture.screen_lock_enabled
    &&& r.risk_score_tenths == d.posture.risk_score_tenths
    &&& r.compliance == d.posture.compliance
}

/// What the collected logs hold for device `d`, apart from the time of collection.
pub open spec fn logs_match(l: DeviceLogs, d: DeviceView) -> bool {
    &&& l.device_id@ == d.id
    &&& l.device_name@ == d.name
    &&& l.os@ == os_summary(d)
    &&& l.hardware@ == hardware_summary(d)
    &&& l.storage_total_gb == d.hardware.storage_gb
    &&& l.storage_free_gb == d.hardware.storage_free_gb
    &&& l.used_pct@ == decimal(disk_used_pct(d.hardware.storage_gb, d.hardware.storage_free_gb) as nat)
        + seq!['%']
    &&& l.compliance == d.posture.compliance
    &&& l.encryption == d.posture.encryption_enabled
    &&& l.firewall == d.posture.firewall_enabled
    &&& l.risk_score_tenths == d.posture.risk_score_tenths
}

// ---------------------------------------------------------------------------
// The store
// ---------------------------------------------------------------------------

/// The device inventory and the remediation tasks created so far.
///
/// The devices are held in a vector whose ids are distinct (the type
/// invariant), not in a `HashMap` keyed by id. vstd's specification of
/// `HashMap` holds only for key types known to obey its key model (`bool`
/// and the integer types); `String` is not among them, so a map keyed by id
/// could be reasoned about only by assuming that it is. And the order in
/// which a hash map is walked is unspecified, which would leave the order
/// of the search results open. The vector keeps the map's one property, one device
/// per id, as an invariant, and gives the searches a fixed order: the order
/// in which devices were first added.
pub struct DeviceStore {
    devices: Vec<Device>,
    tasks: Vec<RemediationTask>,
}

impl DeviceStore {
    #[verifier::type_invariant]
    spec fn ids_distinct(self) -> bool {
        ids_unique(devices_view(self.devices@))
    }

    /// The devices, in the order they were first added.
    pub closed spec fn devices(&self) -> Seq<DeviceView> {
        devices_view(self.devices@)
    }

    /// The remediation tasks, oldest first.
    pub closed spec fn tasks(&self) -> Seq<TaskView> {
        self.tasks@.map_values(|t: RemediationTask| t@)
    }

    /// An empty inventory with no tasks.
    pub fn new() -> (s: DeviceStore)
        ensures
            s.devices() == Seq::<DeviceView>::empty(),
            s.tasks() == Seq::<TaskView>::empty(),
            ids_unique(s.devices()),
    {
        let s = DeviceStore { devices: Vec::new(), tasks: Vec::new() };
        assert(s.devices() =~= Seq::<DeviceView>::empty());
        assert(s.tasks() =~= Seq::<TaskView>::empty());
        s
    }

    /// The index of the device with id `id`, if any.
    fn position(&self, id: &str) -> (r: Option<usize>)
        ensures
            r matches Some(k) ==> k < self.devices@.len() && id_index(self.devices(), id@) == k,
            r is None ==> id_index(self.devices(), id@) == -1,
    {
        let mut i: usize = 0;
        while i < self.devices.len()
            invariant
                i <= self.devices.len(),
                id_index(self.devices(), id@) == id_index_from(self.devices(), id@, i as int),
            decreases self.devices.len() - i,
        {
            if str_eq(self.devices[i].id.as_str(), id) {
                return Some(i);
            }
            i = i + 1;
        }
        None
    }

    /// Adds a device to the inventory, replacing the one with the same id.
    pub fn add_device(&mut self, device: Device)
        ensures
            final(self).devices() == insert_device(old(self).devices(), device@),
            final(self).tasks() == old(self).tasks(),
            ids_unique(old(self).devices()),
            ids_unique(final(self).devices()),
    {
        proof {
            use_type_invariant(&*self);
            lemma_insert_device(self.devices(), device@);
        }
        let ghost d = device@;
        let ghost before = self.devices();
        match self.position(device.id.as_str()) {
            Some(k) => {
                let mut devices = Vec::new();
                std::mem::swap(&mut devices, &mut self.devices);
                devices.set(k, device);
                assert(devices_view(devices@) =~= before.update(k as int, d));
                self.devices = devices;
            },
            None => {
                let mut devices = Vec::new();
                std::mem::swap(&mut devices, &mut self.devices);
                devices.push(device);
                assert(devices_view(devices@) =~= before.push(d));
                self.devices = devices;
            },
        }
    }

    /// Adds the local machine, as `probe` describes it, to the inventory;
    /// afterwards its id finds it.
    pub fn detect_local(&mut self, probe: &LocalProbe)
        ensures
            exists|t: i64|
                {
                    &&& final(self).devices() == insert_device(
                        old(self).devices(),
                        #[trigger] local_device(*probe, t),
                    )
                    &&& lookup(final(self).devices(), local_device(*probe, t).id) == Some(
                        local_device(*probe, t),
                    )
                },
            final(self).tasks() == old(self).tasks(),
    {
        proof {
            use_type_invariant(&*self);
        }
        let backend = LocalBackend::new();
        let device = backend.get_device(probe);
        let ghost t = device.last_seen;
        proof {
            lemma_insert_device(self.devices(), device@);
        }
        self.add_device(device);
        assert(self.devices() == insert_device(old(self).devices(), local_device(*probe, t)));
    }

    /// The devices whose id, name, serial number or model contains `query`,
    /// ignoring case, in inventory order.
    pub fn lookup_device(&self, query: &str) -> (r: Vec<Device>)
        ensures
            devices_view(r@) == self.devices().filter(query_filter(query@)),
            is_ascii_text(query@) ==> lowercase_of(query@) == ascii_lowercase(query@),
            query@.len() == 0 ==> devices_view(r@) == self.devices(),
    {
        let q = to_lowercase(query);
        proof {
            if query@.len() == 0 {
                assert(is_ascii_text(query@));
                lemma_empty_search_finds_all(self.devices(), query@);
            }
        }
        let qv = chars_of(q.as_str());
        let mut r: Vec<Device> = Vec::new();
        let mut i: usize = 0;
        while i < self.devices.len()
            invariant
                i <= self.devices.len(),
                qv@ == lowercase_of(query@),
                devices_view(r@) == self.devices().take(i as int).filter(query_filter(query@)),
            decreases self.devices.len() - i,
        {
            let d = &self.devices[i];
            let hit = contains_exec(&chars_of(to_lowercase(d.id.as_str()).as_str()), &qv)
                || contains_exec(&chars_of(to_lowercase(d.name.as_str()).as_str()), &qv)
                || contains_exec(
                &chars_of(to_lowercase(d.hardware.serial_number.as_str()).as_str()),
                &qv,
            ) || contains_exec(&chars_of(to_lowercase(d.hardware.model.as_str()).as_str()), &qv);
            let ghost before = r@;
            proof {
                let all = self.devices();
                assert(all.take(i + 1).drop_last() =~= all.take(i as int));
                assert(all.take(i + 1).last() == d@);
                reveal_with_fuel(Seq::<_>::filter, 1);
            }
            if hit {
                r.push(d.duplicate());
                assert(devices_view(r@) =~= devices_view(before).push(d@));
            }
            i = i + 1;
        }
        assert(self.devices().take(i as int) =~= self.devices());
        r
    }

    /// The devices owned by `owner`, in inventory order.
    pub fn list_user_devices(&self, owner: &str) -> (r: Vec<Device>)
        ensures
            devices_view(r@) == self.devices().filter(owner_filter(owner@)),
    {
        let mut r: Vec<Device> = Vec::new();
        let mut i: usize = 0;
        while i < self.devices.len()
            invariant
                i <= self.devices.len(),
                devices_view(r@) == self.devices().take(i as int).filter(owner_filter(owner@)),
            decreases self.devices.len() - i,
        {
            let d = &self.devices[i];
            let hit = str_eq(d.owner.as_str(), owner);
            let ghost before = r@;
            proof {
                let all = self.devices();
                assert(all.take(i + 1).drop_last() =~= all.take(i as int));
                assert(all.take(i + 1).last() == d@);
                reveal_with_fuel(Seq::<_>::filter, 1);
            }
            if hit {
                r.push(d.duplicate());
                assert(devices_view(r@) =~= devices_view(before).push(d@));
            }
            i = i + 1;
        }
        assert(self.devices().take(i as int) =~= self.devices());
        r
    }

    /// The posture and name of the device with id `device_id`.
    pub fn get_posture(&self, device_id: &str) -> (r: Option<(DevicePosture, String)>)
        ensures
            r is Some <==> lookup(self.devices(), device_id@) is Some,
            r matches Some((p, name)) ==> p == lookup(self.devices(), device_id@)->0.posture
                && name@ == lookup(self.devices(), device_id@)->0.name,
    {
        match self.position(device_id) {
            Some(k) => {
                let d = &self.devices[k];
                Some((d.posture, copy_string(&d.name)))
            },
            None => None,
        }
    }

    /// The installed applications of the device with id `device_id`.
    pub fn get_installed_apps(&self, device_id: &str) -> (r: Option<Vec<InstalledApp>>)
        ensures
            r is Some <==> lookup(self.devices(), device_id@) is Some,
            r matches Some(apps) ==> apps_view(apps@) == lookup(
                self.devices(),
                device_id@,
            )->0.installed_apps,
    {
        match self.position(device_id) {
            Some(k) => Some(copy_apps(&self.devices[k].installed_apps)),
            None => None,
        }
    }

    /// Whether the disk usage of the device with id `device_id`, if there
    /// is one, can be computed (see `collect_logs`).
    pub fn disk_figures_hold(&self, device_id: &str) -> (b: bool)
        ensures
            b == (lookup(self.devices(), device_id@) matches Some(d) ==> disk_figures_in_range(d)),
    {
        match self.position(device_id) {
            Some(k) => {
                let hw = &self.devices[k].hardware;
                hw.storage_gb == 0 || (hw.storage_free_gb <= hw.storage_gb && (hw.storage_gb
                    - hw.storage_free_gb) <= 42949672)
            },
            None => true,
        }
    }

    /// The diagnostic summary of the device with id `device_id`, collected
    /// at `now`.
    pub fn collect_logs_at(&self, device_id: &str, now: i64) -> (r: Option<DeviceLogs>)
        requires
            lookup(self.devices(), device_id@) matches Some(d) ==> disk_figures_in_range(d),
        ensures
            r is Some <==> lookup(self.devices(), device_id@) is Some,
            r matches Some(l) ==> logs_match(l, lookup(self.devices(), device_id@)->0)
                && l.collected_at == now,
    {
        match self.position(device_id) {
            Some(k) => {
                let d = &self.devices[k];
                let hw = &d.hardware;
                let pct: u32 = if hw.storage_gb > 0 {
                    (hw.storage_gb - hw.storage_free_gb) * 100 / hw.storage_gb
                } else {
                    0
                };
                let mut os = copy_string(&d.os.name);
                push_char(&mut os, ' ');
                append_str(&mut os, d.os.version.as_str());
                push_char(&mut os, ' ');
                push_char(&mut os, '(');
                append_str(&mut os, d.os.build.as_str());
                push_char(&mut os, ')');
                let mut hwtext = copy_string(&hw.manufacturer);
                push_char(&mut hwtext, ' ');
                append_str(&mut hwtext, hw.model.as_str());
                append_str(&mut hwtext, " — ");
                append_str(&mut hwtext, hw.cpu.as_str());
                append_str(&mut hwtext, " — ");
                push_decimal(&mut hwtext, hw.ram_gb as u64);
                append_str(&mut hwtext, " GB RAM");
                let mut used = String::new();
                push_decimal(&mut used, pct as u64);
                push_char(&mut used, '%');
                proof {
                    reveal_strlit(" — ");
                    reveal_strlit(" GB RAM");
                }
                let l = DeviceLogs {
                    device_id: copy_string(&d.id),
                    device_name: copy_string(&d.name),
                    collected_at: now,
                    os,
                    hardware: hwtext,
                    storage_total_gb: hw.storage_gb,
                    storage_free_gb: hw.storage_free_gb,
                    used_pct: used,
                    compliance: d.posture.compliance,
                    encryption: d.posture.encryption_enabled,
                    firewall: d.posture.firewall_enabled,
                    risk_score_tenths: d.posture.risk_score_tenths,
                };
                assert(l.os@ =~= os_summary(d@));
                assert(l.hardware@ =~= hardware_summary(d@));
                assert(l.used_pct@ =~= decimal(
                    disk_used_pct(d@.hardware.storage_gb, d@.hardware.storage_free_gb) as nat,
                ) + seq!['%']);
                Some(l)
            },
            None => None,
        }
    }

    /// The diagnostic summary of the device with id `device_id`, collected now.
    pub fn collect_logs(&self, device_id: &str) -> (r: Option<DeviceLogs>)
        requires
            lookup(self.devices(), device_id@) matches Some(d) ==> disk_figures_in_range(d),
        ensures
            r is Some <==> lookup(self.devices(), device_id@) is Some,
            r matches Some(l) ==> logs_match(l, lookup(self.devices(), device_id@)->0),
    {
        let now = now_millis();
        self.collect_logs_at(device_id, now)
    }

    /// The health check of the device with id `device_id`, made at `now`.
    pub fn run_health_check_at(&self, device_id: &str, now: i64) -> (r: Option<HealthReport>)
        ensures
            r is Some <==> lookup(self.devices(), device_id@) is Some,
            r matches Some(h) ==> health_report_matches(h, lookup(self.devices(), device_id@)->0)
                && h.checked_at == now,
    {
        match self.position(device_id) {
            Some(k) => {
                let d = &self.devices[k];
                let p = &d.posture;
                Some(
                    HealthReport {
                        device_id: copy_string(&d.id),
                        device_name: copy_string(&d.name),
                        health: assess_health(p),
                        os_updated: p.os_up_to_date,
                        encryption: p.encryption_enabled,
                        firewall: p.firewall_enabled,
                        antivirus: p.antivirus_active,
                        disk_encrypted: p.disk_encrypted,
                        screen_lock: p.screen_lock_enabled,
                        risk_score_tenths: p.risk_score_tenths,
                        compliance: p.compliance,
                        checked_at: now,
                    },
                )
            },
            None => None,
        }
    }

    /// The health check of the device with id `device_id`, made now.
    pub fn run_health_check(&self, device_id: &str) -> (r: Option<HealthReport>)
        ensures
            r is Some <==> lookup(self.devices(), device_id@) is Some,
            r matches Some(h) ==> health_report_matches(h, lookup(self.devices(), device_id@)->0),
    {
        let now = now_millis();
        self.run_health_check_at(device_id, now)
    }

    /// Records a pending remediation task for the device with id
    /// `device_id`, with its id made from `uuid_simple` and created at `now`.
    /// An unknown device is an error, and nothing is recorded.
    pub fn record_remediation(
        &mut self,
        device_id: &str,
        action: &str,
        reason: &str,
        uuid_simple: &str,
        now: i64,
    ) -> (r: Result<RemediationTask, String>)
        requires
            uuid_simple@.len() >= 8,
            forall|i: int| 0 <= i < 8 ==> is_ascii_char(#[trigger] uuid_simple@[i]),
        ensures
            final(self).devices() == old(self).devices(),
            r is Ok <==> lookup(old(self).devices(), device_id@) is Some,
            r matches Ok(t) ==> {
                &&& t.id@ == task_id_of(uuid_simple@)
                &&& t.device_id@ == device_id@
                &&& t.action@ == action@
                &&& t.reason@ == reason@
                &&& t.status@ == seq!['p', 'e', 'n', 'd', 'i', 'n', 'g']
                &&& t.created_at == now
                &&& final(self).tasks() == old(self).tasks().push(t@)
            },
            r matches Err(e) ==> e@ == not_found_message(device_id@) && final(self).tasks()
                == old(self).tasks(),
    {
        proof {
            use_type_invariant(&*self);
        }
        if self.position(device_id).is_none() {
            let e = concat2("Device not found: ", device_id);
            proof {
                reveal_strlit("Device not found: ");
            }
            assert(e@ =~= not_found_message(device_id@));
            return Err(e);
        }
        let u = chars_of(uuid_simple);
        let mut id = owned("REM-");
        proof {
            reveal_strlit("REM-");
        }
        let mut i: usize = 0;
        while i < 8
            invariant
                i <= 8,
                u@ == uuid_simple@,
                u@.len() >= 8,
                id@ == seq!['R', 'E', 'M', '-'] + u@.take(i as int).map_values(
                    |c: char| ascii_upper(c),
                ),
            decreases 8 - i,
        {
            push_char(&mut id, ascii_upper_char(u[i]));
            i = i + 1;
            assert(id@ =~= seq!['R', 'E', 'M', '-'] + u@.take(i as int).map_values(
                |c: char| ascii_upper(c),
            ));
        }
        proof {
            reveal_strlit("pending");
        }
        let task = RemediationTask {
            id,
            device_id: owned(device_id),
            action: owned(action),
            reason: owned(reason),
            status: owned("pending"),
            created_at: now,
        };
        let copy = task.duplicate();
        let ghost before = self.tasks@;
        let mut tasks = Vec::new();
        std::mem::swap(&mut tasks, &mut self.tasks);
        tasks.push(copy);
        self.tasks = tasks;
        assert(self.tasks() =~= old(self).tasks().push(task@)) by {
            assert(self.tasks@ == before.push(copy));
        }
        Ok(task)
    }

    /// Creates a pending remediation task for the device with id
    /// `device_id`, with a fresh random id, created now. An unknown device
    /// is an error, and nothing is recorded.
    pub fn create_remediation(&mut self, device_id: &str, action: &str, reason: &str) -> (r: Result<
        RemediationTask,
        String,
    >)
        ensures
            final(self).devices() == old(self).devices(),
            r is Ok <==> lookup(old(self).devices(), device_id@) is Some,
            r matches Ok(t) ==> {
                &&& t.id@.len() == 12
                &&& t.id@.take(4) == seq!['R', 'E', 'M', '-']
                &&& forall|i: int| 4 <= i < 12 ==> is_upper_hex(#[trigger] t.id@[i])
                &&& t.device_id@ == device_id@
                &&& t.action@ == action@
                &&& t.reason@ == reason@
                &&& t.status@ == seq!['p', 'e', 'n', 'd', 'i', 'n', 'g']
                &&& final(self).tasks() == old(self).tasks().push(t@)
            },
            r matches Err(e) ==> e@ == not_found_message(device_id@) && final(self).tasks()
                == old(self).tasks(),
    {
        let u = random_uuid_simple();
        let now = now_millis();
        proof {
            assert forall|i: int| 0 <= i < 8 implies is_ascii_char(#[trigger] u@[i]) by {
                assert(crate::text::is_lower_hex(u@[i]));
            }
        }
        let r = self.record_remediation(device_id, action, reason, u.as_str(), now);
        proof {
            if r is Ok {
                assert(task_id_of(u@).take(4) =~= seq!['R', 'E', 'M', '-']);
                assert forall|i: int| 4 <= i < 12 implies is_upper_hex(#[trigger] task_id_of(u@)[i]) by {
                    assert(task_id_of(u@)[i] == ascii_upper(u@[i - 4]));
                    assert(crate::text::is_lower_hex(u@[i - 4]));
                }
            }
        }
        r
    }

    /// The remediation tasks created so far, oldest first.
    pub fn remediation_tasks(&self) -> (r: Vec<RemediationTask>)
        ensures
            r@.map_values(|t: RemediationTask| t@) == self.tasks(),
    {
        let mut r: Vec<RemediationTask> = Vec::new();
        let mut i: usize = 0;
        while i < self.tasks.len()
            invariant
                i <= self.tasks.len(),
                r@.len() == i,
                forall|k: int| 0 <= k < i ==> (#[trigger] r@[k])@ == self.tasks@[k]@,
            decreases self.tasks.len() - i,
        {
            r.push(self.tasks[i].duplicate());
            i = i + 1;
        }
        assert(r@.map_values(|t: RemediationTask| t@) =~= self.tasks());
        r
    }
}

} // verus!
