//! The local machine as a device: what the inventory records of it, derived
//! from the output of the system commands that describe it (`sw_vers`,
//! `system_profiler`, `sysctl`, `df`, `fdesetup`, `softwareupdate` and
//! `defaults` on macOS; `lsb_release`, `uname`, `lscpu`, `/proc/meminfo`,
//! `df`, `lsblk`, `ufw`, `systemctl`, `apt` and `gsettings` on Linux).
use vstd::prelude::*;

use crate::store::health_of;
use crate::sys::now_millis;
use crate::text::{
    chars_of, colon_value, colon_value_exec, contains, contains_exec, ends_with, find_line,
    first_passing, line_pred, lines, lines_of, nth, nth_chars, or_empty, owned, parse_or_zero,
    parse_or_zero_spec, replace_char, replace_char_exec, string_of, take_at_most, take_chars,
    trim, trim_end_matches, trim_end_matches_exec, trim_str, trimmed_chars, views, words,
    words_of, ends_with_exec, str_eq, str_contains, LineTest, LineTestView, concat2,
};
use crate::types::{
    apps_view, AppView, ComplianceState, Device, DevicePosture, DeviceStatus, DeviceType,
    HardwareInfo, HardwareView, HealthState, InstalledApp, OsInfo, OsInfoView,
};

verus! {

/// The raw output of the commands that describe a macOS machine.
pub struct MacProbe {
    /// `sw_vers -productName`
    pub product_name: String,
    /// `sw_vers -productVersion`
    pub product_version: String,
    /// `sw_vers -buildVersion`
    pub build_version: String,
    /// `system_profiler SPHardwareDataType`
    pub hardware_overview: String,
    /// `sysctl -n hw.memsize`
    pub memsize: String,
    /// `df -g /`
    pub df_root: String,
    /// `fdesetup status`
    pub filevault_status: String,
    /// `defaults read /Library/Preferences/com.apple.alf globalstate`
    pub firewall_state: String,
    /// `sw_vers -productVersionExtra` (the security response applied, if any)
    pub version_extra: String,
    /// `softwareupdate -l --no-scan`
    pub software_updates: String,
    /// `defaults read /Library/Apple/System/Library/CoreServices/XProtect.bundle/Contents/Info CFBundleShortVersionString`
    pub xprotect_version: String,
    /// `defaults read com.apple.screensaver askForPassword`
    pub screen_lock: String,
}

/// The raw output of the commands that describe a Linux machine.
pub struct LinuxProbe {
    /// `lsb_release -is`
    pub distributor: String,
    /// `lsb_release -rs`
    pub release: String,
    /// `uname -r`
    pub kernel: String,
    /// `lscpu`
    pub lscpu: String,
    /// `grep MemTotal /proc/meminfo`
    pub meminfo: String,
    /// `cat /sys/class/dmi/id/product_name`
    pub product_name: String,
    /// `cat /sys/class/dmi/id/product_serial`
    pub product_serial: String,
    /// `df -Pk /`
    pub df_root: String,
    /// `lsblk -o NAME,FSTYPE`
    pub block_devices: String,
    /// `ufw status`
    pub firewall_status: String,
    /// `systemctl is-active clamav-daemon`
    pub antivirus_status: String,
    /// `apt list --upgradable`
    pub upgradable: String,
    /// `gsettings get org.gnome.desktop.screensaver lock-enabled`
    pub screen_lock: String,
}

/// What is known of a machine that is neither macOS nor Linux.
pub struct OtherProbe {
    /// The operating system's name, `std::env::consts::OS`.
    pub os_name: String,
    /// The processor architecture, `std::env::consts::ARCH`.
    pub arch: String,
}

/// The platform-specific description of the local machine.
pub enum PlatformProbe {
    MacOs(MacProbe),
    Linux(LinuxProbe),
    Other(OtherProbe),
}

/// Everything the local backend reads of the machine it runs on.
pub struct LocalProbe {
    pub platform: PlatformProbe,
    /// The raw output of `hostname`.
    pub hostname: String,
    /// The `USER` environment variable, if set.
    pub user: Option<String>,
    /// The raw output of `ls /Applications` on macOS; `None` elsewhere.
    pub applications: Option<String>,
}

/// The local machine backend.
pub struct LocalBackend;

// ---------------------------------------------------------------------------
// Specifications
// ---------------------------------------------------------------------------

/// The output of a command as the backend keeps it: trimmed.
pub open spec fn cmd_text(raw: Seq<char>) -> Seq<char> {
    trim(raw)
}

/// The value after the colon on the first line of `text` that passes `t`,
/// or empty.
pub open spec fn line_value(text: Seq<char>, t: LineTestView) -> Seq<char> {
    match find_line(lines(text), line_pred(t)) {
        Some(l) => colon_value(l),
        None => Seq::empty(),
    }
}

/// The application names in a listing of `/Applications`: among its first
/// twenty lines, those ending in `.app`, without that suffix.
pub open spec fn app_names(listing: Seq<char>) -> Seq<Seq<char>> {
    take_at_most(lines(cmd_text(listing)), 20).filter(line_pred(LineTestView::EndsWith(".app"@))).map_values(
        |l: Seq<char>| trim_end_matches(l, ".app"@),
    )
}

/// The record of an application found in `/Applications`.
pub open spec fn listed_app(name: Seq<char>) -> AppView {
    AppView {
        name: name,
        version: "installed"@,
        publisher: Seq::empty(),
        install_date: None,
    }
}

/// The applications the backend reports for a listing, if there is one.
pub open spec fn apps_of(listing: Option<Seq<char>>) -> Seq<AppView> {
    match listing {
        Some(l) => app_names(l).map_values(|n: Seq<char>| listed_app(n)),
        None => Seq::empty(),
    }
}

/// The id of the local device: `"LOCAL-"` and the first twenty characters
/// of the host name with every `'.'` made a `'-'`.
pub open spec fn local_device_id(hostname: Seq<char>) -> Seq<char> {
    "LOCAL-"@ + take_chars(replace_char(hostname, '.', '-'), 20)
}

/// The second line of `df` output split into words.
pub open spec fn df_fields(df: Seq<char>) -> Seq<Seq<char>> {
    words(or_empty(nth(lines(cmd_text(df)), 1)))
}

/// Whether FileVault is on, from `fdesetup status`.
pub open spec fn mac_encryption(p: MacProbe) -> bool {
    contains(cmd_text(p.filevault_status@), "On"@)
}

/// Whether the application firewall is on, from its `globalstate`.
pub open spec fn mac_firewall(p: MacProbe) -> bool {
    let s = cmd_text(p.firewall_state@);
    trim(s) != "0"@ && s.len() > 0
}

/// Whether XProtect, the built-in malware scanner, is installed: its
/// bundle reports a version.
pub open spec fn mac_antivirus(p: MacProbe) -> bool {
    cmd_text(p.xprotect_version@).len() > 0
}

/// Whether no system update is pending: `softwareupdate` finds none.
pub open spec fn mac_updates_current(p: MacProbe) -> bool {
    contains(cmd_text(p.software_updates@), "No new software available"@)
}

/// Whether the screen saver asks for the password.
pub open spec fn mac_screen_lock(p: MacProbe) -> bool {
    cmd_text(p.screen_lock@) == "1"@
}

/// The posture made of the checks a machine reports: compliant with risk
/// 1.0 when disk encryption and the firewall are both on, else
/// non-compliant with risk 4.0; each check as reported.
pub open spec fn checked_posture(
    encryption: bool,
    firewall: bool,
    antivirus: bool,
    updates_current: bool,
    screen_lock: bool,
    now: i64,
) -> DevicePosture {
    DevicePosture {
        compliance: if encryption && firewall {
            ComplianceState::Compliant
        } else {
            ComplianceState::NonCompliant
        },
        encryption_enabled: encryption,
        firewall_enabled: firewall,
        antivirus_active: antivirus,
        os_up_to_date: updates_current,
        disk_encrypted: encryption,
        screen_lock_enabled: screen_lock,
        risk_score_tenths: if encryption && firewall {
            10
        } else {
            40
        },
        last_assessed: now,
    }
}

/// The operating system of a macOS machine; its patch level is the
/// security response applied on top of the version (`sw_vers
/// -productVersionExtra`), empty when there is none.
pub open spec fn mac_os(p: MacProbe, now: i64) -> OsInfoView {
    OsInfoView {
        name: cmd_text(p.product_name@),
        version: cmd_text(p.product_version@),
        build: cmd_text(p.build_version@),
        patch_level: cmd_text(p.version_extra@),
        last_updated: now,
    }
}

/// The hardware of a macOS machine.
pub open spec fn mac_hardware(p: MacProbe) -> HardwareView {
    let hw = cmd_text(p.hardware_overview@);
    let ram_bytes = parse_or_zero_spec(Some(cmd_text(p.memsize@)), u64::MAX as nat);
    let parts = df_fields(p.df_root@);
    HardwareView {
        manufacturer: "Apple"@,
        model: line_value(hw, LineTestView::Contains("Model Name"@)),
        serial_number: line_value(hw, LineTestView::Contains("Serial Number"@)),
        cpu: line_value(hw, LineTestView::ContainsEither("Chip"@, "Processor"@)),
        ram_gb: (ram_bytes / 1073741824) as u32,
        storage_gb: parse_or_zero_spec(nth(parts, 1), u32::MAX as nat) as u32,
        storage_free_gb: parse_or_zero_spec(nth(parts, 3), u32::MAX as nat) as u32,
    }
}

/// The posture of a macOS machine: FileVault, the application firewall,
/// XProtect, pending updates and the screen-saver password, as reported.
pub open spec fn mac_posture(p: MacProbe, now: i64) -> DevicePosture {
    checked_posture(
        mac_encryption(p),
        mac_firewall(p),
        mac_antivirus(p),
        mac_updates_current(p),
        mac_screen_lock(p),
        now,
    )
}

/// Whether a root disk is LUKS-encrypted: `lsblk` lists a `crypto_LUKS`
/// file system.
pub open spec fn linux_encryption(p: LinuxProbe) -> bool {
    contains(cmd_text(p.block_devices@), "crypto_LUKS"@)
}

/// Whether the firewall is on: `ufw` reports `Status: active`.
pub open spec fn linux_firewall(p: LinuxProbe) -> bool {
    contains(cmd_text(p.firewall_status@), "Status: active"@)
}

/// Whether the ClamAV daemon is running.
pub open spec fn linux_antivirus(p: LinuxProbe) -> bool {
    cmd_text(p.antivirus_status@) == "active"@
}

/// Whether no package upgrade is pending: `apt` lists none upgradable.
pub open spec fn linux_updates_current(p: LinuxProbe) -> bool {
    !contains(cmd_text(p.upgradable@), "upgradable from"@)
}

/// Whether the screen saver locks the screen.
pub open spec fn linux_screen_lock(p: LinuxProbe) -> bool {
    cmd_text(p.screen_lock@) == "true"@
}

/// The patch level of a Linux machine: `"current"` when no upgrade is
/// pending, else `"updates available"`.
pub open spec fn linux_patch_level(p: LinuxProbe) -> Seq<char> {
    if linux_updates_current(p) {
        "current"@
    } else {
        "updates available"@
    }
}

/// The operating system of a Linux machine; the kernel release is its build.
pub open spec fn linux_os(p: LinuxProbe, now: i64) -> OsInfoView {
    OsInfoView {
        name: cmd_text(p.distributor@),
        version: cmd_text(p.release@),
        build: cmd_text(p.kernel@),
        patch_level: linux_patch_level(p),
        last_updated: now,
    }
}

/// Gigabytes from a count of kilobytes in a `df -Pk` field, or 0.
pub open spec fn kb_field_gb(field: Option<Seq<char>>) -> u32 {
    (parse_or_zero_spec(field, u64::MAX as nat) / 1048576) as u32
}

/// The hardware of a Linux machine; its storage is that of the root file
/// system as `df -Pk /` reports it (size and available space).
pub open spec fn linux_hardware(p: LinuxProbe) -> HardwareView {
    let ram_kb = parse_or_zero_spec(nth(words(cmd_text(p.meminfo@)), 1), u64::MAX as nat);
    let parts = df_fields(p.df_root@);
    HardwareView {
        manufacturer: "Linux"@,
        model: cmd_text(p.product_name@),
        serial_number: cmd_text(p.product_serial@),
        cpu: line_value(cmd_text(p.lscpu@), LineTestView::StartsWith("Model name"@)),
        ram_gb: (ram_kb / 1048576) as u32,
        storage_gb: kb_field_gb(nth(parts, 1)),
        storage_free_gb: kb_field_gb(nth(parts, 3)),
    }
}

/// The posture of a Linux machine: LUKS, ufw, ClamAV, pending upgrades and
/// the screen-saver lock, as reported.
pub open spec fn linux_posture(p: LinuxProbe, now: i64) -> DevicePosture {
    checked_posture(
        linux_encryption(p),
        linux_firewall(p),
        linux_antivirus(p),
        linux_updates_current(p),
        linux_screen_lock(p),
        now,
    )
}

/// The operating system of another machine.
pub open spec fn other_os(p: OtherProbe, now: i64) -> OsInfoView {
    OsInfoView {
        name: p.os_name@,
        version: "unknown"@,
        build: "unknown"@,
        patch_level: "unknown"@,
        last_updated: now,
    }
}

/// The hardware of another machine: nothing known but its architecture.
pub open spec fn other_hardware(p: OtherProbe) -> HardwareView {
    HardwareView {
        manufacturer: "unknown"@,
        model: "unknown"@,
        serial_number: "unknown"@,
        cpu: p.arch@,
        ram_gb: 0,
        storage_gb: 0,
        storage_free_gb: 0,
    }
}

/// The posture of another machine: unknown compliance, risk 8.0.
pub open spec fn other_posture(now: i64) -> DevicePosture {
    DevicePosture {
        compliance: ComplianceState::Unknown,
        encryption_enabled: false,
        firewall_enabled: false,
        antivirus_active: false,
        os_up_to_date: false,
        disk_encrypted: false,
        screen_lock_enabled: false,
        risk_score_tenths: 80,
        last_assessed: now,
    }
}

/// The user name a probe gives: `USER`, or `"unknown"`.
pub open spec fn user_of(user: Option<Seq<char>>) -> Seq<char> {
    match user {
        Some(u) => u,
        None => "unknown"@,
    }
}

/// The record the inventory keeps of the local machine, seen at `now`.
pub open spec fn local_device(p: LocalProbe, now: i64) -> crate::types::DeviceView {
    let (os, hw, posture) = match p.platform {
        PlatformProbe::MacOs(m) => (mac_os(m, now), mac_hardware(m), mac_posture(m, now)),
        PlatformProbe::Linux(l) => (linux_os(l, now), linux_hardware(l), linux_posture(l, now)),
        PlatformProbe::Other(o) => (other_os(o, now), other_hardware(o), other_posture(now)),
    };
    let hostname = cmd_text(p.hostname@);
    crate::types::DeviceView {
        id: local_device_id(hostname),
        name: hostname,
        device_type: DeviceType::Laptop,
        status: DeviceStatus::Active,
        owner: user_of(crate::types::opt_view(p.user)),
        os: os,
        hardware: hw,
        posture: posture,
        installed_apps: apps_of(crate::types::opt_view(p.applications)),
        last_seen: now,
        enrolled_at: now,
    }
}

// ---------------------------------------------------------------------------
// Properties
// ---------------------------------------------------------------------------

/// A machine with disk encryption and the firewall both on checks healthy;
/// with either off it checks degraded.
pub proof fn lemma_checked_posture_health(
    encryption: bool,
    firewall: bool,
    antivirus: bool,
    updates_current: bool,
    screen_lock: bool,
    now: i64,
)
    ensures
        ({
            let p = checked_posture(encryption, firewall, antivirus, updates_current, screen_lock, now);
            health_of(p.compliance, p.risk_score_tenths) == (if encryption && firewall {
                HealthState::Healthy
            } else {
                HealthState::Degraded
            })
        }),
{
}

/// A macOS machine with FileVault and the firewall both on checks healthy;
/// with either off it checks degraded.
pub proof fn lemma_mac_health(p: MacProbe, now: i64)
    ensures
        health_of(mac_posture(p, now).compliance, mac_posture(p, now).risk_score_tenths) == (if mac_encryption(p)
            && mac_firewall(p) {
            HealthState::Healthy
        } else {
            HealthState::Degraded
        }),
{
}

/// A Linux machine with LUKS and the firewall both on checks healthy; with
/// either off it checks degraded.
pub proof fn lemma_linux_health(p: LinuxProbe, now: i64)
    ensures
        health_of(linux_posture(p, now).compliance, linux_posture(p, now).risk_score_tenths) == (if linux_encryption(p)
            && linux_firewall(p) {
            HealthState::Healthy
        } else {
            HealthState::Degraded
        }),
{
}

/// A machine that is neither macOS nor Linux checks critical: nothing of
/// its posture can be read.
pub proof fn lemma_other_platforms_health(now: i64)
    ensures
        health_of(other_posture(now).compliance, other_posture(now).risk_score_tenths)
            == HealthState::Critical,
{
}

/// The local device id is `"LOCAL-"` and at most twenty more characters,
/// none of them a `'.'`.
pub proof fn lemma_local_id_shape(hostname: Seq<char>)
    ensures
        local_device_id(hostname).take(6) == "LOCAL-"@,
        local_device_id(hostname).len() <= 26,
        forall|i: int| 6 <= i < local_device_id(hostname).len() ==> #[trigger] local_device_id(hostname)[i] != '.',
{
    reveal_strlit("LOCAL-");
    let id = local_device_id(hostname);
    assert(id.take(6) =~= "LOCAL-"@);
    assert forall|i: int| 6 <= i < id.len() implies #[trigger] id[i] != '.' by {
        assert(id[i] == take_chars(replace_char(hostname, '.', '-'), 20)[i - 6]);
    }
}

/// A listing of `/Applications` gives at most twenty applications, none
/// named with a `.app` suffix.
pub proof fn lemma_app_names(listing: Seq<char>)
    ensures
        app_names(listing).len() <= 20,
        forall|i: int|
            0 <= i < app_names(listing).len() ==> !ends_with(#[trigger] app_names(listing)[i], ".app"@),
{
    reveal_strlit(".app");
    let first = take_at_most(lines(cmd_text(listing)), 20);
    let kept = first.filter(line_pred(LineTestView::EndsWith(".app"@)));
    first.lemma_filter_len(line_pred(LineTestView::EndsWith(".app"@)));
    assert forall|i: int| 0 <= i < app_names(listing).len() implies !ends_with(
        #[trigger] app_names(listing)[i],
        ".app"@,
    ) by {
        crate::text::lemma_trim_end_matches_done(kept[i], ".app"@);
    }
}

// ---------------------------------------------------------------------------
// Implementation
// ---------------------------------------------------------------------------

/// Command output as the backend keeps it: trimmed.
pub fn cmd_text_exec(raw: &str) -> (r: String)
    ensures
        r@ == cmd_text(raw@),
{
    trim_str(raw)
}

/// The value after the colon on the first line of `text` that passes `t`.
pub fn line_value_exec(text: &Vec<char>, t: &LineTest) -> (r: String)
    ensures
        r@ == line_value(text@, t@),
{
    let ls = lines_of(text);
    match first_passing(&ls, t) {
        Some(k) => colon_value_exec(&ls[k]),
        None => {
            let r = String::new();
            assert(r@ =~= Seq::<char>::empty());
            r
        },
    }
}

/// The words of the second line of trimmed `df` output.
fn df_fields_exec(df: &str) -> (r: Vec<Vec<char>>)
    ensures
        views(r@) == df_fields(df@),
{
    let t = trimmed_chars(df);
    let ls = lines_of(&t);
    let line = match nth_chars(&ls, 1) {
        Some(l) => l,
        None => {
            let e: Vec<char> = Vec::new();
            assert(e@ =~= Seq::<char>::empty());
            e
        },
    };
    words_of(&line)
}

/// The local device id for a host name.
pub fn local_device_id_exec(hostname: &str) -> (r: String)
    ensures
        r@ == local_device_id(hostname@),
{
    let h = chars_of(hostname);
    let dashed = replace_char_exec(&h, '.', '-');
    let mut r = owned("LOCAL-");
    let n = if dashed.len() < 20 {
        dashed.len()
    } else {
        20
    };
    let mut i: usize = 0;
    let ghost start = r@;
    while i < n
        invariant
            i <= n <= dashed.len(),
            r@ == start + dashed@.take(i as int),
        decreases n - i,
    {
        crate::text::push_char(&mut r, dashed[i]);
        i = i + 1;
        assert(r@ =~= start + dashed@.take(i as int));
    }
    assert(dashed@.take(n as int) =~= take_chars(dashed@, 20));
    r
}

/// The posture made of the checks a machine reports.
fn checked_posture_exec(
    encryption: bool,
    firewall: bool,
    antivirus: bool,
    updates_current: bool,
    screen_lock: bool,
    now: i64,
) -> (r: DevicePosture)
    ensures
        r == checked_posture(encryption, firewall, antivirus, updates_current, screen_lock, now),
{
    let both = encryption && firewall;
    DevicePosture {
        compliance: if both {
            ComplianceState::Compliant
        } else {
            ComplianceState::NonCompliant
        },
        encryption_enabled: encryption,
        firewall_enabled: firewall,
        antivirus_active: antivirus,
        os_up_to_date: updates_current,
        disk_encrypted: encryption,
        screen_lock_enabled: screen_lock,
        risk_score_tenths: if both {
            10
        } else {
            40
        },
        last_assessed: now,
    }
}

/// Whether the trimmed output `raw` contains `needle`.
fn output_contains(raw: &str, needle: &str) -> (b: bool)
    ensures
        b == contains(cmd_text(raw@), needle@),
{
    let t = cmd_text_exec(raw);
    str_contains(t.as_str(), needle)
}

/// Whether the trimmed output `raw` is `expected`.
fn output_is(raw: &str, expected: &str) -> (b: bool)
    ensures
        b == (cmd_text(raw@) == expected@),
{
    let t = cmd_text_exec(raw);
    str_eq(t.as_str(), expected)
}

impl LocalBackend {
    /// The local backend.
    pub fn new() -> (b: LocalBackend) {
        LocalBackend
    }

    /// The applications in a listing of `/Applications` (macOS only; with
    /// no listing there are none): among its first twenty lines, those
    /// ending in `.app`, named without that suffix, version `"installed"`.
    pub fn get_apps(&self, applications: &Option<String>) -> (r: Vec<InstalledApp>)
        ensures
            apps_view(r@) == apps_of(crate::types::opt_view(*applications)),
    {
        match applications {
            None => {
                let r: Vec<InstalledApp> = Vec::new();
                assert(apps_view(r@) =~= Seq::<AppView>::empty());
                r
            },
            Some(listing) => {
                let t = trimmed_chars(listing.as_str());
                let ls = lines_of(&t);
                let first = crate::text::skip_take(&ls, 0, 20);
                assert(crate::text::drop_at_most(views(ls@), 0) =~= views(ls@));
                let suffix = owned(".app");
                let test = LineTest::EndsWith(owned(".app"));
                let kept = crate::text::filter_passing(&first, &test);
                let sv = chars_of(suffix.as_str());
                let mut r: Vec<InstalledApp> = Vec::new();
                let mut i: usize = 0;
                while i < kept.len()
                    invariant
                        i <= kept.len(),
                        sv@ == ".app"@,
                        r@.len() == i,
                        forall|k: int|
                            0 <= k < i ==> (#[trigger] r@[k])@ == listed_app(
                                trim_end_matches(kept@[k]@, ".app"@),
                            ),
                    decreases kept.len() - i,
                {
                    proof {
                        reveal_strlit(".app");
                    }
                    let name = trim_end_matches_exec(&kept[i], &sv);
                    let app = InstalledApp {
                        name: string_of(&name),
                        version: owned("installed"),
                        publisher: String::new(),
                        install_date: None,
                    };
                    assert(app.publisher@ =~= Seq::<char>::empty());
                    r.push(app);
                    i = i + 1;
                }
                assert(views(kept@) == take_at_most(lines(cmd_text(listing@)), 20).filter(
                    line_pred(LineTestView::EndsWith(".app"@)),
                ));
                assert(app_names(listing@).len() == kept@.len());
                assert forall|k: int| 0 <= k < kept@.len() implies app_names(listing@)[k]
                    == trim_end_matches(#[trigger] kept@[k]@, ".app"@) by {
                    assert(views(kept@)[k] == kept@[k]@);
                }
                assert(apps_view(r@) =~= apps_of(crate::types::opt_view(*applications)));
                r
            },
        }
    }

    /// The operating system, hardware and posture of a macOS machine.
    pub fn macos_info(&self, p: &MacProbe, now: i64) -> (r: (OsInfo, HardwareInfo, DevicePosture))
        ensures
            r.0@ == mac_os(*p, now),
            r.1@ == mac_hardware(*p),
            r.2 == mac_posture(*p, now),
    {
        let os = OsInfo {
            name: cmd_text_exec(p.product_name.as_str()),
            version: cmd_text_exec(p.product_version.as_str()),
            build: cmd_text_exec(p.build_version.as_str()),
            patch_level: cmd_text_exec(p.version_extra.as_str()),
            last_updated: now,
        };
        let hw = trimmed_chars(p.hardware_overview.as_str());
        let model = line_value_exec(&hw, &LineTest::Contains(owned("Model Name")));
        let serial = line_value_exec(&hw, &LineTest::Contains(owned("Serial Number")));
        let chip = line_value_exec(
            &hw,
            &LineTest::ContainsEither(owned("Chip"), owned("Processor")),
        );
        let mem = trimmed_chars(p.memsize.as_str());
        let ram_bytes = parse_or_zero(&Some(mem), u64::MAX);
        let parts = df_fields_exec(p.df_root.as_str());
        let disk_total = parse_or_zero(&nth_chars(&parts, 1), 0xffff_ffff) as u32;
        let disk_free = parse_or_zero(&nth_chars(&parts, 3), 0xffff_ffff) as u32;
        let fv = trimmed_chars(p.filevault_status.as_str());
        let encryption = contains_exec(&fv, &chars_of("On"));
        let fs = cmd_text_exec(p.firewall_state.as_str());
        let fs_trimmed = trim_str(fs.as_str());
        let is_zero = str_eq(fs_trimmed.as_str(), "0");
        let firewall = !is_zero && fs.as_str().unicode_len() > 0;
        let hardware = HardwareInfo {
            manufacturer: owned("Apple"),
            model,
            serial_number: serial,
            cpu: chip,
            ram_gb: (ram_bytes / 1073741824) as u32,
            storage_gb: disk_total,
            storage_free_gb: disk_free,
        };
        let antivirus = cmd_text_exec(p.xprotect_version.as_str()).as_str().unicode_len() > 0;
        let updates_current = output_contains(p.software_updates.as_str(), "No new software available");
        let screen_lock = output_is(p.screen_lock.as_str(), "1");
        let posture = checked_posture_exec(
            encryption,
            firewall,
            antivirus,
            updates_current,
            screen_lock,
            now,
        );
        (os, hardware, posture)
    }

    /// The operating system, hardware and posture of a Linux machine.
    pub fn linux_info(&self, p: &LinuxProbe, now: i64) -> (r: (OsInfo, HardwareInfo, DevicePosture))
        ensures
            r.0@ == linux_os(*p, now),
            r.1@ == linux_hardware(*p),
            r.2 == linux_posture(*p, now),
    {
        let updates_current = !output_contains(p.upgradable.as_str(), "upgradable from");
        let patch_level = if updates_current {
            owned("current")
        } else {
            owned("updates available")
        };
        let os = OsInfo {
            name: cmd_text_exec(p.distributor.as_str()),
            version: cmd_text_exec(p.release.as_str()),
            build: cmd_text_exec(p.kernel.as_str()),
            patch_level,
            last_updated: now,
        };
        let lscpu = trimmed_chars(p.lscpu.as_str());
        let cpu = line_value_exec(&lscpu, &LineTest::StartsWith(owned("Model name")));
        let mem = trimmed_chars(p.meminfo.as_str());
        let mem_words = words_of(&mem);
        let ram_kb = parse_or_zero(&nth_chars(&mem_words, 1), u64::MAX);
        let parts = df_fields_exec(p.df_root.as_str());
        let total_kb = parse_or_zero(&nth_chars(&parts, 1), u64::MAX);
        let free_kb = parse_or_zero(&nth_chars(&parts, 3), u64::MAX);
        let hardware = HardwareInfo {
            manufacturer: owned("Linux"),
            model: cmd_text_exec(p.product_name.as_str()),
            serial_number: cmd_text_exec(p.product_serial.as_str()),
            cpu,
            ram_gb: (ram_kb / 1048576) as u32,
            storage_gb: (total_kb / 1048576) as u32,
            storage_free_gb: (free_kb / 1048576) as u32,
        };
        let posture = checked_posture_exec(
            output_contains(p.block_devices.as_str(), "crypto_LUKS"),
            output_contains(p.firewall_status.as_str(), "Status: active"),
            output_is(p.antivirus_status.as_str(), "active"),
            updates_current,
            output_is(p.screen_lock.as_str(), "true"),
            now,
        );
        (os, hardware, posture)
    }

    /// The operating system, hardware and posture of any other machine.
    pub fn fallback_info(&self, p: &OtherProbe, now: i64) -> (r: (OsInfo, HardwareInfo, DevicePosture))
        ensures
            r.0@ == other_os(*p, now),
            r.1@ == other_hardware(*p),
            r.2 == other_posture(now),
    {
        let os = OsInfo {
            name: crate::text::copy_string(&p.os_name),
            version: owned("unknown"),
            build: owned("unknown"),
            patch_level: owned("unknown"),
            last_updated: now,
        };
        let hardware = HardwareInfo {
            manufacturer: owned("unknown"),
            model: owned("unknown"),
            serial_number: owned("unknown"),
            cpu: crate::text::copy_string(&p.arch),
            ram_gb: 0,
            storage_gb: 0,
            storage_free_gb: 0,
        };
        let posture = DevicePosture {
            compliance: ComplianceState::Unknown,
            encryption_enabled: false,
            firewall_enabled: false,
            antivirus_active: false,
            os_up_to_date: false,
            disk_encrypted: false,
            screen_lock_enabled: false,
            risk_score_tenths: 80,
            last_assessed: now,
        };
        (os, hardware, posture)
    }

    /// The record of the local machine described by `probe`, seen at `now`.
    pub fn device_from_probe(&self, probe: &LocalProbe, now: i64) -> (d: Device)
        ensures
            d@ == local_device(*probe, now),
    {
        let (os, hardware, posture) = match &probe.platform {
            PlatformProbe::MacOs(m) => self.macos_info(m, now),
            PlatformProbe::Linux(l) => self.linux_info(l, now),
            PlatformProbe::Other(o) => self.fallback_info(o, now),
        };
        let hostname = cmd_text_exec(probe.hostname.as_str());
        let owner = match &probe.user {
            Some(u) => crate::text::copy_string(u),
            None => owned("unknown"),
        };
        Device {
            id: local_device_id_exec(hostname.as_str()),
            name: hostname,
            device_type: DeviceType::Laptop,
            status: DeviceStatus::Active,
            owner,
            os,
            hardware,
            posture,
            installed_apps: self.get_apps(&probe.applications),
            last_seen: now,
            enrolled_at: now,
        }
    }

    /// The record of the local machine described by `probe`, seen now.
    pub fn get_device(&self, probe: &LocalProbe) -> (d: Device)
        ensures
            d@ == local_device(*probe, d.last_seen),
    {
        let now = now_millis();
        self.device_from_probe(probe, now)
    }
}

} // verus!
