//! The inputs of the device-management tools, with the defaults each tool
//! applies, and the decisions the tools make around them: device summaries,
//! confirmation of risky actions, and the plans of the tools that are not
//! covered by `platform`.
use vstd::prelude::*;

use crate::platform::{
    arg, args1, args2, args3, args4, commands_view, cv, plan1, remove_entries,
    remove_entries_command, step, strings_view, window,
    window_lines, Command, CommandView, Platform,
};
use crate::text::{
    concat2, concat3, decimal, decimal_string, ends_with, line_pred, lines, lines_of_str, nth,
    owned, push_char, push_decimal, skip_take, str_eq, string_of, trim, views, words, words_of,
    LineTest, LineTestView, append_str, filter_passing, drop_at_most, copy_string,
};
use crate::types::{opt_view, ComplianceState, Device, DeviceStatus, DeviceType, DeviceView};

verus! {

// ---------------------------------------------------------------------------
// Tool inputs
// ---------------------------------------------------------------------------

/// Input of `lookup_device`.
pub struct LookupDeviceInput {
    pub query: String,
}

/// Input of `list_user_devices`.
pub struct ListUserDevicesInput {
    pub user_id: String,
}

/// Input of `get_device_posture`.
pub struct GetDevicePostureInput {
    pub device_id: String,
}

/// Input of `get_installed_apps`.
pub struct GetInstalledAppsInput {
    pub device_id: String,
}

/// Input of `collect_device_logs`.
pub struct CollectDeviceLogsInput {
    pub device_id: String,
}

/// Input of `run_health_check`.
pub struct RunHealthCheckInput {
    pub device_id: String,
}

/// Input of `create_device_remediation_task`.
pub struct CreateRemediationTaskInput {
    pub device_id: String,
    pub action: String,
    pub reason: String,
}

/// Input of `get_system_stats`.
pub struct GetSystemStatsInput {}

/// Input of `list_running_processes`.
pub struct ListRunningProcessesInput {
    pub sort_by: Option<String>,
    pub limit: Option<usize>,
}

/// Input of `get_network_info`.
pub struct GetNetworkInfoInput {}

/// Input of `get_security_status`.
pub struct GetSecurityStatusInput {}

/// Input of `check_os_updates`.
pub struct CheckOsUpdatesInput {}

/// Input of `list_brew_packages`.
pub struct ListBrewPackagesInput {
    pub outdated_only: Option<bool>,
}

/// Input of `get_disk_usage`.
pub struct GetDiskUsageInput {
    pub path: Option<String>,
}

/// Input of `find_large_files`.
pub struct FindLargeFilesInput {
    pub path: Option<String>,
    pub min_size_mb: Option<u64>,
}

/// Input of `list_login_items`.
pub struct ListLoginItemsInput {}

/// Input of `get_open_ports`.
pub struct GetOpenPortsInput {}

/// Input of `ping_host`.
pub struct PingHostInput {
    pub host: String,
    pub count: Option<u32>,
}

/// Input of `traceroute`.
pub struct TracerouteInput {
    pub host: String,
}

/// Input of `dns_lookup`.
pub struct DnsLookupInput {
    pub hostname: String,
}

/// Input of `test_url`.
pub struct TestUrlInput {
    pub url: String,
}

/// Input of `check_disk_health`.
pub struct CheckDiskHealthInput {}

/// Input of `get_recent_crashes`.
pub struct GetRecentCrashesInput {
    pub limit: Option<usize>,
}

/// Input of `get_battery_status`.
pub struct GetBatteryStatusInput {}

/// Input of `get_usb_devices`.
pub struct GetUsbDevicesInput {}

/// Input of `kill_process`.
pub struct KillProcessInput {
    pub pid: Option<u32>,
    pub name: Option<String>,
}

/// Input of `restart_service`.
pub struct RestartServiceInput {
    pub service: String,
}

/// Input of `flush_dns`.
pub struct FlushDnsInput {}

/// Input of `renew_dhcp`.
pub struct RenewDhcpInput {
    pub interface: Option<String>,
}

/// Input of `empty_trash`.
pub struct EmptyTrashInput {}

/// Input of `purge_caches`.
pub struct PurgeCachesInput {}

/// Input of `enable_firewall`.
pub struct EnableFirewallInput {}

/// Input of `brew_install`.
pub struct BrewInstallInput {
    pub package: String,
}

/// Input of `brew_upgrade`.
pub struct BrewUpgradeInput {
    pub package: Option<String>,
}

/// Input of `brew_uninstall`.
pub struct BrewUninstallInput {
    pub package: String,
}

/// Input of `lock_screen`.
pub struct LockScreenInput {}

/// Input of `restart_machine`.
pub struct RestartMachineInput {
    pub force: Option<bool>,
}

// ---------------------------------------------------------------------------
// Defaults
// ---------------------------------------------------------------------------

/// The text an optional string holds, or `dflt`.
pub open spec fn text_or(o: Option<String>, dflt: Seq<char>) -> Seq<char> {
    match o {
        Some(s) => s@,
        None => dflt,
    }
}

/// The string an optional string holds, or `dflt`.
fn string_or(o: &Option<String>, dflt: &str) -> (r: String)
    ensures
        r@ == text_or(*o, dflt@),
{
    match o {
        Some(s) => copy_string(s),
        None => owned(dflt),
    }
}

impl ListRunningProcessesInput {
    /// How many processes to list: 10 unless given.
    pub fn limit_or_default(&self) -> (n: usize)
        ensures
            n == (match self.limit {
                Some(l) => l,
                None => 10,
            }),
    {
        match self.limit {
            Some(l) => l,
            None => 10,
        }
    }

    /// What to sort by: `"cpu"` unless given.
    pub fn sort_by_or_default(&self) -> (s: String)
        ensures
            s@ == text_or(self.sort_by, "cpu"@),
    {
        string_or(&self.sort_by, "cpu")
    }
}

impl ListBrewPackagesInput {
    /// The package action: `"outdated"` when only outdated packages are
    /// asked for, else `"list"`.
    pub fn action(&self) -> (s: String)
        ensures
            s@ == (if self.outdated_only == Some(true) {
                "outdated"@
            } else {
                "list"@
            }),
    {
        let outdated = match self.outdated_only {
            Some(b) => b,
            None => false,
        };
        if outdated {
            owned("outdated")
        } else {
            owned("list")
        }
    }
}

impl PingHostInput {
    /// How many echo requests to send: 4 unless given.
    pub fn count_or_default(&self) -> (n: u32)
        ensures
            n == (match self.count {
                Some(c) => c,
                None => 4,
            }),
    {
        match self.count {
            Some(c) => c,
            None => 4,
        }
    }
}

impl GetRecentCrashesInput {
    /// How many crashes to list: 10 unless given.
    pub fn limit_or_default(&self) -> (n: usize)
        ensures
            n == (match self.limit {
                Some(l) => l,
                None => 10,
            }),
    {
        match self.limit {
            Some(l) => l,
            None => 10,
        }
    }
}

impl RenewDhcpInput {
    /// The interface to renew: `"en0"` unless given.
    pub fn interface_or_default(&self) -> (s: String)
        ensures
            s@ == text_or(self.interface, "en0"@),
    {
        string_or(&self.interface, "en0")
    }
}

impl RestartMachineInput {
    /// Whether the user must confirm first: unless `force` is set.
    pub fn needs_confirmation(&self) -> (b: bool)
        ensures
            b == (self.force != Some(true)),
    {
        match self.force {
            Some(f) => !f,
            None => true,
        }
    }
}

// ---------------------------------------------------------------------------
// Confirmation of risky actions
// ---------------------------------------------------------------------------

/// How a request for confirmation ended.
#[derive(Debug, Clone, Copy, PartialEq, Eq, Structural)]
pub enum ConfirmationOutcome {
    /// The client does not support confirmation requests, so none was sent.
    Unsupported,
    /// The confirmation form could not be built.
    SchemaUnavailable,
    /// The user answered; `accepted` when they accepted.
    Answered { accepted: bool },
    /// The request was sent to a client that supports it, but no answer
    /// came back (a timeout, a transport error or an error reply).
    Failed,
}

/// Whether an action may go ahead after a request for confirmation: when
/// the user accepted, or when the client does not support such requests.
/// An action whose confirmation failed in any other way does not go ahead.
pub open spec fn confirmed(o: ConfirmationOutcome) -> bool {
    match o {
        ConfirmationOutcome::Answered { accepted } => accepted,
        ConfirmationOutcome::Unsupported => true,
        _ => false,
    }
}

/// Whether an action may go ahead after a request for confirmation.
pub fn confirmation_granted(o: ConfirmationOutcome) -> (b: bool)
    ensures
        b == confirmed(o),
{
    match o {
        ConfirmationOutcome::Answered { accepted } => accepted,
        ConfirmationOutcome::Unsupported => true,
        _ => false,
    }
}

/// Whether a restart goes ahead: at once when forced, else only once
/// confirmed.
pub fn restart_allowed(input: &RestartMachineInput, outcome: Option<ConfirmationOutcome>) -> (b: bool)
    requires
        input.force != Some(true) ==> outcome is Some,
    ensures
        b == (input.force == Some(true) || confirmed(outcome->0)),
{
    if !input.needs_confirmation() {
        true
    } else {
        match outcome {
            Some(o) => confirmation_granted(o),
            None => false,
        }
    }
}

/// The message of a declined action.
pub fn declined_message() -> (r: String)
    ensures
        r@ == "User declined or cancelled."@,
{
    owned("User declined or cancelled.")
}

/// What a kill names: the process id, else the process name, else
/// `"unknown"`. A process id takes precedence over a name, as it does in the
/// kill itself, so that the question names the process that is killed.
pub open spec fn kill_target(name: Option<String>, pid: Option<u32>) -> Seq<char> {
    match pid {
        Some(p) => decimal(p as nat),
        None => match name {
            Some(n) => n@,
            None => "unknown"@,
        },
    }
}

impl KillProcessInput {
    /// The question asked before a kill.
    pub fn confirmation_message(&self) -> (r: String)
        ensures
            r@ == "Kill process '"@ + kill_target(self.name, self.pid)
                + "'? This may cause data loss if the process has unsaved state."@,
    {
        let target = match self.pid {
            Some(p) => decimal_string(p as u64),
            None => match &self.name {
                Some(n) => copy_string(n),
                None => owned("unknown"),
            },
        };
        concat3(
            "Kill process '",
            target.as_str(),
            "'? This may cause data loss if the process has unsaved state.",
        )
    }
}

/// The question asked before the firewall is enabled.
pub fn firewall_question() -> (r: String)
    ensures
        r@ == "Enable the system firewall? This requires admin privileges and may block some network connections."@,
{
    owned(
        "Enable the system firewall? This requires admin privileges and may block some network connections.",
    )
}

/// The question asked before a restart.
pub fn restart_question() -> (r: String)
    ensures
        r@ == "Restart this machine? All unsaved work will be lost and running applications will close."@,
{
    owned(
        "Restart this machine? All unsaved work will be lost and running applications will close.",
    )
}

/// The answer to a request about a device that is not in the inventory.
pub fn device_not_found(device_id: &str) -> (r: String)
    ensures
        r@ == "Device not found: "@ + device_id@,
{
    concat2("Device not found: ", device_id)
}

/// The answer to a request whose remediation task could not be created.
pub fn error_answer(e: &str) -> (r: String)
    ensures
        r@ == "Error: "@ + e@,
{
    concat2("Error: ", e)
}

// ---------------------------------------------------------------------------
// Device summaries
// ---------------------------------------------------------------------------

/// What the device tools list of a device.
pub struct DeviceSummary {
    pub id: String,
    pub name: String,
    pub device_type: DeviceType,
    pub status: DeviceStatus,
    pub owner: String,
    /// `"{os name} {os version}"`
    pub os: String,
    /// `"{manufacturer} {model}"`
    pub model: String,
    pub compliance: ComplianceState,
    pub risk_score_tenths: u32,
    pub last_seen: i64,
}

/// Whether `s` summarises device `d`.
pub open spec fn summarizes(s: DeviceSummary, d: DeviceView) -> bool {
    &&& s.id@ == d.id
    &&& s.name@ == d.name
    &&& s.device_type == d.device_type
    &&& s.status == d.status
    &&& s.owner@ == d.owner
    &&& s.os@ == d.os.name + " "@ + d.os.version
    &&& s.model@ == d.hardware.manufacturer + " "@ + d.hardware.model
    &&& s.compliance == d.posture.compliance
    &&& s.risk_score_tenths == d.posture.risk_score_tenths
    &&& s.last_seen == d.last_seen
}

/// The summary of a device.
pub fn summarize(d: &Device) -> (s: DeviceSummary)
    ensures
        summarizes(s, d@),
{
    DeviceSummary {
        id: copy_string(&d.id),
        name: copy_string(&d.name),
        device_type: d.device_type,
        status: d.status,
        owner: copy_string(&d.owner),
        os: concat3(d.os.name.as_str(), " ", d.os.version.as_str()),
        model: concat3(d.hardware.manufacturer.as_str(), " ", d.hardware.model.as_str()),
        compliance: d.posture.compliance,
        risk_score_tenths: d.posture.risk_score_tenths,
        last_seen: d.last_seen,
    }
}

/// The summaries of a list of devices.
pub fn summarize_all(ds: &Vec<Device>) -> (r: Vec<DeviceSummary>)
    ensures
        r@.len() == ds@.len(),
        forall|i: int| 0 <= i < ds@.len() ==> summarizes(#[trigger] r@[i], ds@[i]@),
{
    let mut r: Vec<DeviceSummary> = Vec::new();
    let mut i: usize = 0;
    while i < ds.len()
        invariant
            i <= ds.len(),
            r@.len() == i,
            forall|k: int| 0 <= k < i ==> summarizes(#[trigger] r@[k], ds@[k]@),
        decreases ds.len() - i,
    {
        r.push(summarize(&ds[i]));
        i = i + 1;
    }
    r
}

// ---------------------------------------------------------------------------
// Plans of the remaining tools
// ---------------------------------------------------------------------------

/// Appends an argument.
fn push_arg(v: &mut Vec<String>, s: String)
    ensures
        strings_view(final(v)@) == strings_view(old(v)@).push(s@),
{
    let ghost before = v@;
    v.push(s);
    assert(strings_view(v@) =~= strings_view(before).push(s@));
}

/// The command that lists pending operating system updates.
pub open spec fn os_updates_command(p: Platform) -> CommandView {
    if p == Platform::Windows {
        cv("powershell"@, seq!["-Command"@, "Get-WindowsUpdate"@])
    } else {
        cv("softwareupdate"@, seq!["-l"@, "--no-scan"@])
    }
}

/// The command that lists pending operating system updates.
pub fn os_updates_plan(p: Platform) -> (c: Command)
    ensures
        c@ == os_updates_command(p),
{
    if p == Platform::Windows {
        let c = Command { program: owned("powershell"), args: args2("-Command", "Get-WindowsUpdate") };
        assert(c@ =~~= os_updates_command(p));
        c
    } else {
        let c = Command { program: owned("softwareupdate"), args: args2("-l", "--no-scan") };
        assert(c@ =~~= os_updates_command(p));
        c
    }
}

/// The pending updates reported: the first ten lines of the output.
pub fn os_updates_report(out: &String) -> (r: Vec<String>)
    ensures
        strings_view(r@) == window(out@, 0, 10),
{
    window_lines(out, 0, 10)
}

/// The directory whose usage is reported: `path`, `"~"` unless given, with
/// `"~"` standing for the home directory (or `"/"` when that is unknown).
pub open spec fn disk_usage_root(path: Option<String>, home: Option<String>) -> Seq<char> {
    let p = text_or(path, "~"@);
    if p == "~"@ {
        text_or(home, "/"@)
    } else {
        p
    }
}

impl GetDiskUsageInput {
    /// The directory whose usage is reported.
    pub fn root(&self, home: &Option<String>) -> (r: String)
        ensures
            r@ == disk_usage_root(self.path, *home),
    {
        let p = string_or(&self.path, "~");
        if str_eq(p.as_str(), "~") {
            string_or(home, "/")
        } else {
            p
        }
    }
}

/// The shell script that sizes each directory under the directory named by
/// its first argument. The directory is passed as an argument, never as
/// part of the script, so that the shell expands the pattern but not the name.
pub open spec fn disk_usage_script() -> Seq<char> {
    "du -sh \"$1\"/*/"@
}

/// The command that sizes each directory under `root` (the shell expands
/// the subdirectories; `du` is given them one by one).
pub open spec fn disk_usage_command(root: Seq<char>) -> CommandView {
    cv("sh"@, seq!["-c"@, disk_usage_script(), "sh"@, root])
}

/// The command that sizes each directory under `root`.
pub fn disk_usage_plan(root: &str) -> (c: Command)
    ensures
        c@ == disk_usage_command(root@),
{
    let mut v = args3("-c", "du -sh \"$1\"/*/", "sh");
    arg(&mut v, root);
    proof {
        reveal_strlit("du -sh \"$1\"/*/");
    }
    assert(strings_view(v@) =~= seq!["-c"@, disk_usage_script(), "sh"@, root@]);
    let c = Command { program: owned("sh"), args: v };
    assert(c@ =~~= disk_usage_command(root@));
    c
}

/// One entry of a disk usage listing: its first two words.
pub struct UsageEntry {
    pub size: Option<String>,
    pub path: Option<String>,
}

/// The entries of a disk usage listing: the first twenty lines, each with
/// its first two words.
pub fn disk_usage_report(out: &String) -> (r: Vec<UsageEntry>)
    ensures
        r@.len() == window(out@, 0, 20).len(),
        forall|i: int|
            0 <= i < r@.len() ==> opt_view((#[trigger] r@[i]).size) == nth(
                words(window(out@, 0, 20)[i]),
                0,
            ) && opt_view(r@[i].path) == nth(words(window(out@, 0, 20)[i]), 1),
{
    let ls = lines_of_str(out.as_str());
    let first = skip_take(&ls, 0, 20);
    let mut r: Vec<UsageEntry> = Vec::new();
    let mut i: usize = 0;
    while i < first.len()
        invariant
            i <= first.len(),
            views(first@) == window(out@, 0, 20),
            r@.len() == i,
            forall|k: int|
                0 <= k < i ==> opt_view((#[trigger] r@[k]).size) == nth(words(views(first@)[k]), 0)
                    && opt_view(r@[k].path) == nth(words(views(first@)[k]), 1),
        decreases first.len() - i,
    {
        let w = words_of(&first[i]);
        assert(views(first@)[i as int] == first@[i as int]@);
        let size = if w.len() > 0 {
            Some(string_of(&w[0]))
        } else {
            None
        };
        let path = if w.len() > 1 {
            Some(string_of(&w[1]))
        } else {
            None
        };
        r.push(UsageEntry { size, path });
        i = i + 1;
    }
    r
}

impl FindLargeFilesInput {
    /// Where to search: `"."` unless given.
    pub fn path_or_default(&self) -> (r: String)
        ensures
            r@ == text_or(self.path, "."@),
    {
        string_or(&self.path, ".")
    }

    /// The size threshold in megabytes: 100 unless given.
    pub fn min_size_or_default(&self) -> (n: u64)
        ensures
            n == (match self.min_size_mb {
                Some(m) => m,
                None => 100,
            }),
    {
        match self.min_size_mb {
            Some(m) => m,
            None => 100,
        }
    }
}

/// The command that finds files over `min_mb` megabytes under `path`.
pub open spec fn large_files_command(p: Platform, path: Seq<char>, min_mb: u64) -> CommandView {
    if p == Platform::Windows {
        cv(
            "powershell"@,
            seq![
                "-Command"@,
                "Get-ChildItem -Path '"@ + path
                    + "' -Recurse -File | Where-Object { $_.Length -gt "@ + decimal(min_mb as nat)
                    + "MB } | Select-Object FullName,Length -First 20"@,
            ],
        )
    } else {
        cv(
            "find"@,
            seq![
                path,
                "-type"@,
                "f"@,
                "-size"@,
                "+"@ + decimal(min_mb as nat) + "M"@,
                "-exec"@,
                "ls"@,
                "-lh"@,
                "{}"@,
                ";"@,
            ],
        )
    }
}

/// The command that finds files over `min_mb` megabytes under `path`.
pub fn large_files_plan(p: Platform, path: &str, min_mb: u64) -> (c: Command)
    ensures
        c@ == large_files_command(p, path@, min_mb),
{
    let mut v: Vec<String> = Vec::new();
    if p == Platform::Windows {
        push_arg(&mut v, owned("-Command"));
        let mut script = concat3("Get-ChildItem -Path '", path, "' -Recurse -File | Where-Object { $_.Length -gt ");
        push_decimal(&mut script, min_mb);
        append_str(&mut script, "MB } | Select-Object FullName,Length -First 20");
        let ghost sv = script@;
        push_arg(&mut v, script);
        assert(strings_view(v@) =~= seq!["-Command"@, sv]);
        let c = Command { program: owned("powershell"), args: v };
        assert(c@ =~~= large_files_command(p, path@, min_mb));
        c
    } else {
        let mut v = args4(path, "-type", "f", "-size");
        let mut size = owned("+");
        push_decimal(&mut size, min_mb);
        append_str(&mut size, "M");
        let ghost zv = size@;
        push_arg(&mut v, size);
        arg(&mut v, "-exec");
        arg(&mut v, "ls");
        arg(&mut v, "-lh");
        arg(&mut v, "{}");
        arg(&mut v, ";");
        assert(strings_view(v@) =~= seq![
            path@,
            "-type"@,
            "f"@,
            "-size"@,
            zv,
            "-exec"@,
            "ls"@,
            "-lh"@,
            "{}"@,
            ";"@,
        ]);
        let c = Command { program: owned("find"), args: v };
        assert(c@ =~~= large_files_command(p, path@, min_mb));
        c
    }
}

/// The files found: the first twenty lines of the output.
pub fn large_files_report(out: &String) -> (r: Vec<String>)
    ensures
        strings_view(r@) == window(out@, 0, 20),
{
    window_lines(out, 0, 20)
}

/// The commands that list login items, with `home` the home directory.
pub open spec fn login_items_commands(p: Platform, home: Seq<char>) -> Seq<CommandView> {
    match p {
        Platform::MacOs => seq![
            cv("ls"@, seq![home + "/Library/LaunchAgents"@]),
            cv("ls"@, seq!["/Library/LaunchAgents"@]),
        ],
        Platform::Linux => seq![
            cv("systemctl"@, seq!["list-unit-files"@, "--type=service"@, "--state=enabled"@]),
        ],
        Platform::Windows => seq![cv("wmic"@, seq!["startup"@, "get"@, "Name,Command"@])],
        Platform::Other => Seq::empty(),
    }
}

/// The commands that list login items.
pub fn login_items_plan(p: Platform, home: &str) -> (r: Vec<Command>)
    ensures
        commands_view(r@) == login_items_commands(p, home@),
{
    match p {
        Platform::MacOs => {
            let mut v: Vec<String> = Vec::new();
            let dir = concat2(home, "/Library/LaunchAgents");
            let ghost dv = dir@;
            push_arg(&mut v, dir);
            assert(strings_view(v@) =~= seq![dv]);
            let mut r = plan1("ls", v);
            step(&mut r, "ls", args1("/Library/LaunchAgents"));
            assert(commands_view(r@) =~~= login_items_commands(p, home@));
            r
        },
        Platform::Linux => {
            let r = plan1("systemctl", args3("list-unit-files", "--type=service", "--state=enabled"));
            assert(commands_view(r@) =~~= login_items_commands(p, home@));
            r
        },
        Platform::Windows => {
            let r = plan1("wmic", args3("startup", "get", "Name,Command"));
            assert(commands_view(r@) =~~= login_items_commands(p, home@));
            r
        },
        Platform::Other => {
            let r: Vec<Command> = Vec::new();
            assert(commands_view(r@) =~~= login_items_commands(p, home@));
            r
        },
    }
}

/// The login items of a platform's listings: on macOS the `.plist` entries
/// of both launch-agent directories; on Linux the first twenty lines; on
/// Windows the non-blank lines after the header, trimmed; elsewhere none.
pub open spec fn login_items(p: Platform, out: Seq<Seq<char>>) -> Seq<Seq<char>> {
    match p {
        Platform::MacOs => (lines(out[0]) + lines(out[1])).filter(
            line_pred(LineTestView::EndsWith(".plist"@)),
        ),
        Platform::Linux => window(out[0], 0, 20),
        Platform::Windows => drop_at_most(lines(out[0]), 1).filter(
            line_pred(LineTestView::NotBlank),
        ).map_values(|l: Seq<char>| trim(l)),
        Platform::Other => Seq::empty(),
    }
}

/// The login items reported from the output of the plan's commands.
pub fn login_items_report(p: Platform, out: &Vec<String>) -> (r: Vec<String>)
    requires
        out.len() == login_items_commands(p, Seq::empty()).len(),
    ensures
        strings_view(r@) == login_items(p, strings_view(out@)),
{
    match p {
        Platform::MacOs => {
            let mut ls = lines_of_str(out[0].as_str());
            let more = lines_of_str(out[1].as_str());
            let ghost a = views(ls@);
            let mut i: usize = 0;
            while i < more.len()
                invariant
                    i <= more.len(),
                    views(ls@) == a + views(more@).take(i as int),
                decreases more.len() - i,
            {
                let ghost before = ls@;
                ls.push(crate::text::copy_chars(&more[i]));
                assert(views(ls@) =~= views(before).push(more@[i as int]@));
                assert(views(more@).take(i + 1) =~= views(more@).take(i as int).push(more@[i as int]@));
                i = i + 1;
            }
            assert(views(more@).take(i as int) =~= views(more@));
            let kept = filter_passing(&ls, &LineTest::EndsWith(owned(".plist")));
            let r = crate::platform::strings_of_lines(&kept);
            assert(strings_view(r@) =~= login_items(p, strings_view(out@)));
            r
        },
        Platform::Linux => {
            let r = window_lines(&out[0], 0, 20);
            r
        },
        Platform::Windows => {
            let ls = lines_of_str(out[0].as_str());
            let w = skip_take(&ls, 1, ls.len());
            assert(crate::text::take_at_most(drop_at_most(views(ls@), 1), ls@.len() as int)
                =~= drop_at_most(views(ls@), 1));
            let kept = filter_passing(&w, &LineTest::NotBlank);
            let r = crate::platform::trim_lines(&kept);
            assert forall|k: int| 0 <= k < kept@.len() implies views(kept@)[k] == kept@[k]@ by {}
            assert(strings_view(r@) =~= login_items(p, strings_view(out@)));
            r
        },
        Platform::Other => {
            let r: Vec<String> = Vec::new();
            assert(strings_view(r@) =~= login_items(p, strings_view(out@)));
            r
        },
    }
}

/// Whether PowerShell reads `c` as a single quote inside a single-quoted
/// string: the ASCII apostrophe and the four typographic single quotes.
pub open spec fn is_ps_single_quote(c: char) -> bool {
    c == '\'' || c == '\u{2018}' || c == '\u{2019}' || c == '\u{201A}' || c == '\u{201B}'
}

/// `s` as the body of a PowerShell single-quoted string: every single quote
/// doubled, so that the string holds `s` literally and ends only at the
/// closing quote.
pub open spec fn ps_escape(s: Seq<char>) -> Seq<char>
    decreases s.len(),
{
    if s.len() == 0 {
        Seq::empty()
    } else {
        let c = s.last();
        ps_escape(s.drop_last()) + if is_ps_single_quote(c) {
            seq![c, c]
        } else {
            seq![c]
        }
    }
}

/// `s` as the body of a PowerShell single-quoted string.
pub fn ps_escape_exec(s: &str) -> (r: String)
    ensures
        r@ == ps_escape(s@),
{
    let cs = crate::text::chars_of(s);
    let mut r = String::new();
    proof {
        assert(cs@.take(0) =~= Seq::<char>::empty());
    }
    let mut i: usize = 0;
    while i < cs.len()
        invariant
            i <= cs.len(),
            cs@ == s@,
            r@ == ps_escape(cs@.take(i as int)),
        decreases cs.len() - i,
    {
        let c = cs[i];
        let q = c == '\'' || c == '\u{2018}' || c == '\u{2019}' || c == '\u{201A}' || c == '\u{201B}';
        push_char(&mut r, c);
        if q {
            push_char(&mut r, c);
        }
        proof {
            assert(cs@.take(i + 1).drop_last() =~= cs@.take(i as int));
            assert(cs@.take(i + 1).last() == c);
        }
        i = i + 1;
        assert(r@ =~= ps_escape(cs@.take(i as int)));
    }
    assert(cs@.take(i as int) =~= s@);
    r
}

/// The commands that restart `service`. On Windows the name is quoted for
/// PowerShell, so that it is only ever read as the service's name.
pub open spec fn restart_service_commands(p: Platform, service: Seq<char>) -> Option<
    Seq<CommandView>,
> {
    match p {
        Platform::MacOs => Some(
            seq![
                cv("launchctl"@, seq!["stop"@, service]),
                cv("launchctl"@, seq!["start"@, service]),
            ],
        ),
        Platform::Linux => Some(seq![cv("sudo"@, seq!["systemctl"@, "restart"@, service])]),
        Platform::Windows => Some(
            seq![
                cv(
                    "powershell"@,
                    seq!["-Command"@, "Restart-Service '"@ + ps_escape(service) + "'"@],
                ),
            ],
        ),
        Platform::Other => None,
    }
}

/// The commands that restart `service`; `None` on an unsupported system.
pub fn restart_service_plan(p: Platform, service: &str) -> (r: Option<Vec<Command>>)
    ensures
        (match r {
            Some(v) => Some(commands_view(v@)),
            None => None,
        }) == restart_service_commands(p, service@),
{
    let r = match p {
        Platform::MacOs => {
            let mut r = plan1("launchctl", args2("stop", service));
            step(&mut r, "launchctl", args2("start", service));
            r
        },
        Platform::Linux => plan1("sudo", args3("systemctl", "restart", service)),
        Platform::Windows => {
            let mut v = args1("-Command");
            let quoted = ps_escape_exec(service);
            let script = concat3("Restart-Service '", quoted.as_str(), "'");
            let ghost sv = script@;
            push_arg(&mut v, script);
            assert(strings_view(v@) =~= seq!["-Command"@, sv]);
            plan1("powershell", v)
        },
        Platform::Other => {
            return None;
        },
    };
    assert(commands_view(r@) =~~= restart_service_commands(p, service@)->0);
    Some(r)
}

/// The command that purges caches, with `home` the home directory, and the
/// message reported.
pub open spec fn purge_plan_spec(p: Platform, home: Seq<char>) -> (Seq<CommandView>, Seq<char>) {
    match p {
        Platform::MacOs => (
            seq![remove_entries_command(home + "/Library/Caches"@)],
            "Caches purged"@,
        ),
        Platform::Linux => (seq![cv("sudo"@, seq!["apt-get"@, "clean"@])], "apt cache cleaned"@),
        Platform::Windows => (
            seq![
                cv(
                    "powershell"@,
                    seq!["-Command"@, "Remove-Item -Path $env:TEMP\\* -Recurse -Force"@],
                ),
            ],
            "Temp files purged"@,
        ),
        Platform::Other => (Seq::empty(), "Unsupported"@),
    }
}

/// The command that purges caches, and the message reported.
pub fn purge_plan(p: Platform, home: &str) -> (r: (Vec<Command>, String))
    ensures
        (commands_view(r.0@), r.1@) == purge_plan_spec(p, home@),
{
    let (cmds, msg) = match p {
        Platform::MacOs => {
            let mut v: Vec<Command> = Vec::new();
            v.push(remove_entries(concat2(home, "/Library/Caches")));
            (v, owned("Caches purged"))
        },
        Platform::Linux => (plan1("sudo", args2("apt-get", "clean")), owned("apt cache cleaned")),
        Platform::Windows => (
            plan1("powershell", args2("-Command", "Remove-Item -Path $env:TEMP\\* -Recurse -Force")),
            owned("Temp files purged"),
        ),
        Platform::Other => {
            let v: Vec<Command> = Vec::new();
            (v, owned("Unsupported"))
        },
    };
    assert(commands_view(cmds@) =~~= purge_plan_spec(p, home@).0);
    (cmds, msg)
}

/// Purging caches on macOS removes every entry of `~/Library/Caches` and
/// leaves the folder: `find ~/Library/Caches -mindepth 1 -delete`.
pub proof fn law_purge_removes_cache_entries(home: Seq<char>)
    ensures
        purge_plan_spec(Platform::MacOs, home).0 == seq![
            cv("find"@, seq![home + "/Library/Caches"@, "-mindepth"@, "1"@, "-delete"@]),
        ],
{
}

/// The disk usage listing sizes each subdirectory of `root`: `du -sh` run
/// by the shell over the pattern `"$1"/*/`, with `root` passed as the
/// script's argument and never spliced into the script.
pub proof fn law_disk_usage_sizes_subdirectories(root: Seq<char>)
    ensures
        disk_usage_command(root) == cv(
            "sh"@,
            seq!["-c"@, "du -sh \"$1\"/*/"@, "sh"@, root],
        ),
{
}

} // verus!
