//! Cross-platform system tools, split in two: for each tool, the commands
//! to run on macOS, Linux and Windows (its plan), and what the tool reports
//! from their output. Running the commands is left to the caller; the
//! output of a command is its standard output as text (empty when it could
//! not be run).
use vstd::prelude::*;

use crate::text::{
    chars_of, colon_value, colon_value_exec, concat2, contains, contains_exec, copy_chars,
    decimal, decimal_string, drop_at_most, find_line, first_passing, join, join_exec,
    line_pred, lines, lines_of, lines_of_str, nth, nth_chars, or_empty, owned, parse_or_zero,
    parse_or_zero_spec, skip_take, str_contains, str_eq, string_of, take_at_most, trim, trim_str,
    trimmed_chars, views, words, words_of, LineTest, LineTestView, filter_passing, trim_range,
    trim_end_matches, trim_end_matches_exec, ends_with, first_index_from, passes, passes_exec,
};
use crate::types::opt_view;

verus! {

// ---------------------------------------------------------------------------
// Platforms and commands
// ---------------------------------------------------------------------------

/// The operating system the tools run on.
#[derive(Debug, Clone, Copy, PartialEq, Eq, Structural)]
pub enum Platform {
    MacOs,
    Linux,
    Windows,
    /// Any other system: the tools report it unsupported.
    Other,
}

impl Platform {
    /// The platform named by `std::env::consts::OS`.
    pub fn from_name(os: &str) -> (p: Platform)
        ensures
            p == platform_named(os@),
    {
        if str_eq(os, "macos") {
            Platform::MacOs
        } else if str_eq(os, "linux") {
            Platform::Linux
        } else if str_eq(os, "windows") {
            Platform::Windows
        } else {
            Platform::Other
        }
    }
}

/// The platform with the given `std::env::consts::OS` name.
pub open spec fn platform_named(os: Seq<char>) -> Platform {
    if os == "macos"@ {
        Platform::MacOs
    } else if os == "linux"@ {
        Platform::Linux
    } else if os == "windows"@ {
        Platform::Windows
    } else {
        Platform::Other
    }
}

/// A command to run: a program and its arguments.
pub struct Command {
    pub program: String,
    pub args: Vec<String>,
}

/// A command, over the characters of its program and arguments.
pub struct CommandView {
    pub program: Seq<char>,
    pub args: Seq<Seq<char>>,
}

/// The characters of a sequence of strings.
pub open spec fn strings_view(v: Seq<String>) -> Seq<Seq<char>> {
    v.map_values(|s: String| s@)
}

impl View for Command {
    type V = CommandView;

    open spec fn view(&self) -> CommandView {
        CommandView { program: self.program@, args: strings_view(self.args@) }
    }
}

/// The commands of a plan.
pub open spec fn commands_view(v: Seq<Command>) -> Seq<CommandView> {
    v.map_values(|c: Command| c@)
}

/// The command `program args...`.
pub open spec fn cv(program: Seq<char>, args: Seq<Seq<char>>) -> CommandView {
    CommandView { program, args }
}

/// Appends an argument.
pub(crate) fn arg(v: &mut Vec<String>, s: &str)
    ensures
        strings_view(final(v)@) == strings_view(old(v)@).push(s@),
{
    let ghost before = v@;
    v.push(owned(s));
    assert(strings_view(v@) =~= strings_view(before).push(s@));
}

/// Appends an argument held in a string.
pub(crate) fn arg_string(v: &mut Vec<String>, s: String)
    ensures
        strings_view(final(v)@) == strings_view(old(v)@).push(s@),
{
    let ghost before = v@;
    v.push(s);
    assert(strings_view(v@) =~= strings_view(before).push(s@));
}

/// Appends a command to a plan.
pub(crate) fn step(plan: &mut Vec<Command>, program: &str, args: Vec<String>)
    ensures
        commands_view(final(plan)@) == commands_view(old(plan)@).push(
            cv(program@, strings_view(args@)),
        ),
{
    let ghost before = plan@;
    let c = Command { program: owned(program), args };
    plan.push(c);
    assert(commands_view(plan@) =~= commands_view(before).push(cv(program@, strings_view(args@))));
}

/// An empty argument list.
pub(crate) fn no_args() -> (v: Vec<String>)
    ensures
        strings_view(v@) == Seq::<Seq<char>>::empty(),
{
    let v: Vec<String> = Vec::new();
    assert(strings_view(v@) =~= Seq::<Seq<char>>::empty());
    v
}

/// The argument list `[a]`.
pub(crate) fn args1(a: &str) -> (v: Vec<String>)
    ensures
        strings_view(v@) == seq![a@],
{
    let mut v = no_args();
    arg(&mut v, a);
    assert(strings_view(v@) =~= seq![a@]);
    v
}

/// The argument list `[a, b]`.
pub(crate) fn args2(a: &str, b: &str) -> (v: Vec<String>)
    ensures
        strings_view(v@) == seq![a@, b@],
{
    let mut v = args1(a);
    arg(&mut v, b);
    assert(strings_view(v@) =~= seq![a@, b@]);
    v
}

/// The argument list `[a, b, c]`.
pub(crate) fn args3(a: &str, b: &str, c: &str) -> (v: Vec<String>)
    ensures
        strings_view(v@) == seq![a@, b@, c@],
{
    let mut v = args2(a, b);
    arg(&mut v, c);
    assert(strings_view(v@) =~= seq![a@, b@, c@]);
    v
}

/// The argument list `[a, b, c, d]`.
pub(crate) fn args4(a: &str, b: &str, c: &str, d: &str) -> (v: Vec<String>)
    ensures
        strings_view(v@) == seq![a@, b@, c@, d@],
{
    let mut v = args3(a, b, c);
    arg(&mut v, d);
    assert(strings_view(v@) =~= seq![a@, b@, c@, d@]);
    v
}

/// The argument list `[a, b, c, d, e]`.
pub(crate) fn args5(a: &str, b: &str, c: &str, d: &str, e: &str) -> (v: Vec<String>)
    ensures
        strings_view(v@) == seq![a@, b@, c@, d@, e@],
{
    let mut v = args4(a, b, c, d);
    arg(&mut v, e);
    assert(strings_view(v@) =~= seq![a@, b@, c@, d@, e@]);
    v
}

/// The argument list `[a, b, c, d, e, f]`.
pub(crate) fn args6(a: &str, b: &str, c: &str, d: &str, e: &str, f: &str) -> (v: Vec<String>)
    ensures
        strings_view(v@) == seq![a@, b@, c@, d@, e@, f@],
{
    let mut v = args5(a, b, c, d, e);
    arg(&mut v, f);
    assert(strings_view(v@) =~= seq![a@, b@, c@, d@, e@, f@]);
    v
}

/// A plan of one command.
pub(crate) fn plan1(program: &str, args: Vec<String>) -> (p: Vec<Command>)
    ensures
        commands_view(p@) == seq![cv(program@, strings_view(args@))],
{
    let mut p: Vec<Command> = Vec::new();
    assert(commands_view(p@) =~= Seq::<CommandView>::empty());
    step(&mut p, program, args);
    assert(commands_view(p@) =~= seq![cv(program@, strings_view(args@))]);
    p
}

/// The trimmed text of a command's output.
pub(crate) fn trimmed(s: &String) -> (r: String)
    ensures
        r@ == trim(s@),
{
    trim_str(s.as_str())
}

/// A word of a list, copied into a string, if there is one.
fn word_at(ws: &Vec<Vec<char>>, n: usize) -> (r: Option<String>)
    ensures
        (match r {
            Some(s) => Some(s@),
            None => None,
        }) == nth(views(ws@), n as int),
{
    if n < ws.len() {
        Some(string_of(&ws[n]))
    } else {
        None
    }
}

/// Strings made of character vectors.
pub fn strings_of_lines(ls: &Vec<Vec<char>>) -> (r: Vec<String>)
    ensures
        strings_view(r@) == views(ls@),
{
    let mut r: Vec<String> = Vec::new();
    let mut i: usize = 0;
    while i < ls.len()
        invariant
            i <= ls.len(),
            strings_view(r@) == views(ls@).take(i as int),
        decreases ls.len() - i,
    {
        let ghost before = r@;
        let t = string_of(&ls[i]);
        r.push(t);
        assert(strings_view(r@) =~= strings_view(before).push(ls@[i as int]@));
        assert(strings_view(r@) =~= views(ls@).take(i + 1));
        i = i + 1;
    }
    assert(views(ls@).take(i as int) =~= views(ls@));
    r
}

// ---------------------------------------------------------------------------
// System statistics
// ---------------------------------------------------------------------------

/// The commands behind the system statistics.
pub open spec fn system_stats_plan_spec(p: Platform) -> Option<Seq<CommandView>> {
    match p {
        Platform::MacOs => Some(
            seq![
                cv("sysctl"@, seq!["-n"@, "vm.loadavg"@]),
                cv("sysctl"@, seq!["-n"@, "hw.memsize"@]),
                cv("df"@, seq!["-h"@, "/"@]),
            ],
        ),
        Platform::Linux => Some(
            seq![
                cv("cat"@, seq!["/proc/loadavg"@]),
                cv("free"@, seq!["-h"@]),
                cv("df"@, seq!["-h"@, "/"@]),
            ],
        ),
        Platform::Windows => Some(
            seq![
                cv("wmic"@, seq!["cpu"@, "get"@, "loadpercentage"@, "/value"@]),
                cv(
                    "wmic"@,
                    seq!["os"@, "get"@, "FreePhysicalMemory,TotalVisibleMemorySize"@, "/value"@],
                ),
                cv(
                    "wmic"@,
                    seq![
                        "logicaldisk"@,
                        "where"@,
                        "DeviceID='C:'"@,
                        "get"@,
                        "Size,FreeSpace"@,
                        "/value"@,
                    ],
                ),
            ],
        ),
        Platform::Other => None,
    }
}

/// The commands behind the system statistics; `None` on an unsupported system.
pub fn system_stats_plan(p: Platform) -> (r: Option<Vec<Command>>)
    ensures
        (match r {
            Some(v) => Some(commands_view(v@)),
            None => None,
        }) == system_stats_plan_spec(p),
{
    match p {
        Platform::MacOs => {
            let mut v = plan1("sysctl", args2("-n", "vm.loadavg"));
            step(&mut v, "sysctl", args2("-n", "hw.memsize"));
            step(&mut v, "df", args2("-h", "/"));
            assert(commands_view(v@) =~~= system_stats_plan_spec(p)->0);
            Some(v)
        },
        Platform::Linux => {
            let mut v = plan1("cat", args1("/proc/loadavg"));
            step(&mut v, "free", args1("-h"));
            step(&mut v, "df", args2("-h", "/"));
            assert(commands_view(v@) =~~= system_stats_plan_spec(p)->0);
            Some(v)
        },
        Platform::Windows => {
            let mut v = plan1("wmic", args4("cpu", "get", "loadpercentage", "/value"));
            step(
                &mut v,
                "wmic",
                args4("os", "get", "FreePhysicalMemory,TotalVisibleMemorySize", "/value"),
            );
            step(
                &mut v,
                "wmic",
                args6("logicaldisk", "where", "DeviceID='C:'", "get", "Size,FreeSpace", "/value"),
            );
            assert(commands_view(v@) =~~= system_stats_plan_spec(p)->0);
            Some(v)
        },
        Platform::Other => None,
    }
}

/// Fields 1 to 4 of the second line of `df -h` output: size, used, free
/// and use percentage, each where present.
pub struct DiskFields {
    pub total: Option<String>,
    pub used: Option<String>,
    pub free: Option<String>,
    pub used_pct: Option<String>,
}

/// The words of the second line of `df` output.
pub open spec fn df_words(out: Seq<char>) -> Seq<Seq<char>> {
    words(or_empty(nth(lines(out), 1)))
}

/// Whether `d` holds fields 1 to 4 of `df` output `out`.
pub open spec fn disk_fields_of(d: DiskFields, out: Seq<char>) -> bool {
    let w = df_words(out);
    &&& opt_view(d.total) == nth(w, 1)
    &&& opt_view(d.used) == nth(w, 2)
    &&& opt_view(d.free) == nth(w, 3)
    &&& opt_view(d.used_pct) == nth(w, 4)
}

/// Fields 1 to 4 of the second line of `df -h` output.
fn disk_fields(out: &String) -> (d: DiskFields)
    ensures
        disk_fields_of(d, out@),
{
    let ls = lines_of_str(out.as_str());
    let line = match nth_chars(&ls, 1) {
        Some(l) => l,
        None => {
            let e: Vec<char> = Vec::new();
            assert(e@ =~= Seq::<char>::empty());
            e
        },
    };
    let w = words_of(&line);
    DiskFields {
        total: word_at(&w, 1),
        used: word_at(&w, 2),
        free: word_at(&w, 3),
        used_pct: word_at(&w, 4),
    }
}

/// Live load, memory and disk figures.
pub enum SystemStats {
    /// `load` is the trimmed `vm.loadavg`; memory is whole gigabytes.
    MacOs { load: String, memory_total_gb: u64, disk: DiskFields },
    /// `load` is the trimmed `/proc/loadavg`; `memory` the trimmed second
    /// line of `free -h`.
    Linux { load: String, memory: String, disk: DiskFields },
    /// Each field is the trimmed output of its `wmic` query.
    Windows { cpu: String, memory: String, disk: String },
}

/// The system statistics reported from the output of the plan's commands.
pub fn system_stats_report(p: Platform, out: &Vec<String>) -> (r: Option<SystemStats>)
    requires
        p != Platform::Other ==> out.len() == 3,
    ensures
        match (p, r) {
            (Platform::MacOs, Some(SystemStats::MacOs { load, memory_total_gb, disk })) => {
                &&& load@ == trim(out@[0]@)
                &&& memory_total_gb as nat == parse_or_zero_spec(
                    Some(trim(out@[1]@)),
                    u64::MAX as nat,
                ) / 1073741824
                &&& disk_fields_of(disk, out@[2]@)
            },
            (Platform::Linux, Some(SystemStats::Linux { load, memory, disk })) => {
                &&& load@ == trim(out@[0]@)
                &&& memory@ == trim(or_empty(nth(lines(out@[1]@), 1)))
                &&& disk_fields_of(disk, out@[2]@)
            },
            (Platform::Windows, Some(SystemStats::Windows { cpu, memory, disk })) => {
                &&& cpu@ == trim(out@[0]@)
                &&& memory@ == trim(out@[1]@)
                &&& disk@ == trim(out@[2]@)
            },
            (Platform::Other, None) => true,
            _ => false,
        },
{
    match p {
        Platform::MacOs => {
            let mem = trimmed_chars(out[1].as_str());
            let bytes = parse_or_zero(&Some(mem), u64::MAX);
            Some(
                SystemStats::MacOs {
                    load: trimmed(&out[0]),
                    memory_total_gb: bytes / 1073741824,
                    disk: disk_fields(&out[2]),
                },
            )
        },
        Platform::Linux => {
            let ls = lines_of_str(out[1].as_str());
            let line = match nth_chars(&ls, 1) {
                Some(l) => l,
                None => {
                    let e: Vec<char> = Vec::new();
                    assert(e@ =~= Seq::<char>::empty());
                    e
                },
            };
            assert(line@.subrange(0, line@.len() as int) =~= line@);
            Some(
                SystemStats::Linux {
                    load: trimmed(&out[0]),
                    memory: trim_range(&line, 0, line.len()),
                    disk: disk_fields(&out[2]),
                },
            )
        },
        Platform::Windows => Some(
            SystemStats::Windows {
                cpu: trimmed(&out[0]),
                memory: trimmed(&out[1]),
                disk: trimmed(&out[2]),
            },
        ),
        Platform::Other => None,
    }
}

// ---------------------------------------------------------------------------
// Running processes
// ---------------------------------------------------------------------------

/// The command that lists processes, most demanding first by `sort_by`
/// (`"mem"` for memory, anything else for processor time).
pub open spec fn processes_plan_spec(p: Platform, sort_by: Seq<char>) -> Option<Seq<CommandView>> {
    match p {
        Platform::MacOs => Some(
            seq![cv("ps"@, seq!["aux"@, if sort_by == "mem"@ { "-m"@ } else { "-r"@ }])],
        ),
        Platform::Linux => Some(
            seq![
                cv(
                    "ps"@,
                    seq![
                        "aux"@,
                        if sort_by == "mem"@ {
                            "--sort=-%mem"@
                        } else {
                            "--sort=-%cpu"@
                        },
                    ],
                ),
            ],
        ),
        Platform::Windows => Some(seq![cv("tasklist"@, seq!["/FO"@, "CSV"@, "/NH"@])]),
        Platform::Other => None,
    }
}

/// The command that lists processes; `None` on an unsupported system.
pub fn processes_plan(p: Platform, sort_by: &str) -> (r: Option<Vec<Command>>)
    ensures
        (match r {
            Some(v) => Some(commands_view(v@)),
            None => None,
        }) == processes_plan_spec(p, sort_by@),
{
    let by_mem = str_eq(sort_by, "mem");
    match p {
        Platform::MacOs => {
            let v = if by_mem {
                plan1("ps", args2("aux", "-m"))
            } else {
                plan1("ps", args2("aux", "-r"))
            };
            assert(commands_view(v@) =~~= processes_plan_spec(p, sort_by@)->0);
            Some(v)
        },
        Platform::Linux => {
            let v = if by_mem {
                plan1("ps", args2("aux", "--sort=-%mem"))
            } else {
                plan1("ps", args2("aux", "--sort=-%cpu"))
            };
            assert(commands_view(v@) =~~= processes_plan_spec(p, sort_by@)->0);
            Some(v)
        },
        Platform::Windows => {
            let v = plan1("tasklist", args3("/FO", "CSV", "/NH"));
            assert(commands_view(v@) =~~= processes_plan_spec(p, sort_by@)->0);
            Some(v)
        },
        Platform::Other => None,
    }
}

/// One process of a process listing; a field is `None` where its line has
/// no such word.
pub enum ProcessRow {
    /// Words 0, 1 and 4 of a `tasklist` line.
    Windows { name: Option<String>, pid: Option<String>, mem: Option<String> },
    /// Words 0 to 3 of a `ps aux` line, and words 10 on joined by spaces
    /// (present when the line has at least ten words).
    Unix {
        user: Option<String>,
        pid: Option<String>,
        cpu: Option<String>,
        mem: Option<String>,
        command: Option<String>,
    },
}

/// The process lines of a listing: after the header, at most `limit`.
pub open spec fn process_lines(out: Seq<char>, limit: int) -> Seq<Seq<char>> {
    take_at_most(drop_at_most(lines(out), 1), limit)
}

/// The command of a `ps` line: its words from the eleventh on, joined by
/// spaces, when it has at least ten words.
pub open spec fn command_of(w: Seq<Seq<char>>) -> Option<Seq<char>> {
    if w.len() >= 10 {
        Some(join(w.skip(10), " "@))
    } else {
        None
    }
}

/// Whether `row` is what the listing reports of `line` on platform `p`.
pub open spec fn process_row_of(p: Platform, row: ProcessRow, line: Seq<char>) -> bool {
    let w = words(line);
    if p == Platform::Windows {
        row matches ProcessRow::Windows { name, pid, mem } && opt_view(name) == nth(w, 0)
            && opt_view(pid) == nth(w, 1) && opt_view(mem) == nth(w, 4)
    } else {
        row matches ProcessRow::Unix { user, pid, cpu, mem, command } && opt_view(user) == nth(w, 0)
            && opt_view(pid) == nth(w, 1) && opt_view(cpu) == nth(w, 2) && opt_view(mem) == nth(
            w,
            3,
        ) && opt_view(command) == command_of(w)
    }
}

/// The words of a `ps` line from the eleventh on, joined by spaces.
fn command_exec(w: &Vec<Vec<char>>) -> (r: Option<String>)
    ensures
        opt_view(r) == command_of(views(w@)),
{
    if w.len() >= 10 {
        let rest = crate::text::copy_range(w, 10, w.len());
        assert(views(w@).skip(10) =~= views(w@).subrange(10, w@.len() as int));
        let sep = chars_of(" ");
        let j = join_exec(&rest, &sep);
        Some(string_of(&j))
    } else {
        None
    }
}

/// The processes of a listing: after the header line, at most `limit`.
pub fn processes_report(p: Platform, limit: usize, out: &String) -> (r: Vec<ProcessRow>)
    ensures
        r@.len() == process_lines(out@, limit as int).len(),
        forall|i: int|
            0 <= i < r@.len() ==> process_row_of(p, #[trigger] r@[i], process_lines(out@, limit as int)[i]),
{
    let ls = lines_of_str(out.as_str());
    let rows = skip_take(&ls, 1, limit);
    let mut r: Vec<ProcessRow> = Vec::new();
    let mut i: usize = 0;
    while i < rows.len()
        invariant
            i <= rows.len(),
            views(rows@) == process_lines(out@, limit as int),
            r@.len() == i,
            forall|k: int| 0 <= k < i ==> process_row_of(p, #[trigger] r@[k], views(rows@)[k]),
        decreases rows.len() - i,
    {
        let w = words_of(&rows[i]);
        let row = if p == Platform::Windows {
            ProcessRow::Windows { name: word_at(&w, 0), pid: word_at(&w, 1), mem: word_at(&w, 4) }
        } else {
            ProcessRow::Unix {
                user: word_at(&w, 0),
                pid: word_at(&w, 1),
                cpu: word_at(&w, 2),
                mem: word_at(&w, 3),
                command: command_exec(&w),
            }
        };
        assert(views(rows@)[i as int] == rows@[i as int]@);
        r.push(row);
        i = i + 1;
    }
    r
}

// ---------------------------------------------------------------------------
// Network information
// ---------------------------------------------------------------------------

/// The commands behind the network information.
pub open spec fn network_plan_spec(p: Platform) -> Option<Seq<CommandView>> {
    match p {
        Platform::MacOs => Some(
            seq![
                cv("ifconfig"@, Seq::empty()),
                cv("networksetup"@, seq!["-getairportnetwork"@, "en0"@]),
                cv("scutil"@, seq!["--nc"@, "list"@]),
                cv("netstat"@, seq!["-an"@]),
            ],
        ),
        Platform::Linux => Some(
            seq![
                cv("hostname"@, seq!["-I"@]),
                cv("iwgetid"@, seq!["-r"@]),
                cv("ss"@, seq!["-tun"@]),
                cv(
                    "nmcli"@,
                    seq!["-t"@, "-f"@, "TYPE,STATE"@, "connection"@, "show"@, "--active"@],
                ),
            ],
        ),
        Platform::Windows => Some(
            seq![
                cv("ipconfig"@, Seq::empty()),
                cv("netsh"@, seq!["wlan"@, "show"@, "interfaces"@]),
                cv("rasdial"@, Seq::empty()),
                cv("netstat"@, seq!["-an"@]),
            ],
        ),
        Platform::Other => None,
    }
}

/// The commands behind the network information; `None` on an unsupported system.
pub fn network_plan(p: Platform) -> (r: Option<Vec<Command>>)
    ensures
        (match r {
            Some(v) => Some(commands_view(v@)),
            None => None,
        }) == network_plan_spec(p),
{
    match p {
        Platform::MacOs => {
            let mut v = plan1("ifconfig", no_args());
            step(&mut v, "networksetup", args2("-getairportnetwork", "en0"));
            step(&mut v, "scutil", args2("--nc", "list"));
            step(&mut v, "netstat", args1("-an"));
            assert(commands_view(v@) =~~= network_plan_spec(p)->0);
            Some(v)
        },
        Platform::Linux => {
            let mut v = plan1("hostname", args1("-I"));
            step(&mut v, "iwgetid", args1("-r"));
            step(&mut v, "ss", args1("-tun"));
            step(&mut v, "nmcli", args6("-t", "-f", "TYPE,STATE", "connection", "show", "--active"));
            assert(commands_view(v@) =~~= network_plan_spec(p)->0);
            Some(v)
        },
        Platform::Windows => {
            let mut v = plan1("ipconfig", no_args());
            step(&mut v, "netsh", args3("wlan", "show", "interfaces"));
            step(&mut v, "rasdial", no_args());
            step(&mut v, "netstat", args1("-an"));
            assert(commands_view(v@) =~~= network_plan_spec(p)->0);
            Some(v)
        },
        Platform::Other => None,
    }
}

/// Address, wireless network, VPN and connection figures.
pub enum NetworkInfo {
    MacOs { ip: String, wifi: String, vpn: bool, connections: usize },
    Linux { ip: String, wifi: String, vpn: bool, connections: usize },
    Windows { ip: String, wifi: String, vpn: bool, connections: usize },
}

/// The number of lines of `out` that pass `t`.
pub open spec fn count_lines(out: Seq<char>, t: LineTestView) -> int {
    lines(out).filter(line_pred(t)).len() as int
}

/// The second word of the first line that passes `t`, or `dflt`.
pub open spec fn word_of_line(out: Seq<char>, t: LineTestView, dflt: Seq<char>) -> Seq<char> {
    match find_line(lines(out), line_pred(t)) {
        Some(l) => match nth(words(l), 1) {
            Some(w) => w,
            None => dflt,
        },
        None => dflt,
    }
}

/// The text after the first colon of the first line that passes `t`, or
/// `dflt`, trimmed.
pub open spec fn colon_field_of_line(out: Seq<char>, t: LineTestView, dflt: Seq<char>) -> Seq<char> {
    trim(
        match find_line(lines(out), line_pred(t)) {
            Some(l) => match crate::text::second_field(l, ':') {
                Some(f) => f,
                None => dflt,
            },
            None => dflt,
        },
    )
}

/// The trimmed text after the first colon of `out`, or `dflt`.
pub open spec fn colon_field_or(out: Seq<char>, dflt: Seq<char>) -> Seq<char> {
    match crate::text::second_field(out, ':') {
        Some(f) => trim(f),
        None => dflt,
    }
}

/// The number of lines of `out` that pass `t`.
fn count_lines_exec(out: &String, t: &LineTest) -> (n: usize)
    ensures
        n == count_lines(out@, t@),
{
    let ls = lines_of_str(out.as_str());
    let kept = filter_passing(&ls, t);
    assert(views(kept@).len() == kept@.len());
    kept.len()
}

/// Whether some line of `out` passes `t`.
fn any_line_exec(out: &String, t: &LineTest) -> (b: bool)
    ensures
        b == (count_lines(out@, t@) > 0),
{
    count_lines_exec(out, t) > 0
}

/// The second word of the first line that passes `t`, or `dflt`.
fn word_of_line_exec(out: &String, t: &LineTest, dflt: &str) -> (r: String)
    ensures
        r@ == word_of_line(out@, t@, dflt@),
{
    let ls = lines_of_str(out.as_str());
    match first_passing(&ls, t) {
        Some(k) => {
            let w = words_of(&ls[k]);
            match word_at(&w, 1) {
                Some(s) => s,
                None => owned(dflt),
            }
        },
        None => owned(dflt),
    }
}

/// The trimmed text after the first colon of the first line that passes
/// `t`, or `dflt` trimmed.
fn colon_field_of_line_exec(out: &String, t: &LineTest, dflt: &str) -> (r: String)
    ensures
        r@ == colon_field_of_line(out@, t@, dflt@),
{
    let ls = lines_of_str(out.as_str());
    let f = match first_passing(&ls, t) {
        Some(k) => match crate::text::second_field_of(&ls[k], ':') {
            Some(f) => f,
            None => chars_of(dflt),
        },
        None => chars_of(dflt),
    };
    assert(f@.subrange(0, f@.len() as int) =~= f@);
    trim_range(&f, 0, f.len())
}

/// The trimmed text after the first colon of `out`, or `dflt`.
fn colon_field_or_exec(out: &String, dflt: &str) -> (r: String)
    ensures
        r@ == colon_field_or(out@, dflt@),
{
    let v = chars_of(out.as_str());
    match crate::text::second_field_of(&v, ':') {
        Some(f) => {
            assert(f@.subrange(0, f@.len() as int) =~= f@);
            trim_range(&f, 0, f.len())
        },
        None => owned(dflt),
    }
}

/// The network information reported from the output of the plan's commands.
pub fn network_report(p: Platform, out: &Vec<String>) -> (r: Option<NetworkInfo>)
    requires
        p == Platform::MacOs ==> out.len() == 4,
        p == Platform::Linux ==> out.len() == 4,
        p == Platform::Windows ==> out.len() == 4,
    ensures
        match (p, r) {
            (Platform::MacOs, Some(NetworkInfo::MacOs { ip, wifi, vpn, connections })) => {
                &&& ip@ == word_of_line(
                    out@[0]@,
                    LineTestView::ContainsButNot("inet "@, "127.0.0.1"@),
                    "unknown"@,
                )
                &&& wifi@ == colon_field_or(out@[1]@, "N/A"@)
                &&& vpn == (count_lines(out@[2]@, LineTestView::Contains("Connected"@)) > 0)
                &&& connections == count_lines(out@[3]@, LineTestView::Contains("ESTABLISHED"@))
            },
            (Platform::Linux, Some(NetworkInfo::Linux { ip, wifi, vpn, connections })) => {
                &&& ip@ == trim(out@[0]@)
                &&& wifi@ == trim(out@[1]@)
                &&& vpn == (count_lines(
                    out@[3]@,
                    LineTestView::ContainsEither("vpn"@, "wireguard"@),
                ) > 0)
                &&& connections == count_lines(out@[2]@, LineTestView::Contains("ESTAB"@))
            },
            (Platform::Windows, Some(NetworkInfo::Windows { ip, wifi, vpn, connections })) => {
                &&& ip@ == colon_field_of_line(out@[0]@, LineTestView::Contains("IPv4"@), "unknown"@)
                &&& wifi@ == colon_field_of_line(
                    out@[1]@,
                    LineTestView::ContainsButNot("SSID"@, "BSSID"@),
                    "N/A"@,
                )
                &&& vpn == (count_lines(out@[2]@, LineTestView::Contains("Connected to"@)) > 0)
                &&& connections == count_lines(out@[3]@, LineTestView::Contains("ESTABLISHED"@))
            },
            (Platform::Other, None) => true,
            _ => false,
        },
{
    match p {
        Platform::MacOs => {
            let ip = word_of_line_exec(
                &out[0],
                &LineTest::ContainsButNot(owned("inet "), owned("127.0.0.1")),
                "unknown",
            );
            let wifi = colon_field_or_exec(&out[1], "N/A");
            let vpn = any_line_exec(&out[2], &LineTest::Contains(owned("Connected")));
            let connections = count_lines_exec(&out[3], &LineTest::Contains(owned("ESTABLISHED")));
            Some(NetworkInfo::MacOs { ip, wifi, vpn, connections })
        },
        Platform::Linux => {
            let connections = count_lines_exec(&out[2], &LineTest::Contains(owned("ESTAB")));
            let vpn = any_line_exec(
                &out[3],
                &LineTest::ContainsEither(owned("vpn"), owned("wireguard")),
            );
            Some(NetworkInfo::Linux { ip: trimmed(&out[0]), wifi: trimmed(&out[1]), vpn, connections })
        },
        Platform::Windows => {
            let ip = colon_field_of_line_exec(&out[0], &LineTest::Contains(owned("IPv4")), "unknown");
            let wifi = colon_field_of_line_exec(
                &out[1],
                &LineTest::ContainsButNot(owned("SSID"), owned("BSSID")),
                "N/A",
            );
            let vpn = any_line_exec(&out[2], &LineTest::Contains(owned("Connected to")));
            let connections = count_lines_exec(&out[3], &LineTest::Contains(owned("ESTABLISHED")));
            Some(NetworkInfo::Windows { ip, wifi, vpn, connections })
        },
        Platform::Other => None,
    }
}

// ---------------------------------------------------------------------------
// Security status
// ---------------------------------------------------------------------------

/// The commands behind the security status.
pub open spec fn security_plan_spec(p: Platform) -> Option<Seq<CommandView>> {
    match p {
        Platform::MacOs => Some(
            seq![
                cv("fdesetup"@, seq!["status"@]),
                cv("defaults"@, seq!["read"@, "/Library/Preferences/com.apple.alf"@, "globalstate"@]),
                cv("csrutil"@, seq!["status"@]),
                cv("spctl"@, seq!["--status"@]),
            ],
        ),
        Platform::Linux => Some(
            seq![
                cv("ufw"@, seq!["status"@]),
                cv("getenforce"@, Seq::empty()),
                cv("lsblk"@, seq!["-o"@, "NAME,FSTYPE"@]),
            ],
        ),
        Platform::Windows => Some(
            seq![
                cv("netsh"@, seq!["advfirewall"@, "show"@, "allprofiles"@, "state"@]),
                cv("manage-bde"@, seq!["-status"@, "C:"@]),
                cv(
                    "powershell"@,
                    seq![
                        "-Command"@,
                        "Get-MpComputerStatus | Select-Object RealTimeProtectionEnabled"@,
                    ],
                ),
            ],
        ),
        Platform::Other => None,
    }
}

/// The commands behind the security status; `None` on an unsupported system.
pub fn security_plan(p: Platform) -> (r: Option<Vec<Command>>)
    ensures
        (match r {
            Some(v) => Some(commands_view(v@)),
            None => None,
        }) == security_plan_spec(p),
{
    match p {
        Platform::MacOs => {
            let mut v = plan1("fdesetup", args1("status"));
            step(
                &mut v,
                "defaults",
                args3("read", "/Library/Preferences/com.apple.alf", "globalstate"),
            );
            step(&mut v, "csrutil", args1("status"));
            step(&mut v, "spctl", args1("--status"));
            assert(commands_view(v@) =~~= security_plan_spec(p)->0);
            Some(v)
        },
        Platform::Linux => {
            let mut v = plan1("ufw", args1("status"));
            step(&mut v, "getenforce", no_args());
            step(&mut v, "lsblk", args2("-o", "NAME,FSTYPE"));
            assert(commands_view(v@) =~~= security_plan_spec(p)->0);
            Some(v)
        },
        Platform::Windows => {
            let mut v = plan1("netsh", args4("advfirewall", "show", "allprofiles", "state"));
            step(&mut v, "manage-bde", args2("-status", "C:"));
            step(
                &mut v,
                "powershell",
                args2("-Command", "Get-MpComputerStatus | Select-Object RealTimeProtectionEnabled"),
            );
            assert(commands_view(v@) =~~= security_plan_spec(p)->0);
            Some(v)
        },
        Platform::Other => None,
    }
}

/// Disk encryption, firewall and platform protections.
pub enum SecurityStatus {
    MacOs { filevault: bool, firewall: bool, sip: bool, gatekeeper: bool },
    Linux { firewall: bool, selinux: String, disk_encrypted: bool },
    Windows { firewall: bool, bitlocker: bool, defender: bool },
}

/// Whether the application firewall's `globalstate` output says it is on:
/// not `"0"` once trimmed, and not empty.
pub open spec fn alf_on(out: Seq<char>) -> bool {
    trim(out) != "0"@ && out.len() > 0
}

/// The security status reported from the output of the plan's commands.
pub fn security_report(p: Platform, out: &Vec<String>) -> (r: Option<SecurityStatus>)
    requires
        p == Platform::MacOs ==> out.len() == 4,
        p == Platform::Linux || p == Platform::Windows ==> out.len() == 3,
    ensures
        match (p, r) {
            (Platform::MacOs, Some(SecurityStatus::MacOs { filevault, firewall, sip, gatekeeper })) => {
                &&& filevault == contains(out@[0]@, "On"@)
                &&& firewall == alf_on(out@[1]@)
                &&& sip == contains(out@[2]@, "enabled"@)
                &&& gatekeeper == contains(out@[3]@, "enabled"@)
            },
            (Platform::Linux, Some(SecurityStatus::Linux { firewall, selinux, disk_encrypted })) => {
                &&& firewall == contains(out@[0]@, "Status: active"@)
                &&& selinux@ == trim(out@[1]@)
                &&& disk_encrypted == contains(out@[2]@, "crypto_LUKS"@)
            },
            (Platform::Windows, Some(SecurityStatus::Windows { firewall, bitlocker, defender })) => {
                &&& firewall == contains(out@[0]@, "ON"@)
                &&& bitlocker == contains(out@[1]@, "Fully Encrypted"@)
                &&& defender == contains(out@[2]@, "True"@)
            },
            (Platform::Other, None) => true,
            _ => false,
        },
{
    match p {
        Platform::MacOs => {
            let fw = trimmed(&out[1]);
            let zero = str_eq(fw.as_str(), "0");
            Some(
                SecurityStatus::MacOs {
                    filevault: str_contains(out[0].as_str(), "On"),
                    firewall: !zero && out[1].as_str().unicode_len() > 0,
                    sip: str_contains(out[2].as_str(), "enabled"),
                    gatekeeper: str_contains(out[3].as_str(), "enabled"),
                },
            )
        },
        Platform::Linux => Some(
            SecurityStatus::Linux {
                firewall: str_contains(out[0].as_str(), "Status: active"),
                selinux: trimmed(&out[1]),
                disk_encrypted: str_contains(out[2].as_str(), "crypto_LUKS"),
            },
        ),
        Platform::Windows => Some(
            SecurityStatus::Windows {
                firewall: str_contains(out[0].as_str(), "ON"),
                bitlocker: str_contains(out[1].as_str(), "Fully Encrypted"),
                defender: str_contains(out[2].as_str(), "True"),
            },
        ),
        Platform::Other => None,
    }
}

// ---------------------------------------------------------------------------
// Line reports
// ---------------------------------------------------------------------------

/// The lines of `out` after the first `skip`, at most `take` of them.
pub open spec fn window(out: Seq<char>, skip: int, take: int) -> Seq<Seq<char>> {
    take_at_most(drop_at_most(lines(out), skip), take)
}

/// The lines of `out` after the first `skip`, at most `take` of them.
pub fn window_lines(out: &String, skip: usize, take: usize) -> (r: Vec<String>)
    ensures
        strings_view(r@) == window(out@, skip as int, take as int),
{
    let ls = lines_of_str(out.as_str());
    let w = skip_take(&ls, skip, take);
    strings_of_lines(&w)
}

/// The lines of `out` that pass `t`.
pub fn matching_lines(out: &String, t: &LineTest) -> (r: Vec<String>)
    ensures
        strings_view(r@) == lines(out@).filter(line_pred(t@)),
{
    let ls = lines_of_str(out.as_str());
    let kept = filter_passing(&ls, t);
    strings_of_lines(&kept)
}

/// Each of `ls` trimmed.
pub fn trim_lines(ls: &Vec<Vec<char>>) -> (r: Vec<String>)
    ensures
        r@.len() == ls@.len(),
        forall|i: int| 0 <= i < ls@.len() ==> (#[trigger] r@[i])@ == trim(ls@[i]@),
{
    let mut r: Vec<String> = Vec::new();
    let mut i: usize = 0;
    while i < ls.len()
        invariant
            i <= ls.len(),
            r@.len() == i,
            forall|k: int| 0 <= k < i ==> (#[trigger] r@[k])@ == trim(ls@[k]@),
        decreases ls.len() - i,
    {
        let l = &ls[i];
        assert(l@.subrange(0, l@.len() as int) =~= l@);
        r.push(trim_range(l, 0, l.len()));
        i = i + 1;
    }
    r
}

// ---------------------------------------------------------------------------
// Open ports
// ---------------------------------------------------------------------------

/// The command that lists listening TCP ports.
pub open spec fn ports_plan_spec(p: Platform) -> Option<Seq<CommandView>> {
    match p {
        Platform::MacOs => Some(seq![cv("lsof"@, seq!["-iTCP"@, "-sTCP:LISTEN"@, "-nP"@])]),
        Platform::Linux => Some(seq![cv("ss"@, seq!["-tlnp"@])]),
        Platform::Windows => Some(seq![cv("netstat"@, seq!["-an"@, "-p"@, "TCP"@])]),
        Platform::Other => None,
    }
}

/// The command that lists listening TCP ports; `None` on an unsupported system.
pub fn ports_plan(p: Platform) -> (r: Option<Vec<Command>>)
    ensures
        (match r {
            Some(v) => Some(commands_view(v@)),
            None => None,
        }) == ports_plan_spec(p),
{
    match p {
        Platform::MacOs => {
            let v = plan1("lsof", args3("-iTCP", "-sTCP:LISTEN", "-nP"));
            assert(commands_view(v@) =~~= ports_plan_spec(p)->0);
            Some(v)
        },
        Platform::Linux => {
            let v = plan1("ss", args1("-tlnp"));
            assert(commands_view(v@) =~~= ports_plan_spec(p)->0);
            Some(v)
        },
        Platform::Windows => {
            let v = plan1("netstat", args3("-an", "-p", "TCP"));
            assert(commands_view(v@) =~~= ports_plan_spec(p)->0);
            Some(v)
        },
        Platform::Other => None,
    }
}

/// The listing lines that stand for listening ports: of the twenty after
/// the header, those that say `LISTEN` (on Linux, all of them).
pub open spec fn port_lines(p: Platform, out: Seq<char>) -> Seq<Seq<char>> {
    let w = window(out, 1, 20);
    if p == Platform::Linux {
        w
    } else {
        w.filter(line_pred(LineTestView::Contains("LISTEN"@)))
    }
}

/// The listening ports of a listing, one trimmed line each.
pub fn ports_report(p: Platform, out: &String) -> (r: Vec<String>)
    ensures
        r@.len() == port_lines(p, out@).len(),
        forall|i: int| 0 <= i < r@.len() ==> (#[trigger] r@[i])@ == trim(port_lines(p, out@)[i]),
{
    let ls = lines_of_str(out.as_str());
    let w = skip_take(&ls, 1, 20);
    let kept = if p == Platform::Linux {
        w
    } else {
        filter_passing(&w, &LineTest::Contains(owned("LISTEN")))
    };
    let r = trim_lines(&kept);
    assert forall|i: int| 0 <= i < r@.len() implies (#[trigger] r@[i])@ == trim(
        port_lines(p, out@)[i],
    ) by {
        assert(views(kept@)[i] == kept@[i]@);
    }
    r
}

// ---------------------------------------------------------------------------
// Installed applications
// ---------------------------------------------------------------------------

/// The command that lists installed applications or packages.
pub open spec fn apps_plan_spec(p: Platform) -> Option<Seq<CommandView>> {
    match p {
        Platform::MacOs => Some(seq![cv("ls"@, seq!["/Applications"@])]),
        Platform::Linux => Some(seq![cv("dpkg"@, seq!["--get-selections"@])]),
        Platform::Windows => Some(seq![cv("wmic"@, seq!["product"@, "get"@, "name"@])]),
        Platform::Other => Some(Seq::empty()),
    }
}

/// The command that lists installed applications or packages (none on an
/// unsupported system, which lists no applications).
pub fn apps_plan(p: Platform) -> (r: Vec<Command>)
    ensures
        Some(commands_view(r@)) == apps_plan_spec(p),
{
    match p {
        Platform::MacOs => {
            let v = plan1("ls", args1("/Applications"));
            assert(commands_view(v@) =~~= apps_plan_spec(p)->0);
            v
        },
        Platform::Linux => {
            let v = plan1("dpkg", args1("--get-selections"));
            assert(commands_view(v@) =~~= apps_plan_spec(p)->0);
            v
        },
        Platform::Windows => {
            let v = plan1("wmic", args3("product", "get", "name"));
            assert(commands_view(v@) =~~= apps_plan_spec(p)->0);
            v
        },
        Platform::Other => {
            let v: Vec<Command> = Vec::new();
            assert(commands_view(v@) =~~= apps_plan_spec(p)->0);
            v
        },
    }
}

/// The application names of a listing: on macOS the `.app` entries without
/// that suffix; on Linux the first word of each of the first thirty lines
/// that has one; on Windows the non-blank lines among the thirty after the
/// header, trimmed; elsewhere none.
pub open spec fn app_list(p: Platform, out: Seq<Seq<char>>) -> Seq<Seq<char>> {
    match p {
        Platform::MacOs => lines(out[0]).filter(line_pred(LineTestView::EndsWith(".app"@))).map_values(
            |l: Seq<char>| trim_end_matches(l, ".app"@),
        ),
        Platform::Linux => take_at_most(lines(out[0]), 30).filter(
            line_pred(LineTestView::NotBlank),
        ).map_values(|l: Seq<char>| words(l)[0]),
        Platform::Windows => window(out[0], 1, 30).filter(line_pred(LineTestView::NotBlank)).map_values(
            |l: Seq<char>| trim(l),
        ),
        Platform::Other => Seq::empty(),
    }
}

/// The application names reported from the output of the plan's command.
pub fn apps_report(p: Platform, out: &Vec<String>) -> (r: Vec<String>)
    requires
        p != Platform::Other ==> out.len() == 1,
    ensures
        strings_view(r@) == app_list(p, strings_view(out@)),
{
    let mut r: Vec<String> = Vec::new();
    match p {
        Platform::MacOs => {
            let ls = lines_of_str(out[0].as_str());
            let kept = filter_passing(&ls, &LineTest::EndsWith(owned(".app")));
            let sv = chars_of(".app");
            let mut i: usize = 0;
            while i < kept.len()
                invariant
                    i <= kept.len(),
                    sv@ == ".app"@,
                    r@.len() == i,
                    forall|k: int|
                        0 <= k < i ==> (#[trigger] r@[k])@ == trim_end_matches(kept@[k]@, ".app"@),
                decreases kept.len() - i,
            {
                proof {
                    reveal_strlit(".app");
                }
                let n = trim_end_matches_exec(&kept[i], &sv);
                r.push(string_of(&n));
                i = i + 1;
            }
            assert forall|k: int| 0 <= k < kept@.len() implies views(kept@)[k] == kept@[k]@ by {}
            assert(strings_view(r@) =~= app_list(p, strings_view(out@)));
        },
        Platform::Linux => {
            let ls = lines_of_str(out[0].as_str());
            let first = skip_take(&ls, 0, 30);
            assert(drop_at_most(views(ls@), 0) =~= views(ls@));
            let kept = filter_passing(&first, &LineTest::NotBlank);
            let mut i: usize = 0;
            while i < kept.len()
                invariant
                    i <= kept.len(),
                    forall|k: int| 0 <= k < kept@.len() ==> trim(#[trigger] views(kept@)[k]).len() > 0,
                    r@.len() == i,
                    forall|k: int| 0 <= k < i ==> (#[trigger] r@[k])@ == words(kept@[k]@)[0],
                decreases kept.len() - i,
            {
                let w = words_of(&kept[i]);
                proof {
                    assert(views(kept@)[i as int] == kept@[i as int]@);
                    crate::text::lemma_not_blank_has_word(kept@[i as int]@);
                }
                r.push(string_of(&w[0]));
                i = i + 1;
            }
            assert(strings_view(r@) =~= app_list(p, strings_view(out@)));
        },
        Platform::Windows => {
            let ls = lines_of_str(out[0].as_str());
            let w = skip_take(&ls, 1, 30);
            let kept = filter_passing(&w, &LineTest::NotBlank);
            r = trim_lines(&kept);
            assert forall|k: int| 0 <= k < kept@.len() implies views(kept@)[k] == kept@[k]@ by {}
            assert(strings_view(r@) =~= app_list(p, strings_view(out@)));
        },
        Platform::Other => {
            assert(strings_view(r@) =~= app_list(p, strings_view(out@)));
        },
    }
    r
}

// ---------------------------------------------------------------------------
// Diagnosis: ping, traceroute, DNS, URL
// ---------------------------------------------------------------------------

/// The command that pings `host` `count` times.
pub open spec fn ping_plan_spec(p: Platform, host: Seq<char>, count: u32) -> Option<Seq<CommandView>> {
    match p {
        Platform::MacOs | Platform::Linux => Some(
            seq![cv("ping"@, seq!["-c"@, decimal(count as nat), host])],
        ),
        Platform::Windows => Some(seq![cv("ping"@, seq!["-n"@, decimal(count as nat), host])]),
        Platform::Other => None,
    }
}

/// The command that pings `host` `count` times; `None` on an unsupported system.
pub fn ping_plan(p: Platform, host: &str, count: u32) -> (r: Option<Vec<Command>>)
    ensures
        (match r {
            Some(v) => Some(commands_view(v@)),
            None => None,
        }) == ping_plan_spec(p, host@, count),
{
    let flag = match p {
        Platform::Windows => "-n",
        _ => "-c",
    };
    if p == Platform::Other {
        return None;
    }
    let mut a = args1(flag);
    let n = decimal_string(count as u64);
    let ghost nv = n@;
    arg_string(&mut a, n);
    arg(&mut a, host);
    assert(strings_view(a@) =~= seq![flag@, nv, host@]);
    assert(flag@ == (if p == Platform::Windows { "-n"@ } else { "-c"@ }));
    let v = plan1("ping", a);
    assert(commands_view(v@) =~~= ping_plan_spec(p, host@, count)->0);
    Some(v)
}

/// The outcome of a ping.
pub struct PingReport {
    /// Whether any echo reply came back.
    pub reachable: bool,
    /// The last two lines of the output (the statistics), joined by a newline.
    pub stats: String,
}

/// The last two lines of `out` (fewer if it has fewer), joined by a newline.
pub open spec fn ping_stats(out: Seq<char>) -> Seq<char> {
    let ls = lines(out);
    join(ls.skip(if ls.len() >= 2 { ls.len() - 2 } else { 0 }), "\n"@)
}

/// The outcome of a ping, from its output.
pub fn ping_report(out: &String) -> (r: PingReport)
    ensures
        r.reachable == (contains(out@, "bytes from"@) || contains(out@, "Reply from"@)),
        r.stats@ == ping_stats(out@),
{
    let ls = lines_of_str(out.as_str());
    let from = if ls.len() >= 2 {
        ls.len() - 2
    } else {
        0
    };
    let last = crate::text::copy_range(&ls, from, ls.len());
    assert(views(ls@).skip(from as int) =~= views(ls@).subrange(from as int, ls@.len() as int));
    let sep = chars_of("\n");
    let joined = join_exec(&last, &sep);
    PingReport {
        reachable: str_contains(out.as_str(), "bytes from") || str_contains(
            out.as_str(),
            "Reply from",
        ),
        stats: string_of(&joined),
    }
}

/// The command that traces the route to `host`.
pub open spec fn traceroute_plan_spec(p: Platform, host: Seq<char>) -> Option<Seq<CommandView>> {
    match p {
        Platform::MacOs | Platform::Linux => Some(
            seq![cv("traceroute"@, seq!["-m"@, "15"@, "-w"@, "2"@, host])],
        ),
        Platform::Windows => Some(seq![cv("tracert"@, seq!["-h"@, "15"@, "-w"@, "2000"@, host])]),
        Platform::Other => None,
    }
}

/// The command that traces the route to `host`; `None` on an unsupported system.
pub fn traceroute_plan(p: Platform, host: &str) -> (r: Option<Vec<Command>>)
    ensures
        (match r {
            Some(v) => Some(commands_view(v@)),
            None => None,
        }) == traceroute_plan_spec(p, host@),
{
    match p {
        Platform::MacOs | Platform::Linux => {
            let mut a = args4("-m", "15", "-w", "2");
            arg(&mut a, host);
            assert(strings_view(a@) =~= seq!["-m"@, "15"@, "-w"@, "2"@, host@]);
            let v = plan1("traceroute", a);
            assert(commands_view(v@) =~~= traceroute_plan_spec(p, host@)->0);
            Some(v)
        },
        Platform::Windows => {
            let mut a = args4("-h", "15", "-w", "2000");
            arg(&mut a, host);
            assert(strings_view(a@) =~= seq!["-h"@, "15"@, "-w"@, "2000"@, host@]);
            let v = plan1("tracert", a);
            assert(commands_view(v@) =~~= traceroute_plan_spec(p, host@)->0);
            Some(v)
        },
        Platform::Other => None,
    }
}

/// The hops of a trace: the fifteen lines after the header.
pub fn traceroute_report(out: &String) -> (r: Vec<String>)
    ensures
        strings_view(r@) == window(out@, 1, 15),
{
    window_lines(out, 1, 15)
}

/// The command that resolves `hostname`.
pub open spec fn dns_plan_spec(p: Platform, hostname: Seq<char>) -> Option<Seq<CommandView>> {
    if p == Platform::Other {
        None
    } else {
        Some(seq![cv("nslookup"@, seq![hostname])])
    }
}

/// The command that resolves `hostname`; `None` on an unsupported system.
pub fn dns_plan(p: Platform, hostname: &str) -> (r: Option<Vec<Command>>)
    ensures
        (match r {
            Some(v) => Some(commands_view(v@)),
            None => None,
        }) == dns_plan_spec(p, hostname@),
{
    if p == Platform::Other {
        return None;
    }
    let v = plan1("nslookup", args1(hostname));
    assert(commands_view(v@) =~~= dns_plan_spec(p, hostname@)->0);
    Some(v)
}

/// The address lines of `nslookup` output: those that mention `Address`
/// and not `#` (which marks the server's own address).
pub open spec fn address_lines(out: Seq<char>) -> Seq<Seq<char>> {
    lines(out).filter(line_pred(LineTestView::ContainsButNot("Address"@, "#"@)))
}

/// The address lines of `nslookup` output; the name resolved when there is one.
pub fn dns_report(out: &String) -> (r: Vec<String>)
    ensures
        strings_view(r@) == address_lines(out@),
{
    matching_lines(out, &LineTest::ContainsButNot(owned("Address"), owned("#")))
}

/// The PowerShell script that fetches `url` on Windows.
pub open spec fn url_script(url: Seq<char>) -> Seq<char> {
    "try { $r = Invoke-WebRequest -Uri '"@ + url
        + "' -TimeoutSec 10 -UseBasicParsing; \"$($r.StatusCode) 0\" } catch { \"0 0\" }"@
}

/// The command that fetches `url` and prints its status code and time.
pub open spec fn url_plan_spec(p: Platform, url: Seq<char>) -> Option<Seq<CommandView>> {
    match p {
        Platform::MacOs | Platform::Linux => Some(
            seq![
                cv(
                    "curl"@,
                    seq![
                        "-o"@,
                        "/dev/null"@,
                        "-s"@,
                        "-w"@,
                        "%{http_code} %{time_total}"@,
                        "-m"@,
                        "10"@,
                        url,
                    ],
                ),
            ],
        ),
        Platform::Windows => Some(seq![cv("powershell"@, seq!["-Command"@, url_script(url)])]),
        Platform::Other => None,
    }
}

/// The command that fetches `url`; `None` on an unsupported system.
pub fn url_plan(p: Platform, url: &str) -> (r: Option<Vec<Command>>)
    ensures
        (match r {
            Some(v) => Some(commands_view(v@)),
            None => None,
        }) == url_plan_spec(p, url@),
{
    match p {
        Platform::MacOs | Platform::Linux => {
            let mut a = args6("-o", "/dev/null", "-s", "-w", "%{http_code} %{time_total}", "-m");
            arg(&mut a, "10");
            arg(&mut a, url);
            assert(strings_view(a@) =~= seq![
                "-o"@,
                "/dev/null"@,
                "-s"@,
                "-w"@,
                "%{http_code} %{time_total}"@,
                "-m"@,
                "10"@,
                url@,
            ]);
            let v = plan1("curl", a);
            assert(commands_view(v@) =~~= url_plan_spec(p, url@)->0);
            Some(v)
        },
        Platform::Windows => {
            let mut a = args1("-Command");
            let script = crate::text::concat3(
                "try { $r = Invoke-WebRequest -Uri '",
                url,
                "' -TimeoutSec 10 -UseBasicParsing; \"$($r.StatusCode) 0\" } catch { \"0 0\" }",
            );
            let ghost sv = script@;
            arg_string(&mut a, script);
            assert(strings_view(a@) =~= seq!["-Command"@, sv]);
            let v = plan1("powershell", a);
            assert(commands_view(v@) =~~= url_plan_spec(p, url@)->0);
            Some(v)
        },
        Platform::Other => None,
    }
}

/// The outcome of fetching a URL.
pub struct UrlReport {
    /// The first word of the output, or `"0"`.
    pub status: String,
    /// The second word of the output, or `"?"`.
    pub time_sec: String,
    /// Whether the output has a first word that is neither `"000"` nor `"0"`.
    pub reachable: bool,
}

/// The outcome of fetching a URL, from the command's output.
pub fn url_report(out: &String) -> (r: UrlReport)
    ensures
        r.status@ == (match nth(words(out@), 0) {
            Some(w) => w,
            None => "0"@,
        }),
        r.time_sec@ == (match nth(words(out@), 1) {
            Some(w) => w,
            None => "?"@,
        }),
        r.reachable == (match nth(words(out@), 0) {
            Some(w) => w != "000"@ && w != "0"@,
            None => false,
        }),
{
    let v = chars_of(out.as_str());
    let w = words_of(&v);
    let (status, reachable) = match word_at(&w, 0) {
        Some(s) => {
            let ok = !str_eq(s.as_str(), "000") && !str_eq(s.as_str(), "0");
            (s, ok)
        },
        None => (owned("0"), false),
    };
    let time_sec = match word_at(&w, 1) {
        Some(s) => s,
        None => owned("?"),
    };
    UrlReport { status, time_sec, reachable }
}

// ---------------------------------------------------------------------------
// Diagnosis: disk, battery, USB, crashes
// ---------------------------------------------------------------------------

/// The command that reports disk health.
pub open spec fn disk_health_plan_spec(p: Platform) -> Option<Seq<CommandView>> {
    match p {
        Platform::MacOs => Some(seq![cv("diskutil"@, seq!["info"@, "/"@])]),
        Platform::Linux => Some(seq![cv("smartctl"@, seq!["-H"@, "/dev/sda"@])]),
        Platform::Windows => Some(seq![cv("wmic"@, seq!["diskdrive"@, "get"@, "status"@])]),
        Platform::Other => None,
    }
}

/// The command that reports disk health; `None` on an unsupported system.
pub fn disk_health_plan(p: Platform) -> (r: Option<Vec<Command>>)
    ensures
        (match r {
            Some(v) => Some(commands_view(v@)),
            None => None,
        }) == disk_health_plan_spec(p),
{
    match p {
        Platform::MacOs => {
            let v = plan1("diskutil", args2("info", "/"));
            assert(commands_view(v@) =~~= disk_health_plan_spec(p)->0);
            Some(v)
        },
        Platform::Linux => {
            let v = plan1("smartctl", args2("-H", "/dev/sda"));
            assert(commands_view(v@) =~~= disk_health_plan_spec(p)->0);
            Some(v)
        },
        Platform::Windows => {
            let v = plan1("wmic", args3("diskdrive", "get", "status"));
            assert(commands_view(v@) =~~= disk_health_plan_spec(p)->0);
            Some(v)
        },
        Platform::Other => None,
    }
}

/// The health of the system disk.
pub enum DiskHealth {
    /// The trimmed SMART line of `diskutil`, and whether it says `Verified`.
    MacOs { smart: String, healthy: bool },
    /// The trimmed result line of `smartctl`.
    Linux { output: String },
    /// The trimmed output of `wmic`.
    Windows { status: String },
}

/// The first line of `out` that passes `t`, or `dflt`.
pub open spec fn line_or(out: Seq<char>, t: LineTestView, dflt: Seq<char>) -> Seq<char> {
    match find_line(lines(out), line_pred(t)) {
        Some(l) => l,
        None => dflt,
    }
}

/// The first line of `out` that passes `t`, or `dflt`.
fn line_or_exec(out: &String, t: &LineTest, dflt: &str) -> (r: Vec<char>)
    ensures
        r@ == line_or(out@, t@, dflt@),
{
    let ls = lines_of_str(out.as_str());
    match first_passing(&ls, t) {
        Some(k) => copy_chars(&ls[k]),
        None => chars_of(dflt),
    }
}

/// The disk health reported from the output of the plan's command.
pub fn disk_health_report(p: Platform, out: &Vec<String>) -> (r: Option<DiskHealth>)
    requires
        p != Platform::Other ==> out.len() == 1,
    ensures
        match (p, r) {
            (Platform::MacOs, Some(DiskHealth::MacOs { smart, healthy })) => {
                let l = line_or(out@[0]@, LineTestView::Contains("SMART"@), "Unknown"@);
                smart@ == trim(l) && healthy == contains(l, "Verified"@)
            },
            (Platform::Linux, Some(DiskHealth::Linux { output })) => output@ == trim(
                line_or(out@[0]@, LineTestView::Contains("result"@), "unknown"@),
            ),
            (Platform::Windows, Some(DiskHealth::Windows { status })) => status@ == trim(out@[0]@),
            (Platform::Other, None) => true,
            _ => false,
        },
{
    match p {
        Platform::MacOs => {
            let l = line_or_exec(&out[0], &LineTest::Contains(owned("SMART")), "Unknown");
            assert(l@.subrange(0, l@.len() as int) =~= l@);
            let healthy = contains_exec(&l, &chars_of("Verified"));
            Some(DiskHealth::MacOs { smart: trim_range(&l, 0, l.len()), healthy })
        },
        Platform::Linux => {
            let l = line_or_exec(&out[0], &LineTest::Contains(owned("result")), "unknown");
            assert(l@.subrange(0, l@.len() as int) =~= l@);
            Some(DiskHealth::Linux { output: trim_range(&l, 0, l.len()) })
        },
        Platform::Windows => Some(DiskHealth::Windows { status: trimmed(&out[0]) }),
        Platform::Other => None,
    }
}

/// The commands that report the battery; none where there is no known way.
pub open spec fn battery_plan_spec(p: Platform) -> Seq<CommandView> {
    match p {
        Platform::MacOs => seq![
            cv("pmset"@, seq!["-g"@, "batt"@]),
            cv("system_profiler"@, seq!["SPPowerDataType"@]),
        ],
        Platform::Linux => seq![
            cv("cat"@, seq!["/sys/class/power_supply/BAT0/capacity"@]),
            cv("cat"@, seq!["/sys/class/power_supply/BAT0/status"@]),
        ],
        Platform::Windows => seq![
            cv(
                "powershell"@,
                seq![
                    "-Command"@,
                    "Get-WmiObject Win32_Battery | Select-Object EstimatedChargeRemaining,BatteryStatus"@,
                ],
            ),
        ],
        Platform::Other => Seq::empty(),
    }
}

/// The commands that report the battery.
pub fn battery_plan(p: Platform) -> (r: Vec<Command>)
    ensures
        commands_view(r@) == battery_plan_spec(p),
{
    match p {
        Platform::MacOs => {
            let mut v = plan1("pmset", args2("-g", "batt"));
            step(&mut v, "system_profiler", args1("SPPowerDataType"));
            assert(commands_view(v@) =~~= battery_plan_spec(p));
            v
        },
        Platform::Linux => {
            let mut v = plan1("cat", args1("/sys/class/power_supply/BAT0/capacity"));
            step(&mut v, "cat", args1("/sys/class/power_supply/BAT0/status"));
            assert(commands_view(v@) =~~= battery_plan_spec(p));
            v
        },
        Platform::Windows => {
            let v = plan1(
                "powershell",
                args2(
                    "-Command",
                    "Get-WmiObject Win32_Battery | Select-Object EstimatedChargeRemaining,BatteryStatus",
                ),
            );
            assert(commands_view(v@) =~~= battery_plan_spec(p));
            v
        },
        Platform::Other => {
            let v: Vec<Command> = Vec::new();
            assert(commands_view(v@) =~~= battery_plan_spec(p));
            v
        },
    }
}

/// The battery status.
pub enum BatteryStatus {
    /// The trimmed `pmset` output and the cycle count of `system_profiler`.
    MacOs { info: String, cycle_count: String },
    /// The trimmed capacity and status files.
    Linux { capacity: String, status: String },
    /// The trimmed PowerShell output.
    Windows { info: String },
    /// No battery is reported on other systems.
    NoBattery,
}

/// The battery status reported from the output of the plan's commands.
pub fn battery_report(p: Platform, out: &Vec<String>) -> (r: BatteryStatus)
    requires
        out.len() == battery_plan_spec(p).len(),
    ensures
        match (p, r) {
            (Platform::MacOs, BatteryStatus::MacOs { info, cycle_count }) => {
                &&& info@ == trim(out@[0]@)
                &&& cycle_count@ == colon_field_of_line(
                    out@[1]@,
                    LineTestView::Contains("Cycle Count"@),
                    "N/A"@,
                )
            },
            (Platform::Linux, BatteryStatus::Linux { capacity, status }) => {
                &&& capacity@ == trim(out@[0]@)
                &&& status@ == trim(out@[1]@)
            },
            (Platform::Windows, BatteryStatus::Windows { info }) => info@ == trim(out@[0]@),
            (Platform::Other, BatteryStatus::NoBattery) => true,
            _ => false,
        },
{
    match p {
        Platform::MacOs => BatteryStatus::MacOs {
            info: trimmed(&out[0]),
            cycle_count: colon_field_of_line_exec(
                &out[1],
                &LineTest::Contains(owned("Cycle Count")),
                "N/A",
            ),
        },
        Platform::Linux => BatteryStatus::Linux {
            capacity: trimmed(&out[0]),
            status: trimmed(&out[1]),
        },
        Platform::Windows => BatteryStatus::Windows { info: trimmed(&out[0]) },
        Platform::Other => BatteryStatus::NoBattery,
    }
}

/// The command that lists USB devices.
pub open spec fn usb_plan_spec(p: Platform) -> Option<Seq<CommandView>> {
    match p {
        Platform::MacOs => Some(
            seq![cv("system_profiler"@, seq!["SPUSBDataType"@, "-detailLevel"@, "mini"@])],
        ),
        Platform::Linux => Some(seq![cv("lsusb"@, Seq::empty())]),
        Platform::Windows => Some(
            seq![cv("wmic"@, seq!["path"@, "Win32_USBHub"@, "get"@, "DeviceID,Name"@])],
        ),
        Platform::Other => None,
    }
}

/// The command that lists USB devices; `None` on an unsupported system.
pub fn usb_plan(p: Platform) -> (r: Option<Vec<Command>>)
    ensures
        (match r {
            Some(v) => Some(commands_view(v@)),
            None => None,
        }) == usb_plan_spec(p),
{
    match p {
        Platform::MacOs => {
            let v = plan1("system_profiler", args3("SPUSBDataType", "-detailLevel", "mini"));
            assert(commands_view(v@) =~~= usb_plan_spec(p)->0);
            Some(v)
        },
        Platform::Linux => {
            let v = plan1("lsusb", no_args());
            assert(commands_view(v@) =~~= usb_plan_spec(p)->0);
            Some(v)
        },
        Platform::Windows => {
            let v = plan1("wmic", args4("path", "Win32_USBHub", "get", "DeviceID,Name"));
            assert(commands_view(v@) =~~= usb_plan_spec(p)->0);
            Some(v)
        },
        Platform::Other => None,
    }
}

/// The device lines of a USB listing: the first fifteen that, trimmed,
/// take more than five bytes.
pub open spec fn usb_lines(out: Seq<char>) -> Seq<Seq<char>> {
    take_at_most(lines(out).filter(line_pred(LineTestView::LongerThanFiveBytes)), 15)
}

/// The device lines of a USB listing.
pub fn usb_report(out: &String) -> (r: Vec<String>)
    ensures
        strings_view(r@) == usb_lines(out@),
{
    let ls = lines_of_str(out.as_str());
    let kept = filter_passing(&ls, &LineTest::LongerThanFiveBytes);
    let first = skip_take(&kept, 0, 15);
    assert(drop_at_most(views(kept@), 0) =~= views(kept@));
    strings_of_lines(&first)
}

/// The command that lists recent crashes, at most `limit` of them, with
/// `home` the user's home directory.
pub open spec fn crashes_plan_spec(p: Platform, limit: usize, home: Seq<char>) -> Option<
    Seq<CommandView>,
> {
    match p {
        Platform::MacOs => Some(
            seq![cv("ls"@, seq!["-lt"@, home + "/Library/Logs/DiagnosticReports"@])],
        ),
        Platform::Linux => Some(
            seq![
                cv(
                    "journalctl"@,
                    seq!["--no-pager"@, "-p"@, "err"@, "-n"@, decimal(limit as nat)],
                ),
            ],
        ),
        Platform::Windows => Some(
            seq![
                cv(
                    "powershell"@,
                    seq![
                        "-Command"@,
                        "Get-EventLog -LogName Application -EntryType Error -Newest "@ + decimal(
                            limit as nat,
                        ),
                    ],
                ),
            ],
        ),
        Platform::Other => None,
    }
}

/// The command that lists recent crashes; `None` on an unsupported system.
pub fn crashes_plan(p: Platform, limit: usize, home: &str) -> (r: Option<Vec<Command>>)
    ensures
        (match r {
            Some(v) => Some(commands_view(v@)),
            None => None,
        }) == crashes_plan_spec(p, limit, home@),
{
    match p {
        Platform::MacOs => {
            let mut a = args1("-lt");
            let dir = concat2(home, "/Library/Logs/DiagnosticReports");
            let ghost dv = dir@;
            arg_string(&mut a, dir);
            assert(strings_view(a@) =~= seq!["-lt"@, dv]);
            let v = plan1("ls", a);
            assert(commands_view(v@) =~~= crashes_plan_spec(p, limit, home@)->0);
            Some(v)
        },
        Platform::Linux => {
            let mut a = args4("--no-pager", "-p", "err", "-n");
            let n = decimal_string(limit as u64);
            let ghost nv = n@;
            arg_string(&mut a, n);
            assert(strings_view(a@) =~= seq!["--no-pager"@, "-p"@, "err"@, "-n"@, nv]);
            let v = plan1("journalctl", a);
            assert(commands_view(v@) =~~= crashes_plan_spec(p, limit, home@)->0);
            Some(v)
        },
        Platform::Windows => {
            let mut a = args1("-Command");
            let mut script = owned("Get-EventLog -LogName Application -EntryType Error -Newest ");
            crate::text::push_decimal(&mut script, limit as u64);
            let ghost sv = script@;
            arg_string(&mut a, script);
            assert(strings_view(a@) =~= seq!["-Command"@, sv]);
            let v = plan1("powershell", a);
            assert(commands_view(v@) =~~= crashes_plan_spec(p, limit, home@)->0);
            Some(v)
        },
        Platform::Other => None,
    }
}

/// The crash entries of a listing: at most `limit` lines after the first.
pub fn crashes_report(limit: usize, out: &String) -> (r: Vec<String>)
    ensures
        strings_view(r@) == window(out@, 1, limit as int),
{
    window_lines(out, 1, limit)
}

// ---------------------------------------------------------------------------
// Actions
// ---------------------------------------------------------------------------

/// What killing a process comes to.
pub enum KillPlan {
    /// Kill the process with this id by running `commands`.
    KillPid { pid: u32, commands: Vec<Command> },
    /// Kill the processes with this name by running `commands`.
    KillName { name: String, commands: Vec<Command> },
    /// The system is not supported.
    Unsupported,
    /// Neither a process id nor a name was given.
    MissingTarget,
}

/// The commands that kill process `pid` or, without one, the processes
/// named `name`.
pub open spec fn kill_commands(p: Platform, pid: Option<u32>, name: Option<Seq<char>>) -> Seq<
    CommandView,
> {
    match pid {
        Some(n) => if p == Platform::Windows {
            seq![cv("taskkill"@, seq!["/PID"@, decimal(n as nat), "/F"@])]
        } else {
            seq![cv("kill"@, seq!["-9"@, decimal(n as nat)])]
        },
        None => if p == Platform::Windows {
            seq![cv("taskkill"@, seq!["/IM"@, name->0, "/F"@])]
        } else {
            seq![cv("pkill"@, seq!["-f"@, name->0])]
        },
    }
}

/// What killing process `pid`, or else the processes named `name`, comes to:
/// a process id takes precedence over a name.
pub fn kill_plan(p: Platform, pid: Option<u32>, name: Option<&str>) -> (r: KillPlan)
    ensures
        pid is None && name is None ==> r is MissingTarget,
        (pid is Some || name is Some) && p == Platform::Other ==> r is Unsupported,
        (pid is Some || name is Some) && p != Platform::Other ==> match (pid, r) {
            (Some(n), KillPlan::KillPid { pid: k, commands }) => k == n && commands_view(commands@)
                == kill_commands(p, pid, None),
            (None, KillPlan::KillName { name: m, commands }) => m@ == name->0@ && commands_view(
                commands@,
            ) == kill_commands(p, None, Some(name->0@)),
            _ => false,
        },
{
    match pid {
        Some(n) => {
            if p == Platform::Other {
                return KillPlan::Unsupported;
            }
            let ns = decimal_string(n as u64);
            let ghost nv = ns@;
            let v = if p == Platform::Windows {
                let mut a = args1("/PID");
                arg_string(&mut a, ns);
                arg(&mut a, "/F");
                assert(strings_view(a@) =~= seq!["/PID"@, nv, "/F"@]);
                plan1("taskkill", a)
            } else {
                let mut a = args1("-9");
                arg_string(&mut a, ns);
                assert(strings_view(a@) =~= seq!["-9"@, nv]);
                plan1("kill", a)
            };
            assert(commands_view(v@) =~~= kill_commands(p, pid, None));
            KillPlan::KillPid { pid: n, commands: v }
        },
        None => match name {
            Some(m) => {
                if p == Platform::Other {
                    return KillPlan::Unsupported;
                }
                let v = if p == Platform::Windows {
                    let mut a = args2("/IM", m);
                    arg(&mut a, "/F");
                    assert(strings_view(a@) =~= seq!["/IM"@, m@, "/F"@]);
                    plan1("taskkill", a)
                } else {
                    plan1("pkill", args2("-f", m))
                };
                assert(commands_view(v@) =~~= kill_commands(p, None, Some(m@)));
                KillPlan::KillName { name: owned(m), commands: v }
            },
            None => KillPlan::MissingTarget,
        },
    }
}

/// The command that flushes the DNS cache.
pub open spec fn flush_dns_plan_spec(p: Platform) -> Option<Seq<CommandView>> {
    match p {
        Platform::MacOs => Some(seq![cv("dscacheutil"@, seq!["-flushcache"@])]),
        Platform::Linux => Some(seq![cv("systemd-resolve"@, seq!["--flush-caches"@])]),
        Platform::Windows => Some(seq![cv("ipconfig"@, seq!["/flushdns"@])]),
        Platform::Other => None,
    }
}

/// The command that flushes the DNS cache; `None` on an unsupported system.
pub fn flush_dns_plan(p: Platform) -> (r: Option<Vec<Command>>)
    ensures
        (match r {
            Some(v) => Some(commands_view(v@)),
            None => None,
        }) == flush_dns_plan_spec(p),
{
    match p {
        Platform::MacOs => {
            let v = plan1("dscacheutil", args1("-flushcache"));
            assert(commands_view(v@) =~~= flush_dns_plan_spec(p)->0);
            Some(v)
        },
        Platform::Linux => {
            let v = plan1("systemd-resolve", args1("--flush-caches"));
            assert(commands_view(v@) =~~= flush_dns_plan_spec(p)->0);
            Some(v)
        },
        Platform::Windows => {
            let v = plan1("ipconfig", args1("/flushdns"));
            assert(commands_view(v@) =~~= flush_dns_plan_spec(p)->0);
            Some(v)
        },
        Platform::Other => None,
    }
}

/// The commands that renew the DHCP lease of `interface`.
pub open spec fn dhcp_plan_spec(p: Platform, interface: Seq<char>) -> Option<Seq<CommandView>> {
    match p {
        Platform::MacOs => Some(
            seq![
                cv("ipconfig"@, seq!["set"@, interface, "DHCP"@]),
                cv("ipconfig"@, seq!["getifaddr"@, interface]),
            ],
        ),
        Platform::Linux => Some(
            seq![cv("dhclient"@, seq!["-r"@, interface]), cv("dhclient"@, seq![interface])],
        ),
        Platform::Windows => Some(
            seq![cv("ipconfig"@, seq!["/release"@]), cv("ipconfig"@, seq!["/renew"@])],
        ),
        Platform::Other => None,
    }
}

/// The commands that renew the DHCP lease; `None` on an unsupported system.
pub fn dhcp_plan(p: Platform, interface: &str) -> (r: Option<Vec<Command>>)
    ensures
        (match r {
            Some(v) => Some(commands_view(v@)),
            None => None,
        }) == dhcp_plan_spec(p, interface@),
{
    match p {
        Platform::MacOs => {
            let mut v = plan1("ipconfig", args3("set", interface, "DHCP"));
            step(&mut v, "ipconfig", args2("getifaddr", interface));
            assert(commands_view(v@) =~~= dhcp_plan_spec(p, interface@)->0);
            Some(v)
        },
        Platform::Linux => {
            let mut v = plan1("dhclient", args2("-r", interface));
            step(&mut v, "dhclient", args1(interface));
            assert(commands_view(v@) =~~= dhcp_plan_spec(p, interface@)->0);
            Some(v)
        },
        Platform::Windows => {
            let mut v = plan1("ipconfig", args1("/release"));
            step(&mut v, "ipconfig", args1("/renew"));
            assert(commands_view(v@) =~~= dhcp_plan_spec(p, interface@)->0);
            Some(v)
        },
        Platform::Other => None,
    }
}

/// The new address after a renewal on macOS: the trimmed `getifaddr` output.
pub fn dhcp_address(out: &String) -> (r: String)
    ensures
        r@ == trim(out@),
{
    trimmed(out)
}

/// The command that removes every entry of directory `dir`, whatever its
/// name (hidden entries included), and leaves the directory itself.
pub open spec fn remove_entries_command(dir: Seq<char>) -> CommandView {
    cv("find"@, seq![dir, "-mindepth"@, "1"@, "-delete"@])
}

/// The command that removes every entry of directory `dir`.
pub fn remove_entries(dir: String) -> (c: Command)
    ensures
        c@ == remove_entries_command(dir@),
{
    let ghost dv = dir@;
    let mut v = no_args();
    arg_string(&mut v, dir);
    arg(&mut v, "-mindepth");
    arg(&mut v, "1");
    arg(&mut v, "-delete");
    assert(strings_view(v@) =~= seq![dv, "-mindepth"@, "1"@, "-delete"@]);
    let c = Command { program: owned("find"), args: v };
    assert(c@ =~~= remove_entries_command(dv));
    c
}

/// The commands that empty the trash, with `home` the user's home directory.
pub open spec fn trash_plan_spec(p: Platform, home: Seq<char>) -> Option<Seq<CommandView>> {
    match p {
        Platform::MacOs => Some(
            seq![
                cv("du"@, seq!["-sh"@, home + "/.Trash"@]),
                remove_entries_command(home + "/.Trash"@),
            ],
        ),
        Platform::Linux => Some(seq![remove_entries_command(home + "/.local/share/Trash/files"@)]),
        Platform::Windows => Some(seq![cv("powershell"@, seq!["-Command"@, "Clear-RecycleBin -Force"@])]),
        Platform::Other => None,
    }
}

/// The argument list `[a, b]` with `b` a path under `home`.
fn args_home(a: &str, home: &str, rest: &str) -> (v: Vec<String>)
    ensures
        strings_view(v@) == seq![a@, home@ + rest@],
{
    let mut v = args1(a);
    let path = concat2(home, rest);
    let ghost pv = path@;
    arg_string(&mut v, path);
    assert(strings_view(v@) =~= seq![a@, pv]);
    v
}

/// The commands that empty the trash; `None` on an unsupported system.
pub fn trash_plan(p: Platform, home: &str) -> (r: Option<Vec<Command>>)
    ensures
        (match r {
            Some(v) => Some(commands_view(v@)),
            None => None,
        }) == trash_plan_spec(p, home@),
{
    match p {
        Platform::MacOs => {
            let mut v = plan1("du", args_home("-sh", home, "/.Trash"));
            let ghost before = v@;
            v.push(remove_entries(concat2(home, "/.Trash")));
            assert(commands_view(v@) =~= commands_view(before).push(
                remove_entries_command(home@ + "/.Trash"@),
            ));
            assert(commands_view(v@) =~~= trash_plan_spec(p, home@)->0);
            Some(v)
        },
        Platform::Linux => {
            let mut v: Vec<Command> = Vec::new();
            v.push(remove_entries(concat2(home, "/.local/share/Trash/files")));
            assert(commands_view(v@) =~~= trash_plan_spec(p, home@)->0);
            Some(v)
        },
        Platform::Windows => {
            let v = plan1("powershell", args2("-Command", "Clear-RecycleBin -Force"));
            assert(commands_view(v@) =~~= trash_plan_spec(p, home@)->0);
            Some(v)
        },
        Platform::Other => None,
    }
}

/// The space the trash held on macOS: the first word of the `du` output.
pub fn trash_freed(out: &String) -> (r: Option<String>)
    ensures
        opt_view(r) == nth(words(out@), 0),
{
    let v = chars_of(out.as_str());
    let w = words_of(&v);
    word_at(&w, 0)
}

/// The command that turns the firewall on.
pub open spec fn firewall_plan_spec(p: Platform) -> Option<Seq<CommandView>> {
    match p {
        Platform::MacOs => Some(
            seq![
                cv(
                    "sudo"@,
                    seq![
                        "/usr/libexec/ApplicationFirewall/socketfilterfw"@,
                        "--setglobalstate"@,
                        "on"@,
                    ],
                ),
            ],
        ),
        Platform::Linux => Some(seq![cv("sudo"@, seq!["ufw"@, "enable"@])]),
        Platform::Windows => Some(
            seq![cv("netsh"@, seq!["advfirewall"@, "set"@, "allprofiles"@, "state"@, "on"@])],
        ),
        Platform::Other => None,
    }
}

/// The command that turns the firewall on; `None` on an unsupported system.
pub fn firewall_plan(p: Platform) -> (r: Option<Vec<Command>>)
    ensures
        (match r {
            Some(v) => Some(commands_view(v@)),
            None => None,
        }) == firewall_plan_spec(p),
{
    match p {
        Platform::MacOs => {
            let v = plan1(
                "sudo",
                args3("/usr/libexec/ApplicationFirewall/socketfilterfw", "--setglobalstate", "on"),
            );
            assert(commands_view(v@) =~~= firewall_plan_spec(p)->0);
            Some(v)
        },
        Platform::Linux => {
            let v = plan1("sudo", args2("ufw", "enable"));
            assert(commands_view(v@) =~~= firewall_plan_spec(p)->0);
            Some(v)
        },
        Platform::Windows => {
            let v = plan1("netsh", args5("advfirewall", "set", "allprofiles", "state", "on"));
            assert(commands_view(v@) =~~= firewall_plan_spec(p)->0);
            Some(v)
        },
        Platform::Other => None,
    }
}

/// The command that locks the screen.
pub open spec fn lock_plan_spec(p: Platform) -> Option<Seq<CommandView>> {
    match p {
        Platform::MacOs => Some(seq![cv("pmset"@, seq!["displaysleepnow"@])]),
        Platform::Linux => Some(seq![cv("loginctl"@, seq!["lock-session"@])]),
        Platform::Windows => Some(seq![cv("rundll32.exe"@, seq!["user32.dll,LockWorkStation"@])]),
        Platform::Other => None,
    }
}

/// The command that locks the screen; `None` on an unsupported system.
pub fn lock_plan(p: Platform) -> (r: Option<Vec<Command>>)
    ensures
        (match r {
            Some(v) => Some(commands_view(v@)),
            None => None,
        }) == lock_plan_spec(p),
{
    match p {
        Platform::MacOs => {
            let v = plan1("pmset", args1("displaysleepnow"));
            assert(commands_view(v@) =~~= lock_plan_spec(p)->0);
            Some(v)
        },
        Platform::Linux => {
            let v = plan1("loginctl", args1("lock-session"));
            assert(commands_view(v@) =~~= lock_plan_spec(p)->0);
            Some(v)
        },
        Platform::Windows => {
            let v = plan1("rundll32.exe", args1("user32.dll,LockWorkStation"));
            assert(commands_view(v@) =~~= lock_plan_spec(p)->0);
            Some(v)
        },
        Platform::Other => None,
    }
}

/// What a restart request comes to.
pub enum RestartPlan {
    /// Not confirmed: nothing is run.
    NotConfirmed,
    /// The system is not supported.
    Unsupported,
    /// Restart by running `commands`.
    Restart { commands: Vec<Command> },
}

/// The command that restarts the machine.
pub open spec fn restart_commands(p: Platform) -> Seq<CommandView> {
    match p {
        Platform::MacOs => seq![cv("sudo"@, seq!["shutdown"@, "-r"@, "now"@])],
        Platform::Linux => seq![cv("sudo"@, seq!["reboot"@])],
        _ => seq![cv("shutdown"@, seq!["/r"@, "/t"@, "0"@])],
    }
}

/// What a restart request comes to: nothing unless `force` confirms it.
pub fn restart_plan(p: Platform, force: bool) -> (r: RestartPlan)
    ensures
        !force ==> r is NotConfirmed,
        force && p == Platform::Other ==> r is Unsupported,
        force && p != Platform::Other ==> (r matches RestartPlan::Restart { commands }
            && commands_view(commands@) == restart_commands(p)),
{
    if !force {
        return RestartPlan::NotConfirmed;
    }
    match p {
        Platform::MacOs => {
            let v = plan1("sudo", args3("shutdown", "-r", "now"));
            assert(commands_view(v@) =~~= restart_commands(p));
            RestartPlan::Restart { commands: v }
        },
        Platform::Linux => {
            let v = plan1("sudo", args1("reboot"));
            assert(commands_view(v@) =~~= restart_commands(p));
            RestartPlan::Restart { commands: v }
        },
        Platform::Windows => {
            let v = plan1("shutdown", args3("/r", "/t", "0"));
            assert(commands_view(v@) =~~= restart_commands(p));
            RestartPlan::Restart { commands: v }
        },
        Platform::Other => RestartPlan::Unsupported,
    }
}

/// The message of a restart that was not confirmed.
pub fn restart_refusal() -> (r: String)
    ensures
        r@ == "Set force=true to confirm. This will close all applications."@,
{
    owned("Set force=true to confirm. This will close all applications.")
}

// ---------------------------------------------------------------------------
// Package management
// ---------------------------------------------------------------------------

/// The package manager a platform is served by.
#[derive(Debug, Clone, Copy, PartialEq, Eq, Structural)]
pub enum PackageManager {
    Brew,
    Apt,
    Chocolatey,
}

/// The command whose output tells whether Homebrew is installed: asked on
/// Linux only.
pub open spec fn manager_probe_spec(p: Platform) -> Option<CommandView> {
    if p == Platform::Linux {
        Some(cv("which"@, seq!["brew"@]))
    } else {
        None
    }
}

/// The command whose output tells whether Homebrew is installed, if the
/// platform needs one asked.
pub fn manager_probe(p: Platform) -> (r: Option<Command>)
    ensures
        (match r {
            Some(c) => Some(c@),
            None => None,
        }) == manager_probe_spec(p),
{
    if p == Platform::Linux {
        let c = Command { program: owned("which"), args: args1("brew") };
        assert(c@ =~~= cv("which"@, seq!["brew"@]));
        Some(c)
    } else {
        None
    }
}

/// The package manager of a platform: Chocolatey on Windows; on Linux apt
/// when `which brew` printed nothing, else Homebrew; Homebrew elsewhere.
pub open spec fn manager_of(p: Platform, which_brew: Option<Seq<char>>) -> PackageManager {
    match p {
        Platform::Windows => PackageManager::Chocolatey,
        Platform::Linux => match which_brew {
            Some(o) => if o.len() == 0 {
                PackageManager::Apt
            } else {
                PackageManager::Brew
            },
            None => PackageManager::Brew,
        },
        _ => PackageManager::Brew,
    }
}

/// The package manager of a platform, given the output of the probe command
/// where there is one.
pub fn package_manager(p: Platform, which_brew: &Option<String>) -> (m: PackageManager)
    ensures
        m == manager_of(p, opt_view(*which_brew)),
{
    match p {
        Platform::Windows => PackageManager::Chocolatey,
        Platform::Linux => match which_brew {
            Some(o) => if o.as_str().is_empty() {
                PackageManager::Apt
            } else {
                PackageManager::Brew
            },
            None => PackageManager::Brew,
        },
        _ => PackageManager::Brew,
    }
}

/// The name of a package manager as reported.
pub open spec fn manager_name(m: PackageManager) -> Seq<char> {
    match m {
        PackageManager::Brew => "brew"@,
        PackageManager::Apt => "apt"@,
        PackageManager::Chocolatey => "chocolatey"@,
    }
}

/// The name of a package manager as reported.
pub fn manager_name_exec(m: PackageManager) -> (r: String)
    ensures
        r@ == manager_name(m),
{
    match m {
        PackageManager::Brew => owned("brew"),
        PackageManager::Apt => owned("apt"),
        PackageManager::Chocolatey => owned("chocolatey"),
    }
}

/// The command that performs package `action` (`install`, `upgrade`,
/// `uninstall`, `list` or `outdated`) on package `pkg` (empty when none was
/// named) with manager `m`; `None` for an unknown action.
pub open spec fn package_command(m: PackageManager, action: Seq<char>, pkg: Seq<char>) -> Option<
    CommandView,
> {
    match m {
        PackageManager::Chocolatey => if action == "install"@ {
            Some(cv("choco"@, seq!["install"@, pkg, "-y"@]))
        } else if action == "upgrade"@ {
            if pkg.len() == 0 {
                Some(cv("choco"@, seq!["upgrade"@, "all"@, "-y"@]))
            } else {
                Some(cv("choco"@, seq!["upgrade"@, pkg, "-y"@]))
            }
        } else if action == "uninstall"@ {
            Some(cv("choco"@, seq!["uninstall"@, pkg, "-y"@]))
        } else if action == "list"@ {
            Some(cv("choco"@, seq!["list"@, "--local-only"@]))
        } else if action == "outdated"@ {
            Some(cv("choco"@, seq!["outdated"@]))
        } else {
            None
        },
        PackageManager::Brew => if action == "install"@ {
            Some(cv("brew"@, seq!["install"@, pkg]))
        } else if action == "upgrade"@ {
            if pkg.len() == 0 {
                Some(cv("brew"@, seq!["upgrade"@]))
            } else {
                Some(cv("brew"@, seq!["upgrade"@, pkg]))
            }
        } else if action == "uninstall"@ {
            Some(cv("brew"@, seq!["uninstall"@, pkg]))
        } else if action == "list"@ {
            Some(cv("brew"@, seq!["list"@, "--formula"@, "-1"@]))
        } else if action == "outdated"@ {
            Some(cv("brew"@, seq!["outdated"@]))
        } else {
            None
        },
        PackageManager::Apt => if action == "install"@ {
            Some(cv("sudo"@, seq!["apt-get"@, "install"@, "-y"@, pkg]))
        } else if action == "upgrade"@ {
            if pkg.len() == 0 {
                Some(cv("sudo"@, seq!["apt-get"@, "upgrade"@, "-y"@]))
            } else {
                Some(cv("sudo"@, seq!["apt-get"@, "install"@, "--only-upgrade"@, "-y"@, pkg]))
            }
        } else if action == "uninstall"@ {
            Some(cv("sudo"@, seq!["apt-get"@, "remove"@, "-y"@, pkg]))
        } else if action == "list"@ {
            Some(cv("dpkg"@, seq!["--get-selections"@]))
        } else if action == "outdated"@ {
            Some(cv("apt"@, seq!["list"@, "--upgradable"@]))
        } else {
            None
        },
    }
}

/// A command with an argument list.
fn command_of_args(program: &str, args: Vec<String>) -> (c: Command)
    ensures
        c@ == cv(program@, strings_view(args@)),
{
    Command { program: owned(program), args }
}

/// The package name, or empty: `package.unwrap_or("")`.
pub open spec fn package_or_empty(package: Option<Seq<char>>) -> Seq<char> {
    or_empty(package)
}

/// The command that performs package `action` on `package` with manager
/// `m`; `None` for an unknown action.
pub fn package_plan(m: PackageManager, action: &str, package: Option<&str>) -> (r: Option<Command>)
    ensures
        (match r {
            Some(c) => Some(c@),
            None => None,
        }) == package_command(
            m,
            action@,
            package_or_empty(
                match package {
                    Some(p) => Some(p@),
                    None => None,
                },
            ),
        ),
{
    let pkg: &str = match package {
        Some(p) => p,
        None => "",
    };
    proof {
        reveal_strlit("");
    }
    let ghost pv = package_or_empty(
        match package {
            Some(p) => Some(p@),
            None => None,
        },
    );
    assert(pkg@ == pv);
    let empty = pkg.is_empty();
    let is_install = str_eq(action, "install");
    let is_upgrade = str_eq(action, "upgrade");
    let is_uninstall = str_eq(action, "uninstall");
    let is_list = str_eq(action, "list");
    let is_outdated = str_eq(action, "outdated");
    match m {
        PackageManager::Chocolatey => {
            if is_install {
                let mut a = args2("install", pkg);
                arg(&mut a, "-y");
                assert(strings_view(a@) =~= seq!["install"@, pkg@, "-y"@]);
                let c = command_of_args("choco", a);
                Some(c)
            } else if is_upgrade {
                if empty {
                    Some(command_of_args("choco", args3("upgrade", "all", "-y")))
                } else {
                    Some(command_of_args("choco", args3("upgrade", pkg, "-y")))
                }
            } else if is_uninstall {
                Some(command_of_args("choco", args3("uninstall", pkg, "-y")))
            } else if is_list {
                Some(command_of_args("choco", args2("list", "--local-only")))
            } else if is_outdated {
                Some(command_of_args("choco", args1("outdated")))
            } else {
                None
            }
        },
        PackageManager::Brew => {
            if is_install {
                Some(command_of_args("brew", args2("install", pkg)))
            } else if is_upgrade {
                if empty {
                    Some(command_of_args("brew", args1("upgrade")))
                } else {
                    Some(command_of_args("brew", args2("upgrade", pkg)))
                }
            } else if is_uninstall {
                Some(command_of_args("brew", args2("uninstall", pkg)))
            } else if is_list {
                Some(command_of_args("brew", args3("list", "--formula", "-1")))
            } else if is_outdated {
                Some(command_of_args("brew", args1("outdated")))
            } else {
                None
            }
        },
        PackageManager::Apt => {
            if is_install {
                Some(command_of_args("sudo", args4("apt-get", "install", "-y", pkg)))
            } else if is_upgrade {
                if empty {
                    Some(command_of_args("sudo", args3("apt-get", "upgrade", "-y")))
                } else {
                    Some(
                        command_of_args(
                            "sudo",
                            args5("apt-get", "install", "--only-upgrade", "-y", pkg),
                        ),
                    )
                }
            } else if is_uninstall {
                Some(command_of_args("sudo", args4("apt-get", "remove", "-y", pkg)))
            } else if is_list {
                Some(command_of_args("dpkg", args1("--get-selections")))
            } else if is_outdated {
                Some(command_of_args("apt", args2("list", "--upgradable")))
            } else {
                None
            }
        },
    }
}

/// The first ten lines of `out`, joined by newlines.
pub open spec fn head_text(out: Seq<char>) -> Seq<char> {
    join(take_at_most(lines(out), 10), "\n"@)
}

/// The first ten lines of a command's output, joined by newlines, as the
/// package tools report it.
pub fn head_text_exec(out: &String) -> (r: String)
    ensures
        r@ == head_text(out@),
{
    let ls = lines_of_str(out.as_str());
    let first = skip_take(&ls, 0, 10);
    assert(drop_at_most(views(ls@), 0) =~= views(ls@));
    let sep = chars_of("\n");
    let j = join_exec(&first, &sep);
    string_of(&j)
}

// ---------------------------------------------------------------------------
// Laws of the plans
// ---------------------------------------------------------------------------

/// The process listing puts the hungriest processes first. On Linux it is
/// `ps aux` sorted in descending order (a `-` before the key) of memory
/// when `sort_by` is `"mem"` and of CPU for any other value; on macOS it is
/// `ps aux` with `-m` (by memory) or `-r` (by CPU), both descending.
pub proof fn law_processes_sorted_descending(sort_by: Seq<char>)
    ensures
        ({
            let c = processes_plan_spec(Platform::Linux, sort_by)->0;
            &&& c.len() == 1
            &&& c[0].program == "ps"@
            &&& c[0].args.len() == 2
            &&& c[0].args[0] == "aux"@
            &&& c[0].args[1].take(8) == "--sort=-"@
            &&& c[0].args[1] == (if sort_by == "mem"@ {
                "--sort=-%mem"@
            } else {
                "--sort=-%cpu"@
            })
        }),
        ({
            let c = processes_plan_spec(Platform::MacOs, sort_by)->0;
            &&& c.len() == 1
            &&& c[0].program == "ps"@
            &&& c[0].args == seq!["aux"@, if sort_by == "mem"@ { "-m"@ } else { "-r"@ }]
        }),
{
    reveal_strlit("--sort=-%cpu");
    reveal_strlit("--sort=-%mem");
    reveal_strlit("--sort=-");
    assert("--sort=-%cpu"@.take(8) =~= "--sort=-"@);
    assert("--sort=-%mem"@.take(8) =~= "--sort=-"@);
}

/// Each security check reads the command made for it. On macOS the first
/// command, whose output is tested for `On`, is `fdesetup status` (which
/// prints `FileVault is On.` on an encrypted Mac); then the application
/// firewall's `globalstate`, `csrutil status` (SIP) and `spctl --status`
/// (Gatekeeper). On Linux the first, tested for `Status: active`, is
/// `ufw status`, and the last, tested for `crypto_LUKS`, is `lsblk`.
pub proof fn law_security_commands()
    ensures
        ({
            let c = security_plan_spec(Platform::MacOs)->0;
            &&& c.len() == 4
            &&& c[0].program == "fdesetup"@ && c[0].args == seq!["status"@]
            &&& c[1].program == "defaults"@ && c[1].args == seq![
                "read"@,
                "/Library/Preferences/com.apple.alf"@,
                "globalstate"@,
            ]
            &&& c[2].program == "csrutil"@ && c[2].args == seq!["status"@]
            &&& c[3].program == "spctl"@ && c[3].args == seq!["--status"@]
        }),
        ({
            let c = security_plan_spec(Platform::Linux)->0;
            &&& c.len() == 3
            &&& c[0].program == "ufw"@ && c[0].args == seq!["status"@]
            &&& c[2].program == "lsblk"@ && c[2].args == seq!["-o"@, "NAME,FSTYPE"@]
        }),
        security_plan_spec(Platform::Other) is None,
{
}

/// A DNS lookup is `nslookup <hostname>` on every supported platform: the
/// program `nslookup` with the host name as its only argument, so that it
/// asks for the host's addresses; there is none on an unsupported system.
pub proof fn law_dns_lookup_is_nslookup(p: Platform, hostname: Seq<char>)
    ensures
        p == Platform::Other <==> dns_plan_spec(p, hostname) is None,
        p != Platform::Other ==> {
            let c = dns_plan_spec(p, hostname)->0;
            &&& c.len() == 1
            &&& c[0].program == "nslookup"@
            &&& c[0].args.len() == 1
            &&& c[0].args[0] == hostname
        },
{
}

/// Listing outdated packages and listing installed ones are different
/// commands with every manager, and neither names a package: Homebrew runs
/// `brew outdated` and `brew list --formula -1`, apt `apt list
/// --upgradable` and `dpkg --get-selections`, Chocolatey `choco outdated`
/// and `choco list --local-only`.
pub proof fn law_outdated_differs_from_list(m: PackageManager, pkg: Seq<char>)
    ensures
        package_command(m, "outdated"@, pkg) is Some,
        package_command(m, "list"@, pkg) is Some,
        package_command(m, "outdated"@, pkg) != package_command(m, "list"@, pkg),
        m == PackageManager::Brew ==> {
            &&& package_command(m, "outdated"@, pkg)->0.program == "brew"@
            &&& package_command(m, "outdated"@, pkg)->0.args == seq!["outdated"@]
            &&& package_command(m, "list"@, pkg)->0.program == "brew"@
            &&& package_command(m, "list"@, pkg)->0.args == seq!["list"@, "--formula"@, "-1"@]
        },
        m == PackageManager::Apt ==> {
            &&& package_command(m, "outdated"@, pkg)->0.program == "apt"@
            &&& package_command(m, "outdated"@, pkg)->0.args == seq!["list"@, "--upgradable"@]
            &&& package_command(m, "list"@, pkg)->0.program == "dpkg"@
            &&& package_command(m, "list"@, pkg)->0.args == seq!["--get-selections"@]
        },
        m == PackageManager::Chocolatey ==> {
            &&& package_command(m, "outdated"@, pkg)->0.program == "choco"@
            &&& package_command(m, "outdated"@, pkg)->0.args == seq!["outdated"@]
            &&& package_command(m, "list"@, pkg)->0.program == "choco"@
            &&& package_command(m, "list"@, pkg)->0.args == seq!["list"@, "--local-only"@]
        },
{
    reveal_strlit("outdated");
    reveal_strlit("list");
    reveal_strlit("install");
    reveal_strlit("upgrade");
    reveal_strlit("uninstall");
    reveal_strlit("--formula");
    reveal_strlit("--upgradable");
    reveal_strlit("--get-selections");
    reveal_strlit("--local-only");
    reveal_strlit("apt");
    reveal_strlit("dpkg");
    assert("outdated"@.len() != "list"@.len());
    assert("outdated"@.len() != "install"@.len());
    assert("outdated"@.len() != "upgrade"@.len());
    assert("outdated"@.len() != "uninstall"@.len());
    assert("list"@.len() != "install"@.len());
    assert("list"@.len() != "upgrade"@.len());
    assert("list"@.len() != "uninstall"@.len());
    assert(seq!["outdated"@].len() != seq!["list"@, "--formula"@, "-1"@].len());
    assert("apt"@.len() != "dpkg"@.len());
    assert(seq!["outdated"@] != seq!["list"@, "--local-only"@]);
}

/// A ping sends `count` echo requests to `host`: `ping -c <count> <host>`
/// on macOS and Linux, `ping -n <count> <host>` on Windows.
pub proof fn law_ping_sends_count_to_host(p: Platform, host: Seq<char>, count: u32)
    ensures
        p == Platform::Other <==> ping_plan_spec(p, host, count) is None,
        p != Platform::Other ==> {
            let c = ping_plan_spec(p, host, count)->0;
            &&& c.len() == 1
            &&& c[0].program == "ping"@
            &&& c[0].args.len() == 3
            &&& c[0].args[0] == (if p == Platform::Windows {
                "-n"@
            } else {
                "-c"@
            })
            &&& c[0].args[1] == crate::text::decimal(count as nat)
            &&& c[0].args[2] == host
        },
{
}

/// A route trace goes to `host`, as its last argument, over at most 15 hops.
pub proof fn law_traceroute_targets_host(p: Platform, host: Seq<char>)
    ensures
        p == Platform::Other <==> traceroute_plan_spec(p, host) is None,
        p != Platform::Other ==> {
            let c = traceroute_plan_spec(p, host)->0;
            &&& c.len() == 1
            &&& c[0].program == (if p == Platform::Windows {
                "tracert"@
            } else {
                "traceroute"@
            })
            &&& c[0].args.len() == 5
            &&& c[0].args[0] == (if p == Platform::Windows {
                "-h"@
            } else {
                "-m"@
            })
            &&& c[0].args[1] == "15"@
            &&& c[0].args[4] == host
        },
{
}

/// A kill forcibly ends the process it names: with a process id, `kill -9
/// <pid>` (or `taskkill /PID <pid> /F`); with only a name, `pkill -f
/// <name>` (or `taskkill /IM <name> /F`).
pub proof fn law_kill_targets_the_named_process(p: Platform, pid: Option<u32>, name: Seq<char>)
    ensures
        pid matches Some(n) ==> {
            let c = kill_commands(p, pid, Some(name));
            &&& c.len() == 1
            &&& p == Platform::Windows ==> c[0] == cv(
                "taskkill"@,
                seq!["/PID"@, crate::text::decimal(n as nat), "/F"@],
            )
            &&& p != Platform::Windows ==> c[0] == cv(
                "kill"@,
                seq!["-9"@, crate::text::decimal(n as nat)],
            )
        },
        pid is None ==> {
            let c = kill_commands(p, None, Some(name));
            &&& c.len() == 1
            &&& p == Platform::Windows ==> c[0] == cv("taskkill"@, seq!["/IM"@, name, "/F"@])
            &&& p != Platform::Windows ==> c[0] == cv("pkill"@, seq!["-f"@, name])
        },
{
}

/// A restart reboots the machine at once: `sudo shutdown -r now` on macOS,
/// `sudo reboot` on Linux, `shutdown /r /t 0` elsewhere.
pub proof fn law_restart_reboots(p: Platform)
    ensures
        restart_commands(p).len() == 1,
        p == Platform::MacOs ==> restart_commands(p)[0] == cv(
            "sudo"@,
            seq!["shutdown"@, "-r"@, "now"@],
        ),
        p == Platform::Linux ==> restart_commands(p)[0] == cv("sudo"@, seq!["reboot"@]),
        p == Platform::Windows ==> restart_commands(p)[0] == cv(
            "shutdown"@,
            seq!["/r"@, "/t"@, "0"@],
        ),
{
}

/// Enabling the firewall turns it on: the socket filter's global state set
/// `on` on macOS, `ufw enable` on Linux, every profile's state `on` on
/// Windows.
pub proof fn law_firewall_turned_on(p: Platform)
    ensures
        p == Platform::Other <==> firewall_plan_spec(p) is None,
        p == Platform::MacOs ==> firewall_plan_spec(p)->0 == seq![
            cv(
                "sudo"@,
                seq![
                    "/usr/libexec/ApplicationFirewall/socketfilterfw"@,
                    "--setglobalstate"@,
                    "on"@,
                ],
            ),
        ],
        p == Platform::Linux ==> firewall_plan_spec(p)->0 == seq![
            cv("sudo"@, seq!["ufw"@, "enable"@]),
        ],
        p == Platform::Windows ==> firewall_plan_spec(p)->0 == seq![
            cv("netsh"@, seq!["advfirewall"@, "set"@, "allprofiles"@, "state"@, "on"@]),
        ],
{
}

/// Installing and removing a package name it as the last argument, with
/// every manager, and are different commands; upgrading a named package
/// names it last too, and upgrading with no name names none.
pub proof fn law_package_actions_name_the_package(m: PackageManager, pkg: Seq<char>)
    ensures
        ({
            let i = package_command(m, "install"@, pkg);
            let u = package_command(m, "uninstall"@, pkg);
            &&& i is Some && u is Some
            &&& i->0.args.last() == pkg || (m == PackageManager::Chocolatey && i->0.args[1] == pkg)
            &&& u->0.args.last() == pkg || (m == PackageManager::Chocolatey && u->0.args[1] == pkg)
            &&& i != u
        }),
        pkg.len() > 0 ==> {
            let g = package_command(m, "upgrade"@, pkg);
            &&& g is Some
            &&& g->0.args.contains(pkg)
        },
        m == PackageManager::Brew ==> package_command(m, "upgrade"@, Seq::empty()) == Some(
            cv("brew"@, seq!["upgrade"@]),
        ),
        m == PackageManager::Apt ==> package_command(m, "upgrade"@, Seq::empty()) == Some(
            cv("sudo"@, seq!["apt-get"@, "upgrade"@, "-y"@]),
        ),
        m == PackageManager::Apt && pkg.len() > 0 ==> package_command(m, "upgrade"@, pkg) == Some(
            cv("sudo"@, seq!["apt-get"@, "install"@, "--only-upgrade"@, "-y"@, pkg]),
        ),
{
    reveal_strlit("install");
    reveal_strlit("upgrade");
    reveal_strlit("uninstall");
    reveal_strlit("remove");
    assert("install"@.len() != "uninstall"@.len());
    assert("install"@.len() != "upgrade"@.len() || "install"@[1] != "upgrade"@[1]);
    assert("uninstall"@.len() != "upgrade"@.len());
    assert("install"@.len() != "remove"@.len());
    let g = package_command(m, "upgrade"@, pkg);
    if pkg.len() > 0 {
        match m {
            PackageManager::Brew => assert(g->0.args[1] == pkg),
            PackageManager::Apt => assert(g->0.args[4] == pkg),
            PackageManager::Chocolatey => assert(g->0.args[1] == pkg),
        }
    }
}

/// Emptying the trash removes every entry of the user's trash folder, and
/// nothing outside it: on macOS it first measures `~/.Trash` and then runs
/// `find ~/.Trash -mindepth 1 -delete`; on Linux the same `find` on
/// `~/.local/share/Trash/files`.
pub proof fn law_trash_removes_the_trash_entries(home: Seq<char>)
    ensures
        trash_plan_spec(Platform::MacOs, home)->0 == seq![
            cv("du"@, seq!["-sh"@, home + "/.Trash"@]),
            cv("find"@, seq![home + "/.Trash"@, "-mindepth"@, "1"@, "-delete"@]),
        ],
        trash_plan_spec(Platform::Linux, home)->0 == seq![
            cv("find"@, seq![home + "/.local/share/Trash/files"@, "-mindepth"@, "1"@, "-delete"@]),
        ],
        trash_plan_spec(Platform::Other, home) is None,
{
}

} // verus!
