use mcp_device_management::platform::{
    apps_plan, apps_report, battery_plan, battery_report, crashes_plan, crashes_report,
    dhcp_address, dhcp_plan, disk_health_plan, disk_health_report, dns_plan, dns_report,
    firewall_plan, flush_dns_plan, head_text_exec, kill_plan, lock_plan, manager_probe,
    network_plan, network_report, package_manager, package_plan, ping_plan, ping_report,
    ports_plan, ports_report, processes_plan, processes_report, restart_plan, restart_refusal,
    security_plan, security_report, system_stats_plan, system_stats_report, trash_freed,
    trash_plan, traceroute_plan, traceroute_report, url_plan, url_report, usb_plan, usb_report,
    BatteryStatus, Command, DiskHealth, KillPlan, NetworkInfo, PackageManager, Platform,
    ProcessRow, RestartPlan, SecurityStatus, SystemStats,
};

fn line(c: &Command) -> String {
    let mut s = c.program.clone();
    for a in &c.args {
        s.push(' ');
        s.push_str(a);
    }
    s
}

fn lines(v: &[Command]) -> Vec<String> {
    v.iter().map(line).collect()
}

fn outs(v: &[&str]) -> Vec<String> {
    v.iter().map(|s| s.to_string()).collect()
}

#[test]
fn platform_names() {
    assert_eq!(Platform::from_name("macos"), Platform::MacOs);
    assert_eq!(Platform::from_name("linux"), Platform::Linux);
    assert_eq!(Platform::from_name("windows"), Platform::Windows);
    assert_eq!(Platform::from_name("freebsd"), Platform::Other);
}

#[test]
fn unsupported_platform_has_no_plans() {
    let p = Platform::Other;
    assert!(system_stats_plan(p).is_none());
    assert!(processes_plan(p, "cpu").is_none());
    assert!(network_plan(p).is_none());
    assert!(security_plan(p).is_none());
    assert!(ports_plan(p).is_none());
    assert!(ping_plan(p, "h", 1).is_none());
    assert!(traceroute_plan(p, "h").is_none());
    assert!(dns_plan(p, "h").is_none());
    assert!(url_plan(p, "u").is_none());
    assert!(disk_health_plan(p).is_none());
    assert!(usb_plan(p).is_none());
    assert!(crashes_plan(p, 3, "/h").is_none());
    assert!(flush_dns_plan(p).is_none());
    assert!(dhcp_plan(p, "en0").is_none());
    assert!(trash_plan(p, "/h").is_none());
    assert!(firewall_plan(p).is_none());
    assert!(lock_plan(p).is_none());
    assert!(apps_plan(p).is_empty());
    assert!(battery_plan(p).is_empty());
    assert!(matches!(battery_report(p, &vec![]), BatteryStatus::NoBattery));
    assert!(matches!(kill_plan(p, Some(1), None), KillPlan::Unsupported));
    assert!(matches!(restart_plan(p, true), RestartPlan::Unsupported));
}

#[test]
fn system_stats_on_macos() {
    let plan = system_stats_plan(Platform::MacOs).unwrap();
    assert_eq!(lines(&plan), vec!["sysctl -n vm.loadavg", "sysctl -n hw.memsize", "df -h /"]);
    let out = outs(&[
        "{ 5.95 6.21 6.24 }\n",
        "25769803776\n",
        "Filesystem Size Used Avail Capacity\n/dev/disk3s1s1 460Gi 290Gi 10Gi 63% /\n",
    ]);
    match system_stats_report(Platform::MacOs, &out).unwrap() {
        SystemStats::MacOs { load, memory_total_gb, disk } => {
            assert_eq!(load, "{ 5.95 6.21 6.24 }");
            assert_eq!(memory_total_gb, 24);
            assert_eq!(disk.total.as_deref(), Some("460Gi"));
            assert_eq!(disk.used.as_deref(), Some("290Gi"));
            assert_eq!(disk.free.as_deref(), Some("10Gi"));
            assert_eq!(disk.used_pct.as_deref(), Some("63%"));
        }
        _ => panic!("wrong variant"),
    }
}

#[test]
fn system_stats_on_linux_and_windows() {
    assert_eq!(
        lines(&system_stats_plan(Platform::Linux).unwrap()),
        vec!["cat /proc/loadavg", "free -h", "df -h /"]
    );
    let out = outs(&["0.1 0.2 0.3 1/2 3\n", "  total used\nMem:  31Gi 5Gi \n", "only header\n"]);
    match system_stats_report(Platform::Linux, &out).unwrap() {
        SystemStats::Linux { load, memory, disk } => {
            assert_eq!(load, "0.1 0.2 0.3 1/2 3");
            assert_eq!(memory, "Mem:  31Gi 5Gi");
            assert!(disk.total.is_none());
        }
        _ => panic!("wrong variant"),
    }
    let w = system_stats_plan(Platform::Windows).unwrap();
    assert_eq!(line(&w[2]), "wmic logicaldisk where DeviceID='C:' get Size,FreeSpace /value");
    match system_stats_report(Platform::Windows, &outs(&[" a ", "b", "c\n"])).unwrap() {
        SystemStats::Windows { cpu, memory, disk } => assert_eq!((cpu.as_str(), memory.as_str(), disk.as_str()), ("a", "b", "c")),
        _ => panic!("wrong variant"),
    }
}

#[test]
fn processes_are_listed() {
    assert_eq!(lines(&processes_plan(Platform::MacOs, "mem").unwrap()), vec!["ps aux -m"]);
    assert_eq!(lines(&processes_plan(Platform::MacOs, "cpu").unwrap()), vec!["ps aux -r"]);
    assert_eq!(lines(&processes_plan(Platform::Linux, "mem").unwrap()), vec!["ps aux --sort=-%mem"]);
    assert_eq!(lines(&processes_plan(Platform::Windows, "mem").unwrap()), vec!["tasklist /FO CSV /NH"]);
    let out = "USER PID %CPU %MEM VSZ RSS TT STAT STARTED TIME COMMAND\nann 12 284.9 0.2 1 2 ?? R 9:00 1:00 /Applications/Kiro.app/Contents/MacOS/Kiro --type=gpu\nroot 1 0.0 0.1 1 2 ?? Ss 8:00 0:10\nbob 7 1.0 2.0\n".to_string();
    let rows = processes_report(Platform::MacOs, 2, &out);
    assert_eq!(rows.len(), 2);
    match &rows[0] {
        ProcessRow::Unix { user, pid, cpu, mem, command } => {
            assert_eq!(user.as_deref(), Some("ann"));
            assert_eq!(pid.as_deref(), Some("12"));
            assert_eq!(cpu.as_deref(), Some("284.9"));
            assert_eq!(mem.as_deref(), Some("0.2"));
            assert_eq!(command.as_deref(), Some("/Applications/Kiro.app/Contents/MacOS/Kiro --type=gpu"));
        }
        _ => panic!("wrong variant"),
    }
    match &rows[1] {
        ProcessRow::Unix { command, .. } => assert_eq!(command.as_deref(), Some("")),
        _ => panic!("wrong variant"),
    }
    let w = processes_report(Platform::Windows, 10, &"hdr\n\"a.exe\" 4 Console 1 2,000 K\n".to_string());
    match &w[0] {
        ProcessRow::Windows { name, pid, mem } => {
            assert_eq!(name.as_deref(), Some("\"a.exe\""));
            assert_eq!(pid.as_deref(), Some("4"));
            assert_eq!(mem.as_deref(), Some("2,000"));
        }
        _ => panic!("wrong variant"),
    }
}

#[test]
fn network_information_on_each_platform() {
    assert_eq!(
        lines(&network_plan(Platform::MacOs).unwrap()),
        vec!["ifconfig", "networksetup -getairportnetwork en0", "scutil --nc list", "netstat -an"]
    );
    let out = outs(&[
        "lo0: flags\n\tinet 127.0.0.1 netmask 0xff000000\nen0: flags\n\tinet 192.168.100.45 netmask 0xffffff00\n",
        "Current Wi-Fi Network: HomeNet\n",
        "* (Connected) VPN\n",
        "tcp4 ESTABLISHED\ntcp4 LISTEN\ntcp6 ESTABLISHED\n",
    ]);
    match network_report(Platform::MacOs, &out).unwrap() {
        NetworkInfo::MacOs { ip, wifi, vpn, connections } => {
            assert_eq!(ip, "192.168.100.45");
            assert_eq!(wifi, "HomeNet");
            assert!(vpn);
            assert_eq!(connections, 2);
        }
        _ => panic!("wrong variant"),
    }
    match network_report(Platform::MacOs, &outs(&["", "not associated", "", ""])).unwrap() {
        NetworkInfo::MacOs { ip, wifi, vpn, connections } => {
            assert_eq!(ip, "unknown");
            assert_eq!(wifi, "N/A");
            assert!(!vpn);
            assert_eq!(connections, 0);
        }
        _ => panic!("wrong variant"),
    }
    assert_eq!(
        lines(&network_plan(Platform::Linux).unwrap()),
        vec!["hostname -I", "iwgetid -r", "ss -tun", "nmcli -t -f TYPE,STATE connection show --active"]
    );
    match network_report(
        Platform::Linux,
        &outs(&["10.0.0.2 \n", "home\n", "Netid State\ntcp ESTAB\n", "802-11-wireless:activated\nwireguard:activated\n"]),
    )
    .unwrap()
    {
        NetworkInfo::Linux { ip, wifi, vpn, connections } => {
            assert_eq!(ip, "10.0.0.2");
            assert_eq!(wifi, "home");
            assert!(vpn);
            assert_eq!(connections, 1);
        }
        _ => panic!("wrong variant"),
    }
    match network_report(Platform::Linux, &outs(&["", "", "", "802-3-ethernet:activated\n"])).unwrap() {
        NetworkInfo::Linux { vpn, .. } => assert!(!vpn),
        _ => panic!("wrong variant"),
    }
    assert_eq!(
        lines(&network_plan(Platform::Windows).unwrap()),
        vec!["ipconfig", "netsh wlan show interfaces", "rasdial", "netstat -an"]
    );
    let win = outs(&[
        "   IPv4 Address. . . : 10.1.2.3\n",
        "    BSSID : aa:bb\n    SSID  : Office\n",
        "Connected to\nCorpVPN\nCommand completed successfully.\n",
        "  TCP 10.1.2.3:5000 1.2.3.4:443 ESTABLISHED\n  TCP 10.1.2.3:5001 1.2.3.5:443 ESTABLISHED\n  TCP 0.0.0.0:135 0.0.0.0:0 LISTENING\n",
    ]);
    match network_report(Platform::Windows, &win).unwrap() {
        NetworkInfo::Windows { ip, wifi, vpn, connections } => {
            assert_eq!(ip, "10.1.2.3");
            assert_eq!(wifi, "Office");
            assert!(vpn);
            assert_eq!(connections, 2);
        }
        _ => panic!("wrong variant"),
    }
    match network_report(Platform::Windows, &outs(&["", "", "No connections\nCommand completed successfully.\n", ""])).unwrap() {
        NetworkInfo::Windows { vpn, connections, .. } => assert!(!vpn && connections == 0),
        _ => panic!("wrong variant"),
    }
}

#[test]
fn security_status_on_each_platform() {
    assert_eq!(
        lines(&security_plan(Platform::MacOs).unwrap())[1],
        "defaults read /Library/Preferences/com.apple.alf globalstate"
    );
    let out = outs(&["FileVault is On.", "1\n", "System Integrity Protection status: enabled.", "assessments disabled"]);
    match security_report(Platform::MacOs, &out).unwrap() {
        SecurityStatus::MacOs { filevault, firewall, sip, gatekeeper } => {
            assert!(filevault && firewall && sip && !gatekeeper);
        }
        _ => panic!("wrong variant"),
    }
    match security_report(Platform::MacOs, &outs(&["", "0\n", "", ""])).unwrap() {
        SecurityStatus::MacOs { firewall, .. } => assert!(!firewall),
        _ => panic!("wrong variant"),
    }
    match security_report(Platform::Linux, &outs(&["Status: active", " Enforcing\n", "sda crypto_LUKS"])).unwrap() {
        SecurityStatus::Linux { firewall, selinux, disk_encrypted } => {
            assert!(firewall && disk_encrypted);
            assert_eq!(selinux, "Enforcing");
        }
        _ => panic!("wrong variant"),
    }
    match security_report(Platform::Linux, &outs(&["Status: inactive", "", ""])).unwrap() {
        SecurityStatus::Linux { firewall, .. } => assert!(!firewall),
        _ => panic!("wrong variant"),
    }
    match security_report(Platform::Windows, &outs(&["State ON", "Fully Encrypted", "False"])).unwrap() {
        SecurityStatus::Windows { firewall, bitlocker, defender } => assert!(firewall && bitlocker && !defender),
        _ => panic!("wrong variant"),
    }
}

#[test]
fn ports_and_apps() {
    let out = "COMMAND PID\nrapportd 1 TCP *:49152 (LISTEN)\nnode 2 TCP *:3000 (LISTEN)\nother\n".to_string();
    assert_eq!(ports_report(Platform::MacOs, &out), vec!["rapportd 1 TCP *:49152 (LISTEN)", "node 2 TCP *:3000 (LISTEN)"]);
    assert_eq!(ports_report(Platform::Linux, &"h\n a \nb\n".to_string()), vec!["a", "b"]);
    assert_eq!(lines(&apps_plan(Platform::Linux)), vec!["dpkg --get-selections"]);
    assert_eq!(apps_report(Platform::MacOs, &outs(&["Safari.app\nUtilities\nNotes.app\n"])), vec!["Safari", "Notes"]);
    assert_eq!(apps_report(Platform::Linux, &outs(&["vim install\n\nzsh install\n"])), vec!["vim", "zsh"]);
    assert_eq!(apps_report(Platform::Windows, &outs(&["Name\n  Office  \n\n7-Zip\n"])), vec!["Office", "7-Zip"]);
    assert!(apps_report(Platform::Other, &vec![]).is_empty());
}

#[test]
fn ping_traceroute_dns_url() {
    assert_eq!(lines(&ping_plan(Platform::Linux, "google.com", 4).unwrap()), vec!["ping -c 4 google.com"]);
    assert_eq!(lines(&ping_plan(Platform::Windows, "google.com", 2).unwrap()), vec!["ping -n 2 google.com"]);
    let p = ping_report(&"64 bytes from 1.1.1.1\n--- stats ---\n4 packets transmitted\nround-trip min/avg/max = 5.2/8.1/12.3 ms\n".to_string());
    assert!(p.reachable);
    assert_eq!(p.stats, "4 packets transmitted\nround-trip min/avg/max = 5.2/8.1/12.3 ms");
    let q = ping_report(&"Request timed out.".to_string());
    assert!(!q.reachable);
    assert_eq!(q.stats, "Request timed out.");
    assert_eq!(lines(&traceroute_plan(Platform::MacOs, "h").unwrap()), vec!["traceroute -m 15 -w 2 h"]);
    assert_eq!(lines(&traceroute_plan(Platform::Windows, "h").unwrap()), vec!["tracert -h 15 -w 2000 h"]);
    assert_eq!(traceroute_report(&"header\n1 a\n2 b\n".to_string()), vec!["1 a", "2 b"]);
    assert_eq!(lines(&dns_plan(Platform::MacOs, "github.com").unwrap()), vec!["nslookup github.com"]);
    let d = dns_report(&"Server: 8.8.8.8\nAddress: 8.8.8.8#53\n\nName: github.com\nAddress: 140.82.112.3\n".to_string());
    assert_eq!(d, vec!["Address: 140.82.112.3"]);
    assert_eq!(
        lines(&url_plan(Platform::Linux, "https://x").unwrap()),
        vec!["curl -o /dev/null -s -w %{http_code} %{time_total} -m 10 https://x"]
    );
    let w = url_plan(Platform::Windows, "https://x").unwrap();
    assert_eq!(w[0].args[1], "try { $r = Invoke-WebRequest -Uri 'https://x' -TimeoutSec 10 -UseBasicParsing; \"$($r.StatusCode) 0\" } catch { \"0 0\" }");
    let u = url_report(&"200 0.123".to_string());
    assert_eq!((u.status.as_str(), u.time_sec.as_str(), u.reachable), ("200", "0.123", true));
    let none = url_report(&"000 0.0".to_string());
    assert!(!none.reachable);
    let empty = url_report(&String::new());
    assert_eq!((empty.status.as_str(), empty.time_sec.as_str(), empty.reachable), ("0", "?", false));
}

#[test]
fn disk_battery_usb_crashes() {
    match disk_health_report(Platform::MacOs, &outs(&["Device: disk0\n   SMART Status: Verified\n"])).unwrap() {
        DiskHealth::MacOs { smart, healthy } => {
            assert_eq!(smart, "SMART Status: Verified");
            assert!(healthy);
        }
        _ => panic!("wrong variant"),
    }
    match disk_health_report(Platform::MacOs, &outs(&[""])).unwrap() {
        DiskHealth::MacOs { smart, healthy } => {
            assert_eq!(smart, "Unknown");
            assert!(!healthy);
        }
        _ => panic!("wrong variant"),
    }
    match disk_health_report(Platform::Linux, &outs(&["x\nSMART overall-health self-assessment test result: PASSED\n"])).unwrap() {
        DiskHealth::Linux { output } => assert_eq!(output, "SMART overall-health self-assessment test result: PASSED"),
        _ => panic!("wrong variant"),
    }
    assert_eq!(lines(&battery_plan(Platform::MacOs)), vec!["pmset -g batt", "system_profiler SPPowerDataType"]);
    match battery_report(Platform::MacOs, &outs(&[" 87%; charging \n", "Health:\n  Cycle Count: 312\n"])) {
        BatteryStatus::MacOs { info, cycle_count } => {
            assert_eq!(info, "87%; charging");
            assert_eq!(cycle_count, "312");
        }
        _ => panic!("wrong variant"),
    }
    match battery_report(Platform::MacOs, &outs(&["", ""])) {
        BatteryStatus::MacOs { cycle_count, .. } => assert_eq!(cycle_count, "N/A"),
        _ => panic!("wrong variant"),
    }
    let usb = usb_report(&"USB:\n\n  Hub:\n    Keyboard\n  é-éé\n".to_string());
    assert_eq!(usb, vec!["    Keyboard", "  é-éé"]);
    assert_eq!(lines(&crashes_plan(Platform::MacOs, 5, "/Users/ann").unwrap()), vec!["ls -lt /Users/ann/Library/Logs/DiagnosticReports"]);
    assert_eq!(lines(&crashes_plan(Platform::Linux, 5, "").unwrap()), vec!["journalctl --no-pager -p err -n 5"]);
    assert_eq!(
        crashes_plan(Platform::Windows, 12, "").unwrap()[0].args[1],
        "Get-EventLog -LogName Application -EntryType Error -Newest 12"
    );
    assert_eq!(crashes_report(2, &"total\na\nb\nc\n".to_string()), vec!["a", "b"]);
}

#[test]
fn kill_prefers_pid_and_needs_a_target() {
    match kill_plan(Platform::Linux, Some(123), Some("node")) {
        KillPlan::KillPid { pid, commands } => {
            assert_eq!(pid, 123);
            assert_eq!(lines(&commands), vec!["kill -9 123"]);
        }
        _ => panic!("expected pid"),
    }
    match kill_plan(Platform::Windows, Some(9), None) {
        KillPlan::KillPid { commands, .. } => assert_eq!(lines(&commands), vec!["taskkill /PID 9 /F"]),
        _ => panic!("expected pid"),
    }
    match kill_plan(Platform::MacOs, None, Some("Safari")) {
        KillPlan::KillName { name, commands } => {
            assert_eq!(name, "Safari");
            assert_eq!(lines(&commands), vec!["pkill -f Safari"]);
        }
        _ => panic!("expected name"),
    }
    match kill_plan(Platform::Windows, None, Some("a.exe")) {
        KillPlan::KillName { commands, .. } => assert_eq!(lines(&commands), vec!["taskkill /IM a.exe /F"]),
        _ => panic!("expected name"),
    }
    assert!(matches!(kill_plan(Platform::MacOs, None, None), KillPlan::MissingTarget));
    assert!(matches!(kill_plan(Platform::Other, None, None), KillPlan::MissingTarget));
}

#[test]
fn maintenance_actions() {
    assert_eq!(lines(&flush_dns_plan(Platform::MacOs).unwrap()), vec!["dscacheutil -flushcache"]);
    assert_eq!(lines(&flush_dns_plan(Platform::Windows).unwrap()), vec!["ipconfig /flushdns"]);
    assert_eq!(lines(&dhcp_plan(Platform::MacOs, "en1").unwrap()), vec!["ipconfig set en1 DHCP", "ipconfig getifaddr en1"]);
    assert_eq!(lines(&dhcp_plan(Platform::Linux, "eth0").unwrap()), vec!["dhclient -r eth0", "dhclient eth0"]);
    assert_eq!(dhcp_address(&"192.168.1.9\n".to_string()), "192.168.1.9");
    assert_eq!(lines(&trash_plan(Platform::MacOs, "/Users/ann").unwrap()), vec!["du -sh /Users/ann/.Trash", "find /Users/ann/.Trash -mindepth 1 -delete"]);
    let linux = trash_plan(Platform::Linux, "/home/ann").unwrap();
    assert_eq!(lines(&linux), vec!["find /home/ann/.local/share/Trash/files -mindepth 1 -delete"]);
    assert_eq!(trash_freed(&"1.2G\t/Users/ann/.Trash\n".to_string()).as_deref(), Some("1.2G"));
    assert!(trash_freed(&String::new()).is_none());
    assert_eq!(lines(&firewall_plan(Platform::Linux).unwrap()), vec!["sudo ufw enable"]);
    assert_eq!(lines(&lock_plan(Platform::Windows).unwrap()), vec!["rundll32.exe user32.dll,LockWorkStation"]);
}

#[test]
fn restart_needs_force() {
    assert!(matches!(restart_plan(Platform::MacOs, false), RestartPlan::NotConfirmed));
    match restart_plan(Platform::MacOs, true) {
        RestartPlan::Restart { commands } => assert_eq!(lines(&commands), vec!["sudo shutdown -r now"]),
        _ => panic!("expected restart"),
    }
    match restart_plan(Platform::Windows, true) {
        RestartPlan::Restart { commands } => assert_eq!(lines(&commands), vec!["shutdown /r /t 0"]),
        _ => panic!("expected restart"),
    }
    assert_eq!(restart_refusal(), "Set force=true to confirm. This will close all applications.");
}

#[test]
fn package_manager_choice_and_commands() {
    assert!(manager_probe(Platform::MacOs).is_none());
    assert_eq!(line(&manager_probe(Platform::Linux).unwrap()), "which brew");
    assert_eq!(package_manager(Platform::Windows, &None), PackageManager::Chocolatey);
    assert_eq!(package_manager(Platform::Linux, &Some(String::new())), PackageManager::Apt);
    assert_eq!(package_manager(Platform::Linux, &Some("/usr/local/bin/brew\n".to_string())), PackageManager::Brew);
    assert_eq!(package_manager(Platform::MacOs, &None), PackageManager::Brew);
    assert_eq!(package_manager(Platform::Other, &None), PackageManager::Brew);
    let c = |m, a, p| package_plan(m, a, p).map(|c| line(&c));
    assert_eq!(c(PackageManager::Brew, "install", Some("jq")).as_deref(), Some("brew install jq"));
    assert_eq!(c(PackageManager::Brew, "upgrade", None).as_deref(), Some("brew upgrade"));
    assert_eq!(c(PackageManager::Brew, "upgrade", Some("jq")).as_deref(), Some("brew upgrade jq"));
    assert_eq!(c(PackageManager::Brew, "list", None).as_deref(), Some("brew list --formula -1"));
    assert_eq!(c(PackageManager::Apt, "install", Some("jq")).as_deref(), Some("sudo apt-get install -y jq"));
    assert_eq!(c(PackageManager::Apt, "upgrade", Some("jq")).as_deref(), Some("sudo apt-get install --only-upgrade -y jq"));
    assert_eq!(c(PackageManager::Apt, "upgrade", None).as_deref(), Some("sudo apt-get upgrade -y"));
    assert_eq!(c(PackageManager::Apt, "uninstall", Some("jq")).as_deref(), Some("sudo apt-get remove -y jq"));
    assert_eq!(c(PackageManager::Apt, "outdated", None).as_deref(), Some("apt list --upgradable"));
    assert_eq!(c(PackageManager::Chocolatey, "upgrade", None).as_deref(), Some("choco upgrade all -y"));
    assert_eq!(c(PackageManager::Chocolatey, "list", None).as_deref(), Some("choco list --local-only"));
    assert_eq!(c(PackageManager::Chocolatey, "reinstall", Some("x")), None);
    assert_eq!(c(PackageManager::Apt, "purge", None), None);
    let mut many = String::new();
    for i in 0..12 {
        many.push_str(&format!("l{}\n", i));
    }
    assert_eq!(head_text_exec(&many), "l0\nl1\nl2\nl3\nl4\nl5\nl6\nl7\nl8\nl9");
}
