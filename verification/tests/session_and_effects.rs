use syswatch::collect::{bytes_to_mb, drop_loopback, or_unavailable, user_label};
use syswatch::effect::{exec_report, plan_effect, render_message_box, Action, ExecOutcome, LaunchMode};
use syswatch::session::answer_frame;
use syswatch::{build_snapshot, refresh_step, top_processes, Refresh, REFRESH_SECS};
use syswatch::{Command, CpuInfo, Gauge, HostInfo, MemInfo, NetworkInfo, Output, Phase, ProcessInfo, Session, SysWatchError, Turn};

fn active(peer: &str) -> Session {
    let (mut s, _) = Session::open(peer.to_string());
    s.authenticate(Some("ENSPD2026\n"));
    s
}

fn sends(v: &[Output]) -> Vec<String> {
    v.iter().filter_map(|o| match o { Output::Send(t) => Some(t.clone()), _ => None }).collect()
}

fn logs(v: &[Output]) -> Vec<String> {
    v.iter().filter_map(|o| match o { Output::Log(t) => Some(t.clone()), _ => None }).collect()
}

#[test]
fn connection_asks_for_the_token() {
    let (s, out) = Session::open("192.168.1.42:54321".to_string());
    assert_eq!(s.phase, Phase::AwaitingToken);
    assert_eq!(
        out,
        vec![Output::Log("[+] Connexion de 192.168.1.42:54321".to_string()), Output::Send("TOKEN: ".to_string())]
    );
}

#[test]
fn right_token_opens_the_session() {
    let (mut s, _) = Session::open("p".to_string());
    let out = s.authenticate(Some("  ENSPD2026\r\n"));
    assert_eq!(s.phase, Phase::Active);
    assert_eq!(out[0], Output::Send("OK — Authentification réussie.\n".to_string()));
    assert_eq!(out[1], Output::Log("[OK] Authentifié: p".to_string()));
    assert_eq!(
        out[2],
        Output::Send("\n╔══════════════════════════════════════════════════╗\n║         SysWatch v2.0 — GROUPE — ENSPD          ║\n║   Tape 'help' pour la liste des commandes.      ║\n╚══════════════════════════════════════════════════╝\n\n> ".to_string())
    );
    assert_eq!(out.len(), 3);
}

#[test]
fn wrong_token_is_refused() {
    for line in [Some("enspd2026\n"), Some(""), Some("ENSPD2026x"), None] {
        let (mut s, _) = Session::open("p".to_string());
        let out = s.authenticate(line);
        assert_eq!(s.phase, Phase::Closed);
        assert_eq!(
            out,
            vec![
                Output::Send("UNAUTHORIZED — Token invalide.\n".to_string()),
                Output::Log("[!] Accès refusé depuis p".to_string()),
                Output::Log("[-] Déconnexion de p".to_string()),
            ]
        );
    }
}

#[test]
fn commands_before_authentication_are_ignored() {
    let (mut s, _) = Session::open("p".to_string());
    assert_eq!(s.receive("cpu"), Turn::Ignored);
    assert_eq!(s.phase, Phase::AwaitingToken);
    s.authenticate(Some("nope"));
    assert_eq!(s.receive("cpu"), Turn::Ignored);
    assert_eq!(s.end(), vec![]);
    assert_eq!(s.authenticate(Some("ENSPD2026")), vec![]);
    assert_eq!(s.phase, Phase::Closed);
}

#[test]
fn quit_in_any_case_leaves() {
    for line in ["quit", "QUIT\r", "  Exit "] {
        let mut s = active("p");
        match s.receive(line) {
            Turn::Leave(out) => {
                let cmd = line.trim();
                assert_eq!(
                    out,
                    vec![
                        Output::Log(format!("[p] commande: '{}'", cmd)),
                        Output::Send("Au revoir!\nBYE\n".to_string()),
                        Output::Log("[-] Déconnexion de p".to_string()),
                    ]
                );
            }
            other => panic!("unexpected {:?}", other),
        }
        assert_eq!(s.phase, Phase::Closed);
    }
}

#[test]
fn report_commands_ask_for_fresh_figures() {
    let mut s = active("p");
    assert_eq!(
        s.receive(" CPU \n"),
        Turn::Serve {
            outputs: vec![Output::Log("[p] commande: 'CPU'".to_string())],
            command: Some(Command::Cpu),
            refresh: true,
        }
    );
    assert_eq!(
        s.receive("help"),
        Turn::Serve {
            outputs: vec![Output::Log("[p] commande: 'help'".to_string())],
            command: Some(Command::Help),
            refresh: false,
        }
    );
    assert_eq!(
        s.receive(""),
        Turn::Serve { outputs: vec![Output::Log("[p] commande: ''".to_string())], command: Some(Command::All), refresh: true }
    );
    assert_eq!(s.phase, Phase::Active);
}

#[test]
fn end_of_connection_is_logged_once() {
    let mut s = active("p");
    assert_eq!(s.end(), vec![Output::Log("[-] Déconnexion de p".to_string())]);
    assert_eq!(s.phase, Phase::Closed);
    assert_eq!(s.end(), vec![]);
}

#[test]
fn answers_are_framed() {
    assert_eq!(
        answer_frame("BYE\n"),
        vec![Output::Send("BYE\n".to_string()), Output::Send("\nEND\n> ".to_string())]
    );
}

fn launch_of(c: Command, windows: bool) -> (String, String, Vec<String>, LaunchMode) {
    let e = plan_effect(&c, windows).expect("an effect");
    match e.action {
        Action::Launch { program, args, mode } => (e.log_message, program, args, mode),
        other => panic!("unexpected {:?}", other),
    }
}

fn strs(v: &[&str]) -> Vec<String> {
    v.iter().map(|s| s.to_string()).collect()
}

#[test]
fn power_commands_per_platform() {
    assert_eq!(
        launch_of(Command::Shutdown, false),
        ("[!] SHUTDOWN demandé par client".to_string(), "shutdown".to_string(), strs(&["-h", "+1"]), LaunchMode::Detached)
    );
    assert_eq!(launch_of(Command::Shutdown, true).2, strs(&["/s", "/t", "10"]));
    assert_eq!(launch_of(Command::Reboot, false).2, strs(&["-r", "+1"]));
    assert_eq!(launch_of(Command::Reboot, true).2, strs(&["/r", "/t", "10"]));
    assert_eq!(launch_of(Command::Abort, false).2, strs(&["-c"]));
    assert_eq!(launch_of(Command::Abort, true).2, strs(&["/a"]));
    assert_eq!(
        launch_of(Command::Lock, false),
        ("[!] LOCK écran demandé par client".to_string(), "loginctl".to_string(), strs(&["lock-session"]), LaunchMode::Detached)
    );
    assert_eq!(launch_of(Command::Lock, true).1, "rundll32");
    assert_eq!(launch_of(Command::Lock, true).2, strs(&["user32.dll,LockWorkStation"]));
    assert_eq!(launch_of(Command::Hibernate, false).1, "systemctl");
    assert_eq!(launch_of(Command::Hibernate, true), ("[!] HIBERNATE demandé par client".to_string(), "shutdown".to_string(), strs(&["/h"]), LaunchMode::Detached));
}

#[test]
fn kill_sends_the_pid() {
    assert_eq!(
        launch_of(Command::Kill(1234), false),
        ("[!] KILL PID=1234 demandé".to_string(), "kill".to_string(), strs(&["-9", "1234"]), LaunchMode::Detached)
    );
    assert_eq!(launch_of(Command::Kill(7), true).1, "taskkill");
    assert_eq!(launch_of(Command::Kill(7), true).2, strs(&["/PID", "7", "/F"]));
}

#[test]
fn shell_and_package_commands() {
    assert_eq!(
        launch_of(Command::Exec("ls -la".to_string()), false),
        ("[EXEC] ls -la".to_string(), "sh".to_string(), strs(&["-c", "ls -la"]), LaunchMode::Captured)
    );
    assert_eq!(launch_of(Command::Exec("dir".to_string()), true).2, strs(&["/C", "dir"]));
    assert_eq!(
        launch_of(Command::Install { package: "vim".to_string(), raw: " vim".to_string() }, false),
        ("[INSTALL] vim".to_string(), "apt-get".to_string(), strs(&["-y", "install", "vim"]), LaunchMode::Background)
    );
    assert_eq!(
        launch_of(Command::Install { package: "vim".to_string(), raw: "vim".to_string() }, true).2,
        strs(&["install", "--silent", "vim"])
    );
    assert_eq!(
        launch_of(Command::Uninstall { package: "htop".to_string(), raw: "htop".to_string() }, false),
        ("[UNINSTALL] htop".to_string(), "apt-get".to_string(), strs(&["-y", "remove", "htop"]), LaunchMode::Background)
    );
    assert_eq!(
        launch_of(Command::Uninstall { package: "htop".to_string(), raw: "htop".to_string() }, true).1,
        "winget"
    );
    assert_eq!(
        launch_of(Command::Wget { url: "http://x/F".to_string(), raw: " http://x/F".to_string() }, false),
        ("[WGET] http://x/F".to_string(), "wget".to_string(), strs(&["-q", "http://x/F"]), LaunchMode::Background)
    );
}

#[test]
fn reports_and_help_have_no_effect() {
    for c in [Command::Host, Command::Cpu, Command::All, Command::Help, Command::Quit, Command::KillUsage, Command::Unknown("x".to_string())] {
        assert_eq!(plan_effect(&c, false), None);
        assert_eq!(plan_effect(&c, true), None);
    }
}

#[test]
fn messages_are_framed_on_the_console() {
    let e = plan_effect(&Command::Msg("hi".to_string()), false).unwrap();
    assert_eq!(e.log_message, "[MSG] hi");
    let expected = format!(
        "\n╔══════════════════════════════════════╗\n║  MESSAGE DISTANT                     ║\n║  {}{}║\n╚══════════════════════════════════════╝\n\n",
        "hi",
        " ".repeat(36)
    );
    assert_eq!(e.action, Action::Show(expected));
}

#[test]
fn message_padding_counts_bytes() {
    for text in ["é", "hello", &"x".repeat(38), &"y".repeat(45), "😀 ok"] {
        let b = render_message_box(text);
        let line = format!("║  {}{}║\n", text, " ".repeat(38usize.saturating_sub(text.len())));
        assert!(b.contains(&line), "{:?}", text);
    }
}

#[test]
fn shell_output_report() {
    let out = ExecOutcome::Finished { stdout: "a\nb\n".to_string(), stderr: String::new() };
    assert_eq!(exec_report("ls", &out), "[EXEC] 'ls'\n[stdout]\na\nb\n\n");
    let out = ExecOutcome::Finished { stdout: String::new(), stderr: "oops".to_string() };
    assert_eq!(exec_report("x", &out), "[EXEC] 'x'\n[stderr]\noops\n");
    let out = ExecOutcome::Finished { stdout: "o".to_string(), stderr: "e".to_string() };
    assert_eq!(exec_report("y", &out), "[EXEC] 'y'\n[stdout]\no\n[stderr]\ne\n");
    let out = ExecOutcome::Finished { stdout: String::new(), stderr: String::new() };
    assert_eq!(exec_report("true", &out), "[EXEC] 'true'\n");
    assert_eq!(exec_report("x", &ExecOutcome::Failed("No such file".to_string())), "Erreur exec: No such file\n");
}

fn proc_with(pid: u32, load: u32) -> ProcessInfo {
    ProcessInfo {
        pid,
        name: format!("p{}", pid),
        cpu_usage: "0.0".to_string(),
        load,
        memory_mb: 0,
        status: "Run".to_string(),
        user: "-".to_string(),
    }
}

#[test]
fn busiest_ten_processes_first() {
    let loads = [5u32, 1, 9, 5, 0, 7, 9, 3, 5, 2, 8, 6];
    let procs: Vec<ProcessInfo> = loads.iter().enumerate().map(|(i, l)| proc_with(i as u32, *l)).collect();
    let top = top_processes(procs.clone());
    let pids: Vec<u32> = top.iter().map(|p| p.pid).collect();
    // The reference: a stable sort by decreasing load, then the first ten.
    let mut reference = procs;
    reference.sort_by(|a, b| b.load.cmp(&a.load));
    reference.truncate(10);
    let ref_pids: Vec<u32> = reference.iter().map(|p| p.pid).collect();
    assert_eq!(pids, ref_pids);
    assert_eq!(pids, vec![2, 6, 10, 5, 11, 0, 3, 8, 7, 9]);
}

#[test]
fn few_processes_are_all_kept() {
    assert_eq!(top_processes(vec![]), vec![]);
    let top = top_processes(vec![proc_with(1, 3), proc_with(2, 4), proc_with(3, 3)]);
    assert_eq!(top.iter().map(|p| p.pid).collect::<Vec<_>>(), vec![2, 1, 3]);
}

#[test]
fn float_loads_order_like_cpu_usage() {
    let usages = [0.5f32, 12.25, 3.0, 100.0, 0.0];
    let procs: Vec<ProcessInfo> = usages.iter().enumerate().map(|(i, u)| proc_with(i as u32, u.to_bits())).collect();
    let pids: Vec<u32> = top_processes(procs).iter().map(|p| p.pid).collect();
    assert_eq!(pids, vec![3, 1, 2, 0, 4]);
}

fn net(name: &str) -> NetworkInfo {
    NetworkInfo { iface: name.to_string(), received_mb: "0.00".to_string(), sent_mb: "0.00".to_string() }
}

#[test]
fn loopback_interfaces_are_dropped() {
    let kept = drop_loopback(vec![net("lo"), net("eth0"), net("lo0"), net("wlan0"), net("Lo"), net("docker0")]);
    let names: Vec<String> = kept.into_iter().map(|n| n.iface).collect();
    assert_eq!(names, strs(&["eth0", "wlan0", "Lo", "docker0"]));
}

#[test]
fn unit_conversions_and_fallbacks() {
    assert_eq!(bytes_to_mb(0), 0);
    assert_eq!(bytes_to_mb(1048575), 0);
    assert_eq!(bytes_to_mb(1048576), 1);
    assert_eq!(bytes_to_mb(16 * 1024 * 1024 * 1024), 16384);
    assert_eq!(or_unavailable(None), "N/A");
    assert_eq!(or_unavailable(Some("box".to_string())), "box");
    assert_eq!(user_label(None), "-");
    assert_eq!(user_label(Some("root".to_string())), "root");
}

fn zero_gauge() -> Gauge {
    Gauge { filled: 0, pct_text: "0.0".to_string() }
}

fn parts(cores: usize) -> (HostInfo, CpuInfo, MemInfo) {
    let host = HostInfo {
        hostname: "h".to_string(),
        os_name: "N/A".to_string(),
        os_version: "N/A".to_string(),
        kernel: "N/A".to_string(),
        uptime_sec: 5,
        local_ip: "N/A".to_string(),
        username: "u".to_string(),
        cpu_arch: "x86_64".to_string(),
    };
    let cpu = CpuInfo::from_readings(cores, zero_gauge(), "  Intel(R) Xeon  ", None);
    let mem = MemInfo::from_bytes(8 << 30, 3 << 30, 5 << 30, 0, 0, zero_gauge(), zero_gauge());
    (host, cpu, mem)
}

#[test]
fn snapshot_needs_a_processor() {
    let (host, cpu, mem) = parts(0);
    let r = build_snapshot("t".to_string(), host, cpu, mem, vec![], vec![], vec![]);
    match r {
        Err(e) => {
            assert_eq!(e, SysWatchError::CollectionFailed("Aucun CPU détecté".to_string()));
            assert_eq!(e.message(), "Erreur collecte: Aucun CPU détecté");
        }
        Ok(_) => panic!("no processor should fail"),
    }
}

#[test]
fn snapshot_keeps_external_interfaces_and_top_processes() {
    let (host, cpu, mem) = parts(4);
    assert_eq!(cpu.model, "Intel(R) Xeon");
    assert_eq!(cpu.frequency_mhz, 0);
    assert_eq!(mem.total_mb, 8192);
    assert_eq!(mem.used_mb, 3072);
    assert_eq!(mem.free_mb, 5120);
    let procs: Vec<ProcessInfo> = (0..15).map(|i| proc_with(i, i)).collect();
    let s = build_snapshot("2026-01-15 14:32:01".to_string(), host, cpu, mem, vec![], vec![net("lo"), net("eth0")], procs).unwrap();
    assert_eq!(s.networks.len(), 1);
    assert_eq!(s.networks[0].iface, "eth0");
    assert_eq!(s.top_processes.len(), 10);
    assert_eq!(s.top_processes[0].pid, 14);
    assert_eq!(s.top_processes[9].pid, 5);
    assert_eq!(s.cpu.core_count, 4);
}

#[test]
fn processor_frequency_of_first_core() {
    let c = CpuInfo::from_readings(2, zero_gauge(), "AMD", Some(3600));
    assert_eq!(c.frequency_mhz, 3600);
    assert_eq!(c.model, "AMD");
}

#[test]
fn refresh_replaces_or_reports() {
    assert_eq!(REFRESH_SECS, 5);
    let (host, cpu, mem) = parts(2);
    let snap = build_snapshot("t".to_string(), host, cpu, mem, vec![], vec![], vec![]).unwrap();
    assert_eq!(
        refresh_step(Ok(snap.clone())),
        Refresh::Replace { snapshot: snap, log: "[refresh] Métriques mises à jour".to_string() }
    );
    assert_eq!(
        refresh_step(Err(SysWatchError::CollectionFailed("Aucun CPU détecté".to_string()))),
        Refresh::Report("[refresh] Erreur: Erreur collecte: Aucun CPU détecté".to_string())
    );
}

#[test]
fn every_connection_is_logged_as_ending() {
    let (mut s, opening) = Session::open("q".to_string());
    let mut all = opening;
    all.extend(s.authenticate(Some("bad")));
    all.extend(s.end());
    let l = logs(&all);
    assert_eq!(l.first().unwrap(), "[+] Connexion de q");
    assert_eq!(l.last().unwrap(), "[-] Déconnexion de q");
    assert_eq!(sends(&all), vec!["TOKEN: ".to_string(), "UNAUTHORIZED — Token invalide.\n".to_string()]);
}
