use syswatch::report::ascii_bar;
use syswatch::{
    format_response, CpuInfo, DiskInfo, Gauge, HostInfo, MemInfo, NetworkInfo, ProcessInfo,
    SystemSnapshot,
};
use syswatch::Command;
use syswatch::effect::ExecOutcome;
use syswatch::{answer, reply, serve_line, Output, SysWatchError};
use syswatch::parse_command;

/// The bar as the server draws it from a floating-point percentage.
fn reference_bar(pct: f64, width: usize) -> String {
    let filled = ((pct / 100.0) * width as f64) as usize;
    let empty = width.saturating_sub(filled);
    format!("[{}{}] {:.1}%", "█".repeat(filled), "░".repeat(empty), pct)
}

fn gauge(pct: f64, width: usize) -> Gauge {
    Gauge { filled: ((pct / 100.0) * width as f64) as usize, pct_text: format!("{:.1}", pct) }
}

fn host() -> HostInfo {
    HostInfo {
        hostname: "srv".to_string(),
        os_name: "Linux".to_string(),
        os_version: "22.04".to_string(),
        kernel: "5.15.0".to_string(),
        uptime_sec: 90061,
        local_ip: "10.0.0.2".to_string(),
        username: "alice".to_string(),
        cpu_arch: "x86_64".to_string(),
    }
}

fn process(pid: u32, name: &str, cpu: f32, mem: u64) -> ProcessInfo {
    ProcessInfo {
        pid,
        name: name.to_string(),
        cpu_usage: format!("{:.1}", cpu),
        load: cpu.to_bits(),
        memory_mb: mem,
        status: "Run".to_string(),
        user: "bob".to_string(),
    }
}

fn snapshot() -> SystemSnapshot {
    SystemSnapshot {
        timestamp: "2026-01-15 14:32:01".to_string(),
        host: host(),
        cpu: CpuInfo {
            usage: gauge(12.3f32 as f64, 30),
            core_count: 8,
            model: "Intel Core i7".to_string(),
            frequency_mhz: 2400,
        },
        memory: MemInfo {
            total_mb: 8000,
            used_mb: 4000,
            free_mb: 4000,
            swap_total_mb: 0,
            swap_used_mb: 0,
            ram: gauge(4000.0 / 8000.0 * 100.0, 30),
            swap: gauge(0.0, 30),
        },
        disks: vec![DiskInfo {
            name: "sda1".to_string(),
            mount: "/".to_string(),
            total_gb: format!("{:.1}", 100.0f64),
            used_gb: format!("{:.1}", 40.0f64),
            free_gb: format!("{:.1}", 60.0f64),
            usage: gauge(40.0, 20),
            fs_type: "ext4".to_string(),
        }],
        networks: vec![NetworkInfo {
            iface: "eth0".to_string(),
            received_mb: format!("{:.2}", 1.5f64),
            sent_mb: format!("{:.2}", 0.25f64),
        }],
        top_processes: vec![process(42, "bash", 1.5, 12), process(7, "a-very-long-process-name-indeed", 0.0, 123456)],
    }
}

fn host_line() -> String {
    "Hôte: srv  |  OS: Linux 22.04  |  Kernel: 5.15.0\nIP: 10.0.0.2  |  User: alice  |  Arch: x86_64  |  Uptime: 1j 1h 1m".to_string()
}

fn cpu_line() -> String {
    format!("CPU : {:.1}%  |  {} cœurs  |  {} MHz  |  Modèle: {}", 12.3f32, 8, 2400, "Intel Core i7")
}

fn mem_line() -> String {
    "RAM : 4000MB / 8000MB utilisés (4000 MB libres) | SWAP: 0MB / 0MB".to_string()
}

fn disk_line() -> String {
    format!("  {:>10}  {}  {:.1}GB / {:.1}GB  ({:.1}%)  {:.1}GB libres  [{}]", "sda1", "/", 40.0, 100.0, 40.0, 60.0, "ext4")
}

fn net_line() -> String {
    format!("  {:>12}  ↓ {:.2} MB reçus  ↑ {:.2} MB envoyés", "eth0", 1.5, 0.25)
}

fn proc_line(pid: u32, name: &str, cpu: f32, mem: u64) -> String {
    format!("  [{:>6}] {:<25} CPU:{:>5.1}%  MEM:{:>5}MB  État:{:<8}  User:{}", pid, name, cpu, mem, "Run", "bob")
}

fn respond(c: Command) -> String {
    format_response(&snapshot(), &c).expect("an answer")
}

#[test]
fn bars_match_the_floating_point_drawing() {
    for (pct, width) in [(0.0, 30), (12.3, 30), (50.0, 30), (99.9, 20), (100.0, 20), (150.0, 10), (33.333, 30)] {
        assert_eq!(ascii_bar(&gauge(pct, width), width), reference_bar(pct, width));
    }
}

#[test]
fn host_answer() {
    assert_eq!(respond(Command::Host), format!("[HÔTE]\n{}\n", host_line()));
}

#[test]
fn cpu_answer() {
    assert_eq!(
        respond(Command::Cpu),
        format!("[CPU]\n{}\n{}\n", cpu_line(), reference_bar(12.3f32 as f64, 30))
    );
}

#[test]
fn memory_answer() {
    assert_eq!(
        respond(Command::Mem),
        format!("[MÉMOIRE]\n{}\nRAM  {}\nSWAP {}\n", mem_line(), reference_bar(50.0, 30), reference_bar(0.0, 30))
    );
}

#[test]
fn disk_answer() {
    assert_eq!(
        respond(Command::Disk),
        format!("[DISQUES — 1 partition(s)]\n{}\n  {}\n", disk_line(), reference_bar(40.0, 20))
    );
}

#[test]
fn network_answer() {
    assert_eq!(respond(Command::Net), format!("[RÉSEAU]\n{}\n", net_line()));
    let mut s = snapshot();
    s.networks.clear();
    assert_eq!(
        format_response(&s, &Command::Net).unwrap(),
        "[RÉSEAU]\n  Aucune interface réseau.\n"
    );
}

#[test]
fn process_answer_is_numbered() {
    assert_eq!(
        respond(Command::Ps),
        format!(
            "[PROCESSUS — Top 2]\n1. {}\n2. {}\n",
            proc_line(42, "bash", 1.5, 12),
            proc_line(7, "a-very-long-process-name-indeed", 0.0, 123456)
        )
    );
}

#[test]
fn uptime_answer() {
    assert_eq!(respond(Command::Uptime), "[UPTIME]\n  1j 1h 1m\n");
}

#[test]
fn full_view_answer() {
    let expected = format!(
        "╔══════════════════════════════════════════════╗\n║         SysWatch v2.0 — Vue complète         ║\n║  {}  ║\n╚══════════════════════════════════════════════╝\n\n[HÔTE]\n{}\n\n[CPU]\n{}\n\n[MÉMOIRE]\n{}\n\n[DISQUES]\n{}\n\n[RÉSEAU]\n{}\n\n[TOP PROCESSUS]\n{}\n{}\n══════════════════════════════════════════════════\n",
        "2026-01-15 14:32:01",
        host_line(),
        cpu_line(),
        mem_line(),
        disk_line(),
        net_line(),
        proc_line(42, "bash", 1.5, 12),
        proc_line(7, "a-very-long-process-name-indeed", 0.0, 123456)
    );
    assert_eq!(respond(Command::All), expected);
    assert_eq!(snapshot().render() + "\n", expected);
}

#[test]
fn control_answers() {
    assert_eq!(respond(Command::Shutdown), "SHUTDOWN programmé dans 10 secondes (Windows) / 1 minute (Linux).\n");
    assert_eq!(respond(Command::Reboot), "REBOOT programmé dans 10 secondes (Windows) / 1 minute (Linux).\n");
    assert_eq!(respond(Command::Abort), "Extinction annulée.\n");
    assert_eq!(respond(Command::Lock), "Session verrouillée.\n");
    assert_eq!(respond(Command::Hibernate), "Hibernation en cours...\n");
    assert_eq!(respond(Command::Kill(1234)), "Signal KILL envoyé au processus PID 1234.\n");
    assert_eq!(respond(Command::KillUsage), "Usage: kill <PID>  (ex: kill 1234)\n");
    assert_eq!(respond(Command::Msg("hi".to_string())), "Message affiché sur la machine cible.\n");
    assert_eq!(respond(Command::Quit), "BYE\n");
}

#[test]
fn background_answers_quote_the_raw_argument() {
    assert_eq!(
        respond(Command::Install { package: "vim".to_string(), raw: " vim".to_string() }),
        "Installation de ' vim' lancée en arrière-plan.\n"
    );
    assert_eq!(
        respond(Command::Uninstall { package: "htop".to_string(), raw: "htop".to_string() }),
        "Désinstallation de 'htop' lancée en arrière-plan.\n"
    );
    assert_eq!(
        respond(Command::Wget { url: "http://x/y".to_string(), raw: "http://x/y".to_string() }),
        "Téléchargement de 'http://x/y' lancé en arrière-plan.\n"
    );
}

#[test]
fn unknown_answer_quotes_the_line() {
    assert_eq!(respond(Command::Unknown("Foo".to_string())), "Commande inconnue: 'Foo'. Tape 'help'.\n");
}

#[test]
fn help_answer_lists_commands() {
    let h = respond(Command::Help);
    assert_eq!(h.lines().count(), 30);
    assert!(h.starts_with("╔══════════════════════════════════════════════════╗\n║          SysWatch v2.0 — Aide complète          ║\n"));
    assert!(h.contains("║  kill <PID>   — Tuer un processus               ║\n"));
    assert!(h.ends_with("║  quit / exit  — Fermer la connexion             ║\n╚══════════════════════════════════════════════════╝\n"));
}

#[test]
fn exec_is_answered_after_it_runs() {
    assert_eq!(format_response(&snapshot(), &Command::Exec("ls".to_string())), None);
}

#[test]
fn one_line_renderings() {
    let s = snapshot();
    assert_eq!(s.host.render(), host_line());
    assert_eq!(s.cpu.render(), cpu_line());
    assert_eq!(s.memory.render(), mem_line());
    assert_eq!(s.disks[0].render(), disk_line());
    assert_eq!(s.networks[0].render(), net_line());
    assert_eq!(s.top_processes[0].render(), proc_line(42, "bash", 1.5, 12));
}

#[test]
fn wide_names_are_not_cut() {
    let d = DiskInfo {
        name: "nvme0n1p1-extra".to_string(),
        mount: "/boot/efi".to_string(),
        total_gb: "0.5".to_string(),
        used_gb: "0.1".to_string(),
        free_gb: "0.4".to_string(),
        usage: gauge(20.0, 20),
        fs_type: "vfat".to_string(),
    };
    assert_eq!(d.render(), format!("  {:>10}  {}  {}GB / {}GB  ({}%)  {}GB libres  [{}]", "nvme0n1p1-extra", "/boot/efi", "0.1", "0.5", "20.0", "0.4", "vfat"));
    let n = NetworkInfo { iface: "wlp0s20f3éé".to_string(), received_mb: "0.00".to_string(), sent_mb: "0.00".to_string() };
    assert_eq!(n.render(), format!("  {:>12}  ↓ 0.00 MB reçus  ↑ 0.00 MB envoyés", "wlp0s20f3éé"));
}

#[test]
fn partitions_differing_in_free_space_differ() {
    let mut s = snapshot();
    let a = s.disks[0].render();
    s.disks[0].free_gb = "59.9".to_string();
    assert_ne!(s.disks[0].render(), a);
}

#[test]
fn exec_answer_needs_its_outcome() {
    let c = Command::Exec("ls".to_string());
    assert_eq!(answer(&snapshot(), &c, &None), None);
    let out = Some(ExecOutcome::Finished { stdout: "x".to_string(), stderr: String::new() });
    assert_eq!(answer(&snapshot(), &c, &out).unwrap(), "[EXEC] 'ls'\n[stdout]\nx\n");
    assert_eq!(answer(&snapshot(), &Command::Uptime, &None).unwrap(), "[UPTIME]\n  1j 1h 1m\n");
}

#[test]
fn every_reply_ends_with_the_prompt() {
    assert_eq!(
        reply(&snapshot(), &Command::Uptime, &None).unwrap(),
        vec![Output::Send("[UPTIME]\n  1j 1h 1m\n".to_string()), Output::Send("\nEND\n> ".to_string())]
    );
    let out = Some(ExecOutcome::Failed("boom".to_string()));
    assert_eq!(
        reply(&snapshot(), &Command::Exec("x".to_string()), &out).unwrap(),
        vec![Output::Send("Erreur exec: boom\n".to_string()), Output::Send("\nEND\n> ".to_string())]
    );
    assert_eq!(reply(&snapshot(), &Command::Exec("x".to_string()), &None), None);
}

#[test]
fn report_line_is_answered_from_the_fresh_snapshot() {
    let mut shared = snapshot();
    let mut fresh = snapshot();
    fresh.host.uptime_sec = 120;
    let out = serve_line("  UpTime \r", &mut shared, Some(Ok(fresh.clone())), &None).unwrap();
    assert_eq!(shared, fresh);
    assert_eq!(
        out,
        vec![Output::Send("[UPTIME]\n  0j 0h 2m\n".to_string()), Output::Send("\nEND\n> ".to_string())]
    );
}

#[test]
fn failed_collection_keeps_the_snapshot() {
    let mut shared = snapshot();
    let err = SysWatchError::CollectionFailed("Aucun CPU détecté".to_string());
    let out = serve_line("uptime", &mut shared, Some(Err(err)), &None).unwrap();
    assert_eq!(shared, snapshot());
    assert_eq!(out[0], Output::Send("[UPTIME]\n  1j 1h 1m\n".to_string()));
}

#[test]
fn non_report_line_never_writes_the_snapshot() {
    let mut shared = snapshot();
    let mut fresh = snapshot();
    fresh.host.uptime_sec = 0;
    let out = serve_line("help", &mut shared, Some(Ok(fresh)), &None).unwrap();
    assert_eq!(shared, snapshot());
    assert_eq!(out.len(), 2);
    assert_eq!(out[1], Output::Send("\nEND\n> ".to_string()));
    let out = serve_line("exec ls", &mut shared, None, &Some(ExecOutcome::Failed("x".to_string()))).unwrap();
    assert_eq!(out[0], Output::Send("Erreur exec: x\n".to_string()));
    assert_eq!(serve_line("exec ls", &mut shared, None, &None), None);
}

#[test]
fn letter_case_and_space_never_change_the_reply() {
    let s = snapshot();
    for (a, b) in [("CPU", "cpu"), ("  Info\t", "host"), ("RAM", "mem"), ("Disques", "disk"), ("ReSeAu", "net"), ("PROCS", "ps"), ("", "all"), ("EXIT", "quit"), ("Help ", "help"), ("ShutDown", "shutdown")] {
        let ca = parse_command(a).unwrap();
        let cb = parse_command(b).unwrap();
        assert_eq!(ca, cb, "{:?} {:?}", a, b);
        assert_eq!(format_response(&s, &ca), format_response(&s, &cb));
    }
}
