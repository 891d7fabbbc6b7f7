//! Answers to commands: the text the server sends back for each command,
//! computed from the current snapshot.

use vstd::prelude::*;
use crate::command::{
    Command, CommandView, command_of, is_command_word, is_report_word, lowercase, needs_refresh,
    parse_command, lemma_case_and_space_never_change_command, lemma_command_ignores_surrounding_space,
};
use crate::collect::SysWatchError;
use crate::report::{
    DiskInfo, ProcessInfo, SystemSnapshot, bar_text, cpu_text, disk_text, host_text, mem_text,
    net_lines, process_text, snapshot_text, push_ascii_bar, push_net_lines,
};
use crate::text::{decimal, push_decimal, push_text, trim, trim_text};
use crate::number::{parse_u32_value, lemma_parse_decimal_roundtrip};
use crate::uptime::{uptime_text, format_uptime};
use crate::effect::{ExecOutcome, exec_report, exec_report_text};
use crate::session::{Output, OutputView, answer_frame, outputs};

verus! {

/// The help screen.
pub open spec fn help_text() -> Seq<char> {
    "╔══════════════════════════════════════════════════╗\n║          SysWatch v2.0 — Aide complète          ║\n╠══════════════════════════════════════════════════╣\n║  INFORMATIONS SYSTÈME                           ║\n║  host / info  — Infos hôte (OS, IP, user…)     ║\n║  cpu          — Usage CPU + modèle + fréquence  ║\n║  mem / ram    — RAM + SWAP                      ║\n║  disk         — Partitions disque               ║\n║  net / reseau — Interfaces réseau (trafic)      ║\n║  ps / procs   — Top 10 processus par CPU        ║\n║  uptime       — Durée depuis démarrage          ║\n║  all          — Vue complète                    ║\n╠══════════════════════════════════════════════════╣\n║  CONTRÔLE SYSTÈME                               ║\n║  shutdown     — Éteindre la machine             ║\n║  reboot       — Redémarrer la machine           ║\n║  abort        — Annuler shutdown/reboot         ║\n║  lock         — Verrouiller la session          ║\n║  hibernate    — Mettre en hibernation           ║\n║  kill <PID>   — Tuer un processus               ║\n╠══════════════════════════════════════════════════╣\n║  COMMANDES DISTANTES                            ║\n║  msg  <texte>     — Afficher un message         ║\n║  exec <commande>  — Exécuter une commande shell  ║\n║  install   <pkg>  — Installer un paquet         ║\n║  uninstall <pkg>  — Désinstaller un paquet      ║\n║  wget <url>       — Télécharger un fichier      ║\n╠══════════════════════════════════════════════════╣\n║  quit / exit  — Fermer la connexion             ║\n╚══════════════════════════════════════════════════╝\n"@
}

/// Each partition line followed by its usage bar, 20 cells wide.
pub open spec fn disk_bar_lines(ds: Seq<DiskInfo>) -> Seq<char>
    decreases ds.len(),
{
    if ds.len() == 0 {
        Seq::empty()
    } else {
        disk_bar_lines(ds.drop_last()) + disk_text(ds.last()) + "\n  "@ + bar_text(ds.last().usage, 20)
            + "\n"@
    }
}

/// The process lines numbered from 1.
pub open spec fn numbered_process_lines(ps: Seq<ProcessInfo>) -> Seq<char>
    decreases ps.len(),
{
    if ps.len() == 0 {
        Seq::empty()
    } else {
        numbered_process_lines(ps.drop_last()) + decimal(ps.len()) + ". "@ + process_text(ps.last())
            + "\n"@
    }
}

/// The answer to a report command.
pub open spec fn report_response(s: SystemSnapshot, c: CommandView) -> Seq<char> {
    match c {
        CommandView::Host => "[HÔTE]\n"@ + host_text(s.host) + "\n"@,
        CommandView::Cpu => "[CPU]\n"@ + cpu_text(s.cpu) + "\n"@ + bar_text(s.cpu.usage, 30) + "\n"@,
        CommandView::Mem => "[MÉMOIRE]\n"@ + mem_text(s.memory) + "\nRAM  "@ + bar_text(s.memory.ram, 30)
            + "\nSWAP "@ + bar_text(s.memory.swap, 30) + "\n"@,
        CommandView::Disk => "[DISQUES — "@ + decimal(s.disks@.len()) + " partition(s)]\n"@
            + disk_bar_lines(s.disks@),
        CommandView::Net => "[RÉSEAU]\n"@ + (if s.networks@.len() == 0 {
            "  Aucune interface réseau.\n"@
        } else {
            net_lines(s.networks@)
        }),
        CommandView::Ps => "[PROCESSUS — Top "@ + decimal(s.top_processes@.len()) + "]\n"@
            + numbered_process_lines(s.top_processes@),
        CommandView::Uptime => "[UPTIME]\n  "@ + uptime_text(s.host.uptime_sec as nat) + "\n"@,
        _ => snapshot_text(s) + "\n"@,
    }
}

/// The answer to every command but `exec`, whose answer reports the output
/// of the shell command (see `effect::exec_report`).
pub open spec fn response_text(s: SystemSnapshot, c: CommandView) -> Option<Seq<char>> {
    match c {
        CommandView::Shutdown => Some(
            "SHUTDOWN programmé dans 10 secondes (Windows) / 1 minute (Linux).\n"@,
        ),
        CommandView::Reboot => Some(
            "REBOOT programmé dans 10 secondes (Windows) / 1 minute (Linux).\n"@,
        ),
        CommandView::Abort => Some("Extinction annulée.\n"@),
        CommandView::Lock => Some("Session verrouillée.\n"@),
        CommandView::Hibernate => Some("Hibernation en cours...\n"@),
        CommandView::Kill(pid) => Some(
            "Signal KILL envoyé au processus PID "@ + decimal(pid as nat) + ".\n"@,
        ),
        CommandView::KillUsage => Some("Usage: kill <PID>  (ex: kill 1234)\n"@),
        CommandView::Msg(_) => Some("Message affiché sur la machine cible.\n"@),
        CommandView::Exec(_) => None,
        CommandView::Install { package, raw } => Some(
            "Installation de '"@ + raw + "' lancée en arrière-plan.\n"@,
        ),
        CommandView::Uninstall { package, raw } => Some(
            "Désinstallation de '"@ + raw + "' lancée en arrière-plan.\n"@,
        ),
        CommandView::Wget { url, raw } => Some(
            "Téléchargement de '"@ + raw + "' lancé en arrière-plan.\n"@,
        ),
        CommandView::Help => Some(help_text()),
        CommandView::Quit => Some("BYE\n"@),
        CommandView::Unknown(t) => Some("Commande inconnue: '"@ + t + "'. Tape 'help'.\n"@),
        _ => Some(report_response(s, c)),
    }
}

fn push_disk_bar_lines(s: &mut String, ds: &Vec<DiskInfo>)
    ensures
        final(s)@ == old(s)@ + disk_bar_lines(ds@),
{
    let ghost start = s@;
    let mut i: usize = 0;
    assert(ds@.take(0) =~= Seq::<DiskInfo>::empty());
    while i < ds.len()
        invariant
            i <= ds@.len(),
            s@ == start + disk_bar_lines(ds@.take(i as int)),
        decreases ds@.len() - i,
    {
        let d = &ds[i];
        d.push_render(s);
        push_text(s, "\n  ");
        push_ascii_bar(s, &d.usage, 20);
        push_text(s, "\n");
        assert(ds@.take(i + 1).drop_last() =~= ds@.take(i as int));
        i = i + 1;
        assert(s@ =~= start + disk_bar_lines(ds@.take(i as int)));
    }
    assert(ds@.take(ds@.len() as int) =~= ds@);
}

fn push_numbered_process_lines(s: &mut String, ps: &Vec<ProcessInfo>)
    ensures
        final(s)@ == old(s)@ + numbered_process_lines(ps@),
{
    let ghost start = s@;
    let mut i: usize = 0;
    assert(ps@.take(0) =~= Seq::<ProcessInfo>::empty());
    while i < ps.len()
        invariant
            i <= ps@.len(),
            s@ == start + numbered_process_lines(ps@.take(i as int)),
        decreases ps@.len() - i,
    {
        push_decimal(s, (i + 1) as u64);
        push_text(s, ". ");
        ps[i].push_render(s);
        push_text(s, "\n");
        assert(ps@.take(i + 1).drop_last() =~= ps@.take(i as int));
        assert(ps@.take(i + 1).len() == i + 1);
        i = i + 1;
        assert(s@ =~= start + numbered_process_lines(ps@.take(i as int)));
    }
    assert(ps@.take(ps@.len() as int) =~= ps@);
}

fn report(snapshot: &SystemSnapshot, command: &Command) -> (r: String)
    requires
        command@.is_report(),
    ensures
        r@ == report_response(*snapshot, command@),
{
    let mut s = String::new();
    match command {
        Command::Host => {
            push_text(&mut s, "[HÔTE]\n");
            snapshot.host.push_render(&mut s);
            push_text(&mut s, "\n");
        },
        Command::Cpu => {
            push_text(&mut s, "[CPU]\n");
            snapshot.cpu.push_render(&mut s);
            push_text(&mut s, "\n");
            push_ascii_bar(&mut s, &snapshot.cpu.usage, 30);
            push_text(&mut s, "\n");
        },
        Command::Mem => {
            push_text(&mut s, "[MÉMOIRE]\n");
            snapshot.memory.push_render(&mut s);
            push_text(&mut s, "\nRAM  ");
            push_ascii_bar(&mut s, &snapshot.memory.ram, 30);
            push_text(&mut s, "\nSWAP ");
            push_ascii_bar(&mut s, &snapshot.memory.swap, 30);
            push_text(&mut s, "\n");
        },
        Command::Disk => {
            push_text(&mut s, "[DISQUES — ");
            push_decimal(&mut s, snapshot.disks.len() as u64);
            push_text(&mut s, " partition(s)]\n");
            push_disk_bar_lines(&mut s, &snapshot.disks);
        },
        Command::Net => {
            push_text(&mut s, "[RÉSEAU]\n");
            if snapshot.networks.len() == 0 {
                push_text(&mut s, "  Aucune interface réseau.\n");
            } else {
                push_net_lines(&mut s, &snapshot.networks);
            }
        },
        Command::Ps => {
            push_text(&mut s, "[PROCESSUS — Top ");
            push_decimal(&mut s, snapshot.top_processes.len() as u64);
            push_text(&mut s, "]\n");
            push_numbered_process_lines(&mut s, &snapshot.top_processes);
        },
        Command::Uptime => {
            push_text(&mut s, "[UPTIME]\n  ");
            let up = format_uptime(snapshot.host.uptime_sec);
            push_text(&mut s, up.as_str());
            push_text(&mut s, "\n");
        },
        _ => {
            snapshot.push_render(&mut s);
            push_text(&mut s, "\n");
        },
    }
    assert(s@ =~= report_response(*snapshot, command@));
    s
}

fn text_of(t: &str) -> (r: String)
    ensures
        r@ == t@,
{
    t.to_owned()
}

fn quoted(before: &str, middle: &str, after: &str) -> (r: String)
    ensures
        r@ == before@ + middle@ + after@,
{
    let mut s = String::new();
    push_text(&mut s, before);
    push_text(&mut s, middle);
    push_text(&mut s, after);
    assert(s@ =~= before@ + middle@ + after@);
    s
}

/// The text the server sends back for `command`, given the current snapshot;
/// `None` for `exec`, whose answer is made from the output of the shell
/// command once it has run.
pub fn format_response(snapshot: &SystemSnapshot, command: &Command) -> (r: Option<String>)
    ensures
        match r {
            Some(t) => response_text(*snapshot, command@) == Some(t@),
            None => response_text(*snapshot, command@) is None,
        },
{
    match command {
        Command::Shutdown => Some(
            text_of("SHUTDOWN programmé dans 10 secondes (Windows) / 1 minute (Linux).\n"),
        ),
        Command::Reboot => Some(
            text_of("REBOOT programmé dans 10 secondes (Windows) / 1 minute (Linux).\n"),
        ),
        Command::Abort => Some(text_of("Extinction annulée.\n")),
        Command::Lock => Some(text_of("Session verrouillée.\n")),
        Command::Hibernate => Some(text_of("Hibernation en cours...\n")),
        Command::Kill(pid) => {
            let mut s = String::new();
            push_text(&mut s, "Signal KILL envoyé au processus PID ");
            push_decimal(&mut s, *pid as u64);
            push_text(&mut s, ".\n");
            Some(s)
        },
        Command::KillUsage => Some(text_of("Usage: kill <PID>  (ex: kill 1234)\n")),
        Command::Msg(_) => Some(text_of("Message affiché sur la machine cible.\n")),
        Command::Exec(_) => None,
        Command::Install { package, raw } => Some(
            quoted("Installation de '", raw.as_str(), "' lancée en arrière-plan.\n"),
        ),
        Command::Uninstall { package, raw } => Some(
            quoted("Désinstallation de '", raw.as_str(), "' lancée en arrière-plan.\n"),
        ),
        Command::Wget { url, raw } => Some(
            quoted("Téléchargement de '", raw.as_str(), "' lancé en arrière-plan.\n"),
        ),
        Command::Help => Some(text_of("╔══════════════════════════════════════════════════╗\n║          SysWatch v2.0 — Aide complète          ║\n╠══════════════════════════════════════════════════╣\n║  INFORMATIONS SYSTÈME                           ║\n║  host / info  — Infos hôte (OS, IP, user…)     ║\n║  cpu          — Usage CPU + modèle + fréquence  ║\n║  mem / ram    — RAM + SWAP                      ║\n║  disk         — Partitions disque               ║\n║  net / reseau — Interfaces réseau (trafic)      ║\n║  ps / procs   — Top 10 processus par CPU        ║\n║  uptime       — Durée depuis démarrage          ║\n║  all          — Vue complète                    ║\n╠══════════════════════════════════════════════════╣\n║  CONTRÔLE SYSTÈME                               ║\n║  shutdown     — Éteindre la machine             ║\n║  reboot       — Redémarrer la machine           ║\n║  abort        — Annuler shutdown/reboot         ║\n║  lock         — Verrouiller la session          ║\n║  hibernate    — Mettre en hibernation           ║\n║  kill <PID>   — Tuer un processus               ║\n╠══════════════════════════════════════════════════╣\n║  COMMANDES DISTANTES                            ║\n║  msg  <texte>     — Afficher un message         ║\n║  exec <commande>  — Exécuter une commande shell  ║\n║  install   <pkg>  — Installer un paquet         ║\n║  uninstall <pkg>  — Désinstaller un paquet      ║\n║  wget <url>       — Télécharger un fichier      ║\n╠══════════════════════════════════════════════════╣\n║  quit / exit  — Fermer la connexion             ║\n╚══════════════════════════════════════════════════╝\n")),
        Command::Quit => Some(text_of("BYE\n")),
        Command::Unknown(t) => Some(
            quoted("Commande inconnue: '", t.as_str(), "'. Tape 'help'.\n"),
        ),
        _ => Some(report(snapshot, command)),
    }
}

/// Every command is answered from the snapshot, except `exec`, whose answer
/// is the report of the shell command.
pub proof fn lemma_every_command_answered(s: SystemSnapshot, c: CommandView)
    ensures
        response_text(s, c) is None <==> c is Exec,
{
}

/// The answer to `command`: for `exec`, the report of how the shell command
/// ended (`None` when it has not been run); for every other command, its
/// answer from the snapshot.
pub open spec fn answer_text(
    s: SystemSnapshot,
    c: CommandView,
    outcome: Option<ExecOutcome>,
) -> Option<Seq<char>> {
    match c {
        CommandView::Exec(raw) => match outcome {
            Some(o) => Some(exec_report_text(raw, o)),
            None => None,
        },
        _ => response_text(s, c),
    }
}

/// The answer to `command`, given the snapshot and, for `exec`, the outcome
/// of the shell command.
pub fn answer(snapshot: &SystemSnapshot, command: &Command, outcome: &Option<ExecOutcome>) -> (r:
    Option<String>)
    ensures
        match r {
            Some(t) => answer_text(*snapshot, command@, *outcome) == Some(t@),
            None => answer_text(*snapshot, command@, *outcome) is None,
        },
{
    match command {
        Command::Exec(raw) => match outcome {
            Some(o) => Some(exec_report(raw.as_str(), o)),
            None => None,
        },
        _ => format_response(snapshot, command),
    }
}

/// What the client receives for a command line: the answer, then the end
/// marker and the prompt.
pub fn reply(snapshot: &SystemSnapshot, command: &Command, outcome: &Option<ExecOutcome>) -> (r:
    Option<Vec<Output>>)
    ensures
        match answer_text(*snapshot, command@, *outcome) {
            Some(t) => (r matches Some(v) && outputs(v@) == seq![
                OutputView::Send(t),
                OutputView::Send("\nEND\n> "@),
            ]),
            None => r is None,
        },
{
    match answer(snapshot, command, outcome) {
        Some(t) => Some(answer_frame(t.as_str())),
        None => None,
    }
}

/// The bar lines of the partitions of a list are those of its parts; one
/// partition gives its line then its bar, 20 cells wide.
pub proof fn lemma_disk_bar_lines_concat(a: Seq<DiskInfo>, b: Seq<DiskInfo>)
    ensures
        disk_bar_lines(a + b) == disk_bar_lines(a) + disk_bar_lines(b),
    decreases b.len(),
{
    if b.len() == 0 {
        assert(a + b =~= a);
        assert(disk_bar_lines(a) + disk_bar_lines(b) =~= disk_bar_lines(a));
    } else {
        lemma_disk_bar_lines_concat(a, b.drop_last());
        assert((a + b).drop_last() =~= a + b.drop_last());
        assert((a + b).last() == b.last());
        assert(disk_bar_lines(a + b) =~= disk_bar_lines(a) + disk_bar_lines(b));
    }
}

/// One partition gives its line, then its bar 20 cells wide.
pub proof fn lemma_disk_bar_lines_single(d: DiskInfo)
    ensures
        disk_bar_lines(seq![d]) == disk_text(d) + "\n  "@ + bar_text(d.usage, 20) + "\n"@,
{
    assert(seq![d].drop_last() =~= Seq::<DiskInfo>::empty());
    assert(seq![d].last() == d);
    assert(disk_bar_lines(Seq::<DiskInfo>::empty()) =~= Seq::<char>::empty());
    assert(disk_bar_lines(seq![d]) == disk_bar_lines(seq![d].drop_last()) + disk_text(seq![d].last())
        + "\n  "@ + bar_text(seq![d].last().usage, 20) + "\n"@);
    assert(disk_bar_lines(seq![d]) =~= disk_text(d) + "\n  "@ + bar_text(d.usage, 20) + "\n"@);
}

/// Process `k` of the list gets the number `k + 1`: the numbered lines of
/// the first `k + 1` processes are those of the first `k`, then `k + 1`,
/// `. ` and the line of process `k`.
pub proof fn lemma_numbered_process_step(ps: Seq<ProcessInfo>, k: int)
    requires
        0 <= k < ps.len(),
    ensures
        numbered_process_lines(ps.take(k + 1)) == numbered_process_lines(ps.take(k)) + decimal(
            (k + 1) as nat,
        ) + ". "@ + process_text(ps[k]) + "\n"@,
{
    assert(ps.take(k + 1).drop_last() =~= ps.take(k));
    assert(ps.take(k + 1).last() == ps[k]);
    assert(ps.take(k + 1).len() == k + 1);
}

/// The answers to the report commands: each opens with its section title
/// and gives the snapshot's figures for it; the process list is numbered and
/// counted, the partition list counted, an empty interface list said so.
pub proof fn lemma_report_answers(s: SystemSnapshot)
    ensures
        response_text(s, CommandView::Host) == Some("[HÔTE]\n"@ + host_text(s.host) + "\n"@),
        response_text(s, CommandView::Cpu) == Some(
            "[CPU]\n"@ + cpu_text(s.cpu) + "\n"@ + bar_text(s.cpu.usage, 30) + "\n"@,
        ),
        response_text(s, CommandView::Mem) == Some(
            "[MÉMOIRE]\n"@ + mem_text(s.memory) + "\nRAM  "@ + bar_text(s.memory.ram, 30) + "\nSWAP "@
                + bar_text(s.memory.swap, 30) + "\n"@,
        ),
        response_text(s, CommandView::Disk) == Some(
            "[DISQUES — "@ + decimal(s.disks@.len()) + " partition(s)]\n"@ + disk_bar_lines(s.disks@),
        ),
        s.networks@.len() == 0 ==> response_text(s, CommandView::Net) == Some(
            "[RÉSEAU]\n"@ + "  Aucune interface réseau.\n"@,
        ),
        s.networks@.len() > 0 ==> response_text(s, CommandView::Net) == Some(
            "[RÉSEAU]\n"@ + crate::report::net_lines(s.networks@),
        ),
        response_text(s, CommandView::Ps) == Some(
            "[PROCESSUS — Top "@ + decimal(s.top_processes@.len()) + "]\n"@ + numbered_process_lines(
                s.top_processes@,
            ),
        ),
        response_text(s, CommandView::Uptime) == Some(
            "[UPTIME]\n  "@ + uptime_text(s.host.uptime_sec as nat) + "\n"@,
        ),
        response_text(s, CommandView::All) == Some(snapshot_text(s) + "\n"@),
{
}

/// The answers that echo their argument: the PID of `kill` (which parses
/// back to it), the raw argument of `install`, `uninstall` and `wget`, and
/// the line of an unknown command.
pub proof fn lemma_echoing_answers(s: SystemSnapshot, pid: u32, x: Seq<char>, y: Seq<char>)
    ensures
        response_text(s, CommandView::Kill(pid)) == Some(
            "Signal KILL envoyé au processus PID "@ + decimal(pid as nat) + ".\n"@,
        ),
        parse_u32_value(decimal(pid as nat)) == Some(pid),
        response_text(s, CommandView::Install { package: y, raw: x }) == Some(
            "Installation de '"@ + x + "' lancée en arrière-plan.\n"@,
        ),
        response_text(s, CommandView::Uninstall { package: y, raw: x }) == Some(
            "Désinstallation de '"@ + x + "' lancée en arrière-plan.\n"@,
        ),
        response_text(s, CommandView::Wget { url: y, raw: x }) == Some(
            "Téléchargement de '"@ + x + "' lancé en arrière-plan.\n"@,
        ),
        response_text(s, CommandView::Unknown(x)) == Some("Commande inconnue: '"@ + x + "'. Tape 'help'.\n"@),
{
    lemma_parse_decimal_roundtrip(pid);
}

/// Letter case and surrounding whitespace never change the reply to a
/// command word: lines with the same lower-cased trimmed word get the same
/// answer from any snapshot.
pub proof fn lemma_case_and_space_never_change_reply(s: SystemSnapshot, a: Seq<char>, b: Seq<char>)
    requires
        lowercase(trim(a)) == lowercase(trim(b)),
        is_command_word(lowercase(trim(a))),
    ensures
        command_of(a) is Some,
        response_text(s, command_of(a)->0) == response_text(s, command_of(b)->0),
{
    lemma_case_and_space_never_change_command(a, b);
}

/// The snapshot a line is answered from: the fresh one when the line is a
/// report word and a collection succeeded, the current one otherwise.
pub open spec fn snapshot_for(
    line: Seq<char>,
    current: SystemSnapshot,
    collected: Option<Result<SystemSnapshot, SysWatchError>>,
) -> SystemSnapshot {
    if is_report_word(lowercase(trim(line))) {
        match collected {
            Some(Ok(f)) => f,
            _ => current,
        }
    } else {
        current
    }
}

/// Serves one command line of an active session: a report word replaces
/// the shared snapshot with the fresh collection when there is one; then the
/// line's command is answered from the shared snapshot (and, for `exec`,
/// the outcome of the shell command), followed by the end marker and the
/// prompt. `None` where the line has no command (an argument cut inside a
/// character) or an `exec` has not been run.
pub fn serve_line(
    line: &str,
    shared: &mut SystemSnapshot,
    collected: Option<Result<SystemSnapshot, SysWatchError>>,
    outcome: &Option<ExecOutcome>,
) -> (r: Option<Vec<Output>>)
    ensures
        *final(shared) == snapshot_for(line@, *old(shared), collected),
        match command_of(line@) {
            Some(c) => match answer_text(*final(shared), c, *outcome) {
                Some(t) => (r matches Some(v) && outputs(v@) == seq![
                    OutputView::Send(t),
                    OutputView::Send("\nEND\n> "@),
                ]),
                None => r is None,
            },
            None => r is None,
        },
{
    let cmd = trim_text(line);
    proof {
        lemma_command_ignores_surrounding_space(line@);
    }
    if needs_refresh(cmd.as_str()) {
        match collected {
            Some(Ok(fresh)) => {
                *shared = fresh;
            },
            _ => {},
        }
    }
    match parse_command(cmd.as_str()) {
        Some(c) => reply(shared, &c, outcome),
        None => None,
    }
}

} // verus!
