//! The outside work that commands ask for: log lines, programs to launch
//! (per platform) and console output, and the report of a shell command.

use vstd::prelude::*;
use crate::command::{Command, CommandView};
use crate::number::{parse_u32_value, lemma_parse_decimal_roundtrip};
use crate::report::occurs_at;
use crate::text::{
    decimal, decimal_text, min_nat, push_decimal, push_repeat, push_text, repeat_char, utf8_len,
    utf8_len_capped,
};

verus! {

/// How a program is run.
#[derive(Clone, Debug, PartialEq, Eq)]
pub enum LaunchMode {
    /// Started and left running; its outcome is ignored.
    Detached,
    /// Run to completion on a background thread; its outcome is ignored.
    Background,
    /// Run to completion; its output is reported back to the client.
    Captured,
}

/// What to do besides answering.
#[derive(Clone, Debug, PartialEq, Eq)]
pub enum Action {
    /// Run `program` with `args`.
    Launch { program: String, args: Vec<String>, mode: LaunchMode },
    /// Print the text on the server's console.
    Show(String),
}

/// A log entry followed by an action.
#[derive(Clone, Debug, PartialEq, Eq)]
pub struct Effect {
    pub log_message: String,
    pub action: Action,
}

/// The characters of each string.
pub open spec fn texts(v: Seq<String>) -> Seq<Seq<char>> {
    v.map_values(|a: String| a@)
}

pub enum ActionView {
    Launch { program: Seq<char>, args: Seq<Seq<char>>, mode: LaunchMode },
    Show(Seq<char>),
}

pub struct EffectView {
    pub log_message: Seq<char>,
    pub action: ActionView,
}

impl View for Effect {
    type V = EffectView;

    open spec fn view(&self) -> EffectView {
        EffectView {
            log_message: self.log_message@,
            action: match self.action {
                Action::Launch { program, args, mode } => ActionView::Launch {
                    program: program@,
                    args: texts(args@),
                    mode,
                },
                Action::Show(t) => ActionView::Show(t@),
            },
        }
    }
}

/// The framed message shown on the server's console for `msg`; the text is
/// padded with spaces up to 38 bytes.
pub open spec fn message_box(text: Seq<char>) -> Seq<char> {
    "\n╔══════════════════════════════════════╗\n"@ + "║  MESSAGE DISTANT                     ║\n"@ + "║  "@ + text + repeat_char(' ', (38 - min_nat(utf8_len(text), 38)) as nat)
        + "║\n"@ + "╚══════════════════════════════════════╝\n\n"@
}

/// A launch preceded by the log entry `log`.
pub open spec fn launch(log: Seq<char>, program: Seq<char>, args: Seq<Seq<char>>, mode: LaunchMode) -> Option<EffectView> {
    Some(EffectView { log_message: log, action: ActionView::Launch { program, args, mode } })
}

/// The outside work that `c` asks for, on Windows or elsewhere; `None` for the
/// commands that only answer.
pub open spec fn planned_effect(c: CommandView, windows: bool) -> Option<EffectView> {
    match c {
        CommandView::Shutdown => launch(
            "[!] SHUTDOWN demandé par client"@,
            "shutdown"@,
            if windows { seq!["/s"@, "/t"@, "10"@] } else { seq!["-h"@, "+1"@] },
            LaunchMode::Detached,
        ),
        CommandView::Reboot => launch(
            "[!] REBOOT demandé par client"@,
            "shutdown"@,
            if windows { seq!["/r"@, "/t"@, "10"@] } else { seq!["-r"@, "+1"@] },
            LaunchMode::Detached,
        ),
        CommandView::Abort => launch(
            "[!] ABORT demandé par client"@,
            "shutdown"@,
            if windows { seq!["/a"@] } else { seq!["-c"@] },
            LaunchMode::Detached,
        ),
        CommandView::Lock => launch(
            "[!] LOCK écran demandé par client"@,
            if windows { "rundll32"@ } else { "loginctl"@ },
            if windows { seq!["user32.dll,LockWorkStation"@] } else { seq!["lock-session"@] },
            LaunchMode::Detached,
        ),
        CommandView::Hibernate => launch(
            "[!] HIBERNATE demandé par client"@,
            if windows { "shutdown"@ } else { "systemctl"@ },
            if windows { seq!["/h"@] } else { seq!["hibernate"@] },
            LaunchMode::Detached,
        ),
        CommandView::Kill(pid) => launch(
            "[!] KILL PID="@ + decimal(pid as nat) + " demandé"@,
            if windows { "taskkill"@ } else { "kill"@ },
            if windows { seq!["/PID"@, decimal(pid as nat), "/F"@] } else { seq!["-9"@, decimal(pid as nat)] },
            LaunchMode::Detached,
        ),
        CommandView::Msg(text) => Some(EffectView {
            log_message: "[MSG] "@ + text,
            action: ActionView::Show(message_box(text)),
        }),
        CommandView::Exec(raw) => launch(
            "[EXEC] "@ + raw,
            if windows { "cmd"@ } else { "sh"@ },
            if windows { seq!["/C"@, raw] } else { seq!["-c"@, raw] },
            LaunchMode::Captured,
        ),
        CommandView::Install { package, raw } => launch(
            "[INSTALL] "@ + package,
            if windows { "winget"@ } else { "apt-get"@ },
            if windows { seq!["install"@, "--silent"@, package] } else { seq!["-y"@, "install"@, package] },
            LaunchMode::Background,
        ),
        CommandView::Uninstall { package, raw } => launch(
            "[UNINSTALL] "@ + package,
            if windows { "winget"@ } else { "apt-get"@ },
            if windows { seq!["uninstall"@, "--silent"@, package] } else { seq!["-y"@, "remove"@, package] },
            LaunchMode::Background,
        ),
        CommandView::Wget { url, raw } => launch(
            "[WGET] "@ + url,
            "wget"@,
            seq!["-q"@, url],
            LaunchMode::Background,
        ),
        _ => None,
    }
}

fn owned(t: &str) -> (r: String)
    ensures
        r@ == t@,
{
    t.to_owned()
}

fn joined(a: &str, b: &str) -> (r: String)
    ensures
        r@ == a@ + b@,
{
    let mut s = owned(a);
    push_text(&mut s, b);
    s
}

fn args1(a: String) -> (v: Vec<String>)
    ensures
        texts(v@) == seq![a@],
{
    let mut v = Vec::new();
    v.push(a);
    assert(texts(v@) =~= seq![a@]);
    v
}

fn args2(a: String, b: String) -> (v: Vec<String>)
    ensures
        texts(v@) == seq![a@, b@],
{
    let mut v = Vec::new();
    v.push(a);
    v.push(b);
    assert(texts(v@) =~= seq![a@, b@]);
    v
}

fn args3(a: String, b: String, c: String) -> (v: Vec<String>)
    ensures
        texts(v@) == seq![a@, b@, c@],
{
    let mut v = Vec::new();
    v.push(a);
    v.push(b);
    v.push(c);
    assert(texts(v@) =~= seq![a@, b@, c@]);
    v
}

fn launch_effect(log: String, program: String, args: Vec<String>, mode: LaunchMode) -> (e: Effect)
    ensures
        e@ == (EffectView {
            log_message: log@,
            action: ActionView::Launch { program: program@, args: texts(args@), mode },
        }),
{
    Effect { log_message: log, action: Action::Launch { program, args, mode } }
}

/// The console text for `msg`.
pub fn render_message_box(text: &str) -> (r: String)
    ensures
        r@ == message_box(text@),
{
    let mut s = owned("\n╔══════════════════════════════════════╗\n");
    push_text(&mut s, "║  MESSAGE DISTANT                     ║\n");
    push_text(&mut s, "║  ");
    push_text(&mut s, text);
    let used = utf8_len_capped(text, 38);
    push_repeat(&mut s, ' ', 38 - used);
    push_text(&mut s, "║\n");
    push_text(&mut s, "╚══════════════════════════════════════╝\n\n");
    assert(s@ =~= message_box(text@));
    s
}

/// The outside work that `command` asks for; `windows` selects the Windows
/// programs.
pub fn plan_effect(command: &Command, windows: bool) -> (r: Option<Effect>)
    ensures
        match r {
            Some(e) => planned_effect(command@, windows) == Some(e@),
            None => planned_effect(command@, windows) is None,
        },
{
    match command {
        Command::Shutdown => Some(launch_effect(
            owned("[!] SHUTDOWN demandé par client"),
            owned("shutdown"),
            if windows { args3(owned("/s"), owned("/t"), owned("10")) } else { args2(owned("-h"), owned("+1")) },
            LaunchMode::Detached,
        )),
        Command::Reboot => Some(launch_effect(
            owned("[!] REBOOT demandé par client"),
            owned("shutdown"),
            if windows { args3(owned("/r"), owned("/t"), owned("10")) } else { args2(owned("-r"), owned("+1")) },
            LaunchMode::Detached,
        )),
        Command::Abort => Some(launch_effect(
            owned("[!] ABORT demandé par client"),
            owned("shutdown"),
            if windows { args1(owned("/a")) } else { args1(owned("-c")) },
            LaunchMode::Detached,
        )),
        Command::Lock => Some(launch_effect(
            owned("[!] LOCK écran demandé par client"),
            if windows { owned("rundll32") } else { owned("loginctl") },
            if windows { args1(owned("user32.dll,LockWorkStation")) } else { args1(owned("lock-session")) },
            LaunchMode::Detached,
        )),
        Command::Hibernate => Some(launch_effect(
            owned("[!] HIBERNATE demandé par client"),
            if windows { owned("shutdown") } else { owned("systemctl") },
            if windows { args1(owned("/h")) } else { args1(owned("hibernate")) },
            LaunchMode::Detached,
        )),
        Command::Kill(pid) => {
            let mut log = owned("[!] KILL PID=");
            push_decimal(&mut log, *pid as u64);
            push_text(&mut log, " demandé");
            let args = if windows {
                args3(owned("/PID"), decimal_text(*pid as u64), owned("/F"))
            } else {
                args2(owned("-9"), decimal_text(*pid as u64))
            };
            let program = if windows { owned("taskkill") } else { owned("kill") };
            Some(launch_effect(log, program, args, LaunchMode::Detached))
        },
        Command::Msg(text) => Some(Effect {
            log_message: joined("[MSG] ", text.as_str()),
            action: Action::Show(render_message_box(text.as_str())),
        }),
        Command::Exec(raw) => Some(launch_effect(
            joined("[EXEC] ", raw.as_str()),
            if windows { owned("cmd") } else { owned("sh") },
            if windows { args2(owned("/C"), owned(raw.as_str())) } else { args2(owned("-c"), owned(raw.as_str())) },
            LaunchMode::Captured,
        )),
        Command::Install { package, raw } => Some(launch_effect(
            joined("[INSTALL] ", package.as_str()),
            if windows { owned("winget") } else { owned("apt-get") },
            if windows {
                args3(owned("install"), owned("--silent"), owned(package.as_str()))
            } else {
                args3(owned("-y"), owned("install"), owned(package.as_str()))
            },
            LaunchMode::Background,
        )),
        Command::Uninstall { package, raw } => Some(launch_effect(
            joined("[UNINSTALL] ", package.as_str()),
            if windows { owned("winget") } else { owned("apt-get") },
            if windows {
                args3(owned("uninstall"), owned("--silent"), owned(package.as_str()))
            } else {
                args3(owned("-y"), owned("remove"), owned(package.as_str()))
            },
            LaunchMode::Background,
        )),
        Command::Wget { url, raw } => Some(launch_effect(
            joined("[WGET] ", url.as_str()),
            owned("wget"),
            args2(owned("-q"), owned(url.as_str())),
            LaunchMode::Background,
        )),
        _ => None,
    }
}

/// How a captured shell command ended.
#[derive(Clone, Debug, PartialEq, Eq)]
pub enum ExecOutcome {
    /// It ran; its standard output and error, decoded as text.
    Finished { stdout: String, stderr: String },
    /// It could not be started; the error's text.
    Failed(String),
}

/// The answer to `exec`: the command, then its output and error streams
/// when they are not empty; or the reason it could not run.
pub open spec fn exec_report_text(raw: Seq<char>, outcome: ExecOutcome) -> Seq<char> {
    match outcome {
        ExecOutcome::Finished { stdout, stderr } => "[EXEC] '"@ + raw + "'\n"@ + (if stdout@.len()
            == 0 {
            Seq::empty()
        } else {
            "[stdout]\n"@ + stdout@ + "\n"@
        }) + (if stderr@.len() == 0 {
            Seq::empty()
        } else {
            "[stderr]\n"@ + stderr@ + "\n"@
        }),
        ExecOutcome::Failed(e) => "Erreur exec: "@ + e@ + "\n"@,
    }
}

/// The answer to `exec <raw>` once the shell command has run.
pub fn exec_report(raw: &str, outcome: &ExecOutcome) -> (r: String)
    ensures
        r@ == exec_report_text(raw@, *outcome),
{
    match outcome {
        ExecOutcome::Finished { stdout, stderr } => {
            let mut s = owned("[EXEC] '");
            push_text(&mut s, raw);
            push_text(&mut s, "'\n");
            if stdout.as_str().unicode_len() > 0 {
                push_text(&mut s, "[stdout]\n");
                push_text(&mut s, stdout.as_str());
                push_text(&mut s, "\n");
            }
            if stderr.as_str().unicode_len() > 0 {
                push_text(&mut s, "[stderr]\n");
                push_text(&mut s, stderr.as_str());
                push_text(&mut s, "\n");
            }
            assert(s@ =~= exec_report_text(raw@, *outcome));
            s
        },
        ExecOutcome::Failed(e) => {
            let mut s = owned("Erreur exec: ");
            push_text(&mut s, e.as_str());
            push_text(&mut s, "\n");
            assert(s@ =~= exec_report_text(raw@, *outcome));
            s
        },
    }
}

/// Reports only read the machine: they ask for no outside work, on any
/// platform.
pub proof fn lemma_reports_have_no_effect(c: CommandView, windows: bool)
    requires
        c.is_report(),
    ensures
        planned_effect(c, windows) is None,
{
}

/// The program, arguments and launch mode of an effect, when it launches.
pub open spec fn launched(e: Option<EffectView>) -> Option<(Seq<char>, Seq<Seq<char>>, LaunchMode)> {
    match e {
        Some(EffectView { log_message, action: ActionView::Launch { program, args, mode } }) => Some(
            (program, args, mode),
        ),
        _ => None,
    }
}

/// Packages: on Windows `winget install|uninstall --silent <pkg>`, elsewhere
/// `apt-get -y install|remove <pkg>`, in the background, logged with the
/// package. Installing and removing use the same program, flags and package
/// and differ in the verb only; removing never passes the install verb.
pub proof fn lemma_package_effects(package: Seq<char>, raw: Seq<char>, windows: bool)
    ensures
        launched(planned_effect(CommandView::Install { package, raw }, windows)) == Some(
            (
                if windows { "winget"@ } else { "apt-get"@ },
                if windows { seq!["install"@, "--silent"@, package] } else { seq!["-y"@, "install"@, package] },
                LaunchMode::Background,
            ),
        ),
        launched(planned_effect(CommandView::Uninstall { package, raw }, windows)) == Some(
            (
                if windows { "winget"@ } else { "apt-get"@ },
                if windows { seq!["uninstall"@, "--silent"@, package] } else { seq!["-y"@, "remove"@, package] },
                LaunchMode::Background,
            ),
        ),
        planned_effect(CommandView::Install { package, raw }, windows)->0.log_message == "[INSTALL] "@
            + package,
        planned_effect(CommandView::Uninstall { package, raw }, windows)->0.log_message
            == "[UNINSTALL] "@ + package,
        forall|i: int|
            0 <= i < 2 ==> (launched(planned_effect(CommandView::Uninstall { package, raw }, windows))->0).1[i]
                != "install"@,
{
    reveal_strlit("install");
    reveal_strlit("uninstall");
    reveal_strlit("remove");
    reveal_strlit("--silent");
    reveal_strlit("-y");
    assert("uninstall"@.len() != "install"@.len());
    assert("remove"@.len() != "install"@.len());
    assert("--silent"@.len() != "install"@.len());
    assert("-y"@.len() != "install"@.len());
}

/// Power control, detached: shutdown in 10 s / 1 min (`/s /t 10`, `-h +1`),
/// reboot (`/r /t 10`, `-r +1`), abort (`/a`, `-c`), lock (`rundll32
/// user32.dll,LockWorkStation`, `loginctl lock-session`), hibernate
/// (`shutdown /h`, `systemctl hibernate`).
pub proof fn lemma_power_effects(windows: bool)
    ensures
        launched(planned_effect(CommandView::Shutdown, windows)) == Some(
            (
                "shutdown"@,
                if windows { seq!["/s"@, "/t"@, "10"@] } else { seq!["-h"@, "+1"@] },
                LaunchMode::Detached,
            ),
        ),
        launched(planned_effect(CommandView::Reboot, windows)) == Some(
            (
                "shutdown"@,
                if windows { seq!["/r"@, "/t"@, "10"@] } else { seq!["-r"@, "+1"@] },
                LaunchMode::Detached,
            ),
        ),
        launched(planned_effect(CommandView::Abort, windows)) == Some(
            ("shutdown"@, if windows { seq!["/a"@] } else { seq!["-c"@] }, LaunchMode::Detached),
        ),
        launched(planned_effect(CommandView::Lock, windows)) == Some(
            (
                if windows { "rundll32"@ } else { "loginctl"@ },
                if windows { seq!["user32.dll,LockWorkStation"@] } else { seq!["lock-session"@] },
                LaunchMode::Detached,
            ),
        ),
        launched(planned_effect(CommandView::Hibernate, windows)) == Some(
            (
                if windows { "shutdown"@ } else { "systemctl"@ },
                if windows { seq!["/h"@] } else { seq!["hibernate"@] },
                LaunchMode::Detached,
            ),
        ),
        planned_effect(CommandView::Shutdown, windows)->0.log_message == "[!] SHUTDOWN demandé par client"@,
        planned_effect(CommandView::Reboot, windows)->0.log_message == "[!] REBOOT demandé par client"@,
        planned_effect(CommandView::Abort, windows)->0.log_message == "[!] ABORT demandé par client"@,
        planned_effect(CommandView::Lock, windows)->0.log_message == "[!] LOCK écran demandé par client"@,
        planned_effect(CommandView::Hibernate, windows)->0.log_message
            == "[!] HIBERNATE demandé par client"@,
{
}

/// `kill` sends SIGKILL (`kill -9`) or `taskkill /PID .. /F`, detached; the
/// second argument is the PID, written so that it parses back to the PID.
pub proof fn lemma_kill_effect(pid: u32, windows: bool)
    ensures
        launched(planned_effect(CommandView::Kill(pid), windows)) matches Some((program, args, mode)) && {
            &&& program == if windows { "taskkill"@ } else { "kill"@ }
            &&& mode == LaunchMode::Detached
            &&& args.len() == if windows { 3int } else { 2int }
            &&& args[0] == if windows { "/PID"@ } else { "-9"@ }
            &&& parse_u32_value(args[1]) == Some(pid)
            &&& windows ==> args[2] == "/F"@
        },
        planned_effect(CommandView::Kill(pid), windows)->0.log_message == "[!] KILL PID="@ + decimal(
            pid as nat,
        ) + " demandé"@,
{
    lemma_parse_decimal_roundtrip(pid);
}

/// `exec`, `wget` and `msg` hand their argument on unchanged: the shell
/// command is the last argument of `sh -c` / `cmd /C` and its output is
/// captured; the URL is the last argument of `wget -q`, in the background;
/// the message is shown in its box on the console. Each is logged with its
/// argument.
pub proof fn lemma_argument_effects(text: Seq<char>, raw: Seq<char>, windows: bool)
    ensures
        launched(planned_effect(CommandView::Exec(text), windows)) == Some(
            (
                if windows { "cmd"@ } else { "sh"@ },
                if windows { seq!["/C"@, text] } else { seq!["-c"@, text] },
                LaunchMode::Captured,
            ),
        ),
        planned_effect(CommandView::Exec(text), windows)->0.log_message == "[EXEC] "@ + text,
        launched(planned_effect(CommandView::Wget { url: text, raw }, windows)) == Some(
            ("wget"@, seq!["-q"@, text], LaunchMode::Background),
        ),
        planned_effect(CommandView::Wget { url: text, raw }, windows)->0.log_message == "[WGET] "@ + text,
        planned_effect(CommandView::Msg(text), windows) == Some(
            EffectView { log_message: "[MSG] "@ + text, action: ActionView::Show(message_box(text)) },
        ),
{
}

/// The message box shows the text on its own line, right after `║  `,
/// padded with spaces so that text and padding fill 38 bytes when the text
/// is shorter, then the right border.
pub proof fn lemma_message_box_holds_text(text: Seq<char>)
    ensures
        exists|p: int, k: nat|
            #[trigger] occurs_at(message_box(text), "║  "@ + text + repeat_char(' ', k) + "║\n"@, p) && (
            utf8_len(text) < 38 ==> utf8_len(text) + k == 38) && (utf8_len(text) >= 38 ==> k == 0),
{
    let a = "\n╔══════════════════════════════════════╗\n"@ + "║  MESSAGE DISTANT                     ║\n"@;
    let k: nat = (38 - min_nat(utf8_len(text), 38)) as nat;
    let mid = "║  "@ + text + repeat_char(' ', k) + "║\n"@;
    let b = "╚══════════════════════════════════════╝\n\n"@;
    assert(message_box(text) =~= a + mid + b);
    let p: int = a.len() as int;
    assert(message_box(text).subrange(p, p + mid.len()) =~= mid);
    assert(occurs_at(message_box(text), mid, p));
}

/// The answer to `exec`: the command quoted, then `[stdout]` with the output
/// when there is some, then `[stderr]` with the errors when there are some;
/// or the reason the command could not run.
pub proof fn lemma_exec_report_parts(raw: Seq<char>, outcome: ExecOutcome)
    ensures
        outcome matches ExecOutcome::Finished { stdout, stderr } ==> exec_report_text(raw, outcome)
            == "[EXEC] '"@ + raw + "'\n"@ + (if stdout@.len() > 0 {
            "[stdout]\n"@ + stdout@ + "\n"@
        } else {
            Seq::empty()
        }) + (if stderr@.len() > 0 {
            "[stderr]\n"@ + stderr@ + "\n"@
        } else {
            Seq::empty()
        }),
        outcome matches ExecOutcome::Failed(e) ==> exec_report_text(raw, outcome) == "Erreur exec: "@
            + e@ + "\n"@,
{
}

} // verus!
