//! The client command language: a command line is trimmed, lower-cased and
//! matched against the command words; `kill`, `msg`, `exec`, `install`,
//! `uninstall` and `wget` take an argument.

use vstd::prelude::*;
use crate::text::{
    ascii_lowercase, char_count_at_byte, chars_in_bytes, has_prefix, is_ascii_text, same_text,
    starts_with_text, suffix_from, trim, trim_text, lemma_trim_idempotent,
};
use crate::number::{parse_u32, parse_u32_value, lemma_decimal_digits, lemma_parse_decimal_roundtrip, is_ascii_digit};
use crate::text::{decimal, is_white_space, lemma_trim_is_slice};

verus! {

/// What `str::to_lowercase` returns for a string (Unicode lower-case
/// mapping, including its context rules); a function of the string alone.
pub uninterp spec fn lowercase(s: Seq<char>) -> Seq<char>;

/// `str::to_lowercase`. The contract claims that the result is the
/// lower-case mapping named `lowercase` of the argument, and that on ASCII
/// text that mapping is the ASCII one (`A`..`Z` to `a`..`z`, every other
/// character kept), as Unicode maps ASCII letters; what it does to other
/// characters is left unsaid.
#[verifier::external_body]
fn to_lowercase_text(s: &str) -> (r: String)
    ensures
        r@ == lowercase(s@),
        is_ascii_text(s@) ==> r@ == ascii_lowercase(s@),
{
    s.to_lowercase()
}

/// A parsed command.
#[derive(Clone, Debug, PartialEq, Eq)]
pub enum Command {
    Host,
    Cpu,
    Mem,
    Disk,
    Net,
    Ps,
    Uptime,
    All,
    Shutdown,
    Reboot,
    Abort,
    Lock,
    Hibernate,
    /// `kill <pid>` with a well-formed PID.
    Kill(u32),
    /// `kill <something that is not a PID>`.
    KillUsage,
    /// `msg <text>`: the text as typed (case kept).
    Msg(String),
    /// `exec <command>`: the shell command as typed (case kept).
    Exec(String),
    /// `install <pkg>`: the trimmed package name and the raw argument.
    Install { package: String, raw: String },
    /// `uninstall <pkg>`.
    Uninstall { package: String, raw: String },
    /// `wget <url>`: the trimmed URL and the raw argument, both as typed
    /// (case kept).
    Wget { url: String, raw: String },
    Help,
    Quit,
    /// Anything else: the trimmed line as typed.
    Unknown(String),
}

/// The mathematical value of a `Command`.
pub enum CommandView {
    Host,
    Cpu,
    Mem,
    Disk,
    Net,
    Ps,
    Uptime,
    All,
    Shutdown,
    Reboot,
    Abort,
    Lock,
    Hibernate,
    Kill(u32),
    KillUsage,
    Msg(Seq<char>),
    Exec(Seq<char>),
    Install { package: Seq<char>, raw: Seq<char> },
    Uninstall { package: Seq<char>, raw: Seq<char> },
    Wget { url: Seq<char>, raw: Seq<char> },
    Help,
    Quit,
    Unknown(Seq<char>),
}

impl CommandView {
    /// The command asks for a report on the machine.
    pub open spec fn is_report(self) -> bool {
        ||| self is Host
        ||| self is Cpu
        ||| self is Mem
        ||| self is Disk
        ||| self is Net
        ||| self is Ps
        ||| self is Uptime
        ||| self is All
    }
}

impl View for Command {
    type V = CommandView;

    open spec fn view(&self) -> CommandView {
        match self {
            Command::Host => CommandView::Host,
            Command::Cpu => CommandView::Cpu,
            Command::Mem => CommandView::Mem,
            Command::Disk => CommandView::Disk,
            Command::Net => CommandView::Net,
            Command::Ps => CommandView::Ps,
            Command::Uptime => CommandView::Uptime,
            Command::All => CommandView::All,
            Command::Shutdown => CommandView::Shutdown,
            Command::Reboot => CommandView::Reboot,
            Command::Abort => CommandView::Abort,
            Command::Lock => CommandView::Lock,
            Command::Hibernate => CommandView::Hibernate,
            Command::Kill(p) => CommandView::Kill(*p),
            Command::KillUsage => CommandView::KillUsage,
            Command::Msg(t) => CommandView::Msg(t@),
            Command::Exec(t) => CommandView::Exec(t@),
            Command::Install { package, raw } => CommandView::Install {
                package: package@,
                raw: raw@,
            },
            Command::Uninstall { package, raw } => CommandView::Uninstall {
                package: package@,
                raw: raw@,
            },
            Command::Wget { url, raw } => CommandView::Wget { url: url@, raw: raw@ },
            Command::Help => CommandView::Help,
            Command::Quit => CommandView::Quit,
            Command::Unknown(t) => CommandView::Unknown(t@),
        }
    }
}

/// The report words, after lower-casing: those that ask for fresh figures.
pub open spec fn is_report_word(l: Seq<char>) -> bool {
    ||| l == "cpu"@
    ||| l == "mem"@
    ||| l == "ram"@
    ||| l == "disk"@
    ||| l == "disques"@
    ||| l == "net"@
    ||| l == "reseau"@
    ||| l == "ps"@
    ||| l == "procs"@
    ||| l == "all"@
    ||| l.len() == 0
    ||| l == "host"@
    ||| l == "info"@
    ||| l == "uptime"@
}

/// The words, after lower-casing, that make a command on their own.
pub open spec fn is_command_word(l: Seq<char>) -> bool {
    ||| is_report_word(l)
    ||| l == "shutdown"@
    ||| l == "reboot"@
    ||| l == "abort"@
    ||| l == "lock"@
    ||| l == "hibernate"@
    ||| l == "help"@
    ||| l == "quit"@
    ||| l == "exit"@
}

/// The command that a command word denotes.
pub open spec fn word_command(l: Seq<char>) -> CommandView {
    if l == "host"@ || l == "info"@ {
        CommandView::Host
    } else if l == "cpu"@ {
        CommandView::Cpu
    } else if l == "mem"@ || l == "ram"@ {
        CommandView::Mem
    } else if l == "disk"@ || l == "disques"@ {
        CommandView::Disk
    } else if l == "net"@ || l == "reseau"@ {
        CommandView::Net
    } else if l == "ps"@ || l == "procs"@ {
        CommandView::Ps
    } else if l == "uptime"@ {
        CommandView::Uptime
    } else if l == "all"@ || l.len() == 0 {
        CommandView::All
    } else if l == "shutdown"@ {
        CommandView::Shutdown
    } else if l == "reboot"@ {
        CommandView::Reboot
    } else if l == "abort"@ {
        CommandView::Abort
    } else if l == "lock"@ {
        CommandView::Lock
    } else if l == "hibernate"@ {
        CommandView::Hibernate
    } else if l == "help"@ {
        CommandView::Help
    } else {
        CommandView::Quit
    }
}

/// The command that a line denotes, given the trimmed line and its lower-cased
/// form. The argument of `msg` and `exec` is cut from the trimmed line after
/// its first 4 or 5 bytes, and so is the URL of `wget`, so that they keep
/// their case; those of the other commands are cut from the lower-cased line
/// after the command word and its space.
pub open spec fn classify(trimmed: Seq<char>, lowered: Seq<char>) -> CommandView {
    if lowered == "host"@ || lowered == "info"@ {
        CommandView::Host
    } else if lowered == "cpu"@ {
        CommandView::Cpu
    } else if lowered == "mem"@ || lowered == "ram"@ {
        CommandView::Mem
    } else if lowered == "disk"@ || lowered == "disques"@ {
        CommandView::Disk
    } else if lowered == "net"@ || lowered == "reseau"@ {
        CommandView::Net
    } else if lowered == "ps"@ || lowered == "procs"@ {
        CommandView::Ps
    } else if lowered == "uptime"@ {
        CommandView::Uptime
    } else if lowered == "all"@ || lowered.len() == 0 {
        CommandView::All
    } else if lowered == "shutdown"@ {
        CommandView::Shutdown
    } else if lowered == "reboot"@ {
        CommandView::Reboot
    } else if lowered == "abort"@ {
        CommandView::Abort
    } else if lowered == "lock"@ {
        CommandView::Lock
    } else if lowered == "hibernate"@ {
        CommandView::Hibernate
    } else if has_prefix(lowered, "kill "@) {
        match parse_u32_value(trim(lowered.skip("kill "@.len() as int))) {
            Some(pid) => CommandView::Kill(pid),
            None => CommandView::KillUsage,
        }
    } else if has_prefix(lowered, "msg "@) {
        CommandView::Msg(trimmed.skip(char_count_at_byte(trimmed, 4)->0 as int))
    } else if has_prefix(lowered, "exec "@) {
        CommandView::Exec(trimmed.skip(char_count_at_byte(trimmed, 5)->0 as int))
    } else if has_prefix(lowered, "install "@) {
        let raw = lowered.skip("install "@.len() as int);
        CommandView::Install { package: trim(raw), raw }
    } else if has_prefix(lowered, "uninstall "@) {
        let raw = lowered.skip("uninstall "@.len() as int);
        CommandView::Uninstall { package: trim(raw), raw }
    } else if has_prefix(lowered, "wget "@) {
        let raw = trimmed.skip(char_count_at_byte(trimmed, 5)->0 as int);
        CommandView::Wget { url: trim(raw), raw }
    } else if lowered == "help"@ {
        CommandView::Help
    } else if lowered == "quit"@ || lowered == "exit"@ {
        CommandView::Quit
    } else {
        CommandView::Unknown(trimmed)
    }
}

/// The byte offsets at which the arguments of `msg`, `exec` and `wget` are cut fall
/// on character boundaries of the trimmed line.
pub open spec fn arguments_cuttable(trimmed: Seq<char>, lowered: Seq<char>) -> bool {
    &&& has_prefix(lowered, "msg "@) ==> char_count_at_byte(trimmed, 4) is Some
    &&& has_prefix(lowered, "exec "@) ==> char_count_at_byte(trimmed, 5) is Some
    &&& has_prefix(lowered, "wget "@) ==> char_count_at_byte(trimmed, 5) is Some
}

/// The command that the line `command` denotes; `None` where cutting the
/// argument of `msg`, `exec` or `wget` would split a character.
pub open spec fn command_of(command: Seq<char>) -> Option<CommandView> {
    let trimmed = trim(command);
    let lowered = lowercase(trimmed);
    if arguments_cuttable(trimmed, lowered) {
        Some(classify(trimmed, lowered))
    } else {
        None
    }
}

fn word_argument(lowered: &str, word: &str) -> (r: String)
    requires
        has_prefix(lowered@, word@),
    ensures
        r@ == lowered@.skip(word@.len() as int),
{
    suffix_from(lowered, word.unicode_len())
}

/// Classifies a line from its trimmed form and the lower-cased trimmed form.
pub fn classify_command(trimmed: &str, lowered: &str) -> (c: Command)
    requires
        arguments_cuttable(trimmed@, lowered@),
    ensures
        c@ == classify(trimmed@, lowered@),
{
    if same_text(lowered, "host") || same_text(lowered, "info") {
        Command::Host
    } else if same_text(lowered, "cpu") {
        Command::Cpu
    } else if same_text(lowered, "mem") || same_text(lowered, "ram") {
        Command::Mem
    } else if same_text(lowered, "disk") || same_text(lowered, "disques") {
        Command::Disk
    } else if same_text(lowered, "net") || same_text(lowered, "reseau") {
        Command::Net
    } else if same_text(lowered, "ps") || same_text(lowered, "procs") {
        Command::Ps
    } else if same_text(lowered, "uptime") {
        Command::Uptime
    } else if same_text(lowered, "all") || lowered.unicode_len() == 0 {
        Command::All
    } else if same_text(lowered, "shutdown") {
        Command::Shutdown
    } else if same_text(lowered, "reboot") {
        Command::Reboot
    } else if same_text(lowered, "abort") {
        Command::Abort
    } else if same_text(lowered, "lock") {
        Command::Lock
    } else if same_text(lowered, "hibernate") {
        Command::Hibernate
    } else if starts_with_text(lowered, "kill ") {
        let raw = word_argument(lowered, "kill ");
        let pid_text = trim_text(raw.as_str());
        match parse_u32(pid_text.as_str()) {
            Some(pid) => Command::Kill(pid),
            None => Command::KillUsage,
        }
    } else if starts_with_text(lowered, "msg ") {
        match chars_in_bytes(trimmed, 4) {
            Some(k) => Command::Msg(suffix_from(trimmed, k)),
            None => Command::Unknown(trimmed.to_owned()),
        }
    } else if starts_with_text(lowered, "exec ") {
        match chars_in_bytes(trimmed, 5) {
            Some(k) => Command::Exec(suffix_from(trimmed, k)),
            None => Command::Unknown(trimmed.to_owned()),
        }
    } else if starts_with_text(lowered, "install ") {
        let raw = word_argument(lowered, "install ");
        let package = trim_text(raw.as_str());
        Command::Install { package, raw }
    } else if starts_with_text(lowered, "uninstall ") {
        let raw = word_argument(lowered, "uninstall ");
        let package = trim_text(raw.as_str());
        Command::Uninstall { package, raw }
    } else if starts_with_text(lowered, "wget ") {
        let raw = match chars_in_bytes(trimmed, 5) {
            Some(k) => suffix_from(trimmed, k),
            None => {
                return Command::Unknown(trimmed.to_owned());
            },
        };
        let url = trim_text(raw.as_str());
        Command::Wget { url, raw }
    } else if same_text(lowered, "help") {
        Command::Help
    } else if same_text(lowered, "quit") || same_text(lowered, "exit") {
        Command::Quit
    } else {
        Command::Unknown(trimmed.to_owned())
    }
}

/// Parses a command line: trims it, lower-cases it and classifies it.
/// `None` only where the argument of `msg`, `exec` or `wget` would be cut
/// inside a character of the line.
pub fn parse_command(command: &str) -> (r: Option<Command>)
    ensures
        match r {
            Some(c) => command_of(command@) == Some(c@),
            None => command_of(command@) is None,
        },
        is_ascii_text(trim(command@)) && is_command_word(ascii_lowercase(trim(command@))) ==> (r matches Some(
            c,
        ) && c@ == word_command(ascii_lowercase(trim(command@)))),
{
    let trimmed = trim_text(command);
    let lowered = to_lowercase_text(trimmed.as_str());
    proof {
        if is_ascii_text(trimmed@) && is_command_word(ascii_lowercase(trimmed@)) {
            lemma_command_of_word(command@);
        }
    }
    let t = trimmed.as_str();
    let l = lowered.as_str();
    if starts_with_text(l, "msg ") && chars_in_bytes(t, 4).is_none() {
        return None;
    }
    if starts_with_text(l, "exec ") && chars_in_bytes(t, 5).is_none() {
        return None;
    }
    if starts_with_text(l, "wget ") && chars_in_bytes(t, 5).is_none() {
        return None;
    }
    Some(classify_command(t, l))
}

/// Whether the (trimmed) line asks for a report, for which the figures are
/// collected afresh before answering.
pub fn needs_refresh(cmd: &str) -> (r: bool)
    ensures
        r == is_report_word(lowercase(cmd@)),
{
    let lowered = to_lowercase_text(cmd);
    let l = lowered.as_str();
    same_text(l, "cpu") || same_text(l, "mem") || same_text(l, "ram") || same_text(l, "disk")
        || same_text(l, "disques") || same_text(l, "net") || same_text(l, "reseau") || same_text(
        l,
        "ps",
    ) || same_text(l, "procs") || same_text(l, "all") || l.unicode_len() == 0 || same_text(
        l,
        "host",
    ) || same_text(l, "info") || same_text(l, "uptime")
}

/// A line that has been trimmed denotes the same command as the line itself:
/// surrounding whitespace never matters.
pub proof fn lemma_command_ignores_surrounding_space(line: Seq<char>)
    ensures
        command_of(trim(line)) == command_of(line),
{
    lemma_trim_idempotent(line);
}

proof fn lemma_no_space_prefix(l: Seq<char>, p: Seq<char>)
    requires
        p.len() > 0,
        p.last() == ' ',
        forall|i: int| 0 <= i < l.len() ==> l[i] != ' ',
    ensures
        !has_prefix(l, p),
{
    if has_prefix(l, p) {
        assert(l.take(p.len() as int)[p.len() - 1] == ' ');
        assert(l[p.len() - 1] == ' ');
    }
}

/// A line whose lower-cased trimmed form is a command word denotes that
/// word's command, whatever its letter case and surrounding whitespace.
pub proof fn lemma_command_of_word(line: Seq<char>)
    requires
        is_command_word(lowercase(trim(line))),
    ensures
        command_of(line) == Some(word_command(lowercase(trim(line)))),
{
    let l = lowercase(trim(line));
    reveal_strlit("msg ");
    reveal_strlit("exec ");
    reveal_strlit("wget ");
    reveal_strlit("kill ");
    reveal_strlit("install ");
    reveal_strlit("uninstall ");
    reveal_strlit("cpu");
    reveal_strlit("mem");
    reveal_strlit("ram");
    reveal_strlit("disk");
    reveal_strlit("disques");
    reveal_strlit("net");
    reveal_strlit("reseau");
    reveal_strlit("ps");
    reveal_strlit("procs");
    reveal_strlit("all");
    reveal_strlit("host");
    reveal_strlit("info");
    reveal_strlit("uptime");
    reveal_strlit("shutdown");
    reveal_strlit("reboot");
    reveal_strlit("abort");
    reveal_strlit("lock");
    reveal_strlit("hibernate");
    reveal_strlit("help");
    reveal_strlit("quit");
    reveal_strlit("exit");
    assert forall|i: int| 0 <= i < l.len() implies l[i] != ' ' by {}
    lemma_no_space_prefix(l, "msg "@);
    lemma_no_space_prefix(l, "exec "@);
    lemma_no_space_prefix(l, "wget "@);
    lemma_no_space_prefix(l, "kill "@);
    lemma_no_space_prefix(l, "install "@);
    lemma_no_space_prefix(l, "uninstall "@);
}

/// Letter case and surrounding whitespace never change the reply to a
/// command word: two lines with the same lower-cased trimmed word denote the
/// same command, hence get the same answer from any snapshot.
pub proof fn lemma_case_and_space_never_change_command(a: Seq<char>, b: Seq<char>)
    requires
        lowercase(trim(a)) == lowercase(trim(b)),
        is_command_word(lowercase(trim(a))),
    ensures
        command_of(a) == command_of(b),
        command_of(a) is Some,
{
    lemma_command_of_word(a);
    lemma_command_of_word(b);
}

proof fn lemma_spaced_not_word(l: Seq<char>, i: int)
    requires
        0 <= i < l.len(),
        l[i] == ' ',
    ensures
        l != "host"@, l != "info"@, l != "cpu"@, l != "mem"@, l != "ram"@, l != "disk"@,
        l != "disques"@, l != "net"@, l != "reseau"@, l != "ps"@, l != "procs"@, l != "uptime"@,
        l != "all"@, l.len() != 0, l != "shutdown"@, l != "reboot"@, l != "abort"@, l != "lock"@,
        l != "hibernate"@, l != "help"@, l != "quit"@, l != "exit"@,
{
    reveal_strlit("host");
    reveal_strlit("info");
    reveal_strlit("cpu");
    reveal_strlit("mem");
    reveal_strlit("ram");
    reveal_strlit("disk");
    reveal_strlit("disques");
    reveal_strlit("net");
    reveal_strlit("reseau");
    reveal_strlit("ps");
    reveal_strlit("procs");
    reveal_strlit("uptime");
    reveal_strlit("all");
    reveal_strlit("shutdown");
    reveal_strlit("reboot");
    reveal_strlit("abort");
    reveal_strlit("lock");
    reveal_strlit("hibernate");
    reveal_strlit("help");
    reveal_strlit("quit");
    reveal_strlit("exit");
}

proof fn lemma_prefix_of_concat_seq(a: Seq<char>, b: Seq<char>)
    ensures
        has_prefix(a + b, a),
        (a + b).skip(a.len() as int) == b,
{
    assert((a + b).take(a.len() as int) =~= a);
    assert((a + b).skip(a.len() as int) =~= b);
}

/// A decimal rendering has no surrounding whitespace.
proof fn lemma_decimal_trimmed(n: nat)
    ensures
        trim(decimal(n)) == decimal(n),
{
    lemma_decimal_digits(n);
    let d = decimal(n);
    assert forall|j: int| 0 <= j < d.len() implies !is_white_space(#[trigger] d[j]) by {
        assert(is_ascii_digit(d[j]));
    }
    lemma_trim_is_slice(d, 0, d.len() as int);
    assert(d.subrange(0, d.len() as int) =~= d);
}

/// `kill <pid>` with a rendered PID denotes killing that PID; `install`,
/// `uninstall` and `wget` take what follows the command word and its space
/// as their raw argument and its trimmed form as the package or URL (the URL
/// cut from the line as typed).
pub proof fn lemma_argument_commands(t: Seq<char>, x: Seq<char>, pid: u32)
    ensures
        classify(t, "kill "@ + decimal(pid as nat)) == CommandView::Kill(pid),
        classify(t, "install "@ + x) == (CommandView::Install { package: trim(x), raw: x }),
        classify(t, "uninstall "@ + x) == (CommandView::Uninstall { package: trim(x), raw: x }),
        char_count_at_byte(t, 5) matches Some(k) ==> classify(t, "wget "@ + x) == (CommandView::Wget {
            url: trim(t.skip(k as int)),
            raw: t.skip(k as int),
        }),
        char_count_at_byte(t, 4) matches Some(k) ==> classify(t, "msg "@ + x) == CommandView::Msg(
            t.skip(k as int),
        ),
        char_count_at_byte(t, 5) matches Some(k) ==> classify(t, "exec "@ + x) == CommandView::Exec(
            t.skip(k as int),
        ),
{
    reveal_strlit("kill ");
    reveal_strlit("install ");
    reveal_strlit("uninstall ");
    reveal_strlit("wget ");
    reveal_strlit("msg ");
    reveal_strlit("exec ");
    let d = decimal(pid as nat);
    let lk = "kill "@ + d;
    assert(lk[4] == ' ');
    lemma_spaced_not_word(lk, 4);
    lemma_prefix_of_concat_seq("kill "@, d);
    lemma_decimal_trimmed(pid as nat);
    lemma_parse_decimal_roundtrip(pid);
    let li = "install "@ + x;
    assert(li[7] == ' ');
    lemma_spaced_not_word(li, 7);
    lemma_prefix_of_concat_seq("install "@, x);
    assert(!has_prefix(li, "kill "@)) by { assert(li.take(5)[0] != "kill "@[0]); }
    assert(!has_prefix(li, "msg "@)) by { assert(li.take(4)[0] != "msg "@[0]); }
    assert(!has_prefix(li, "exec "@)) by { assert(li.take(5)[0] != "exec "@[0]); }
    let lu = "uninstall "@ + x;
    assert(lu[9] == ' ');
    lemma_spaced_not_word(lu, 9);
    lemma_prefix_of_concat_seq("uninstall "@, x);
    assert(!has_prefix(lu, "kill "@)) by { assert(lu.take(5)[0] != "kill "@[0]); }
    assert(!has_prefix(lu, "msg "@)) by { assert(lu.take(4)[0] != "msg "@[0]); }
    assert(!has_prefix(lu, "exec "@)) by { assert(lu.take(5)[0] != "exec "@[0]); }
    assert(!has_prefix(lu, "install "@)) by { assert(lu.take(8)[0] != "install "@[0]); }
    let lw = "wget "@ + x;
    assert(lw[4] == ' ');
    lemma_spaced_not_word(lw, 4);
    lemma_prefix_of_concat_seq("wget "@, x);
    assert(!has_prefix(lw, "kill "@)) by { assert(lw.take(5)[0] != "kill "@[0]); }
    assert(!has_prefix(lw, "msg "@)) by { assert(lw.take(4)[0] != "msg "@[0]); }
    assert(!has_prefix(lw, "exec "@)) by { assert(lw.take(5)[0] != "exec "@[0]); }
    assert(!has_prefix(lw, "install "@)) by { assert(lw.take(5)[0] != "install "@[0]); }
    assert(!has_prefix(lw, "uninstall "@)) by { assert(lw.take(5)[0] != "uninstall "@[0]); }
    let lm = "msg "@ + x;
    assert(lm[3] == ' ');
    lemma_spaced_not_word(lm, 3);
    lemma_prefix_of_concat_seq("msg "@, x);
    assert(!has_prefix(lm, "kill "@)) by {
        if lm.len() >= 5 { assert(lm.take(5)[0] != "kill "@[0]); }
    }
    let le = "exec "@ + x;
    assert(le[4] == ' ');
    lemma_spaced_not_word(le, 4);
    lemma_prefix_of_concat_seq("exec "@, x);
    assert(!has_prefix(le, "kill "@)) by { assert(le.take(5)[0] != "kill "@[0]); }
    assert(!has_prefix(le, "msg "@)) by { assert(le.take(4)[0] != "msg "@[0]); }
}

/// The lines that make the server collect fresh figures are exactly those
/// that denote a report command.
pub proof fn lemma_refresh_exactly_for_reports(line: Seq<char>)
    ensures
        is_report_word(lowercase(trim(line))) <==> (command_of(line) matches Some(c)
            && c.is_report()),
{
    let l = lowercase(trim(line));
    reveal_strlit("msg ");
    reveal_strlit("exec ");
    reveal_strlit("wget ");
    reveal_strlit("cpu");
    reveal_strlit("mem");
    reveal_strlit("ram");
    reveal_strlit("disk");
    reveal_strlit("disques");
    reveal_strlit("net");
    reveal_strlit("reseau");
    reveal_strlit("ps");
    reveal_strlit("procs");
    reveal_strlit("all");
    reveal_strlit("host");
    reveal_strlit("info");
    reveal_strlit("uptime");
    if is_report_word(l) {
        assert(!has_prefix(l, "msg "@)) by {
            if has_prefix(l, "msg "@) {
                assert(l.take(4)[3] == ' ');
            }
        }
        assert(!has_prefix(l, "exec "@)) by {
            if has_prefix(l, "exec "@) {
                assert(l.take(5)[4] == ' ');
            }
        }
        assert(!has_prefix(l, "wget "@)) by {
            if has_prefix(l, "wget "@) {
                assert(l.take(5)[4] == ' ');
            }
        }
    }
}

} // verus!
