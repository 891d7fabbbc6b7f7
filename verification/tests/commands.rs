use syswatch::command::{classify_command, needs_refresh};
use syswatch::{parse_command, Command};

fn parsed(line: &str) -> Command {
    parse_command(line).expect("command")
}

#[test]
fn report_words_in_any_case_and_spacing() {
    assert_eq!(parsed("host"), Command::Host);
    assert_eq!(parsed("INFO"), Command::Host);
    assert_eq!(parsed("  CPU  "), Command::Cpu);
    assert_eq!(parsed("mem"), Command::Mem);
    assert_eq!(parsed("Ram"), Command::Mem);
    assert_eq!(parsed("disk"), Command::Disk);
    assert_eq!(parsed("disques"), Command::Disk);
    assert_eq!(parsed("net"), Command::Net);
    assert_eq!(parsed("reseau"), Command::Net);
    assert_eq!(parsed("ps"), Command::Ps);
    assert_eq!(parsed("procs"), Command::Ps);
    assert_eq!(parsed("uptime"), Command::Uptime);
    assert_eq!(parsed("all"), Command::All);
}

#[test]
fn empty_line_is_the_full_view() {
    assert_eq!(parsed(""), Command::All);
    assert_eq!(parsed(" \t "), Command::All);
}

#[test]
fn control_words() {
    assert_eq!(parsed("shutdown"), Command::Shutdown);
    assert_eq!(parsed("Reboot"), Command::Reboot);
    assert_eq!(parsed("abort"), Command::Abort);
    assert_eq!(parsed("LOCK"), Command::Lock);
    assert_eq!(parsed("hibernate"), Command::Hibernate);
    assert_eq!(parsed("help"), Command::Help);
    assert_eq!(parsed("quit"), Command::Quit);
    assert_eq!(parsed("EXIT"), Command::Quit);
}

#[test]
fn kill_takes_a_pid() {
    assert_eq!(parsed("kill 1234"), Command::Kill(1234));
    assert_eq!(parsed("KILL   42 "), Command::Kill(42));
    assert_eq!(parsed("kill +7"), Command::Kill(7));
    assert_eq!(parsed("kill abc"), Command::KillUsage);
    assert_eq!(parsed("kill -1"), Command::KillUsage);
    assert_eq!(parsed("kill 4294967296"), Command::KillUsage);
    assert_eq!(parsed("kill"), Command::Unknown("kill".to_string()));
}

#[test]
fn msg_and_exec_keep_the_case_of_their_argument() {
    assert_eq!(parsed("msg Hello World"), Command::Msg("Hello World".to_string()));
    assert_eq!(parsed("MSG  Hi "), Command::Msg(" Hi".to_string()));
    assert_eq!(parsed("exec ls -la /Tmp"), Command::Exec("ls -la /Tmp".to_string()));
    assert_eq!(parsed("Exec Echo"), Command::Exec("Echo".to_string()));
}

#[test]
fn package_commands_take_the_lowered_argument() {
    assert_eq!(
        parsed("install  vim"),
        Command::Install { package: "vim".to_string(), raw: " vim".to_string() }
    );
    assert_eq!(
        parsed("INSTALL Vim"),
        Command::Install { package: "vim".to_string(), raw: "vim".to_string() }
    );
    assert_eq!(
        parsed("uninstall htop"),
        Command::Uninstall { package: "htop".to_string(), raw: "htop".to_string() }
    );
}

#[test]
fn wget_keeps_the_url_as_typed() {
    assert_eq!(
        parsed("wget  HTTP://Example.org/F "),
        Command::Wget { url: "HTTP://Example.org/F".to_string(), raw: " HTTP://Example.org/F".to_string() }
    );
    assert_eq!(
        parsed("WGET https://a.b/Ç"),
        Command::Wget { url: "https://a.b/Ç".to_string(), raw: "https://a.b/Ç".to_string() }
    );
}

#[test]
fn anything_else_is_unknown_as_typed() {
    assert_eq!(parsed("foo bar"), Command::Unknown("foo bar".to_string()));
    assert_eq!(parsed("  Foo "), Command::Unknown("Foo".to_string()));
    assert_eq!(parsed("cpus"), Command::Unknown("cpus".to_string()));
    assert_eq!(parsed("install"), Command::Unknown("install".to_string()));
}

#[test]
fn non_ascii_lowering_is_unicode() {
    assert_eq!(parsed("ÉTAT"), Command::Unknown("ÉTAT".to_string()));
    assert_eq!(
        parsed("install PAQUETÉ"),
        Command::Install { package: "paqueté".to_string(), raw: "paqueté".to_string() }
    );
}

#[test]
fn classify_from_trimmed_and_lowered_forms() {
    assert_eq!(classify_command("Msg Yo", "msg yo"), Command::Msg("Yo".to_string()));
    assert_eq!(classify_command("KILL 9", "kill 9"), Command::Kill(9));
    assert_eq!(classify_command("", ""), Command::All);
}

#[test]
fn refresh_only_for_reports() {
    for w in ["cpu", "MEM", "ram", "disk", "disques", "net", "reseau", "ps", "procs", "all", "", "host", "info", "uptime"] {
        assert!(needs_refresh(w), "{}", w);
    }
    for w in ["help", "shutdown", "kill 1", "msg x", "cpus", "quit"] {
        assert!(!needs_refresh(w), "{}", w);
    }
}

#[test]
fn surrounding_whitespace_never_matters() {
    for line in ["cpu", "kill 12", "msg Hi there", "install x", "weird"] {
        let padded = format!("  \t{}\n", line);
        assert_eq!(parse_command(&padded), parse_command(line));
    }
}
