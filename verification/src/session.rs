//! The client session protocol: a client first sends the access token,
//! then command lines until it quits or the connection ends. The functions
//! here decide what is sent and logged at each step; the server performs it.

use vstd::prelude::*;
use crate::command::{Command, command_of, is_report_word, lowercase, needs_refresh, parse_command};
use crate::text::{eq_ascii_case, eq_ignore_ascii_case, push_text, same_text, trim, trim_text};

verus! {

/// Where a session stands.
#[derive(Clone, Debug, PartialEq, Eq)]
pub enum Phase {
    /// Connected; the token has not been received yet.
    AwaitingToken,
    /// Authenticated; commands are served.
    Active,
    /// Over: refused, quit or disconnected.
    Closed,
}

/// One client connection.
#[derive(Clone, Debug, PartialEq, Eq)]
pub struct Session {
    /// The client's address, as shown in the log.
    pub peer: String,
    pub phase: Phase,
}

/// Something the server does for the session.
#[derive(Clone, Debug, PartialEq, Eq)]
pub enum Output {
    /// Text written to the client.
    Send(String),
    /// A line written to the server's log.
    Log(String),
}

pub enum OutputView {
    Send(Seq<char>),
    Log(Seq<char>),
}

impl View for Output {
    type V = OutputView;

    open spec fn view(&self) -> OutputView {
        match self {
            Output::Send(t) => OutputView::Send(t@),
            Output::Log(t) => OutputView::Log(t@),
        }
    }
}

/// The values of a list of outputs.
pub open spec fn outputs(v: Seq<Output>) -> Seq<OutputView> {
    v.map_values(|o: Output| o@)
}

/// The access token.
pub open spec fn access_token() -> Seq<char> {
    "ENSPD2026"@
}

/// The greeting sent once the client is authenticated.
pub open spec fn welcome_text() -> Seq<char> {
    "\n╔══════════════════════════════════════════════════╗\n║         SysWatch v2.0 — GROUPE — ENSPD          ║\n║   Tape 'help' pour la liste des commandes.      ║\n╚══════════════════════════════════════════════════╝\n\n> "@
}

/// What happens to a command line in an active session.
#[derive(Clone, Debug, PartialEq, Eq)]
pub enum Turn {
    /// The session is not active: the line is ignored.
    Ignored,
    /// The client leaves; the session is over.
    Leave(Vec<Output>),
    /// The command is to be answered; fresh figures are collected first when
    /// `refresh` holds. `command` is `None` where the line cannot be cut
    /// into a command and its argument.
    Serve { outputs: Vec<Output>, command: Option<Command>, refresh: bool },
}

fn log(a: &str, b: &str) -> (o: Output)
    ensures
        o@ == OutputView::Log(a@ + b@),
{
    let mut s = a.to_owned();
    push_text(&mut s, b);
    Output::Log(s)
}

fn send(a: &str) -> (o: Output)
    ensures
        o@ == OutputView::Send(a@),
{
    Output::Send(a.to_owned())
}

/// The line written to the log file: `[<timestamp>] <message>` and a newline.
pub fn log_line(timestamp: &str, message: &str) -> (r: String)
    ensures
        r@ == "["@ + timestamp@ + "] "@ + message@ + "\n"@,
{
    let mut s = "[".to_owned();
    push_text(&mut s, timestamp);
    push_text(&mut s, "] ");
    push_text(&mut s, message);
    push_text(&mut s, "\n");
    assert(s@ =~= "["@ + timestamp@ + "] "@ + message@ + "\n"@);
    s
}

/// The line is, once trimmed, `quit` or `exit` in any ASCII case.
pub open spec fn is_leave_line(cmd: Seq<char>) -> bool {
    eq_ascii_case(cmd, "quit"@) || eq_ascii_case(cmd, "exit"@)
}

impl Session {
    /// A new connection from `peer`: it is logged and the token is asked for.
    pub fn open(peer: String) -> (r: (Session, Vec<Output>))
        ensures
            r.0.peer == peer,
            r.0.phase is AwaitingToken,
            outputs(r.1@) == seq![
                OutputView::Log("[+] Connexion de "@ + peer@),
                OutputView::Send("TOKEN: "@),
            ],
    {
        let mut v = Vec::new();
        v.push(log("[+] Connexion de ", peer.as_str()));
        v.push(send("TOKEN: "));
        assert(outputs(v@) =~= seq![
            OutputView::Log("[+] Connexion de "@ + peer@),
            OutputView::Send("TOKEN: "@),
        ]);
        (Session { peer, phase: Phase::AwaitingToken }, v)
    }

    /// The first line from the client (`None` when it could not be read):
    /// the session becomes active exactly when the trimmed line is the
    /// token; otherwise the client is told so, the refusal and the departure
    /// are logged and the session is over.
    pub fn authenticate(&mut self, line: Option<&str>) -> (r: Vec<Output>)
        ensures
            final(self).peer == old(self).peer,
            !(old(self).phase is AwaitingToken) ==> final(self).phase == old(self).phase && r@.len() == 0,
            old(self).phase is AwaitingToken ==> {
                let granted = line matches Some(l) && trim(l@) == access_token();
                &&& granted ==> final(self).phase is Active && outputs(r@) == seq![
                    OutputView::Send("OK — Authentification réussie.\n"@),
                    OutputView::Log("[OK] Authentifié: "@ + old(self).peer@),
                    OutputView::Send(welcome_text()),
                ]
                &&& !granted ==> final(self).phase is Closed && outputs(r@) == seq![
                    OutputView::Send("UNAUTHORIZED — Token invalide.\n"@),
                    OutputView::Log("[!] Accès refusé depuis "@ + old(self).peer@),
                    OutputView::Log("[-] Déconnexion de "@ + old(self).peer@),
                ]
            },
    {
        let mut v = Vec::new();
        match self.phase {
            Phase::AwaitingToken => {},
            _ => {
                return v;
            },
        }
        let granted = match line {
            Some(l) => {
                let t = trim_text(l);
                same_text(t.as_str(), "ENSPD2026")
            },
            None => false,
        };
        if granted {
            v.push(send("OK — Authentification réussie.\n"));
            v.push(log("[OK] Authentifié: ", self.peer.as_str()));
            v.push(send("\n╔══════════════════════════════════════════════════╗\n║         SysWatch v2.0 — GROUPE — ENSPD          ║\n║   Tape 'help' pour la liste des commandes.      ║\n╚══════════════════════════════════════════════════╝\n\n> "));
            self.phase = Phase::Active;
            assert(outputs(v@) =~= seq![
                OutputView::Send("OK — Authentification réussie.\n"@),
                OutputView::Log("[OK] Authentifié: "@ + self.peer@),
                OutputView::Send(welcome_text()),
            ]);
        } else {
            v.push(send("UNAUTHORIZED — Token invalide.\n"));
            v.push(log("[!] Accès refusé depuis ", self.peer.as_str()));
            v.push(log("[-] Déconnexion de ", self.peer.as_str()));
            self.phase = Phase::Closed;
            assert(outputs(v@) =~= seq![
                OutputView::Send("UNAUTHORIZED — Token invalide.\n"@),
                OutputView::Log("[!] Accès refusé depuis "@ + self.peer@),
                OutputView::Log("[-] Déconnexion de "@ + self.peer@),
            ]);
        }
        v
    }

    /// A command line from the client. In an active session it is trimmed
    /// and logged; `quit`/`exit` (any ASCII case) ends the session with a
    /// farewell, anything else is to be answered. Outside an active session
    /// the line is ignored.
    pub fn receive(&mut self, line: &str) -> (t: Turn)
        ensures
            final(self).peer == old(self).peer,
            !(old(self).phase is Active) ==> t is Ignored && final(self).phase == old(self).phase,
            old(self).phase is Active ==> {
                let cmd = trim(line@);
                let logged = OutputView::Log("["@ + old(self).peer@ + "] commande: '"@ + cmd + "'"@);
                if is_leave_line(cmd) {
                    &&& final(self).phase is Closed
                    &&& (t matches Turn::Leave(o) && outputs(o@) == seq![
                        logged,
                        OutputView::Send("Au revoir!\nBYE\n"@),
                        OutputView::Log("[-] Déconnexion de "@ + old(self).peer@),
                    ])
                } else {
                    &&& final(self).phase is Active
                    &&& (t matches Turn::Serve { outputs: o, command, refresh } && outputs(o@)
                        == seq![logged] && refresh == is_report_word(lowercase(cmd)) && match command {
                        Some(c) => command_of(cmd) == Some(c@),
                        None => command_of(cmd) is None,
                    })
                }
            },
    {
        match self.phase {
            Phase::Active => {},
            _ => {
                return Turn::Ignored;
            },
        }
        let cmd = trim_text(line);
        let mut entry = "[".to_owned();
        push_text(&mut entry, self.peer.as_str());
        push_text(&mut entry, "] commande: '");
        push_text(&mut entry, cmd.as_str());
        push_text(&mut entry, "'");
        let ghost logged = OutputView::Log("["@ + self.peer@ + "] commande: '"@ + cmd@ + "'"@);
        assert(entry@ =~= "["@ + self.peer@ + "] commande: '"@ + cmd@ + "'"@);
        let mut v = Vec::new();
        v.push(Output::Log(entry));
        if eq_ignore_ascii_case(cmd.as_str(), "quit") || eq_ignore_ascii_case(cmd.as_str(), "exit") {
            v.push(send("Au revoir!\nBYE\n"));
            v.push(log("[-] Déconnexion de ", self.peer.as_str()));
            self.phase = Phase::Closed;
            assert(outputs(v@) =~= seq![
                logged,
                OutputView::Send("Au revoir!\nBYE\n"@),
                OutputView::Log("[-] Déconnexion de "@ + self.peer@),
            ]);
            Turn::Leave(v)
        } else {
            let refresh = needs_refresh(cmd.as_str());
            let command = parse_command(cmd.as_str());
            assert(outputs(v@) =~= seq![logged]);
            Turn::Serve { outputs: v, command, refresh }
        }
    }

    /// The connection ended or failed while the session was active: the
    /// departure is logged and the session is over.
    pub fn end(&mut self) -> (r: Vec<Output>)
        ensures
            final(self).peer == old(self).peer,
            old(self).phase is Active ==> final(self).phase is Closed && outputs(r@) == seq![
                OutputView::Log("[-] Déconnexion de "@ + old(self).peer@),
            ],
            !(old(self).phase is Active) ==> final(self).phase == old(self).phase && r@.len() == 0,
    {
        let mut v = Vec::new();
        match self.phase {
            Phase::Active => {},
            _ => {
                return v;
            },
        }
        v.push(log("[-] Déconnexion de ", self.peer.as_str()));
        self.phase = Phase::Closed;
        assert(outputs(v@) =~= seq![OutputView::Log("[-] Déconnexion de "@ + self.peer@)]);
        v
    }
}

/// What follows an answer: the answer itself, then the end marker and the
/// prompt.
pub fn answer_frame(response: &str) -> (r: Vec<Output>)
    ensures
        outputs(r@) == seq![OutputView::Send(response@), OutputView::Send("\nEND\n> "@)],
{
    let mut v = Vec::new();
    v.push(send(response));
    v.push(send("\nEND\n> "));
    assert(outputs(v@) =~= seq![OutputView::Send(response@), OutputView::Send("\nEND\n> "@)]);
    v
}

} // verus!
