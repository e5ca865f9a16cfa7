//! One client's session as a state machine: the login exchange, then the
//! fake shell. Each event read from the client gives the next state and
//! what to send back, what to record, and whether to hang up.

use vstd::prelude::*;
use crate::directories::HOME;
use crate::log::{Entry, LogRecord};
use crate::replies::{
    ACCESS_DENIED, LINE_END, LOGIN_PROMPT, PASSWORD_PROMPT, SUDO_REFUSED, WELCOME,
};
use crate::shell::{effect, prompt, prompt_text, respond, Flow};
use crate::text::{chars_of, is_text, push_chars, push_text, trim, trimmed};

verus! {

/// The only login that opens the shell.
pub const ADMIN_LOGIN: &'static str = "admin";

/// The only password that opens the shell, with `ADMIN_LOGIN`.
pub const ADMIN_PASSWORD: &'static str = "admin-techpro";

/// Where a session stands, as values.
pub enum State {
    /// Waiting for the login name.
    Login,
    /// Waiting for the password; holds the login name.
    Password(Seq<char>),
    /// In the shell; holds the current directory.
    Shell(Seq<char>),
    /// Waiting for the password that `sudo` asked for; holds the current
    /// directory.
    Sudo(Seq<char>),
    /// The connection is closed.
    Closed,
}

/// What happened on the connection, as values.
pub enum Input {
    /// A line came in (with its line end, if any).
    Line(Seq<char>),
    /// The client closed the connection.
    Eof,
    /// Reading failed.
    ReadError,
}

/// The session's answer to an input, as values.
pub struct Reply {
    /// The text to send to the client.
    pub output: Seq<char>,
    /// What to record in the log, if anything.
    pub log: Option<Entry>,
    /// Whether to close the connection.
    pub close: bool,
}

/// Whether the login name and the password open the shell.
pub open spec fn accepts(login: Seq<char>, password: Seq<char>) -> bool {
    login == ADMIN_LOGIN@ && password == ADMIN_PASSWORD@
}

/// What a new session sends and records before reading anything.
pub open spec fn opening() -> Reply {
    Reply { output: LOGIN_PROMPT@, log: Some(Entry::Connected), close: false }
}

/// The text of a line, or nothing at the end of the input.
pub open spec fn text_of(input: Input) -> Seq<char> {
    match input {
        Input::Line(t) => t,
        _ => Seq::empty(),
    }
}

/// The reply that closes the connection without a word.
pub open spec fn hang_up() -> Reply {
    Reply { output: Seq::empty(), log: None, close: true }
}

/// The next state and the reply when `input` comes in while the session is
/// in `st`.
pub open spec fn next(st: State, input: Input) -> (State, Reply) {
    match st {
        State::Closed => (State::Closed, hang_up()),
        State::Login => if input is ReadError {
            (State::Closed, hang_up())
        } else {
            let login = trimmed(text_of(input));
            (
                State::Password(login),
                Reply { output: login + PASSWORD_PROMPT@, log: None, close: false },
            )
        },
        State::Password(login) => if input is ReadError {
            (State::Closed, hang_up())
        } else {
            let password = trimmed(text_of(input));
            if accepts(login, password) {
                (
                    State::Shell(HOME@),
                    Reply {
                        output: WELCOME@ + prompt_text(HOME@),
                        log: Some(Entry::LoginSucceeded(login, password)),
                        close: false,
                    },
                )
            } else {
                (
                    State::Closed,
                    Reply {
                        output: ACCESS_DENIED@,
                        log: Some(Entry::LoginFailed(login, password)),
                        close: true,
                    },
                )
            }
        },
        State::Shell(dir) => match input {
            Input::Line(t) => {
                let cmd = trimmed(t);
                let e = effect(dir, cmd);
                let log = if cmd.len() > 0 {
                    Some(Entry::Command(cmd))
                } else {
                    None
                };
                match e.flow {
                    Flow::Continue => (
                        State::Shell(e.dir),
                        Reply { output: e.output + prompt_text(e.dir), log, close: false },
                    ),
                    Flow::AskPassword => (
                        State::Sudo(e.dir),
                        Reply { output: e.output, log, close: false },
                    ),
                    Flow::Exit => (State::Closed, Reply { output: e.output, log, close: true }),
                }
            },
            _ => (State::Closed, hang_up()),
        },
        State::Sudo(dir) => {
            let answer = if input is ReadError {
                LINE_END@
            } else {
                SUDO_REFUSED@
            };
            (
                State::Shell(dir),
                Reply { output: answer + prompt_text(dir), log: None, close: false },
            )
        },
    }
}

/// What happened on the connection.
pub enum Event {
    /// A line came in (with its line end, if any).
    Line(String),
    /// The client closed the connection.
    Eof,
    /// Reading failed.
    ReadError,
}

impl View for Event {
    type V = Input;

    open spec fn view(&self) -> Input {
        match self {
            Event::Line(s) => Input::Line(s@),
            Event::Eof => Input::Eof,
            Event::ReadError => Input::ReadError,
        }
    }
}

/// The session's answer to an event.
pub struct Response {
    /// The text to send to the client.
    pub output: Vec<char>,
    /// What to record in the log, if anything.
    pub log: Option<LogRecord>,
    /// Whether to close the connection.
    pub close: bool,
}

impl View for Response {
    type V = Reply;

    open spec fn view(&self) -> Reply {
        Reply {
            output: self.output@,
            log: match self.log {
                Some(rec) => Some(rec@),
                None => None,
            },
            close: self.close,
        }
    }
}

enum Phase {
    Login,
    Password { login: Vec<char> },
    Shell { dir: Vec<char> },
    Sudo { dir: Vec<char> },
    Closed,
}

/// One client's session.
pub struct Session {
    phase: Phase,
}

impl View for Session {
    type V = State;

    closed spec fn view(&self) -> State {
        match self.phase {
            Phase::Login => State::Login,
            Phase::Password { login } => State::Password(login@),
            Phase::Shell { dir } => State::Shell(dir@),
            Phase::Sudo { dir } => State::Sudo(dir@),
            Phase::Closed => State::Closed,
        }
    }
}

fn quiet_close() -> (r: Response)
    ensures
        r@ == hang_up(),
{
    Response { output: Vec::new(), log: None, close: true }
}

fn copy_of(s: &[char]) -> (r: Vec<char>)
    ensures
        r@ == s@,
{
    let mut r: Vec<char> = Vec::new();
    push_chars(&mut r, s);
    r
}

impl Session {
    /// A new session, and what it sends and records before reading anything.
    pub fn start() -> (r: (Session, Response))
        ensures
            r.0@ == State::Login,
            r.1@ == opening(),
    {
        (
            Session { phase: Phase::Login },
            Response { output: chars_of(LOGIN_PROMPT), log: Some(LogRecord::Connected), close: false },
        )
    }

    /// Whether the connection is closed.
    pub fn is_closed(&self) -> (b: bool)
        ensures
            b == (self@ is Closed),
    {
        match self.phase {
            Phase::Closed => true,
            _ => false,
        }
    }

    /// Takes in what happened on the connection: moves to the next state and
    /// says what to send, what to record and whether to hang up.
    pub fn step(&mut self, event: &Event) -> (r: Response)
        ensures
            (final(self)@, r@) == next(old(self)@, event@),
    {
        let line: Option<Vec<char>> = match event {
            Event::Line(s) => Some(chars_of(s.as_str())),
            Event::Eof => Some(Vec::new()),
            Event::ReadError => None,
        };
        assert(line matches Some(l) ==> l@ == text_of(event@));
        assert(line is None <==> event@ is ReadError);
        let (phase, response) = match &self.phase {
            Phase::Closed => (Phase::Closed, quiet_close()),
            Phase::Login => match line {
                None => (Phase::Closed, quiet_close()),
                Some(l) => {
                    let login = trim(l.as_slice());
                    let mut out = copy_of(login.as_slice());
                    push_text(&mut out, PASSWORD_PROMPT);
                    (Phase::Password { login }, Response { output: out, log: None, close: false })
                },
            },
            Phase::Password { login } => match line {
                None => (Phase::Closed, quiet_close()),
                Some(l) => {
                    let password = trim(l.as_slice());
                    if is_text(login.as_slice(), ADMIN_LOGIN) && is_text(
                        password.as_slice(),
                        ADMIN_PASSWORD,
                    ) {
                        let home = chars_of(HOME);
                        let mut out = chars_of(WELCOME);
                        let p = prompt(home.as_slice());
                        push_chars(&mut out, p.as_slice());
                        (
                            Phase::Shell { dir: home },
                            Response {
                                output: out,
                                log: Some(
                                    LogRecord::LoginSucceeded { login: copy_of(login.as_slice()), password },
                                ),
                                close: false,
                            },
                        )
                    } else {
                        (
                            Phase::Closed,
                            Response {
                                output: chars_of(ACCESS_DENIED),
                                log: Some(
                                    LogRecord::LoginFailed { login: copy_of(login.as_slice()), password },
                                ),
                                close: true,
                            },
                        )
                    }
                },
            },
            Phase::Shell { dir } => match event {
                Event::Line(_) => {
                    let l = match line {
                        Some(l) => l,
                        None => Vec::new(),
                    };
                    let cmd = trim(l.as_slice());
                    let res = respond(dir.as_slice(), cmd.as_slice());
                    let log = if cmd.len() > 0 {
                        Some(LogRecord::Command { line: cmd })
                    } else {
                        None
                    };
                    match res.flow {
                        Flow::Continue => {
                            let mut out = res.output;
                            let p = prompt(res.dir.as_slice());
                            push_chars(&mut out, p.as_slice());
                            (Phase::Shell { dir: res.dir }, Response { output: out, log, close: false })
                        },
                        Flow::AskPassword => (
                            Phase::Sudo { dir: res.dir },
                            Response { output: res.output, log, close: false },
                        ),
                        Flow::Exit => (
                            Phase::Closed,
                            Response { output: res.output, log, close: true },
                        ),
                    }
                },
                _ => (Phase::Closed, quiet_close()),
            },
            Phase::Sudo { dir } => {
                let mut out = match line {
                    None => chars_of(LINE_END),
                    Some(_) => chars_of(SUDO_REFUSED),
                };
                let p = prompt(dir.as_slice());
                push_chars(&mut out, p.as_slice());
                (Phase::Shell { dir: copy_of(dir.as_slice()) }, Response { output: out, log: None, close: false })
            },
        };
        self.phase = phase;
        response
    }
}

} // verus!
