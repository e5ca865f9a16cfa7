//! The activity log: what the honeypot records of each session, and the
//! line that each record becomes in the log file.

use vstd::prelude::*;
use crate::text::{chars_of, decimal, decimal_text, push_chars, push_text};

verus! {

/// One recorded event, as values.
pub enum Entry {
    /// A client connected.
    Connected,
    /// A login attempt with wrong credentials: the login and the password.
    LoginFailed(Seq<char>, Seq<char>),
    /// A login attempt with the right credentials: the login and the password.
    LoginSucceeded(Seq<char>, Seq<char>),
    /// A command line typed in the shell.
    Command(Seq<char>),
}

/// One recorded event.
pub enum LogRecord {
    Connected,
    LoginFailed { login: Vec<char>, password: Vec<char> },
    LoginSucceeded { login: Vec<char>, password: Vec<char> },
    Command { line: Vec<char> },
}

impl View for LogRecord {
    type V = Entry;

    open spec fn view(&self) -> Entry {
        match self {
            LogRecord::Connected => Entry::Connected,
            LogRecord::LoginFailed { login, password } => Entry::LoginFailed(login@, password@),
            LogRecord::LoginSucceeded { login, password } => Entry::LoginSucceeded(
                login@,
                password@,
            ),
            LogRecord::Command { line } => Entry::Command(line@),
        }
    }
}

/// Opens every log line, before the time stamp.
pub const STAMP_OPEN: &'static str = "[";

/// Closes the time stamp of a connection.
pub const CONNECTED_TEXT: &'static str = "] Connexion de l'ip ";

/// Closes the time stamp of a failed login, before the login.
pub const FAILED_TEXT: &'static str = "] Identifiants incorrects pour ";

/// Closes the time stamp of a successful login, before the login.
pub const SUCCEEDED_TEXT: &'static str = "] Identifiants corrects pour ";

/// Stands between the login and the password.
pub const CREDENTIALS_SEPARATOR: &'static str = "/";

/// Stands between the password and the address.
pub const FROM_TEXT: &'static str = " de l'ip ";

/// Closes the time stamp of a command, before the address.
pub const COMMAND_TEXT: &'static str = "] Commande de l'ip ";

/// Stands between the address and the command.
pub const COMMAND_SEPARATOR: &'static str = " : ";

/// The log line of `e`, recorded at `ts` (seconds since the Unix epoch) for
/// the client at address `ip`.
pub open spec fn log_text(e: Entry, ts: nat, ip: Seq<char>) -> Seq<char> {
    let stamp = STAMP_OPEN@ + decimal(ts);
    match e {
        Entry::Connected => stamp + CONNECTED_TEXT@ + ip,
        Entry::LoginFailed(login, password) => stamp + FAILED_TEXT@ + login
            + CREDENTIALS_SEPARATOR@ + password + FROM_TEXT@ + ip,
        Entry::LoginSucceeded(login, password) => stamp + SUCCEEDED_TEXT@ + login
            + CREDENTIALS_SEPARATOR@ + password + FROM_TEXT@ + ip,
        Entry::Command(line) => stamp + COMMAND_TEXT@ + ip + COMMAND_SEPARATOR@ + line,
    }
}

/// The log line of `rec`, recorded at `ts` (seconds since the Unix epoch)
/// for the client at address `ip`.
pub fn log_line(rec: &LogRecord, ts: u64, ip: &str) -> (r: Vec<char>)
    ensures
        r@ == log_text(rec@, ts as nat, ip@),
{
    let mut r = chars_of(STAMP_OPEN);
    let stamp = decimal_text(ts);
    push_chars(&mut r, stamp.as_slice());
    match rec {
        LogRecord::Connected => {
            push_text(&mut r, CONNECTED_TEXT);
            push_text(&mut r, ip);
        },
        LogRecord::LoginFailed { login, password } => {
            push_text(&mut r, FAILED_TEXT);
            push_chars(&mut r, login.as_slice());
            push_text(&mut r, CREDENTIALS_SEPARATOR);
            push_chars(&mut r, password.as_slice());
            push_text(&mut r, FROM_TEXT);
            push_text(&mut r, ip);
        },
        LogRecord::LoginSucceeded { login, password } => {
            push_text(&mut r, SUCCEEDED_TEXT);
            push_chars(&mut r, login.as_slice());
            push_text(&mut r, CREDENTIALS_SEPARATOR);
            push_chars(&mut r, password.as_slice());
            push_text(&mut r, FROM_TEXT);
            push_text(&mut r, ip);
        },
        LogRecord::Command { line } => {
            push_text(&mut r, COMMAND_TEXT);
            push_text(&mut r, ip);
            push_text(&mut r, COMMAND_SEPARATOR);
            push_chars(&mut r, line.as_slice());
        },
    }
    r
}

} // verus!
