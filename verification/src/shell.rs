//! The fake shell: what each command line answers and where it leaves the
//! current directory.

use vstd::prelude::*;
use crate::directories::{entries, is_known_dir, listing, HOME};
use crate::replies::{
    AUTHORIZED_KEYS, BACKUP_SCRIPT, CD_ERROR_PREFIX, CD_ERROR_SUFFIX, CURL_TRANSFER, GROUP,
    HOME_LISTING, HOSTNAME, HOSTS, ID, ID_RSA_DENIED, LINE_END, LISTING_SEPARATOR,
    LOGOUT, LONG_LISTING_HOME, LONG_LISTING_OTHER, LONG_LISTING_TMP, NOT_FOUND_SUFFIX, PASSWD,
    PROMPT_PREFIX, PROMPT_SUFFIX, PS, PWD_HOME, SCP_SEPARATOR, SCP_SUFFIX, SCP_USAGE,
    SUDOERS_DENIED, SUDO_PROMPT, UNAME, WGET_PREFIX, WGET_SUFFIX, WGET_USAGE, WHOAMI,
};
use crate::text::{
    begins_with, chars_of, has_infix, has_prefix, includes, is_text, join, joined, push_chars,
    push_text, split_whitespace, words,
};

verus! {

/// What the session does after a command has answered.
#[derive(Clone, Copy, Debug, PartialEq, Eq, Structural)]
pub enum Flow {
    /// Show the prompt and wait for the next command.
    Continue,
    /// Close the connection.
    Exit,
    /// Wait for the password that `sudo` asked for.
    AskPassword,
}

/// What a command does, as values: its answer, the directory that it leaves
/// the shell in, and what comes next.
pub struct Effect {
    pub output: Seq<char>,
    pub dir: Seq<char>,
    pub flow: Flow,
}

/// The effect of a command that only answers `output`.
pub open spec fn say(dir: Seq<char>, output: Seq<char>) -> Effect {
    Effect { output, dir, flow: Flow::Continue }
}

/// The prompt shown when the shell stands in `dir`.
pub open spec fn prompt_text(dir: Seq<char>) -> Seq<char> {
    PROMPT_PREFIX@ + dir + PROMPT_SUFFIX@
}

/// The answer to `ls` in `dir`.
pub open spec fn ls_reply(dir: Seq<char>) -> Seq<char> {
    if dir == HOME@ {
        HOME_LISTING@
    } else {
        match listing(dir) {
            Some(names) => if names.len() == 0 {
                LINE_END@
            } else {
                joined(names, LISTING_SEPARATOR@) + LINE_END@
            },
            None => HOME_LISTING@,
        }
    }
}

/// The answer to `ls -al` or `ls -la` in `dir`.
pub open spec fn long_listing(dir: Seq<char>) -> Seq<char> {
    if dir == "/tmp"@ {
        LONG_LISTING_TMP@
    } else if dir == HOME@ {
        LONG_LISTING_HOME@
    } else {
        LONG_LISTING_OTHER@
    }
}

/// The effect of a command line that begins with `cd `.
pub open spec fn cd_effect(dir: Seq<char>, cmd: Seq<char>) -> Effect {
    let parts = words(cmd);
    if parts.len() >= 2 {
        let target = parts[1];
        if target == HOME@ || listing(target) is Some {
            Effect { output: Seq::empty(), dir: target, flow: Flow::Continue }
        } else {
            say(dir, CD_ERROR_PREFIX@ + target + CD_ERROR_SUFFIX@)
        }
    } else {
        Effect { output: Seq::empty(), dir: HOME@, flow: Flow::Continue }
    }
}

/// The answer to a command line that mentions `wget`.
pub open spec fn wget_reply(cmd: Seq<char>) -> Seq<char> {
    let parts = words(cmd);
    if parts.len() >= 2 {
        WGET_PREFIX@ + parts[1] + WGET_SUFFIX@
    } else {
        WGET_USAGE@
    }
}

/// The answer to a command line that mentions `scp`.
pub open spec fn scp_reply(cmd: Seq<char>) -> Seq<char> {
    let parts = words(cmd);
    if parts.len() >= 3 {
        parts[2] + SCP_SEPARATOR@ + parts[1] + SCP_SUFFIX@
    } else {
        SCP_USAGE@
    }
}

/// The answer to `pwd` in `dir`.
pub open spec fn pwd_reply(dir: Seq<char>) -> Seq<char> {
    if dir == HOME@ {
        PWD_HOME@
    } else {
        dir + LINE_END@
    }
}

/// Whether `cmd` asks for the backup script while the shell stands in `dir`.
pub open spec fn asks_backup(dir: Seq<char>, cmd: Seq<char>) -> bool {
    cmd == "cat /tmp/backup.sh"@ || (dir == "/tmp"@ && cmd == "cat backup.sh"@)
}

/// The effect of the (trimmed) command line `cmd` typed in `dir`. The tests
/// are made in this order, and the first that holds decides.
pub open spec fn effect(dir: Seq<char>, cmd: Seq<char>) -> Effect {
    if cmd == "ls"@ {
        say(dir, ls_reply(dir))
    } else if cmd == "ls -al"@ || cmd == "ls -la"@ {
        say(dir, long_listing(dir))
    } else if cmd == "hostname"@ {
        say(dir, HOSTNAME@)
    } else if has_prefix(cmd, "cd "@) {
        cd_effect(dir, cmd)
    } else if has_infix(cmd, "wget"@) {
        say(dir, wget_reply(cmd))
    } else if has_infix(cmd, "curl"@) {
        say(dir, CURL_TRANSFER@)
    } else if has_infix(cmd, "scp"@) {
        say(dir, scp_reply(cmd))
    } else if cmd == "pwd"@ {
        say(dir, pwd_reply(dir))
    } else if cmd == "id"@ {
        say(dir, ID@)
    } else if has_prefix(cmd, "sudo"@) {
        Effect { output: SUDO_PROMPT@, dir, flow: Flow::AskPassword }
    } else if cmd == "whoami"@ {
        say(dir, WHOAMI@)
    } else if cmd == "ps"@ {
        say(dir, PS@)
    } else if cmd == "cat /etc/passwd"@ {
        say(dir, PASSWD@)
    } else if cmd == "cat /etc/group"@ {
        say(dir, GROUP@)
    } else if cmd == "cat ~/.ssh/authorized_keys"@ {
        say(dir, AUTHORIZED_KEYS@)
    } else if cmd == "cat ~/.ssh/id_rsa"@ {
        say(dir, ID_RSA_DENIED@)
    } else if cmd == "cat /etc/hosts"@ {
        say(dir, HOSTS@)
    } else if cmd == "cat /etc/sudoers"@ {
        say(dir, SUDOERS_DENIED@)
    } else if cmd == "uname -a"@ {
        say(dir, UNAME@)
    } else if asks_backup(dir, cmd) {
        say(dir, BACKUP_SCRIPT@)
    } else if cmd == "exit"@ || cmd == "logout"@ {
        Effect { output: LOGOUT@, dir, flow: Flow::Exit }
    } else if cmd.len() == 0 {
        say(dir, Seq::empty())
    } else {
        say(dir, cmd + NOT_FOUND_SUFFIX@)
    }
}

/// What a command does: its answer, the directory it leaves the shell in,
/// and what comes next.
pub struct CommandResult {
    pub output: Vec<char>,
    pub dir: Vec<char>,
    pub flow: Flow,
}

impl View for CommandResult {
    type V = Effect;

    open spec fn view(&self) -> Effect {
        Effect { output: self.output@, dir: self.dir@, flow: self.flow }
    }
}

fn copy_of(s: &[char]) -> (r: Vec<char>)
    ensures
        r@ == s@,
{
    let mut r: Vec<char> = Vec::new();
    push_chars(&mut r, s);
    r
}

fn answer(dir: &[char], output: Vec<char>) -> (r: CommandResult)
    ensures
        r@ == say(dir@, output@),
{
    CommandResult { output, dir: copy_of(dir), flow: Flow::Continue }
}

fn text_answer(dir: &[char], s: &str) -> (r: CommandResult)
    ensures
        r@ == say(dir@, s@),
{
    answer(dir, chars_of(s))
}

/// The prompt shown when the shell stands in `dir`.
pub fn prompt(dir: &[char]) -> (r: Vec<char>)
    ensures
        r@ == prompt_text(dir@),
{
    let mut r = chars_of(PROMPT_PREFIX);
    push_chars(&mut r, dir);
    push_text(&mut r, PROMPT_SUFFIX);
    r
}

fn ls(dir: &[char]) -> (r: Vec<char>)
    ensures
        r@ == ls_reply(dir@),
{
    if is_text(dir, HOME) {
        chars_of(HOME_LISTING)
    } else {
        match entries(dir) {
            Some(names) => {
                if names.len() == 0 {
                    chars_of(LINE_END)
                } else {
                    let mut r = join(names.as_slice(), LISTING_SEPARATOR);
                    push_text(&mut r, LINE_END);
                    r
                }
            },
            None => chars_of(HOME_LISTING),
        }
    }
}

fn ls_long(dir: &[char]) -> (r: Vec<char>)
    ensures
        r@ == long_listing(dir@),
{
    if is_text(dir, "/tmp") {
        chars_of(LONG_LISTING_TMP)
    } else if is_text(dir, HOME) {
        chars_of(LONG_LISTING_HOME)
    } else {
        chars_of(LONG_LISTING_OTHER)
    }
}

fn cd(dir: &[char], cmd: &[char]) -> (r: CommandResult)
    ensures
        r@ == cd_effect(dir@, cmd@),
{
    let parts = split_whitespace(cmd);
    if parts.len() >= 2 {
        let target = &parts[1];
        assert(target@ == words(cmd@)[1]);
        if is_text(target.as_slice(), HOME) || is_known_dir(target.as_slice()) {
            CommandResult { output: Vec::new(), dir: copy_of(target.as_slice()), flow: Flow::Continue }
        } else {
            let mut out = chars_of(CD_ERROR_PREFIX);
            push_chars(&mut out, target.as_slice());
            push_text(&mut out, CD_ERROR_SUFFIX);
            answer(dir, out)
        }
    } else {
        CommandResult { output: Vec::new(), dir: chars_of(HOME), flow: Flow::Continue }
    }
}

fn wget(cmd: &[char]) -> (r: Vec<char>)
    ensures
        r@ == wget_reply(cmd@),
{
    let parts = split_whitespace(cmd);
    if parts.len() >= 2 {
        assert(parts[1]@ == words(cmd@)[1]);
        let mut out = chars_of(WGET_PREFIX);
        push_chars(&mut out, parts[1].as_slice());
        push_text(&mut out, WGET_SUFFIX);
        out
    } else {
        chars_of(WGET_USAGE)
    }
}

fn scp(cmd: &[char]) -> (r: Vec<char>)
    ensures
        r@ == scp_reply(cmd@),
{
    let parts = split_whitespace(cmd);
    if parts.len() >= 3 {
        assert(parts[1]@ == words(cmd@)[1]);
        assert(parts[2]@ == words(cmd@)[2]);
        let mut out = copy_of(parts[2].as_slice());
        push_text(&mut out, SCP_SEPARATOR);
        push_chars(&mut out, parts[1].as_slice());
        push_text(&mut out, SCP_SUFFIX);
        out
    } else {
        chars_of(SCP_USAGE)
    }
}

fn pwd(dir: &[char]) -> (r: Vec<char>)
    ensures
        r@ == pwd_reply(dir@),
{
    if is_text(dir, HOME) {
        chars_of(PWD_HOME)
    } else {
        let mut out = copy_of(dir);
        push_text(&mut out, LINE_END);
        out
    }
}

/// What the (trimmed) command line `cmd`, typed while the shell stands in
/// `dir`, answers, where it leaves the shell, and what comes next.
pub fn respond(dir: &[char], cmd: &[char]) -> (r: CommandResult)
    ensures
        r@ == effect(dir@, cmd@),
{
    if is_text(cmd, "ls") {
        answer(dir, ls(dir))
    } else if is_text(cmd, "ls -al") || is_text(cmd, "ls -la") {
        answer(dir, ls_long(dir))
    } else if is_text(cmd, "hostname") {
        text_answer(dir, HOSTNAME)
    } else if begins_with(cmd, "cd ") {
        cd(dir, cmd)
    } else if includes(cmd, "wget") {
        answer(dir, wget(cmd))
    } else if includes(cmd, "curl") {
        text_answer(dir, CURL_TRANSFER)
    } else if includes(cmd, "scp") {
        answer(dir, scp(cmd))
    } else if is_text(cmd, "pwd") {
        answer(dir, pwd(dir))
    } else if is_text(cmd, "id") {
        text_answer(dir, ID)
    } else if begins_with(cmd, "sudo") {
        CommandResult { output: chars_of(SUDO_PROMPT), dir: copy_of(dir), flow: Flow::AskPassword }
    } else if is_text(cmd, "whoami") {
        text_answer(dir, WHOAMI)
    } else if is_text(cmd, "ps") {
        text_answer(dir, PS)
    } else if is_text(cmd, "cat /etc/passwd") {
        text_answer(dir, PASSWD)
    } else if is_text(cmd, "cat /etc/group") {
        text_answer(dir, GROUP)
    } else if is_text(cmd, "cat ~/.ssh/authorized_keys") {
        text_answer(dir, AUTHORIZED_KEYS)
    } else if is_text(cmd, "cat ~/.ssh/id_rsa") {
        text_answer(dir, ID_RSA_DENIED)
    } else if is_text(cmd, "cat /etc/hosts") {
        text_answer(dir, HOSTS)
    } else if is_text(cmd, "cat /etc/sudoers") {
        text_answer(dir, SUDOERS_DENIED)
    } else if is_text(cmd, "uname -a") {
        text_answer(dir, UNAME)
    } else if is_text(cmd, "cat /tmp/backup.sh") || (is_text(dir, "/tmp") && is_text(
        cmd,
        "cat backup.sh",
    )) {
        text_answer(dir, BACKUP_SCRIPT)
    } else if is_text(cmd, "exit") || is_text(cmd, "logout") {
        CommandResult { output: chars_of(LOGOUT), dir: copy_of(dir), flow: Flow::Exit }
    } else if cmd.len() == 0 {
        answer(dir, Vec::new())
    } else {
        let mut out = copy_of(cmd);
        push_text(&mut out, NOT_FOUND_SUFFIX);
        answer(dir, out)
    }
}

} // verus!
