//! What holds of the honeypot as a whole: the laws that span its functions
//! and every state of a session.

use vstd::prelude::*;
use crate::directories::{listing, valid_dir, HOME};
use crate::log::Entry;
use crate::replies::{SUDO_REFUSED, ACCESS_DENIED, CD_ERROR_PREFIX, CD_ERROR_SUFFIX, LINE_END, LOGOUT, PWD_HOME};
use crate::session::{accepts, hang_up, next, text_of, Input, Reply, State};
use crate::shell::{effect, prompt_text, Flow};
use crate::text::{
    decimal, has_infix, has_prefix, is_ws, occurs_at, split_state, trim_end, trim_start, trimmed,
    words,
};

verus! {

/// Whether every directory that the state holds is one the shell may stand in.
pub open spec fn valid_state(st: State) -> bool {
    match st {
        State::Shell(dir) => valid_dir(dir),
        State::Sudo(dir) => valid_dir(dir),
        _ => true,
    }
}

/// Whether `s` ends with `t`.
pub open spec fn has_suffix(s: Seq<char>, t: Seq<char>) -> bool {
    t.len() <= s.len() && s.skip(s.len() - t.len()) == t
}

/// Once the connection is closed, whatever comes in is answered by nothing,
/// and the session stays closed.
pub proof fn law_closed_is_final(input: Input)
    ensures
        next(State::Closed, input) == (State::Closed, hang_up()),
{
}

/// The shell is entered only from the password prompt, and only with the
/// login `admin` and the password `admin-techpro` (each without the
/// whitespace around it).
pub proof fn law_only_admin_enters(st: State, input: Input)
    requires
        next(st, input).0 is Shell,
        !(st is Shell),
        !(st is Sudo),
    ensures
        st matches State::Password(login) && accepts(login, trimmed(text_of(input))),
{
}

/// A new session given a login line and then a password line (or the end of
/// the input in their place) opens the shell exactly when the two, without
/// the whitespace around them, are `admin` and `admin-techpro`; otherwise
/// it answers that permission is denied and closes.
pub proof fn law_login_exchange(login_line: Input, password_line: Input)
    requires
        !(login_line is ReadError),
        !(password_line is ReadError),
    ensures
        ({
            let (after_login, _) = next(State::Login, login_line);
            let (after_password, reply) = next(after_login, password_line);
            let login = trimmed(text_of(login_line));
            let password = trimmed(text_of(password_line));
            &&& (after_password is Shell) <==> accepts(login, password)
            &&& !accepts(login, password) ==> after_password is Closed && reply.close
                && reply.output == ACCESS_DENIED@
        }),
{
}

/// Every login attempt is recorded, right or wrong, with the login and the
/// password that were given.
pub proof fn law_attempts_are_logged(login: Seq<char>, input: Input)
    requires
        !(input is ReadError),
    ensures
        ({
            let password = trimmed(text_of(input));
            let reply = next(State::Password(login), input).1;
            if accepts(login, password) {
                reply.log == Some(Entry::LoginSucceeded(login, password))
            } else {
                reply.log == Some(Entry::LoginFailed(login, password))
            }
        }),
{
}

/// Every command line typed in the shell that is not blank is recorded,
/// without the whitespace around it.
pub proof fn law_commands_are_logged(dir: Seq<char>, line: Seq<char>)
    requires
        trimmed(line).len() > 0,
    ensures
        next(State::Shell(dir), Input::Line(line)).1.log == Some(Entry::Command(trimmed(line))),
{
}

/// The shell stands only in the home directory or in a directory that `cd`
/// knows: every step keeps it so.
pub proof fn law_directory_stays_valid(st: State, input: Input)
    requires
        valid_state(st),
    ensures
        valid_state(next(st, input).0),
{
    if let State::Shell(dir) = st {
        if let Input::Line(t) = input {
            let cmd = trimmed(t);
            let e = effect(dir, cmd);
            assert(valid_dir(e.dir));
        }
    }
}

/// Whenever a step leaves the session in the shell, what it sends ends with
/// the prompt of the directory the shell then stands in.
pub proof fn law_prompt_follows(st: State, input: Input)
    ensures
        next(st, input).0 matches State::Shell(dir) ==> has_suffix(
            next(st, input).1.output,
            prompt_text(dir),
        ),
{
    let (after, reply) = next(st, input);
    if let State::Shell(dir) = after {
        let p = prompt_text(dir);
        let pre = (reply.output.len() - p.len()) as int;
        assert(reply.output.skip(pre) =~= p);
    }
}

/// `pwd` is none of the commands tested before it.
pub(crate) proof fn lemma_pwd_is_plain(dir: Seq<char>)
    ensures
        effect(dir, "pwd"@).output == (if dir == HOME@ {
            PWD_HOME@
        } else {
            dir + LINE_END@
        }),
        effect(dir, "pwd"@).dir == dir,
{
    reveal_strlit("pwd");
    reveal_strlit("ls");
    reveal_strlit("ls -al");
    reveal_strlit("ls -la");
    reveal_strlit("hostname");
    reveal_strlit("cd ");
    reveal_strlit("wget");
    reveal_strlit("curl");
    reveal_strlit("scp");
    let p = "pwd"@;
    assert(p != "ls"@ && p != "ls -al"@ && p != "ls -la"@ && p != "hostname"@);
    assert(!has_prefix(p, "cd "@)) by {
        assert(p.take(3)[0] != "cd "@[0]);
    }
    assert(!has_infix(p, "wget"@)) by {
        assert forall|i: int| !occurs_at(p, "wget"@, i) by {}
    }
    assert(!has_infix(p, "curl"@)) by {
        assert forall|i: int| !occurs_at(p, "curl"@, i) by {}
    }
    assert(!has_infix(p, "scp"@)) by {
        assert forall|i: int| !occurs_at(p, "scp"@, i) by {
            if occurs_at(p, "scp"@, i) {
                assert(i == 0);
                assert(p.subrange(0, 3)[0] != "scp"@[0]);
            }
        }
    }
}

/// A command line that begins with `cd` is none of the commands tested before it.
pub(crate) proof fn lemma_cd_is_cd(dir: Seq<char>, cmd: Seq<char>)
    requires
        has_prefix(cmd, "cd "@),
    ensures
        effect(dir, cmd) == crate::shell::cd_effect(dir, cmd),
{
    reveal_strlit("ls");
    reveal_strlit("ls -al");
    reveal_strlit("ls -la");
    reveal_strlit("hostname");
    reveal_strlit("cd ");
    assert(cmd[0] == 'c') by {
        assert(cmd.take(3)[0] == cmd[0]);
    }
}

/// `cd` into the home directory or into a directory that it knows moves the
/// shell there, and `pwd` then names it (`/home/user` for the home
/// directory); `cd` into any other name leaves the shell where it was and
/// says that there is no such directory.
pub proof fn law_cd_then_pwd(dir: Seq<char>, cmd: Seq<char>)
    requires
        has_prefix(cmd, "cd "@),
        words(cmd).len() >= 2,
    ensures
        ({
            let target = words(cmd)[1];
            let after = effect(dir, cmd);
            if target == HOME@ || listing(target) is Some {
                &&& after.dir == target
                &&& after.output.len() == 0
                &&& effect(after.dir, "pwd"@).output == (if target == HOME@ {
                    PWD_HOME@
                } else {
                    target + LINE_END@
                })
            } else {
                &&& after.dir == dir
                &&& after.output == CD_ERROR_PREFIX@ + target + CD_ERROR_SUFFIX@
            }
        }),
{
    lemma_cd_is_cd(dir, cmd);
    lemma_pwd_is_plain(words(cmd)[1]);
}

proof fn lemma_no_infix(p: Seq<char>, n: Seq<char>)
    requires
        n.len() > 0,
        forall|j: int| 0 <= j < p.len() ==> p[j] != n[0],
    ensures
        !has_infix(p, n),
{
    assert forall|i: int| !occurs_at(p, n, i) by {
        if occurs_at(p, n, i) {
            assert(p.subrange(i, i + n.len())[0] == p[i]);
        }
    }
}

/// `exit` and `logout` are none of the commands tested before them.
proof fn lemma_exit_is_exit(dir: Seq<char>, cmd: Seq<char>)
    requires
        cmd == "exit"@ || cmd == "logout"@,
    ensures
        effect(dir, cmd) == (crate::shell::Effect { output: LOGOUT@, dir, flow: Flow::Exit }),
{
    reveal_strlit("exit");
    reveal_strlit("logout");
    reveal_strlit("ls");
    reveal_strlit("ls -al");
    reveal_strlit("ls -la");
    reveal_strlit("hostname");
    reveal_strlit("cd ");
    reveal_strlit("wget");
    reveal_strlit("curl");
    reveal_strlit("scp");
    reveal_strlit("pwd");
    reveal_strlit("id");
    reveal_strlit("sudo");
    reveal_strlit("whoami");
    reveal_strlit("ps");
    reveal_strlit("cat /etc/passwd");
    reveal_strlit("cat /etc/group");
    reveal_strlit("cat ~/.ssh/authorized_keys");
    reveal_strlit("cat ~/.ssh/id_rsa");
    reveal_strlit("cat /etc/hosts");
    reveal_strlit("cat /etc/sudoers");
    reveal_strlit("uname -a");
    reveal_strlit("cat /tmp/backup.sh");
    reveal_strlit("cat backup.sh");
    assert(cmd.len() == 4 || cmd.len() == 6);
    assert(cmd[0] == 'e' || cmd[0] == 'l');
    assert(!has_prefix(cmd, "cd "@)) by {
        assert(cmd.take(3)[0] == cmd[0]);
    }
    assert(!has_prefix(cmd, "sudo"@)) by {
        assert(cmd.take(4)[0] == cmd[0]);
    }
    lemma_no_infix(cmd, "wget"@);
    lemma_no_infix(cmd, "curl"@);
    lemma_no_infix(cmd, "scp"@);
}

/// `exit` or `logout` in the shell (with any whitespace around it) answers
/// `logout`, is recorded, and closes the connection.
pub proof fn law_exit_closes(dir: Seq<char>, line: Seq<char>)
    requires
        trimmed(line) == "exit"@ || trimmed(line) == "logout"@,
    ensures
        next(State::Shell(dir), Input::Line(line)) == (
            State::Closed,
            Reply { output: LOGOUT@, log: Some(Entry::Command(trimmed(line))), close: true },
        ),
{
    reveal_strlit("exit");
    reveal_strlit("logout");
    lemma_exit_is_exit(dir, trimmed(line));
}

/// The number that a string of decimal digits stands for.
pub open spec fn decimal_value(s: Seq<char>) -> int
    decreases s.len(),
{
    if s.len() == 0 {
        0
    } else {
        decimal_value(s.drop_last()) * 10 + (s.last() as int - 48)
    }
}

/// The decimal numeral of a number is made of the digits `0` to `9` only,
/// and reads back as that number.
pub proof fn law_decimal_reads_back(n: nat)
    ensures
        decimal(n).len() > 0,
        forall|i: int| 0 <= i < decimal(n).len() ==> '0' <= #[trigger] decimal(n)[i] <= '9',
        decimal_value(decimal(n)) == n,
    decreases n,
{
    let r = (n % 10) as int;
    assert(crate::text::digit_char(r) as int == r + 48);
    if n >= 10 {
        law_decimal_reads_back(n / 10);
        let d = decimal(n);
        assert(d.drop_last() =~= decimal(n / 10));
        assert(d.last() == crate::text::digit_char(r));
        assert(decimal_value(d) == decimal_value(d.drop_last()) * 10 + (d.last() as int - 48));
        assert(n == (n / 10) * 10 + r);
    } else {
        let d = decimal(n);
        assert(d.drop_last() =~= Seq::<char>::empty());
        assert(r == n);
        assert(d.last() == crate::text::digit_char(r));
        assert(decimal_value(d) == decimal_value(d.drop_last()) * 10 + (d.last() as int - 48));
    }
}

proof fn lemma_trim_start_shape(s: Seq<char>)
    ensures
        trim_start(s).len() <= s.len(),
        trim_start(s) =~= s.skip(s.len() - trim_start(s).len()),
        trim_start(s).len() > 0 ==> !is_ws(trim_start(s)[0]),
        forall|j: int| 0 <= j < s.len() - trim_start(s).len() ==> is_ws(#[trigger] s[j]),
    decreases s.len(),
{
    if s.len() > 0 && is_ws(s[0]) {
        let r = s.drop_first();
        lemma_trim_start_shape(r);
        assert forall|j: int| 0 <= j < s.len() - trim_start(s).len() implies is_ws(#[trigger] s[j]) by {
            if j > 0 {
                assert(s[j] == r[j - 1]);
            }
        }
    }
}

proof fn lemma_trim_end_shape(s: Seq<char>)
    ensures
        trim_end(s).len() <= s.len(),
        trim_end(s) =~= s.take(trim_end(s).len() as int),
        trim_end(s).len() > 0 ==> !is_ws(trim_end(s).last()),
        s.len() > 0 && !is_ws(s[0]) ==> trim_end(s).len() > 0,
        forall|j: int| trim_end(s).len() <= j < s.len() ==> is_ws(#[trigger] s[j]),
    decreases s.len(),
{
    if s.len() > 0 && is_ws(s.last()) {
        let r = s.drop_last();
        lemma_trim_end_shape(r);
        assert forall|j: int| trim_end(s).len() <= j < s.len() implies is_ws(#[trigger] s[j]) by {
            if j < s.len() - 1 {
                assert(s[j] == r[j]);
            }
        }
    }
}

/// Trimming gives the piece of the string that is left once the
/// whitespace around it is taken away: it neither begins nor ends with
/// whitespace, everything before and after it is whitespace, and trimming
/// it again changes nothing.
pub proof fn law_trim(s: Seq<char>)
    ensures
        ({
            let t = trimmed(s);
            &&& t.len() <= s.len()
            &&& exists|i: int|
                0 <= i <= s.len() - t.len() && t == #[trigger] s.subrange(i, i + t.len()) && (forall|j: int|
                    0 <= j < i ==> is_ws(#[trigger] s[j])) && (forall|j: int|
                    i + t.len() <= j < s.len() ==> is_ws(#[trigger] s[j]))
            &&& t.len() > 0 ==> !is_ws(t[0]) && !is_ws(t.last())
            &&& trimmed(t) == t
        }),
{
    let u = trim_start(s);
    lemma_trim_start_shape(s);
    lemma_trim_end_shape(u);
    let t = trimmed(s);
    let i = s.len() - u.len();
    assert(t == s.subrange(i, i + t.len()));
    assert forall|j: int| i + t.len() <= j < s.len() implies is_ws(#[trigger] s[j]) by {
        assert(s[j] == u[j - i]);
    }
    if t.len() > 0 {
        assert(t[0] == u[0]);
    }
    assert(trim_start(t) == t);
    assert(trim_end(t) == t);
}

proof fn lemma_split_state_shape(s: Seq<char>)
    ensures
        forall|j: int| 0 <= j < split_state(s).1.len() ==> !is_ws(#[trigger] split_state(s).1[j]),
        forall|i: int| 0 <= i < split_state(s).0.len() ==> #[trigger] split_state(s).0[i].len() > 0,
        forall|i: int, j: int|
            0 <= i < split_state(s).0.len() && 0 <= j < split_state(s).0[i].len() ==> !is_ws(
                #[trigger] split_state(s).0[i][j],
            ),
    decreases s.len(),
{
    if s.len() > 0 {
        lemma_split_state_shape(s.drop_last());
        let (done, cur) = split_state(s.drop_last());
        let c = s.last();
        if is_ws(c) {
            if cur.len() > 0 {
                let d2 = done.push(cur);
                assert forall|i: int| 0 <= i < d2.len() implies #[trigger] d2[i].len() > 0 by {
                    if i < done.len() {
                        assert(d2[i] == done[i]);
                    }
                }
                assert forall|i: int, j: int|
                    0 <= i < d2.len() && 0 <= j < d2[i].len() implies !is_ws(#[trigger] d2[i][j]) by {
                    if i < done.len() {
                        assert(d2[i] == done[i]);
                    }
                }
            }
        } else {
            let c2 = cur.push(c);
            assert forall|j: int| 0 <= j < c2.len() implies !is_ws(#[trigger] c2[j]) by {
                if j < cur.len() {
                    assert(c2[j] == cur[j]);
                }
            }
        }
    }
}

/// The words of a string are never empty and hold no whitespace.
pub proof fn law_words(s: Seq<char>)
    ensures
        forall|i: int| 0 <= i < words(s).len() ==> #[trigger] words(s)[i].len() > 0,
        forall|i: int, j: int|
            0 <= i < words(s).len() && 0 <= j < words(s)[i].len() ==> !is_ws(
                #[trigger] words(s)[i][j],
            ),
{
    lemma_split_state_shape(s);
}

/// No password given to `sudo` is accepted: the shell refuses it (or says
/// nothing more if it cannot be read) and stays where it was.
pub proof fn law_sudo_refuses(dir: Seq<char>, input: Input)
    ensures
        next(State::Sudo(dir), input).0 == State::Shell(dir),
        !(input is ReadError) ==> next(State::Sudo(dir), input).1.output == SUDO_REFUSED@
            + prompt_text(dir),
        !next(State::Sudo(dir), input).1.close,
{
}

/// When the client goes away or reading fails in the shell, the session
/// closes without a word.
pub proof fn law_disconnect_closes(dir: Seq<char>, input: Input)
    requires
        !(input is Line),
    ensures
        next(State::Shell(dir), input) == (State::Closed, hang_up()),
{
}

/// Feeds `inputs` to a session in `st`, one after the other, until the
/// connection closes or the inputs run out: the state reached, everything
/// sent, and how many inputs were read.
pub open spec fn run(st: State, inputs: Seq<Input>) -> (State, Seq<char>, nat)
    decreases inputs.len(),
{
    if inputs.len() == 0 || st is Closed {
        (st, Seq::empty(), 0)
    } else {
        let (after, reply) = next(st, inputs[0]);
        let (last, rest, read) = run(after, inputs.drop_first());
        (last, reply.output + rest, read + 1)
    }
}

/// The lines, each as an input.
pub open spec fn as_lines(lines: Seq<Seq<char>>) -> Seq<Input> {
    Seq::new(lines.len(), |i: int| Input::Line(lines[i]))
}

/// Whether a command line, once trimmed, ends the session.
pub open spec fn is_exit(cmd: Seq<char>) -> bool {
    cmd == "exit"@ || cmd == "logout"@
}

/// Whether, starting from `st`, the shell reads line `k` as a command (not
/// as a password for `sudo`, and with the connection still open) and that
/// command is `exit` or `logout`.
pub open spec fn quits_at(st: State, lines: Seq<Seq<char>>, k: int) -> bool {
    &&& 0 <= k < lines.len()
    &&& run(st, as_lines(lines.take(k))).0 is Shell
    &&& is_exit(trimmed(lines[k]))
}

/// Whether `s` ends with the prompt of some directory.
pub open spec fn ends_with_prompt(s: Seq<char>) -> bool {
    exists|dir: Seq<char>| has_suffix(s, #[trigger] prompt_text(dir))
}

proof fn lemma_suffix_extends(a: Seq<char>, b: Seq<char>, t: Seq<char>)
    requires
        has_suffix(b, t),
    ensures
        has_suffix(a + b, t),
{
    assert((a + b).skip((a + b).len() - t.len()) =~= b.skip(b.len() - t.len()));
}

proof fn lemma_exit_flow(dir: Seq<char>, cmd: Seq<char>)
    ensures
        (effect(dir, cmd).flow == Flow::Exit) == is_exit(cmd),
        effect(dir, cmd).flow == Flow::Exit ==> effect(dir, cmd).output == LOGOUT@,
{
    if is_exit(cmd) {
        lemma_exit_is_exit(dir, cmd);
    }
}

proof fn lemma_run_closed(inputs: Seq<Input>)
    ensures
        run(State::Closed, inputs) == (State::Closed, Seq::<char>::empty(), 0nat),
{
}

/// What holds of a run from `st` over `lines` and then the end of input.
spec fn run_ok(st: State, lines: Seq<Seq<char>>) -> bool {
    let (last, out, read) = run(st, as_lines(lines) + seq![Input::Eof, Input::Eof]);
    &&& last is Closed
    &&& out.len() == 0 ==> st is Shell && lines.len() == 0
    &&& forall|k: int| #[trigger] quits_at(st, lines, k) ==> read == k + 1 && has_suffix(
        out,
        LOGOUT@,
    )
    &&& (forall|k: int| !#[trigger] quits_at(st, lines, k)) ==> read > lines.len() && (out.len()
        == 0 || ends_with_prompt(out))
}

proof fn lemma_run_step(st: State, inputs: Seq<Input>)
    requires
        inputs.len() > 0,
        !(st is Closed),
    ensures
        ({
            let (after, reply) = next(st, inputs[0]);
            let (l2, o2, r2) = run(after, inputs.drop_first());
            run(st, inputs) == (l2, reply.output + o2, r2 + 1)
        }),
{
}

proof fn lemma_lines_step(lines: Seq<Seq<char>>)
    requires
        lines.len() > 0,
    ensures
        (as_lines(lines) + seq![Input::Eof, Input::Eof])[0] == Input::Line(lines[0]),
        (as_lines(lines) + seq![Input::Eof, Input::Eof]).drop_first() == as_lines(
            lines.drop_first(),
        ) + seq![Input::Eof, Input::Eof],
{
    assert((as_lines(lines) + seq![Input::Eof, Input::Eof]).drop_first() =~= as_lines(
        lines.drop_first(),
    ) + seq![Input::Eof, Input::Eof]);
}

proof fn lemma_quits_shift(st: State, lines: Seq<Seq<char>>, k: int)
    requires
        !(st is Closed),
        1 <= k < lines.len(),
    ensures
        quits_at(st, lines, k) == quits_at(
            next(st, Input::Line(lines[0])).0,
            lines.drop_first(),
            k - 1,
        ),
{
    let pre = as_lines(lines.take(k));
    assert(pre[0] == Input::Line(lines[0]));
    assert(pre.drop_first() =~= as_lines(lines.drop_first().take(k - 1)));
    lemma_run_step(st, pre);
}

proof fn lemma_run_base(st: State)
    requires
        st is Shell || st is Sudo,
    ensures
        run_ok(st, Seq::empty()),
{
    let lines = Seq::<Seq<char>>::empty();
    let inputs = as_lines(lines) + seq![Input::Eof, Input::Eof];
    assert(inputs =~= seq![Input::Eof, Input::Eof]);
    let rest = inputs.drop_first();
    assert(rest =~= seq![Input::Eof]);
    assert(rest.drop_first() =~= Seq::<Input>::empty());
    lemma_run_step(st, inputs);
    assert forall|k: int| !#[trigger] quits_at(st, lines, k) by {}
    reveal_strlit(" $ ");
    if let State::Shell(_) = st {
        lemma_run_closed(rest);
    }
    if let State::Sudo(d) = st {
        let (after, reply) = next(st, Input::Eof);
        lemma_run_step(after, rest);
        let out = run(st, inputs).1;
        let p = prompt_text(d);
        assert(out =~= reply.output);
        assert(out.skip(out.len() - p.len()) =~= p);
        assert(has_suffix(out, prompt_text(d)));
    }
}

proof fn lemma_run_exit(d: Seq<char>, lines: Seq<Seq<char>>)
    requires
        lines.len() > 0,
        is_exit(trimmed(lines[0])),
    ensures
        run_ok(State::Shell(d), lines),
{
    let st = State::Shell(d);
    let inputs = as_lines(lines) + seq![Input::Eof, Input::Eof];
    lemma_lines_step(lines);
    lemma_run_step(st, inputs);
    lemma_exit_flow(d, trimmed(lines[0]));
    lemma_run_closed(inputs.drop_first());
    reveal_strlit("logout\r\n");
    let out = run(st, inputs).1;
    assert(out =~= LOGOUT@);
    assert(out.len() > 0);
    assert(out.skip(0) =~= out);
    assert(as_lines(lines.take(0)) =~= Seq::<Input>::empty());
    assert(quits_at(st, lines, 0));
    assert forall|k: int| #[trigger] quits_at(st, lines, k) implies k == 0 by {
        if k >= 1 {
            lemma_quits_shift(st, lines, k);
            lemma_run_closed(as_lines(lines.drop_first().take(k - 1)));
        }
    }
}

proof fn lemma_run_combine(st: State, lines: Seq<Seq<char>>)
    requires
        !(st is Closed),
        lines.len() > 0,
        !quits_at(st, lines, 0),
        ({
            let (after, reply) = next(st, Input::Line(lines[0]));
            &&& after is Shell || after is Sudo
            &&& run_ok(after, lines.drop_first())
            &&& after is Sudo || ends_with_prompt(reply.output)
        }),
    ensures
        run_ok(st, lines),
{
    let inputs = as_lines(lines) + seq![Input::Eof, Input::Eof];
    let tail = lines.drop_first();
    lemma_lines_step(lines);
    lemma_run_step(st, inputs);
    let (after, reply) = next(st, Input::Line(lines[0]));
    let (l2, o2, r2) = run(after, inputs.drop_first());
    let out = reply.output + o2;
    reveal_strlit(" $ ");
    if !(after is Sudo) {
        let w = choose|w: Seq<char>| has_suffix(reply.output, #[trigger] prompt_text(w));
        assert(reply.output.len() > 0);
    }
    assert(out.len() > 0);
    assert forall|k: int| #[trigger] quits_at(st, lines, k) implies run(st, inputs).2 == k + 1
        && has_suffix(run(st, inputs).1, LOGOUT@) by {
        lemma_quits_shift(st, lines, k);
        assert(quits_at(after, tail, k - 1));
        lemma_suffix_extends(reply.output, o2, LOGOUT@);
    }
    if forall|k: int| !#[trigger] quits_at(st, lines, k) {
        assert forall|k: int| !#[trigger] quits_at(after, tail, k) by {
            if quits_at(after, tail, k) {
                lemma_quits_shift(st, lines, k + 1);
            }
        }
        if o2.len() == 0 {
            assert(out =~= reply.output);
        } else {
            let w = choose|w: Seq<char>| has_suffix(o2, #[trigger] prompt_text(w));
            lemma_suffix_extends(reply.output, o2, prompt_text(w));
        }
    }
}

proof fn lemma_run_shell(st: State, lines: Seq<Seq<char>>)
    requires
        st is Shell || st is Sudo,
    ensures
        run_ok(st, lines),
    decreases lines.len(),
{
    if lines.len() == 0 {
        lemma_run_base(st);
    } else {
        let tail = lines.drop_first();
        let (after, reply) = next(st, Input::Line(lines[0]));
        assert(as_lines(lines.take(0)) =~= Seq::<Input>::empty());
        match st {
            State::Sudo(d) => {
                lemma_run_shell(after, tail);
                let p = prompt_text(d);
                assert(reply.output.skip(reply.output.len() - p.len()) =~= p);
                assert(has_suffix(reply.output, prompt_text(d)));
                lemma_run_combine(st, lines);
            },
            State::Shell(d) => {
                let cmd = trimmed(lines[0]);
                lemma_exit_flow(d, cmd);
                if is_exit(cmd) {
                    lemma_run_exit(d, lines);
                } else {
                    lemma_run_shell(after, tail);
                    let e = effect(d, cmd);
                    if e.flow == Flow::Continue {
                        let p = prompt_text(e.dir);
                        assert(reply.output.skip(reply.output.len() - p.len()) =~= p);
                        assert(has_suffix(reply.output, prompt_text(e.dir)));
                    }
                    lemma_run_combine(st, lines);
                }
            },
            _ => {},
        }
    }
}

/// A whole session: after a login with the right credentials, the client
/// sends command lines and then goes away (end of input, as often as it is
/// read). The connection always closes. If some line is read as a command
/// and is `exit` or `logout`, the first such line is the last one read, and
/// what was sent ends with its answer `logout`; otherwise every line is
/// answered and what was sent ends with a prompt.
pub proof fn law_whole_session(login: Seq<char>, password: Seq<char>, lines: Seq<Seq<char>>)
    requires
        accepts(trimmed(login), trimmed(password)),
    ensures
        ({
            let inputs = seq![Input::Line(login), Input::Line(password)] + as_lines(lines) + seq![
                Input::Eof,
                Input::Eof,
            ];
            let (last, out, read) = run(State::Login, inputs);
            &&& last is Closed
            &&& forall|k: int| #[trigger] quits_at(State::Shell(HOME@), lines, k) ==> read == k + 3
                && has_suffix(out, LOGOUT@)
            &&& (forall|k: int| !#[trigger] quits_at(State::Shell(HOME@), lines, k)) ==> read
                > lines.len() + 2 && ends_with_prompt(out)
        }),
{
    let inputs = seq![Input::Line(login), Input::Line(password)] + as_lines(lines) + seq![
        Input::Eof,
        Input::Eof,
    ];
    let shell = as_lines(lines) + seq![Input::Eof, Input::Eof];
    let (s1, r1) = next(State::Login, inputs[0]);
    assert(inputs[0] == Input::Line(login));
    lemma_run_step(State::Login, inputs);
    assert(s1 == State::Password(trimmed(login)));
    let i1 = inputs.drop_first();
    assert(i1[0] == Input::Line(password));
    let (s2, r2) = next(s1, i1[0]);
    assert(s2 == State::Shell(HOME@));
    lemma_run_step(s1, i1);
    assert(i1.drop_first() =~= shell);
    lemma_run_shell(s2, lines);
    let (l3, o3, n3) = run(s2, shell);
    let (last, out, read) = run(State::Login, inputs);
    assert(out == r1.output + (r2.output + o3));
    assert(read == n3 + 2);
    if exists|k: int| quits_at(State::Shell(HOME@), lines, k) {
        let k = choose|k: int| quits_at(State::Shell(HOME@), lines, k);
        lemma_suffix_extends(r2.output, o3, LOGOUT@);
        lemma_suffix_extends(r1.output, r2.output + o3, LOGOUT@);
        assert forall|j: int| #[trigger] quits_at(State::Shell(HOME@), lines, j) implies read == j
            + 3 && has_suffix(out, LOGOUT@) by {
            lemma_suffix_extends(r2.output, o3, LOGOUT@);
            lemma_suffix_extends(r1.output, r2.output + o3, LOGOUT@);
        }
    } else {
        let p = prompt_text(HOME@);
        if o3.len() == 0 {
            let b = r2.output;
            assert(b.skip(b.len() - p.len()) =~= p);
            assert(r2.output + o3 =~= b);
            lemma_suffix_extends(r1.output, b, p);
            assert(has_suffix(out, prompt_text(HOME@)));
        } else {
            let w = choose|w: Seq<char>| has_suffix(o3, #[trigger] prompt_text(w));
            lemma_suffix_extends(r2.output, o3, prompt_text(w));
            lemma_suffix_extends(r1.output, r2.output + o3, prompt_text(w));
        }
    }
}

proof fn lemma_split_after_space(a: Seq<char>, w: Seq<char>)
    requires
        w.len() == 1,
        is_ws(w[0]),
    ensures
        split_state(a + w) == (words(a), Seq::<char>::empty()),
{
    assert((a + w).drop_last() =~= a);
    assert((a + w).last() == w[0]);
}

proof fn lemma_split_append(p: Seq<char>, b: Seq<char>)
    requires
        split_state(p).1.len() == 0,
    ensures
        split_state(p + b) == (split_state(p).0 + split_state(b).0, split_state(b).1),
    decreases b.len(),
{
    let d = split_state(p).0;
    if b.len() == 0 {
        assert(p + b =~= p);
        assert(d + Seq::<Seq<char>>::empty() =~= d);
    } else {
        lemma_split_append(p, b.drop_last());
        assert((p + b).drop_last() =~= p + b.drop_last());
        assert((p + b).last() == b.last());
        let (d2, c2) = split_state(b.drop_last());
        if is_ws(b.last()) && c2.len() > 0 {
            assert((d + d2).push(c2) =~= d + d2.push(c2));
        }
    }
}

proof fn lemma_split_solid(s: Seq<char>)
    requires
        forall|i: int| 0 <= i < s.len() ==> !is_ws(#[trigger] s[i]),
    ensures
        split_state(s) == (Seq::<Seq<char>>::empty(), s),
    decreases s.len(),
{
    if s.len() > 0 {
        lemma_split_solid(s.drop_last());
        assert(s.drop_last().push(s.last()) =~= s);
    }
}

/// A string with no whitespace is one word (or none, if it is empty).
pub proof fn law_words_solid(s: Seq<char>)
    requires
        forall|i: int| 0 <= i < s.len() ==> !is_ws(#[trigger] s[i]),
    ensures
        words(s) == (if s.len() > 0 {
            seq![s]
        } else {
            Seq::<Seq<char>>::empty()
        }),
{
    lemma_split_solid(s);
    assert(Seq::<Seq<char>>::empty().push(s) =~= seq![s]);
}

/// A whitespace character separates words: the words of `a`, a whitespace
/// character, then `b` are the words of `a` followed by those of `b`.
pub proof fn law_words_split(a: Seq<char>, w: char, b: Seq<char>)
    requires
        is_ws(w),
    ensures
        words(a + seq![w] + b) == words(a) + words(b),
{
    lemma_split_after_space(a, seq![w]);
    lemma_split_append(a + seq![w], b);
    let (d, c) = split_state(b);
    if c.len() > 0 {
        assert((words(a) + d).push(c) =~= words(a) + d.push(c));
    }
}

/// The whitespace characters are exactly the code points of the Unicode
/// `White_Space` property: U+0009 to U+000D, U+0020, U+0085, U+00A0,
/// U+1680, U+2000 to U+200A, U+2028, U+2029, U+202F, U+205F and U+3000.
pub proof fn law_whitespace(c: char)
    ensures
        is_ws(c) <==> ({
            let n = c as int;
            ||| 9 <= n <= 13
            ||| n == 32
            ||| n == 133
            ||| n == 160
            ||| n == 5760
            ||| 8192 <= n <= 8202
            ||| n == 8232
            ||| n == 8233
            ||| n == 8239
            ||| n == 8287
            ||| n == 12288
        }),
{
}

} // verus!
