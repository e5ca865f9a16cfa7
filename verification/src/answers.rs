//! Laws that pin down, letter by letter, what the honeypot answers and
//! records: each is stated with the literal texts themselves, over all
//! inputs, so that it holds only of the behaviour described here.

use vstd::prelude::*;
use crate::log::{log_text, Entry};
use crate::replies::{
    AUTHORIZED_KEYS, BACKUP_SCRIPT, GROUP, HOSTNAME, HOSTS, ID, ID_RSA_DENIED, LONG_LISTING_HOME,
    LONG_LISTING_TMP, PASSWD, PS, SUDOERS_DENIED, UNAME, WHOAMI,
};
use crate::session::{next, Input, State};
use crate::shell::{effect, prompt_text, Flow};
use crate::directories::listing;
use crate::text::{decimal, has_infix, has_prefix, joined, occurs_at, trimmed, words};

verus! {

/// From the password prompt, a line opens the shell exactly when the login
/// is `admin` and the line, without the whitespace around it, is
/// `admin-techpro`. Any other pair is answered "Permission denied, please
/// try again.", recorded as a failed attempt with both texts, and the
/// connection closes.
pub proof fn law_password_check(login: Seq<char>, line: Seq<char>)
    ensures
        ({
            let (after, reply) = next(State::Password(login), Input::Line(line));
            let password = trimmed(line);
            if login == "admin"@ && password == "admin-techpro"@ {
                &&& after == State::Shell("~"@)
                &&& !reply.close
                &&& reply.log == Some(Entry::LoginSucceeded(login, password))
                &&& reply.output
                    == "\r\nWelcome to Ubuntu 20.04.6 LTS (GNU/Linux 5.4.0-42-generic x86_64)\r\n\r\nuser@ubuntu:~ $ "@
            } else {
                &&& after == State::Closed
                &&& reply.close
                &&& reply.log == Some(Entry::LoginFailed(login, password))
                &&& reply.output == "Permission denied, please try again.\r\n"@
            }
        }),
{
    reveal_strlit("\r\nWelcome to Ubuntu 20.04.6 LTS (GNU/Linux 5.4.0-42-generic x86_64)\r\n\r\n");
    reveal_strlit("user@ubuntu:");
    reveal_strlit("~");
    reveal_strlit(" $ ");
    reveal_strlit(
        "\r\nWelcome to Ubuntu 20.04.6 LTS (GNU/Linux 5.4.0-42-generic x86_64)\r\n\r\nuser@ubuntu:~ $ ",
    );
    let (after, reply) = next(State::Password(login), Input::Line(line));
    assert(reply.output =~= "\r\nWelcome to Ubuntu 20.04.6 LTS (GNU/Linux 5.4.0-42-generic x86_64)\r\n\r\nuser@ubuntu:~ $ "@
        || !(login == "admin"@ && trimmed(line) == "admin-techpro"@));
}

/// The shell prompt names the directory the shell stands in, whatever it is.
pub proof fn law_prompt(dir: Seq<char>)
    ensures
        prompt_text(dir) == "user@ubuntu:"@ + dir + " $ "@,
{
}

/// The log line of every record: the time stamp in decimal within brackets,
/// then the event with the texts recorded in full.
pub proof fn law_log_lines(e: Entry, ts: nat, ip: Seq<char>)
    ensures
        log_text(e, ts, ip) == (match e {
            Entry::Connected => "["@ + decimal(ts) + "] Connexion de l'ip "@ + ip,
            Entry::LoginFailed(login, password) => "["@ + decimal(ts)
                + "] Identifiants incorrects pour "@ + login + "/"@ + password + " de l'ip "@ + ip,
            Entry::LoginSucceeded(login, password) => "["@ + decimal(ts)
                + "] Identifiants corrects pour "@ + login + "/"@ + password + " de l'ip "@ + ip,
            Entry::Command(line) => "["@ + decimal(ts) + "] Commande de l'ip "@ + ip + " : "@ + line,
        }),
{
}

/// The log line of a command ends with the whole command line, however
/// long, right after the stamp, the address and the separator.
pub proof fn law_command_logged_whole(line: Seq<char>, ts: nat, ip: Seq<char>)
    ensures
        ({
            let head = "["@ + decimal(ts) + "] Commande de l'ip "@ + ip + " : "@;
            let text = log_text(Entry::Command(line), ts, ip);
            &&& text.len() == head.len() + line.len()
            &&& text.skip(head.len() as int) == line
            &&& text.take(head.len() as int) == head
        }),
{
    let head = "["@ + decimal(ts) + "] Commande de l'ip "@ + ip + " : "@;
    let text = log_text(Entry::Command(line), ts, ip);
    assert(text =~= head + line);
    assert(text.skip(head.len() as int) =~= line);
    assert(text.take(head.len() as int) =~= head);
}

/// `ls -al` and `ls -la` give the long listing of `/tmp` in `/tmp`, that of
/// the home directory in `~`, and "total 0" in every other directory; they
/// leave the shell where it is.
pub proof fn law_long_listing(dir: Seq<char>, cmd: Seq<char>)
    requires
        cmd == "ls -al"@ || cmd == "ls -la"@,
    ensures
        effect(dir, cmd).dir == dir,
        effect(dir, cmd).flow == Flow::Continue,
        effect(dir, cmd).output == (if dir == "/tmp"@ {
            LONG_LISTING_TMP@
        } else if dir == "~"@ {
            LONG_LISTING_HOME@
        } else {
            "total 0\r\n"@
        }),
{
    reveal_strlit("ls -al");
    reveal_strlit("ls -la");
    reveal_strlit("ls");
    assert(cmd.len() == 6);
    assert(cmd != "ls"@);
}

proof fn lemma_infix_rules_out(cmd: Seq<char>, n: Seq<char>)
    requires
        has_infix(cmd, n),
        n == "wget"@ || n == "curl"@ || n == "scp"@,
    ensures
        cmd != "ls"@,
        cmd != "ls -al"@,
        cmd != "ls -la"@,
        cmd != "hostname"@,
{
    reveal_strlit("wget");
    reveal_strlit("curl");
    reveal_strlit("scp");
    reveal_strlit("ls");
    reveal_strlit("ls -al");
    reveal_strlit("ls -la");
    reveal_strlit("hostname");
    if cmd == "ls"@ || cmd == "ls -al"@ || cmd == "ls -la"@ || cmd == "hostname"@ {
        assert forall|i: int| !occurs_at(cmd, n, i) by {
            if occurs_at(cmd, n, i) {
                let piece = cmd.subrange(i, i + n.len());
                assert(piece[0] == cmd[i] && piece[1] == cmd[i + 1] && piece[2] == cmd[i + 2]);
                assert(piece[0] == n[0] && piece[1] == n[1] && piece[2] == n[2]);
            }
        }
    }
}

/// A command line that mentions `wget` (and does not begin with `cd `)
/// announces the download of its second word, whatever words follow; a line
/// of a single word gets the usage text. The shell stays where it is.
pub proof fn law_wget(dir: Seq<char>, cmd: Seq<char>)
    requires
        has_infix(cmd, "wget"@),
        !has_prefix(cmd, "cd "@),
    ensures
        effect(dir, cmd).dir == dir,
        effect(dir, cmd).flow == Flow::Continue,
        effect(dir, cmd).output == (if words(cmd).len() >= 2 {
            "Download "@ + words(cmd)[1]
                + " done                                    100% 1337     1.2MB/s   00:00\r\n"@
        } else {
            "usage: wget [url]\r\n"@
        }),
{
    lemma_infix_rules_out(cmd, "wget"@);
}

/// A command line that mentions `curl` (and neither begins with `cd ` nor
/// mentions `wget`) shows the same finished transfer, and the shell stays
/// where it is.
pub proof fn law_curl(dir: Seq<char>, cmd: Seq<char>)
    requires
        has_infix(cmd, "curl"@),
        !has_prefix(cmd, "cd "@),
        !has_infix(cmd, "wget"@),
    ensures
        effect(dir, cmd).dir == dir,
        effect(dir, cmd).flow == Flow::Continue,
        effect(dir, cmd).output
            == "  % Total    % Received % Xferd  Average Speed   Time    Time     Time  Current\r\n                                 Dload  Upload   Total   Spent    Left  Speed\r\n100  1337  100  1337    0     0   2.1M      0 --:--:-- --:--:-- --:--:--  2.1M\r\n"@,
{
    lemma_infix_rules_out(cmd, "curl"@);
}

/// A command line that mentions `scp` (and neither begins with `cd ` nor
/// mentions `wget` or `curl`) reports the copy of its second word to its
/// third, as `target:file`, whatever words follow; with fewer than three
/// words it gets the usage text.
pub proof fn law_scp(dir: Seq<char>, cmd: Seq<char>)
    requires
        has_infix(cmd, "scp"@),
        !has_prefix(cmd, "cd "@),
        !has_infix(cmd, "wget"@),
        !has_infix(cmd, "curl"@),
    ensures
        effect(dir, cmd).dir == dir,
        effect(dir, cmd).flow == Flow::Continue,
        effect(dir, cmd).output == (if words(cmd).len() >= 3 {
            words(cmd)[2] + ":"@ + words(cmd)[1]
                + "                                    100% 1337     1.2MB/s   00:00\r\n"@
        } else {
            "usage: scp [source] [target]\r\n"@
        }),
{
    lemma_infix_rules_out(cmd, "scp"@);
}

proof fn lemma_ls_effect(dir: Seq<char>)
    ensures
        effect(dir, "ls"@) == crate::shell::say(dir, crate::shell::ls_reply(dir)),
{
}

proof fn lemma_single_joined(w: Seq<char>)
    ensures
        joined(seq![w], "  "@) == w,
{
}

/// `ls` in the home directory lists its folders; in `/tmp` it shows
/// `backup.sh`, in `/home` it shows `/user`, in `user` the same folders as
/// at home, and in the other known directories an empty line.
pub proof fn law_ls(dir: Seq<char>)
    ensures
        effect(dir, "ls"@).dir == dir,
        effect(dir, "ls"@).flow == Flow::Continue,
        dir == "~"@ || dir == "user"@ ==> effect(dir, "ls"@).output
            == "Desktop  Documents Downloads Music Pictures  Public Templates  Videos\r\n"@,
        dir == "/tmp"@ ==> effect(dir, "ls"@).output == "backup.sh\r\n"@,
        dir == "/home"@ ==> effect(dir, "ls"@).output == "/user\r\n"@,
        dir == "/Desktop"@ || dir == "/Downloads"@ || dir == "/Documents"@ || dir == "/var"@
            ==> effect(dir, "ls"@).output == "\r\n"@,
{
    lemma_ls_effect(dir);
    lemma_ls_user();
    lemma_ls_tmp();
    lemma_ls_home_dir();
    if dir == "/Desktop"@ || dir == "/Downloads"@ || dir == "/Documents"@ || dir == "/var"@ {
        lemma_ls_empty(dir);
    }
    assert(crate::shell::ls_reply("~"@)
        == "Desktop  Documents Downloads Music Pictures  Public Templates  Videos\r\n"@);
}

proof fn lemma_ls_user()
    ensures
        crate::shell::ls_reply("user"@)
            == "Desktop  Documents Downloads Music Pictures  Public Templates  Videos\r\n"@,
{
    reveal_strlit("~");
    reveal_strlit("user");
    reveal_strlit("/Desktop");
    reveal_strlit("/Downloads");
    reveal_strlit("/Documents");
    reveal_strlit("/var");
    reveal_strlit("/tmp");
    reveal_strlit("/home");
    reveal_strlit("\r\n");
    let w = "Desktop  Documents Downloads Music Pictures  Public Templates  Videos"@;
    reveal_strlit("Desktop  Documents Downloads Music Pictures  Public Templates  Videos");
    reveal_strlit("Desktop  Documents Downloads Music Pictures  Public Templates  Videos\r\n");
    assert("user"@.len() == 4 && "~"@.len() == 1 && "/Desktop"@.len() == 8);
    assert("/Downloads"@.len() == 10 && "/Documents"@.len() == 10 && "/home"@.len() == 5);
    assert("user"@[0] != "/var"@[0] && "user"@[0] != "/tmp"@[0]);
    assert("user"@ != "~"@);
    assert(listing("user"@) == Some(seq![w]));
    lemma_single_joined(w);
    assert(w + "\r\n"@ =~= "Desktop  Documents Downloads Music Pictures  Public Templates  Videos\r\n"@);
}

proof fn lemma_ls_tmp()
    ensures
        crate::shell::ls_reply("/tmp"@) == "backup.sh\r\n"@,
{
    reveal_strlit("~");
    reveal_strlit("/Desktop");
    reveal_strlit("/Downloads");
    reveal_strlit("/Documents");
    reveal_strlit("/var");
    reveal_strlit("/tmp");
    reveal_strlit("\r\n");
    reveal_strlit("backup.sh");
    reveal_strlit("backup.sh\r\n");
    assert("/tmp"@.len() == 4 && "~"@.len() == 1 && "/Desktop"@.len() == 8);
    assert("/Downloads"@.len() == 10 && "/Documents"@.len() == 10);
    assert("/tmp"@[1] != "/var"@[1]);
    assert("/tmp"@ != "~"@);
    assert(listing("/tmp"@) == Some(seq!["backup.sh"@]));
    lemma_single_joined("backup.sh"@);
    assert("backup.sh"@ + "\r\n"@ =~= "backup.sh\r\n"@);
}

proof fn lemma_ls_home_dir()
    ensures
        crate::shell::ls_reply("/home"@) == "/user\r\n"@,
{
    reveal_strlit("~");
    reveal_strlit("/Desktop");
    reveal_strlit("/Downloads");
    reveal_strlit("/Documents");
    reveal_strlit("/var");
    reveal_strlit("/tmp");
    reveal_strlit("/home");
    reveal_strlit("\r\n");
    reveal_strlit("/user");
    reveal_strlit("/user\r\n");
    assert("/home"@.len() == 5 && "~"@.len() == 1 && "/Desktop"@.len() == 8);
    assert("/Downloads"@.len() == 10 && "/Documents"@.len() == 10);
    assert("/var"@.len() == 4 && "/tmp"@.len() == 4);
    assert("/home"@ != "~"@);
    assert(listing("/home"@) == Some(seq!["/user"@]));
    lemma_single_joined("/user"@);
    assert("/user"@ + "\r\n"@ =~= "/user\r\n"@);
}

proof fn lemma_ls_empty(dir: Seq<char>)
    requires
        dir == "/Desktop"@ || dir == "/Downloads"@ || dir == "/Documents"@ || dir == "/var"@,
    ensures
        crate::shell::ls_reply(dir) == "\r\n"@,
{
    reveal_strlit("~");
    reveal_strlit("/Desktop");
    reveal_strlit("/Downloads");
    reveal_strlit("/Documents");
    reveal_strlit("/var");
    assert("~"@.len() == 1 && "/Desktop"@.len() == 8 && "/var"@.len() == 4);
    assert("/Downloads"@.len() == 10 && "/Documents"@.len() == 10);
    assert(dir != "~"@);
    assert(listing(dir) == Some(Seq::<Seq<char>>::empty()));
}

/// `pwd` names the directory the shell stands in: `/home/user` for the home
/// directory, the directory itself (with a line end) anywhere else.
pub proof fn law_pwd(dir: Seq<char>)
    ensures
        effect(dir, "pwd"@).dir == dir,
        effect(dir, "pwd"@).output == (if dir == "~"@ {
            "/home/user\r\n"@
        } else {
            dir + "\r\n"@
        }),
{
    crate::laws::lemma_pwd_is_plain(dir);
}

/// A password given to `sudo` is refused with "Sorry, try again." (or an
/// empty line if it cannot be read), followed by the prompt of the
/// directory the shell stands in; nothing is recorded and the shell stays.
pub proof fn law_sudo_answer(dir: Seq<char>, input: Input)
    ensures
        next(State::Sudo(dir), input).0 == State::Shell(dir),
        next(State::Sudo(dir), input).1.log is None,
        !next(State::Sudo(dir), input).1.close,
        next(State::Sudo(dir), input).1.output == (if input is ReadError {
            "\r\n"@
        } else {
            "Sorry, try again.\r\n"@
        }) + "user@ubuntu:"@ + dir + " $ "@,
{
}

proof fn lemma_answer_hostname(dir: Seq<char>)
    ensures
        effect(dir, "hostname"@) == crate::shell::say(dir, HOSTNAME@),
{
    reveal_strlit("cd ");
    reveal_strlit("hostname");
    reveal_strlit("ls");
    reveal_strlit("ls -al");
    reveal_strlit("ls -la");
    let c = "hostname"@;
    assert(c.len() == 8);
    assert("ls"@.len() == 2);
    assert("ls -al"@.len() == 6);
    assert("ls -la"@.len() == 6);
    assert(c.take(3)[0] == c[0] && c[0] != "cd "@[0]);
}

proof fn lemma_answer_id(dir: Seq<char>)
    ensures
        effect(dir, "id"@) == crate::shell::say(dir, ID@),
{
    reveal_strlit("cd ");
    reveal_strlit("curl");
    reveal_strlit("hostname");
    reveal_strlit("id");
    reveal_strlit("ls");
    reveal_strlit("ls -al");
    reveal_strlit("ls -la");
    reveal_strlit("pwd");
    reveal_strlit("scp");
    reveal_strlit("wget");
    let c = "id"@;
    assert(c.len() == 2);
    assert(c[0] != "ls"@[0]);
    assert("ls -al"@.len() == 6);
    assert("ls -la"@.len() == 6);
    assert("hostname"@.len() == 8);
    assert("pwd"@.len() == 3);
    assert forall|i: int| !occurs_at(c, "wget"@, i) by {
        if occurs_at(c, "wget"@, i) {
            let piece = c.subrange(i, i + 4);
            assert(piece[0] == c[i + 0] && piece[1] == c[i + 1] && piece[2] == c[i + 2] && piece[3] == c[i + 3]);
        }
    }
    assert forall|i: int| !occurs_at(c, "curl"@, i) by {
        if occurs_at(c, "curl"@, i) {
            let piece = c.subrange(i, i + 4);
            assert(piece[0] == c[i + 0] && piece[1] == c[i + 1] && piece[2] == c[i + 2] && piece[3] == c[i + 3]);
        }
    }
    assert forall|i: int| !occurs_at(c, "scp"@, i) by {
        if occurs_at(c, "scp"@, i) {
            let piece = c.subrange(i, i + 3);
            assert(piece[0] == c[i + 0] && piece[1] == c[i + 1] && piece[2] == c[i + 2]);
        }
    }
}

proof fn lemma_answer_whoami(dir: Seq<char>)
    ensures
        effect(dir, "whoami"@) == crate::shell::say(dir, WHOAMI@),
{
    reveal_strlit("cd ");
    reveal_strlit("curl");
    reveal_strlit("hostname");
    reveal_strlit("id");
    reveal_strlit("ls");
    reveal_strlit("ls -al");
    reveal_strlit("ls -la");
    reveal_strlit("pwd");
    reveal_strlit("scp");
    reveal_strlit("sudo");
    reveal_strlit("wget");
    reveal_strlit("whoami");
    let c = "whoami"@;
    assert(c.len() == 6);
    assert("ls"@.len() == 2);
    assert(c[0] != "ls -al"@[0]);
    assert(c[0] != "ls -la"@[0]);
    assert("hostname"@.len() == 8);
    assert("pwd"@.len() == 3);
    assert("id"@.len() == 2);
    assert(c.take(3)[0] == c[0] && c[0] != "cd "@[0]);
    assert(c.take(4)[0] == c[0] && c[0] != "sudo"@[0]);
    assert forall|i: int| !occurs_at(c, "wget"@, i) by {
        if occurs_at(c, "wget"@, i) {
            let piece = c.subrange(i, i + 4);
            assert(piece[0] == c[i + 0] && piece[1] == c[i + 1] && piece[2] == c[i + 2] && piece[3] == c[i + 3]);
        }
    }
    assert forall|i: int| !occurs_at(c, "curl"@, i) by {
        if occurs_at(c, "curl"@, i) {
            let piece = c.subrange(i, i + 4);
            assert(piece[0] == c[i + 0] && piece[1] == c[i + 1] && piece[2] == c[i + 2] && piece[3] == c[i + 3]);
        }
    }
    assert forall|i: int| !occurs_at(c, "scp"@, i) by {
        if occurs_at(c, "scp"@, i) {
            let piece = c.subrange(i, i + 3);
            assert(piece[0] == c[i + 0] && piece[1] == c[i + 1] && piece[2] == c[i + 2]);
        }
    }
}

proof fn lemma_answer_ps(dir: Seq<char>)
    ensures
        effect(dir, "ps"@) == crate::shell::say(dir, PS@),
{
    reveal_strlit("cd ");
    reveal_strlit("curl");
    reveal_strlit("hostname");
    reveal_strlit("id");
    reveal_strlit("ls");
    reveal_strlit("ls -al");
    reveal_strlit("ls -la");
    reveal_strlit("ps");
    reveal_strlit("pwd");
    reveal_strlit("scp");
    reveal_strlit("sudo");
    reveal_strlit("wget");
    reveal_strlit("whoami");
    let c = "ps"@;
    assert(c.len() == 2);
    assert(c[0] != "ls"@[0]);
    assert("ls -al"@.len() == 6);
    assert("ls -la"@.len() == 6);
    assert("hostname"@.len() == 8);
    assert("pwd"@.len() == 3);
    assert(c[0] != "id"@[0]);
    assert("whoami"@.len() == 6);
    assert forall|i: int| !occurs_at(c, "wget"@, i) by {
        if occurs_at(c, "wget"@, i) {
            let piece = c.subrange(i, i + 4);
            assert(piece[0] == c[i + 0] && piece[1] == c[i + 1] && piece[2] == c[i + 2] && piece[3] == c[i + 3]);
        }
    }
    assert forall|i: int| !occurs_at(c, "curl"@, i) by {
        if occurs_at(c, "curl"@, i) {
            let piece = c.subrange(i, i + 4);
            assert(piece[0] == c[i + 0] && piece[1] == c[i + 1] && piece[2] == c[i + 2] && piece[3] == c[i + 3]);
        }
    }
    assert forall|i: int| !occurs_at(c, "scp"@, i) by {
        if occurs_at(c, "scp"@, i) {
            let piece = c.subrange(i, i + 3);
            assert(piece[0] == c[i + 0] && piece[1] == c[i + 1] && piece[2] == c[i + 2]);
        }
    }
}

proof fn lemma_answer_passwd(dir: Seq<char>)
    ensures
        effect(dir, "cat /etc/passwd"@) == crate::shell::say(dir, PASSWD@),
{
    reveal_strlit("cat /etc/passwd");
    reveal_strlit("cd ");
    reveal_strlit("curl");
    reveal_strlit("hostname");
    reveal_strlit("id");
    reveal_strlit("ls");
    reveal_strlit("ls -al");
    reveal_strlit("ls -la");
    reveal_strlit("ps");
    reveal_strlit("pwd");
    reveal_strlit("scp");
    reveal_strlit("sudo");
    reveal_strlit("wget");
    reveal_strlit("whoami");
    let c = "cat /etc/passwd"@;
    assert(c.len() == 15);
    assert("ls"@.len() == 2);
    assert("ls -al"@.len() == 6);
    assert("ls -la"@.len() == 6);
    assert("hostname"@.len() == 8);
    assert("pwd"@.len() == 3);
    assert("id"@.len() == 2);
    assert("whoami"@.len() == 6);
    assert("ps"@.len() == 2);
    assert(c.take(3)[1] == c[1] && c[1] != "cd "@[1]);
    assert(c.take(4)[0] == c[0] && c[0] != "sudo"@[0]);
    assert forall|i: int| !occurs_at(c, "wget"@, i) by {
        if occurs_at(c, "wget"@, i) {
            let piece = c.subrange(i, i + 4);
            assert(piece[0] == c[i + 0] && piece[1] == c[i + 1] && piece[2] == c[i + 2] && piece[3] == c[i + 3]);
        }
    }
    assert forall|i: int| !occurs_at(c, "curl"@, i) by {
        if occurs_at(c, "curl"@, i) {
            let piece = c.subrange(i, i + 4);
            assert(piece[0] == c[i + 0] && piece[1] == c[i + 1] && piece[2] == c[i + 2] && piece[3] == c[i + 3]);
        }
    }
    assert forall|i: int| !occurs_at(c, "scp"@, i) by {
        if occurs_at(c, "scp"@, i) {
            let piece = c.subrange(i, i + 3);
            assert(piece[0] == c[i + 0] && piece[1] == c[i + 1] && piece[2] == c[i + 2]);
        }
    }
}

proof fn lemma_answer_group(dir: Seq<char>)
    ensures
        effect(dir, "cat /etc/group"@) == crate::shell::say(dir, GROUP@),
{
    reveal_strlit("cat /etc/group");
    reveal_strlit("cat /etc/passwd");
    reveal_strlit("cd ");
    reveal_strlit("curl");
    reveal_strlit("hostname");
    reveal_strlit("id");
    reveal_strlit("ls");
    reveal_strlit("ls -al");
    reveal_strlit("ls -la");
    reveal_strlit("ps");
    reveal_strlit("pwd");
    reveal_strlit("scp");
    reveal_strlit("sudo");
    reveal_strlit("wget");
    reveal_strlit("whoami");
    let c = "cat /etc/group"@;
    assert(c.len() == 14);
    assert("ls"@.len() == 2);
    assert("ls -al"@.len() == 6);
    assert("ls -la"@.len() == 6);
    assert("hostname"@.len() == 8);
    assert("pwd"@.len() == 3);
    assert("id"@.len() == 2);
    assert("whoami"@.len() == 6);
    assert("ps"@.len() == 2);
    assert("cat /etc/passwd"@.len() == 15);
    assert(c.take(3)[1] == c[1] && c[1] != "cd "@[1]);
    assert(c.take(4)[0] == c[0] && c[0] != "sudo"@[0]);
    assert forall|i: int| !occurs_at(c, "wget"@, i) by {
        if occurs_at(c, "wget"@, i) {
            let piece = c.subrange(i, i + 4);
            assert(piece[0] == c[i + 0] && piece[1] == c[i + 1] && piece[2] == c[i + 2] && piece[3] == c[i + 3]);
        }
    }
    assert forall|i: int| !occurs_at(c, "curl"@, i) by {
        if occurs_at(c, "curl"@, i) {
            let piece = c.subrange(i, i + 4);
            assert(piece[0] == c[i + 0] && piece[1] == c[i + 1] && piece[2] == c[i + 2] && piece[3] == c[i + 3]);
        }
    }
    assert forall|i: int| !occurs_at(c, "scp"@, i) by {
        if occurs_at(c, "scp"@, i) {
            let piece = c.subrange(i, i + 3);
            assert(piece[0] == c[i + 0] && piece[1] == c[i + 1] && piece[2] == c[i + 2]);
        }
    }
}

proof fn lemma_answer_authorized_keys(dir: Seq<char>)
    ensures
        effect(dir, "cat ~/.ssh/authorized_keys"@) == crate::shell::say(dir, AUTHORIZED_KEYS@),
{
    reveal_strlit("cat /etc/group");
    reveal_strlit("cat /etc/passwd");
    reveal_strlit("cat ~/.ssh/authorized_keys");
    reveal_strlit("cd ");
    reveal_strlit("curl");
    reveal_strlit("hostname");
    reveal_strlit("id");
    reveal_strlit("ls");
    reveal_strlit("ls -al");
    reveal_strlit("ls -la");
    reveal_strlit("ps");
    reveal_strlit("pwd");
    reveal_strlit("scp");
    reveal_strlit("sudo");
    reveal_strlit("wget");
    reveal_strlit("whoami");
    let c = "cat ~/.ssh/authorized_keys"@;
    assert(c.len() == 26);
    assert("ls"@.len() == 2);
    assert("ls -al"@.len() == 6);
    assert("ls -la"@.len() == 6);
    assert("hostname"@.len() == 8);
    assert("pwd"@.len() == 3);
    assert("id"@.len() == 2);
    assert("whoami"@.len() == 6);
    assert("ps"@.len() == 2);
    assert("cat /etc/passwd"@.len() == 15);
    assert("cat /etc/group"@.len() == 14);
    assert(c.take(3)[1] == c[1] && c[1] != "cd "@[1]);
    assert(c.take(4)[0] == c[0] && c[0] != "sudo"@[0]);
    assert forall|i: int| !occurs_at(c, "wget"@, i) by {
        if occurs_at(c, "wget"@, i) {
            let piece = c.subrange(i, i + 4);
            assert(piece[0] == c[i + 0] && piece[1] == c[i + 1] && piece[2] == c[i + 2] && piece[3] == c[i + 3]);
        }
    }
    assert forall|i: int| !occurs_at(c, "curl"@, i) by {
        if occurs_at(c, "curl"@, i) {
            let piece = c.subrange(i, i + 4);
            assert(piece[0] == c[i + 0] && piece[1] == c[i + 1] && piece[2] == c[i + 2] && piece[3] == c[i + 3]);
        }
    }
    assert forall|i: int| !occurs_at(c, "scp"@, i) by {
        if occurs_at(c, "scp"@, i) {
            let piece = c.subrange(i, i + 3);
            assert(piece[0] == c[i + 0] && piece[1] == c[i + 1] && piece[2] == c[i + 2]);
        }
    }
}

proof fn lemma_answer_id_rsa_denied(dir: Seq<char>)
    ensures
        effect(dir, "cat ~/.ssh/id_rsa"@) == crate::shell::say(dir, ID_RSA_DENIED@),
{
    reveal_strlit("cat /etc/group");
    reveal_strlit("cat /etc/passwd");
    reveal_strlit("cat ~/.ssh/authorized_keys");
    reveal_strlit("cat ~/.ssh/id_rsa");
    reveal_strlit("cd ");
    reveal_strlit("curl");
    reveal_strlit("hostname");
    reveal_strlit("id");
    reveal_strlit("ls");
    reveal_strlit("ls -al");
    reveal_strlit("ls -la");
    reveal_strlit("ps");
    reveal_strlit("pwd");
    reveal_strlit("scp");
    reveal_strlit("sudo");
    reveal_strlit("wget");
    reveal_strlit("whoami");
    let c = "cat ~/.ssh/id_rsa"@;
    assert(c.len() == 17);
    assert("ls"@.len() == 2);
    assert("ls -al"@.len() == 6);
    assert("ls -la"@.len() == 6);
    assert("hostname"@.len() == 8);
    assert("pwd"@.len() == 3);
    assert("id"@.len() == 2);
    assert("whoami"@.len() == 6);
    assert("ps"@.len() == 2);
    assert("cat /etc/passwd"@.len() == 15);
    assert("cat /etc/group"@.len() == 14);
    assert("cat ~/.ssh/authorized_keys"@.len() == 26);
    assert(c.take(3)[1] == c[1] && c[1] != "cd "@[1]);
    assert(c.take(4)[0] == c[0] && c[0] != "sudo"@[0]);
    assert forall|i: int| !occurs_at(c, "wget"@, i) by {
        if occurs_at(c, "wget"@, i) {
            let piece = c.subrange(i, i + 4);
            assert(piece[0] == c[i + 0] && piece[1] == c[i + 1] && piece[2] == c[i + 2] && piece[3] == c[i + 3]);
        }
    }
    assert forall|i: int| !occurs_at(c, "curl"@, i) by {
        if occurs_at(c, "curl"@, i) {
            let piece = c.subrange(i, i + 4);
            assert(piece[0] == c[i + 0] && piece[1] == c[i + 1] && piece[2] == c[i + 2] && piece[3] == c[i + 3]);
        }
    }
    assert forall|i: int| !occurs_at(c, "scp"@, i) by {
        if occurs_at(c, "scp"@, i) {
            let piece = c.subrange(i, i + 3);
            assert(piece[0] == c[i + 0] && piece[1] == c[i + 1] && piece[2] == c[i + 2]);
        }
    }
}

proof fn lemma_answer_hosts(dir: Seq<char>)
    ensures
        effect(dir, "cat /etc/hosts"@) == crate::shell::say(dir, HOSTS@),
{
    reveal_strlit("cat /etc/group");
    reveal_strlit("cat /etc/hosts");
    reveal_strlit("cat /etc/passwd");
    reveal_strlit("cat ~/.ssh/authorized_keys");
    reveal_strlit("cat ~/.ssh/id_rsa");
    reveal_strlit("cd ");
    reveal_strlit("curl");
    reveal_strlit("hostname");
    reveal_strlit("id");
    reveal_strlit("ls");
    reveal_strlit("ls -al");
    reveal_strlit("ls -la");
    reveal_strlit("ps");
    reveal_strlit("pwd");
    reveal_strlit("scp");
    reveal_strlit("sudo");
    reveal_strlit("wget");
    reveal_strlit("whoami");
    let c = "cat /etc/hosts"@;
    assert(c.len() == 14);
    assert("ls"@.len() == 2);
    assert("ls -al"@.len() == 6);
    assert("ls -la"@.len() == 6);
    assert("hostname"@.len() == 8);
    assert("pwd"@.len() == 3);
    assert("id"@.len() == 2);
    assert("whoami"@.len() == 6);
    assert("ps"@.len() == 2);
    assert("cat /etc/passwd"@.len() == 15);
    assert(c[9] != "cat /etc/group"@[9]);
    assert("cat ~/.ssh/authorized_keys"@.len() == 26);
    assert("cat ~/.ssh/id_rsa"@.len() == 17);
    assert(c.take(3)[1] == c[1] && c[1] != "cd "@[1]);
    assert(c.take(4)[0] == c[0] && c[0] != "sudo"@[0]);
    assert forall|i: int| !occurs_at(c, "wget"@, i) by {
        if occurs_at(c, "wget"@, i) {
            let piece = c.subrange(i, i + 4);
            assert(piece[0] == c[i + 0] && piece[1] == c[i + 1] && piece[2] == c[i + 2] && piece[3] == c[i + 3]);
        }
    }
    assert forall|i: int| !occurs_at(c, "curl"@, i) by {
        if occurs_at(c, "curl"@, i) {
            let piece = c.subrange(i, i + 4);
            assert(piece[0] == c[i + 0] && piece[1] == c[i + 1] && piece[2] == c[i + 2] && piece[3] == c[i + 3]);
        }
    }
    assert forall|i: int| !occurs_at(c, "scp"@, i) by {
        if occurs_at(c, "scp"@, i) {
            let piece = c.subrange(i, i + 3);
            assert(piece[0] == c[i + 0] && piece[1] == c[i + 1] && piece[2] == c[i + 2]);
        }
    }
}

proof fn lemma_answer_sudoers_denied(dir: Seq<char>)
    ensures
        effect(dir, "cat /etc/sudoers"@) == crate::shell::say(dir, SUDOERS_DENIED@),
{
    reveal_strlit("cat /etc/group");
    reveal_strlit("cat /etc/hosts");
    reveal_strlit("cat /etc/passwd");
    reveal_strlit("cat /etc/sudoers");
    reveal_strlit("cat ~/.ssh/authorized_keys");
    reveal_strlit("cat ~/.ssh/id_rsa");
    reveal_strlit("cd ");
    reveal_strlit("curl");
    reveal_strlit("hostname");
    reveal_strlit("id");
    reveal_strlit("ls");
    reveal_strlit("ls -al");
    reveal_strlit("ls -la");
    reveal_strlit("ps");
    reveal_strlit("pwd");
    reveal_strlit("scp");
    reveal_strlit("sudo");
    reveal_strlit("wget");
    reveal_strlit("whoami");
    let c = "cat /etc/sudoers"@;
    assert(c.len() == 16);
    assert("ls"@.len() == 2);
    assert("ls -al"@.len() == 6);
    assert("ls -la"@.len() == 6);
    assert("hostname"@.len() == 8);
    assert("pwd"@.len() == 3);
    assert("id"@.len() == 2);
    assert("whoami"@.len() == 6);
    assert("ps"@.len() == 2);
    assert("cat /etc/passwd"@.len() == 15);
    assert("cat /etc/group"@.len() == 14);
    assert("cat ~/.ssh/authorized_keys"@.len() == 26);
    assert("cat ~/.ssh/id_rsa"@.len() == 17);
    assert("cat /etc/hosts"@.len() == 14);
    assert(c.take(3)[1] == c[1] && c[1] != "cd "@[1]);
    assert(c.take(4)[0] == c[0] && c[0] != "sudo"@[0]);
    assert forall|i: int| !occurs_at(c, "wget"@, i) by {
        if occurs_at(c, "wget"@, i) {
            let piece = c.subrange(i, i + 4);
            assert(piece[0] == c[i + 0] && piece[1] == c[i + 1] && piece[2] == c[i + 2] && piece[3] == c[i + 3]);
        }
    }
    assert forall|i: int| !occurs_at(c, "curl"@, i) by {
        if occurs_at(c, "curl"@, i) {
            let piece = c.subrange(i, i + 4);
            assert(piece[0] == c[i + 0] && piece[1] == c[i + 1] && piece[2] == c[i + 2] && piece[3] == c[i + 3]);
        }
    }
    assert forall|i: int| !occurs_at(c, "scp"@, i) by {
        if occurs_at(c, "scp"@, i) {
            let piece = c.subrange(i, i + 3);
            assert(piece[0] == c[i + 0] && piece[1] == c[i + 1] && piece[2] == c[i + 2]);
        }
    }
}

proof fn lemma_answer_uname(dir: Seq<char>)
    ensures
        effect(dir, "uname -a"@) == crate::shell::say(dir, UNAME@),
{
    reveal_strlit("cat /etc/group");
    reveal_strlit("cat /etc/hosts");
    reveal_strlit("cat /etc/passwd");
    reveal_strlit("cat /etc/sudoers");
    reveal_strlit("cat ~/.ssh/authorized_keys");
    reveal_strlit("cat ~/.ssh/id_rsa");
    reveal_strlit("cd ");
    reveal_strlit("curl");
    reveal_strlit("hostname");
    reveal_strlit("id");
    reveal_strlit("ls");
    reveal_strlit("ls -al");
    reveal_strlit("ls -la");
    reveal_strlit("ps");
    reveal_strlit("pwd");
    reveal_strlit("scp");
    reveal_strlit("sudo");
    reveal_strlit("uname -a");
    reveal_strlit("wget");
    reveal_strlit("whoami");
    let c = "uname -a"@;
    assert(c.len() == 8);
    assert("ls"@.len() == 2);
    assert("ls -al"@.len() == 6);
    assert("ls -la"@.len() == 6);
    assert(c[0] != "hostname"@[0]);
    assert("pwd"@.len() == 3);
    assert("id"@.len() == 2);
    assert("whoami"@.len() == 6);
    assert("ps"@.len() == 2);
    assert("cat /etc/passwd"@.len() == 15);
    assert("cat /etc/group"@.len() == 14);
    assert("cat ~/.ssh/authorized_keys"@.len() == 26);
    assert("cat ~/.ssh/id_rsa"@.len() == 17);
    assert("cat /etc/hosts"@.len() == 14);
    assert("cat /etc/sudoers"@.len() == 16);
    assert(c.take(3)[0] == c[0] && c[0] != "cd "@[0]);
    assert(c.take(4)[0] == c[0] && c[0] != "sudo"@[0]);
    assert forall|i: int| !occurs_at(c, "wget"@, i) by {
        if occurs_at(c, "wget"@, i) {
            let piece = c.subrange(i, i + 4);
            assert(piece[0] == c[i + 0] && piece[1] == c[i + 1] && piece[2] == c[i + 2] && piece[3] == c[i + 3]);
        }
    }
    assert forall|i: int| !occurs_at(c, "curl"@, i) by {
        if occurs_at(c, "curl"@, i) {
            let piece = c.subrange(i, i + 4);
            assert(piece[0] == c[i + 0] && piece[1] == c[i + 1] && piece[2] == c[i + 2] && piece[3] == c[i + 3]);
        }
    }
    assert forall|i: int| !occurs_at(c, "scp"@, i) by {
        if occurs_at(c, "scp"@, i) {
            let piece = c.subrange(i, i + 3);
            assert(piece[0] == c[i + 0] && piece[1] == c[i + 1] && piece[2] == c[i + 2]);
        }
    }
}

proof fn lemma_answer_backup_script(dir: Seq<char>)
    ensures
        effect(dir, "cat /tmp/backup.sh"@) == crate::shell::say(dir, BACKUP_SCRIPT@),
{
    reveal_strlit("cat /etc/group");
    reveal_strlit("cat /etc/hosts");
    reveal_strlit("cat /etc/passwd");
    reveal_strlit("cat /etc/sudoers");
    reveal_strlit("cat /tmp/backup.sh");
    reveal_strlit("cat ~/.ssh/authorized_keys");
    reveal_strlit("cat ~/.ssh/id_rsa");
    reveal_strlit("cd ");
    reveal_strlit("curl");
    reveal_strlit("hostname");
    reveal_strlit("id");
    reveal_strlit("ls");
    reveal_strlit("ls -al");
    reveal_strlit("ls -la");
    reveal_strlit("ps");
    reveal_strlit("pwd");
    reveal_strlit("scp");
    reveal_strlit("sudo");
    reveal_strlit("uname -a");
    reveal_strlit("wget");
    reveal_strlit("whoami");
    let c = "cat /tmp/backup.sh"@;
    assert(c.len() == 18);
    assert("ls"@.len() == 2);
    assert("ls -al"@.len() == 6);
    assert("ls -la"@.len() == 6);
    assert("hostname"@.len() == 8);
    assert("pwd"@.len() == 3);
    assert("id"@.len() == 2);
    assert("whoami"@.len() == 6);
    assert("ps"@.len() == 2);
    assert("cat /etc/passwd"@.len() == 15);
    assert("cat /etc/group"@.len() == 14);
    assert("cat ~/.ssh/authorized_keys"@.len() == 26);
    assert("cat ~/.ssh/id_rsa"@.len() == 17);
    assert("cat /etc/hosts"@.len() == 14);
    assert("cat /etc/sudoers"@.len() == 16);
    assert("uname -a"@.len() == 8);
    assert(c.take(3)[1] == c[1] && c[1] != "cd "@[1]);
    assert(c.take(4)[0] == c[0] && c[0] != "sudo"@[0]);
    assert forall|i: int| !occurs_at(c, "wget"@, i) by {
        if occurs_at(c, "wget"@, i) {
            let piece = c.subrange(i, i + 4);
            assert(piece[0] == c[i + 0] && piece[1] == c[i + 1] && piece[2] == c[i + 2] && piece[3] == c[i + 3]);
        }
    }
    assert forall|i: int| !occurs_at(c, "curl"@, i) by {
        if occurs_at(c, "curl"@, i) {
            let piece = c.subrange(i, i + 4);
            assert(piece[0] == c[i + 0] && piece[1] == c[i + 1] && piece[2] == c[i + 2] && piece[3] == c[i + 3]);
        }
    }
    assert forall|i: int| !occurs_at(c, "scp"@, i) by {
        if occurs_at(c, "scp"@, i) {
            let piece = c.subrange(i, i + 3);
            assert(piece[0] == c[i + 0] && piece[1] == c[i + 1] && piece[2] == c[i + 2]);
        }
    }
}

/// The commands with a fixed answer get exactly that answer, wherever the
/// shell stands, and leave it there.
pub proof fn law_fixed_answers(dir: Seq<char>)
    ensures
        effect(dir, "hostname"@).dir == dir && effect(dir, "hostname"@).flow == Flow::Continue && effect(dir, "hostname"@).output == "ubuntu\r\n"@,
        effect(dir, "id"@).dir == dir && effect(dir, "id"@).flow == Flow::Continue && effect(dir, "id"@).output == "uid=1000(user) gid=1000(user) groups=1000(user)\r\n"@,
        effect(dir, "whoami"@).dir == dir && effect(dir, "whoami"@).flow == Flow::Continue && effect(dir, "whoami"@).output == "user\r\n"@,
        effect(dir, "ps"@).dir == dir && effect(dir, "ps"@).flow == Flow::Continue && effect(dir, "ps"@).output == PS@,
        effect(dir, "cat /etc/passwd"@).dir == dir && effect(dir, "cat /etc/passwd"@).flow == Flow::Continue && effect(dir, "cat /etc/passwd"@).output == PASSWD@,
        effect(dir, "cat /etc/group"@).dir == dir && effect(dir, "cat /etc/group"@).flow == Flow::Continue && effect(dir, "cat /etc/group"@).output == GROUP@,
        effect(dir, "cat ~/.ssh/authorized_keys"@).dir == dir && effect(dir, "cat ~/.ssh/authorized_keys"@).flow == Flow::Continue && effect(dir, "cat ~/.ssh/authorized_keys"@).output == AUTHORIZED_KEYS@,
        effect(dir, "cat ~/.ssh/id_rsa"@).dir == dir && effect(dir, "cat ~/.ssh/id_rsa"@).flow == Flow::Continue && effect(dir, "cat ~/.ssh/id_rsa"@).output == "cat: /home/user/.ssh/id_rsa: Permission denied\r\n"@,
        effect(dir, "cat /etc/hosts"@).dir == dir && effect(dir, "cat /etc/hosts"@).flow == Flow::Continue && effect(dir, "cat /etc/hosts"@).output == "127.0.0.1\tlocalhost\r\n127.0.1.1\tubuntu\r\n"@,
        effect(dir, "cat /etc/sudoers"@).dir == dir && effect(dir, "cat /etc/sudoers"@).flow == Flow::Continue && effect(dir, "cat /etc/sudoers"@).output == "cat: /etc/sudoers: Permission denied\r\n"@,
        effect(dir, "uname -a"@).dir == dir && effect(dir, "uname -a"@).flow == Flow::Continue && effect(dir, "uname -a"@).output == UNAME@,
        effect(dir, "cat /tmp/backup.sh"@).dir == dir && effect(dir, "cat /tmp/backup.sh"@).flow == Flow::Continue && effect(dir, "cat /tmp/backup.sh"@).output == BACKUP_SCRIPT@,
{
    lemma_answer_hostname(dir);
    lemma_answer_id(dir);
    lemma_answer_whoami(dir);
    lemma_answer_ps(dir);
    lemma_answer_passwd(dir);
    lemma_answer_group(dir);
    lemma_answer_authorized_keys(dir);
    lemma_answer_id_rsa_denied(dir);
    lemma_answer_hosts(dir);
    lemma_answer_sudoers_denied(dir);
    lemma_answer_uname(dir);
    lemma_answer_backup_script(dir);
    reveal_strlit("cat /tmp/backup.sh");
    reveal_strlit("/tmp");
}

/// A new session asks for the login and records the connection.
pub proof fn law_opening()
    ensures
        crate::session::opening().output == "login as: "@,
        crate::session::opening().log == Some(Entry::Connected),
        !crate::session::opening().close,
{
}

/// The login line, without the whitespace around it, is taken as the login
/// and echoed in the password prompt; nothing is recorded yet.
pub proof fn law_login_line(line: Seq<char>)
    ensures
        next(State::Login, Input::Line(line)).0 == State::Password(trimmed(line)),
        next(State::Login, Input::Line(line)).1.output == trimmed(line) + "@ubuntu's password: "@,
        next(State::Login, Input::Line(line)).1.log is None,
        !next(State::Login, Input::Line(line)).1.close,
{
}

/// `cd` followed by a word: into `~` or a directory it knows, the shell
/// moves there silently; into any other name it stays and answers that
/// there is no such file or directory.
pub proof fn law_cd(dir: Seq<char>, cmd: Seq<char>)
    requires
        has_prefix(cmd, "cd "@),
        words(cmd).len() >= 2,
    ensures
        ({
            let target = words(cmd)[1];
            let e = effect(dir, cmd);
            &&& e.flow == Flow::Continue
            &&& if target == "~"@ || listing(target) is Some {
                e.dir == target && e.output.len() == 0
            } else {
                e.dir == dir && e.output == "bash: cd: "@ + target
                    + ": No such file or directory\r\n"@
            }
        }),
{
    crate::laws::lemma_cd_is_cd(dir, cmd);
}

/// A command line that begins with `sudo` (and neither begins with `cd ` nor
/// mentions `wget`, `curl` or `scp`) asks for a password and waits for it.
pub proof fn law_sudo_asks(dir: Seq<char>, cmd: Seq<char>)
    requires
        has_prefix(cmd, "sudo"@),
        !has_prefix(cmd, "cd "@),
        !has_infix(cmd, "wget"@),
        !has_infix(cmd, "curl"@),
        !has_infix(cmd, "scp"@),
    ensures
        effect(dir, cmd).dir == dir,
        effect(dir, cmd).flow == Flow::AskPassword,
        effect(dir, cmd).output == "[sudo] password for user: "@,
{
    reveal_strlit("sudo");
    reveal_strlit("ls");
    reveal_strlit("ls -al");
    reveal_strlit("ls -la");
    reveal_strlit("hostname");
    reveal_strlit("pwd");
    reveal_strlit("id");
    assert(cmd.take(4)[0] == cmd[0] && cmd.take(4)[1] == cmd[1]);
    assert(cmd.len() >= 4);
}

/// `exit` or `logout` in the shell answers `logout`, records the command,
/// and closes the connection.
pub proof fn law_exit(dir: Seq<char>, line: Seq<char>)
    requires
        trimmed(line) == "exit"@ || trimmed(line) == "logout"@,
    ensures
        next(State::Shell(dir), Input::Line(line)).0 == State::Closed,
        next(State::Shell(dir), Input::Line(line)).1.output == "logout\r\n"@,
        next(State::Shell(dir), Input::Line(line)).1.log == Some(Entry::Command(trimmed(line))),
        next(State::Shell(dir), Input::Line(line)).1.close,
{
    crate::laws::law_exit_closes(dir, line);
}

/// A command line that is none of the commands the shell knows is echoed
/// back with "command not found", and the shell stays where it is.
pub proof fn law_unknown_command(dir: Seq<char>, cmd: Seq<char>)
    requires
        cmd.len() > 0,
        !has_prefix(cmd, "cd "@),
        !has_prefix(cmd, "sudo"@),
        !has_infix(cmd, "wget"@),
        !has_infix(cmd, "curl"@),
        !has_infix(cmd, "scp"@),
        cmd != "ls"@ && cmd != "ls -al"@ && cmd != "ls -la"@ && cmd != "hostname"@,
        cmd != "pwd"@ && cmd != "id"@ && cmd != "whoami"@ && cmd != "ps"@,
        cmd != "cat /etc/passwd"@ && cmd != "cat /etc/group"@,
        cmd != "cat ~/.ssh/authorized_keys"@ && cmd != "cat ~/.ssh/id_rsa"@,
        cmd != "cat /etc/hosts"@ && cmd != "cat /etc/sudoers"@ && cmd != "uname -a"@,
        cmd != "cat /tmp/backup.sh"@ && !(dir == "/tmp"@ && cmd == "cat backup.sh"@),
        cmd != "exit"@ && cmd != "logout"@,
    ensures
        effect(dir, cmd).dir == dir,
        effect(dir, cmd).flow == Flow::Continue,
        effect(dir, cmd).output == cmd + ": command not found\r\n"@,
{
}

} // verus!
