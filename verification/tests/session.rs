use lib::log::{log_line, LogRecord};
use lib::session::{Event, Response, Session};

fn chars(s: &str) -> Vec<char> {
    s.chars().collect()
}

fn string(v: &[char]) -> String {
    v.iter().collect()
}

fn line(s: &str) -> Event {
    Event::Line(s.to_string())
}

fn out(r: &Response) -> String {
    string(&r.output)
}

const WELCOME: &str = "\r\nWelcome to Ubuntu 20.04.6 LTS (GNU/Linux 5.4.0-42-generic x86_64)\r\n\r\n";

fn logged_in() -> Session {
    let (mut s, _) = Session::start();
    s.step(&line("admin\r\n"));
    let r = s.step(&line("admin-techpro\r\n"));
    assert!(!r.close);
    s
}

#[test]
fn start_asks_for_the_login() {
    let (s, r) = Session::start();
    assert_eq!(out(&r), "login as: ");
    assert!(matches!(r.log, Some(LogRecord::Connected)));
    assert!(!r.close);
    assert!(!s.is_closed());
}

#[test]
fn login_then_password_prompt() {
    let (mut s, _) = Session::start();
    let r = s.step(&line("  root \r\n"));
    assert_eq!(out(&r), "root@ubuntu's password: ");
    assert!(r.log.is_none());
    assert!(!r.close);
}

#[test]
fn right_credentials_open_the_shell() {
    let (mut s, _) = Session::start();
    s.step(&line("admin\n"));
    let r = s.step(&line(" admin-techpro \n"));
    assert_eq!(out(&r), format!("{}user@ubuntu:~ $ ", WELCOME));
    match &r.log {
        Some(LogRecord::LoginSucceeded { login, password }) => {
            assert_eq!(string(login), "admin");
            assert_eq!(string(password), "admin-techpro");
        },
        _ => panic!("login not recorded"),
    }
    assert!(!r.close);
    assert!(!s.is_closed());
}

#[test]
fn wrong_credentials_close_the_connection() {
    for (l, p) in [("admin", "admin"), ("root", "admin-techpro"), ("Admin", "admin-techpro"), ("", "")] {
        let (mut s, _) = Session::start();
        s.step(&line(l));
        let r = s.step(&line(p));
        assert_eq!(out(&r), "Permission denied, please try again.\r\n");
        assert!(r.close);
        assert!(s.is_closed());
        match &r.log {
            Some(LogRecord::LoginFailed { login, password }) => {
                assert_eq!(string(login), l);
                assert_eq!(string(password), p);
            },
            _ => panic!("failed login not recorded"),
        }
    }
}

#[test]
fn end_of_input_at_login_counts_as_empty() {
    let (mut s, _) = Session::start();
    let r = s.step(&Event::Eof);
    assert_eq!(out(&r), "@ubuntu's password: ");
    let r = s.step(&Event::Eof);
    assert_eq!(out(&r), "Permission denied, please try again.\r\n");
    assert!(r.close);
}

#[test]
fn read_error_at_login_hangs_up() {
    let (mut s, _) = Session::start();
    let r = s.step(&Event::ReadError);
    assert!(r.close);
    assert_eq!(out(&r), "");
    assert!(s.is_closed());
}

#[test]
fn commands_answer_then_prompt_and_are_logged() {
    let mut s = logged_in();
    let r = s.step(&line("cd /tmp\r\n"));
    assert_eq!(out(&r), "user@ubuntu:/tmp $ ");
    match &r.log {
        Some(LogRecord::Command { line }) => assert_eq!(string(line), "cd /tmp"),
        _ => panic!("command not recorded"),
    }
    let r = s.step(&line("pwd\n"));
    assert_eq!(out(&r), "/tmp\r\nuser@ubuntu:/tmp $ ");
    let r = s.step(&line("ls\n"));
    assert_eq!(out(&r), "backup.sh\r\nuser@ubuntu:/tmp $ ");
    let r = s.step(&line("   \n"));
    assert_eq!(out(&r), "user@ubuntu:/tmp $ ");
    assert!(r.log.is_none());
}

#[test]
fn sudo_asks_then_refuses() {
    let mut s = logged_in();
    let r = s.step(&line("sudo cat /etc/shadow\n"));
    assert_eq!(out(&r), "[sudo] password for user: ");
    assert!(!r.close);
    let r = s.step(&line("hunter2\n"));
    assert_eq!(out(&r), "Sorry, try again.\r\nuser@ubuntu:~ $ ");
    assert!(r.log.is_none());
    let r = s.step(&line("sudo ls\n"));
    assert_eq!(out(&r), "[sudo] password for user: ");
    let r = s.step(&Event::ReadError);
    assert_eq!(out(&r), "\r\nuser@ubuntu:~ $ ");
    assert!(!s.is_closed());
}

#[test]
fn exit_closes() {
    let mut s = logged_in();
    let r = s.step(&line(" logout \n"));
    assert_eq!(out(&r), "logout\r\n");
    assert!(r.close);
    assert!(s.is_closed());
}

#[test]
fn end_of_input_in_the_shell_closes() {
    let mut s = logged_in();
    let r = s.step(&Event::Eof);
    assert!(r.close);
    assert_eq!(out(&r), "");
    assert!(s.is_closed());
}

#[test]
fn closed_stays_closed() {
    let mut s = logged_in();
    s.step(&line("exit\n"));
    for e in [line("ls\n"), Event::Eof, Event::ReadError] {
        let r = s.step(&e);
        assert!(r.close);
        assert_eq!(out(&r), "");
        assert!(r.log.is_none());
        assert!(s.is_closed());
    }
}

#[test]
fn unknown_command_echoes() {
    let mut s = logged_in();
    let r = s.step(&line("nmap -sS 10.0.0.0/8\n"));
    assert_eq!(out(&r), "nmap -sS 10.0.0.0/8: command not found\r\nuser@ubuntu:~ $ ");
}

#[test]
fn log_lines() {
    let failed = LogRecord::LoginFailed { login: chars("root"), password: chars("toor") };
    assert_eq!(
        string(&log_line(&failed, 1700000000, "10.0.0.5:51515")),
        "[1700000000] Identifiants incorrects pour root/toor de l'ip 10.0.0.5:51515"
    );
    let ok = LogRecord::LoginSucceeded { login: chars("admin"), password: chars("admin-techpro") };
    assert_eq!(
        string(&log_line(&ok, 5, "1.2.3.4:22")),
        "[5] Identifiants corrects pour admin/admin-techpro de l'ip 1.2.3.4:22"
    );
    assert_eq!(string(&log_line(&LogRecord::Connected, 0, "::1")), "[0] Connexion de l'ip ::1");
    let cmd = LogRecord::Command { line: chars("wget http://x") };
    assert_eq!(
        string(&log_line(&cmd, 42, "9.9.9.9:1")),
        "[42] Commande de l'ip 9.9.9.9:1 : wget http://x"
    );
}

#[test]
fn shell_only_stands_in_known_directories() {
    let mut s = logged_in();
    let known = ["~", "/Desktop", "/Downloads", "/Documents", "/tmp", "/home", "user", "/var"];
    for cmd in ["cd /etc", "cd /tmp", "cd ..", "cd /home", "cd /root", "cd user", "cd ~", "cd /nope"] {
        let r = s.step(&line(cmd));
        let o = out(&r);
        let dir = o.rsplit("user@ubuntu:").next().unwrap().trim_end_matches(" $ ").to_string();
        assert!(known.contains(&dir.as_str()), "{}", dir);
    }
}

fn whole_session(lines: &[&str]) -> (String, usize, bool) {
    let (mut s, r) = Session::start();
    let mut sent = out(&r);
    let mut events: Vec<Event> = vec![line("admin\n"), line("admin-techpro\n")];
    events.extend(lines.iter().map(|l| line(l)));
    events.push(Event::Eof);
    events.push(Event::Eof);
    let mut read = 0;
    for e in &events {
        if s.is_closed() {
            break;
        }
        let r = s.step(e);
        read += 1;
        sent.push_str(&out(&r));
    }
    (sent, read, s.is_closed())
}

#[test]
fn whole_session_stops_at_the_first_exit() {
    // The first `exit` answers `sudo`'s password prompt, so it is no command.
    let (sent, read, closed) =
        whole_session(&["cd /tmp\n", "sudo su\n", "exit\n", "pwd\n", "logout\n", "ls\n"]);
    assert!(closed);
    assert_eq!(read, 2 + 5);
    assert!(sent.contains("Sorry, try again.\r\n"));
    assert!(sent.contains("/tmp\r\n"));
    assert!(sent.ends_with("logout\r\n"));
    assert!(!sent.contains("backup.sh\r\n"));
}

#[test]
fn whole_session_without_exit_ends_with_a_prompt() {
    for lines in [vec![], vec!["ls\n", "cd /var\n"], vec!["sudo ls\n"]] {
        let (sent, read, closed) = whole_session(&lines);
        assert!(closed);
        assert!(read > lines.len() + 2);
        assert!(sent.ends_with(" $ "));
    }
}
