use lib::text::{
    begins_with, chars_of, decimal_text, includes, is_text, is_whitespace, join, same_chars,
    split_whitespace, trim,
};

fn chars(s: &str) -> Vec<char> {
    s.chars().collect()
}

fn string(v: &[char]) -> String {
    v.iter().collect()
}

#[test]
fn whitespace_is_unicode_white_space() {
    for c in [' ', '\t', '\n', '\r', '\u{b}', '\u{c}', '\u{85}', '\u{a0}', '\u{2003}', '\u{3000}'] {
        assert!(is_whitespace(c));
        assert_eq!(is_whitespace(c), c.is_whitespace());
    }
    for c in ['a', '0', '_', '\u{200b}', 'é'] {
        assert!(!is_whitespace(c));
        assert_eq!(is_whitespace(c), c.is_whitespace());
    }
}

#[test]
fn chars_of_keeps_every_character() {
    assert_eq!(chars_of("admin-techpro"), chars("admin-techpro"));
    assert_eq!(chars_of(""), Vec::<char>::new());
    assert_eq!(chars_of("héllo"), vec!['h', 'é', 'l', 'l', 'o']);
}

#[test]
fn trim_drops_whitespace_around() {
    assert_eq!(string(&trim(&chars("  ls -al\r\n"))), "ls -al");
    assert_eq!(string(&trim(&chars("admin\n"))), "admin");
    assert_eq!(string(&trim(&chars(" \t\r\n"))), "");
    assert_eq!(string(&trim(&chars(""))), "");
    assert_eq!(string(&trim(&chars("\u{a0}cd /tmp\u{3000}"))), "cd /tmp");
    for s in ["  a b  ", "x", "\n\n", " cd  /home \r\n"] {
        assert_eq!(string(&trim(&chars(s))), s.trim());
    }
}

#[test]
fn trim_twice_is_trim_once() {
    for s in ["  a b  ", "\t\tx\r\n", "", "   "] {
        let once = trim(&chars(s));
        assert_eq!(trim(&once), once);
    }
}

#[test]
fn split_whitespace_gives_the_words() {
    let w = split_whitespace(&chars("  scp  file.txt\thost:/tmp  "));
    let w: Vec<String> = w.iter().map(|v| string(v)).collect();
    assert_eq!(w, vec!["scp", "file.txt", "host:/tmp"]);
    assert!(split_whitespace(&chars("")).is_empty());
    assert!(split_whitespace(&chars(" \t ")).is_empty());
    for s in ["a  b c", " x", "y ", "cd   /tmp extra"] {
        let ours: Vec<String> = split_whitespace(&chars(s)).iter().map(|v| string(v)).collect();
        let std: Vec<String> = s.split_whitespace().map(|x| x.to_string()).collect();
        assert_eq!(ours, std);
    }
}

#[test]
fn words_are_not_empty_and_hold_no_whitespace() {
    for w in split_whitespace(&chars("\t a\u{a0}\u{a0}bc   d\r\n")) {
        assert!(!w.is_empty());
        assert!(w.iter().all(|c| !c.is_whitespace()));
    }
}

#[test]
fn prefix_and_infix_tests() {
    assert!(begins_with(&chars("cd /tmp"), "cd "));
    assert!(!begins_with(&chars("cd"), "cd "));
    assert!(!begins_with(&chars("xcd /tmp"), "cd "));
    assert!(begins_with(&chars("sudo"), "sudo"));
    assert!(includes(&chars("please wget it"), "wget"));
    assert!(includes(&chars("wget"), "wget"));
    assert!(!includes(&chars("wge t"), "wget"));
    assert!(!includes(&chars("sc"), "scp"));
    assert!(includes(&chars("anything"), ""));
}

#[test]
fn equality_tests() {
    assert!(is_text(&chars("ls"), "ls"));
    assert!(!is_text(&chars("ls "), "ls"));
    assert!(!is_text(&chars("l"), "ls"));
    assert!(same_chars(&chars("abc"), &chars("abc")));
    assert!(!same_chars(&chars("abc"), &chars("abd")));
}

#[test]
fn join_puts_the_separator_between() {
    let parts = vec![chars("Desktop"), chars("Music"), chars("Videos")];
    assert_eq!(string(&join(&parts, "  ")), "Desktop  Music  Videos");
    assert_eq!(string(&join(&[chars("one")], "  ")), "one");
    assert_eq!(string(&join(&[], "  ")), "");
}

#[test]
fn decimal_text_matches_to_string() {
    for n in [0u64, 7, 10, 42, 1337, 1700000000, u64::MAX] {
        assert_eq!(string(&decimal_text(n)), n.to_string());
        assert_eq!(string(&decimal_text(n)).parse::<u64>().unwrap(), n);
    }
}
