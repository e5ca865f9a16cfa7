# honeypot

A small SSH-looking honeypot. A client is asked for a login and a password;
only `admin` / `admin-techpro` open a fake Ubuntu shell, which answers a set
of common commands (`ls`, `cd`, `pwd`, `cat /etc/passwd`, `wget`, `sudo`, ...)
with canned output. Every connection, every login attempt and every command
is recorded in `honeypot.log`.

Layout:

- `src/` — the verified library (Verus):
  - `text.rs`: the string operations the shell relies on (trimming,
    splitting into words, prefix and infix tests, joining, decimal numerals),
    each proved against a specification over `Seq<char>`;
  - `replies.rs`: the fixed texts of the fake machine;
  - `directories.rs`: the fake file tree that `cd` and `ls` see;
  - `shell.rs`: what each command line answers and where it leaves the
    current directory (`effect`, implemented by `respond`);
  - `session.rs`: a client's session as a state machine (`next`,
    implemented by `Session::step`);
  - `log.rs`: the log records and the lines they become;
  - `laws.rs`: properties of the whole, proved.
- `tests/` — tests on concrete values.
- `app/` — the network side: listening on port 23, one thread per client,
  feeding each line read to the session and writing back its answers and
  log lines.
