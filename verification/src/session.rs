//! The real OS session behind a PTY: which shell to start (Termux when it is
//! found, the host shell otherwise), how it is labelled, and the bytes it
//! has written that the world has not read yet.

use vstd::prelude::*;

use crate::text::{append_str, chars_of};

verus! {

broadcast use vstd::string::group_string_axioms;

/// Which kind of session runs behind the PTY.
#[derive(PartialEq, Eq, Structural, Clone, Copy, Debug)]
pub enum SessionKind {
    Termux,
    HostShell,
}

/// The name of a session kind, as its `Debug` form prints it.
pub open spec fn kind_name(k: SessionKind) -> Seq<char> {
    match k {
        SessionKind::Termux => "Termux"@,
        SessionKind::HostShell => "HostShell"@,
    }
}

/// The name of a session kind.
pub fn session_kind_name(k: SessionKind) -> (r: &'static str)
    ensures
        r@ == kind_name(k),
{
    match k {
        SessionKind::Termux => "Termux",
        SessionKind::HostShell => "HostShell",
    }
}

/// Bytes received from the session (its stdout and stderr through the PTY),
/// oldest first, that the world has not drained yet.
pub struct SessionOutput {
    buffer: Vec<u8>,
}

impl SessionOutput {
    /// The bytes waiting to be drained.
    pub closed spec fn pending(&self) -> Seq<u8> {
        self.buffer@
    }

    /// No bytes waiting.
    pub fn new() -> (r: SessionOutput)
        ensures
            r.pending() == Seq::<u8>::empty(),
    {
        SessionOutput { buffer: Vec::new() }
    }

    /// Appends bytes read from the session.
    pub fn append(&mut self, chunk: &[u8])
        ensures
            final(self).pending() == old(self).pending() + chunk@,
    {
        let ghost start = self.buffer@;
        for i in 0..chunk.len()
            invariant
                self.buffer@ == start + chunk@.take(i as int),
        {
            self.buffer.push(chunk[i]);
            assert(chunk@.take(i + 1) == chunk@.take(i as int).push(chunk@[i as int]));
        }
        assert(chunk@.take(chunk@.len() as int) == chunk@);
    }

    /// Takes every waiting byte, oldest first, and leaves none.
    pub fn drain(&mut self) -> (r: Vec<u8>)
        ensures
            r@ == old(self).pending(),
            final(self).pending() == Seq::<u8>::empty(),
    {
        let mut taken: Vec<u8> = Vec::new();
        std::mem::swap(&mut taken, &mut self.buffer);
        taken
    }
}

impl Default for SessionOutput {
    fn default() -> (r: SessionOutput)
        ensures
            r.pending() == Seq::<u8>::empty(),
    {
        SessionOutput::new()
    }
}

/// `rel`, a relative path, appended to `base` as `Path::join` does on Unix:
/// a `/` goes between them unless `base` is empty or already ends in one.
pub open spec fn joined(base: Seq<char>, rel: Seq<char>) -> Seq<char> {
    if base.len() == 0 || base.last() == '/' {
        base + rel
    } else {
        base + seq!['/'] + rel
    }
}

/// `rel`, a relative path, appended to `base`.
pub fn join_relative(base: &str, rel: &str) -> (r: String)
    ensures
        r@ == joined(base@, rel@),
{
    let cs = chars_of(base);
    let mut out = String::new();
    append_str(&mut out, base);
    if cs.len() > 0 && cs[cs.len() - 1] != '/' {
        out.push('/');
    }
    append_str(&mut out, rel);
    out
}

/// The Termux shell Termux's prefix holds by default.
pub open spec fn default_termux_bash() -> Seq<char> {
    "/data/data/com.termux/files/usr/bin/bash"@
}

/// The Termux login program Termux's prefix holds by default.
pub open spec fn default_termux_login() -> Seq<char> {
    "/data/data/com.termux/files/usr/bin/login"@
}

/// The paths, in order of preference, where a Termux shell may be found:
/// when running inside Termux (its version variable is set and its prefix
/// is known), the prefix's `bin/bash` and `bin/login`; then Termux's default
/// `bash` and `login`. The first that exists is the shell.
pub open spec fn shell_candidates(inside_termux: bool, prefix: Option<Seq<char>>) -> Seq<Seq<char>> {
    let defaults = seq![default_termux_bash(), default_termux_login()];
    match prefix {
        Some(p) => if inside_termux {
            seq![joined(p, "bin/bash"@), joined(p, "bin/login"@)] + defaults
        } else {
            defaults
        },
        None => defaults,
    }
}

/// A relative path joined to a base keeps the base in front and the
/// relative path at the end, with exactly one `/` between them when the base
/// is not empty. The Termux shell is looked for last at Termux's default
/// `usr/bin/bash` and then `usr/bin/login`; inside Termux, with its prefix
/// known, the prefix's `bin/bash` and `bin/login` come first, in that order.
pub proof fn law_shell_search_order(inside_termux: bool, prefix: Option<Seq<char>>, base: Seq<char>, rel: Seq<char>)
    ensures
        joined(base, rel).subrange(0, base.len() as int) == base,
        joined(base, rel).subrange(joined(base, rel).len() - rel.len(), joined(base, rel).len() as int)
            == rel,
        (base.len() > 0 && base.last() != '/') ==> joined(base, rel).len() == base.len() + 1
            + rel.len() && joined(base, rel)[base.len() as int] == '/',
        (base.len() == 0 || base.last() == '/') ==> joined(base, rel).len() == base.len() + rel.len(),
        shell_candidates(inside_termux, prefix).len() >= 2,
        shell_candidates(inside_termux, prefix).last() == "/data/data/com.termux"@
            + "/files/usr/bin/login"@,
        shell_candidates(inside_termux, prefix)[shell_candidates(inside_termux, prefix).len() - 2]
            == "/data/data/com.termux"@ + "/files/usr/bin/bash"@,
        (inside_termux && prefix is Some) ==> shell_candidates(inside_termux, prefix).len() == 4
            && shell_candidates(inside_termux, prefix)[0] == joined(prefix->0, "bin/bash"@)
            && shell_candidates(inside_termux, prefix)[1] == joined(prefix->0, "bin/login"@),
        !(inside_termux && prefix is Some) ==> shell_candidates(inside_termux, prefix).len() == 2,
{
    reveal_strlit("/data/data/com.termux");
    reveal_strlit("/files/usr/bin/login");
    reveal_strlit("/files/usr/bin/bash");
    reveal_strlit("/data/data/com.termux/files/usr/bin/bash");
    reveal_strlit("/data/data/com.termux/files/usr/bin/login");
    assert("/data/data/com.termux"@ + "/files/usr/bin/login"@ =~= default_termux_login());
    assert("/data/data/com.termux"@ + "/files/usr/bin/bash"@ =~= default_termux_bash());
    let j = joined(base, rel);
    if base.len() == 0 || base.last() == '/' {
        assert(j.subrange(0, base.len() as int) =~= base);
        assert(j.subrange(j.len() - rel.len(), j.len() as int) =~= rel);
    } else {
        assert(j.subrange(0, base.len() as int) =~= base);
        assert(j.subrange(j.len() - rel.len(), j.len() as int) =~= rel);
    }
}

/// The characters of each string.
pub open spec fn strings_view(v: Seq<String>) -> Seq<Seq<char>> {
    v.map_values(|s: String| s@)
}

/// The paths where a Termux shell may be found, in order of preference.
pub fn termux_shell_candidates(inside_termux: bool, prefix: Option<&str>) -> (r: Vec<String>)
    ensures
        strings_view(r@) == shell_candidates(
            inside_termux,
            match prefix {
                Some(p) => Some(p@),
                None => None,
            },
        ),
{
    let mut v: Vec<String> = Vec::new();
    match prefix {
        Some(p) => {
            if inside_termux {
                v.push(join_relative(p, "bin/bash"));
                v.push(join_relative(p, "bin/login"));
            }
        },
        None => {},
    }
    let ghost head = v@;
    v.push("/data/data/com.termux/files/usr/bin/bash".to_owned());
    v.push("/data/data/com.termux/files/usr/bin/login".to_owned());
    assert(strings_view(v@) =~= strings_view(head) + seq![
        default_termux_bash(),
        default_termux_login(),
    ]);
    v
}

/// How the session is started: its kind, the program and its arguments, the
/// environment it gets, and the label shown for it.
pub struct SessionPlan {
    pub kind: SessionKind,
    pub program: String,
    pub args: Vec<String>,
    pub env: Vec<(String, String)>,
    pub label: String,
}

/// The characters of each environment pair.
pub open spec fn env_view(v: Seq<(String, String)>) -> Seq<(Seq<char>, Seq<char>)> {
    v.map_values(|p: (String, String)| (p.0@, p.1@))
}

/// The host shell: `$SHELL` when set, otherwise `cmd.exe` on Windows and
/// `/bin/bash` elsewhere.
pub open spec fn host_shell(shell_env: Option<Seq<char>>, windows: bool) -> Seq<char> {
    match shell_env {
        Some(s) => s,
        None => if windows {
            "cmd.exe"@
        } else {
            "/bin/bash"@
        },
    }
}

/// The label of a Termux session started from `path`.
pub open spec fn termux_label(path: Seq<char>) -> Seq<char> {
    "Termux shell at "@ + path
}

/// The label of a host-shell session running `shell`.
pub open spec fn host_label(shell: Seq<char>) -> Seq<char> {
    "Host shell "@ + shell + " (Termux not detected \u{2014} same PTY bridge)"@
}

/// The session to start. With a Termux shell path: that program, no
/// arguments, `TERM=xterm-256color`. Otherwise the host shell, interactive
/// (`-i`) except on Windows, with `TERM=xterm-256color` and
/// `VCE_TERMUX_WORLD=1`.
pub fn plan_session(termux_shell: Option<&str>, shell_env: Option<&str>, windows: bool) -> (r:
    SessionPlan)
    ensures
        match termux_shell {
            Some(path) => {
                &&& r.kind == SessionKind::Termux
                &&& r.program@ == path@
                &&& r.args@.len() == 0
                &&& env_view(r.env@) == seq![("TERM"@, "xterm-256color"@)]
                &&& r.label@ == termux_label(path@)
            },
            None => {
                let shell = host_shell(
                    match shell_env {
                        Some(s) => Some(s@),
                        None => None,
                    },
                    windows,
                );
                &&& r.kind == SessionKind::HostShell
                &&& r.program@ == shell
                &&& strings_view(r.args@) == (if windows {
                    Seq::<Seq<char>>::empty()
                } else {
                    seq!["-i"@]
                })
                &&& env_view(r.env@) == seq![
                    ("TERM"@, "xterm-256color"@),
                    ("VCE_TERMUX_WORLD"@, "1"@),
                ]
                &&& r.label@ == host_label(shell)
            },
        },
{
    let term = ("TERM".to_owned(), "xterm-256color".to_owned());
    match termux_shell {
        Some(path) => {
            let mut env: Vec<(String, String)> = Vec::new();
            env.push(term);
            assert(env_view(env@) =~= seq![("TERM"@, "xterm-256color"@)]);
            let mut label = "Termux shell at ".to_owned();
            append_str(&mut label, path);
            SessionPlan {
                kind: SessionKind::Termux,
                program: path.to_owned(),
                args: Vec::new(),
                env,
                label,
            }
        },
        None => {
            let shell: &str = match shell_env {
                Some(s) => s,
                None => if windows {
                    "cmd.exe"
                } else {
                    "/bin/bash"
                },
            };
            let mut args: Vec<String> = Vec::new();
            if !windows {
                args.push("-i".to_owned());
            }
            assert(strings_view(args@) =~= (if windows {
                Seq::<Seq<char>>::empty()
            } else {
                seq!["-i"@]
            }));
            let mut env: Vec<(String, String)> = Vec::new();
            env.push(term);
            env.push(("VCE_TERMUX_WORLD".to_owned(), "1".to_owned()));
            assert(env_view(env@) =~= seq![
                ("TERM"@, "xterm-256color"@),
                ("VCE_TERMUX_WORLD"@, "1"@),
            ]);
            let mut label = "Host shell ".to_owned();
            append_str(&mut label, shell);
            append_str(&mut label, " (Termux not detected \u{2014} same PTY bridge)");
            SessionPlan { kind: SessionKind::HostShell, program: shell.to_owned(), args, env, label }
        },
    }
}

/// The banner written into a new session.
pub open spec fn banner(k: SessionKind) -> Seq<char> {
    "\r\n[termux-in-physics-world] session="@ + kind_name(k)
        + "\r\n[termux-in-physics-world] display is a physics entity\r\n\r\n"@
}

/// The banner written into a new session so its user sees the context.
pub fn session_banner(kind: SessionKind) -> (r: String)
    ensures
        r@ == banner(kind),
{
    let mut s = "\r\n[termux-in-physics-world] session=".to_owned();
    append_str(&mut s, session_kind_name(kind));
    append_str(&mut s, "\r\n[termux-in-physics-world] display is a physics entity\r\n\r\n");
    s
}

/// The label of a session that could not be started, given the error.
pub fn failed_session_label(err: &str) -> (r: String)
    ensures
        r@ == "failed: "@ + err@,
{
    let mut s = "failed: ".to_owned();
    append_str(&mut s, err);
    s
}

} // verus!
