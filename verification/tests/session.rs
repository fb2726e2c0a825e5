use termux_world::keyboard::{guest_input_for, hotkey_action, key_events_to_inputs, GuestInput, Hotkey, KeyInput};
use termux_world::session::{
    failed_session_label, join_relative, plan_session, session_banner, termux_shell_candidates,
    SessionKind, SessionOutput,
};

#[test]
fn output_drains_in_order() {
    let mut o = SessionOutput::default();
    o.append(b"he");
    o.append(b"llo");
    assert_eq!(o.drain(), b"hello".to_vec());
    assert!(o.drain().is_empty());
}

#[test]
fn joins_like_path_join() {
    for (base, rel) in [("/usr", "bin/bash"), ("/usr/", "bin/bash"), ("", "bin/bash"), ("p", "x")] {
        let expected = std::path::Path::new(base).join(rel);
        assert_eq!(join_relative(base, rel), expected.to_string_lossy());
    }
}

#[test]
fn termux_candidates() {
    assert_eq!(
        termux_shell_candidates(true, Some("/data/data/com.termux/files/usr")),
        vec![
            "/data/data/com.termux/files/usr/bin/bash",
            "/data/data/com.termux/files/usr/bin/login",
            "/data/data/com.termux/files/usr/bin/bash",
            "/data/data/com.termux/files/usr/bin/login",
        ]
    );
    assert_eq!(
        termux_shell_candidates(false, Some("/p")),
        vec!["/data/data/com.termux/files/usr/bin/bash", "/data/data/com.termux/files/usr/bin/login"]
    );
    assert_eq!(termux_shell_candidates(true, None).len(), 2);
}

#[test]
fn termux_and_host_plans() {
    let p = plan_session(Some("/t/bash"), Some("/bin/zsh"), false);
    assert_eq!(p.kind, SessionKind::Termux);
    assert_eq!(p.program, "/t/bash");
    assert!(p.args.is_empty());
    assert_eq!(p.env, vec![("TERM".to_string(), "xterm-256color".to_string())]);
    assert_eq!(p.label, "Termux shell at /t/bash");

    let h = plan_session(None, Some("/bin/zsh"), false);
    assert_eq!(h.kind, SessionKind::HostShell);
    assert_eq!(h.program, "/bin/zsh");
    assert_eq!(h.args, vec!["-i"]);
    assert_eq!(
        h.env,
        vec![
            ("TERM".to_string(), "xterm-256color".to_string()),
            ("VCE_TERMUX_WORLD".to_string(), "1".to_string())
        ]
    );
    assert_eq!(h.label, "Host shell /bin/zsh (Termux not detected \u{2014} same PTY bridge)");

    assert_eq!(plan_session(None, None, false).program, "/bin/bash");
    let w = plan_session(None, None, true);
    assert_eq!(w.program, "cmd.exe");
    assert!(w.args.is_empty());
}

#[test]
fn banner_and_failure_label() {
    assert_eq!(
        session_banner(SessionKind::HostShell),
        format!(
            "\r\n[termux-in-physics-world] session={:?}\r\n[termux-in-physics-world] display is a physics entity\r\n\r\n",
            SessionKind::HostShell
        )
    );
    assert!(session_banner(SessionKind::Termux).contains("session=Termux\r\n"));
    assert_eq!(failed_session_label("no pty"), "failed: no pty");
}

#[test]
fn hotkeys() {
    assert_eq!(hotkey_action(true, true, true), Hotkey::Quit);
    assert_eq!(hotkey_action(true, false, true), Hotkey::LaunchTermux);
    assert_eq!(hotkey_action(false, true, true), Hotkey::Nothing);
    assert_eq!(hotkey_action(true, false, false), Hotkey::Nothing);
}

#[test]
fn keys_for_the_guest() {
    let code = |k: KeyInput| match guest_input_for(&k) {
        Some(GuestInput::KeyEvent(c)) => c,
        _ => -1,
    };
    assert_eq!(code(KeyInput::Enter), 66);
    assert_eq!(code(KeyInput::Backspace), 67);
    assert_eq!(code(KeyInput::Tab), 61);
    assert_eq!(code(KeyInput::Escape), 111);
    assert_eq!(code(KeyInput::ArrowUp), 19);
    assert_eq!(code(KeyInput::ArrowDown), 20);
    assert_eq!(code(KeyInput::ArrowLeft), 21);
    assert_eq!(code(KeyInput::ArrowRight), 22);
    assert!(guest_input_for(&KeyInput::Other).is_none());
    assert!(matches!(guest_input_for(&KeyInput::Space), Some(GuestInput::Text(t)) if t == " "));
    let evs = vec![
        (true, KeyInput::Character("a".to_string())),
        (false, KeyInput::Character("b".to_string())),
        (true, KeyInput::Other),
        (true, KeyInput::Enter),
    ];
    let ins = key_events_to_inputs(&evs);
    assert_eq!(ins.len(), 2);
    assert!(matches!(&ins[0], GuestInput::Text(t) if t == "a"));
    assert!(matches!(&ins[1], GuestInput::KeyEvent(66)));
}
