use termux_world::android_bridge::{AndroidBridge, AutoLaunch, LaunchAction, LaunchEvent, LaunchOutcome};
use termux_world::android_runtime::{AndroidRuntime, GuestShutdown, SpawnPlan};
use termux_world::embedded_runtime::{dispatch_input, refresh_adb, EmbeddedRuntime};
use termux_world::shared_buffer::InputCmd;
use termux_world::virtual_io::{VirtualDisplay, VirtualInput};

const LISTING: &[u8] = b"List of devices attached\nemulator-5554\tdevice\n";

fn attached_bridge() -> AndroidBridge {
    let mut b = AndroidBridge::default();
    assert!(b.refresh_device(Some(LISTING)));
    b
}

#[test]
fn bridge_refresh_attaches_and_detaches() {
    let mut b = AndroidBridge::default();
    assert!(!b.connected);
    assert!(b.refresh_device(Some(LISTING)));
    assert!(b.connected);
    assert_eq!(b.serial.as_deref(), Some("emulator-5554"));
    assert!(!b.refresh_device(Some(b"List of devices attached\n")));
    assert!(!b.connected);
    assert_eq!(b.serial, None);
    assert!(b.refresh_device(Some(LISTING)));
    assert!(!b.refresh_device(None));
    assert_eq!(b.serial, None);
}

#[test]
fn bridge_commands_need_a_device() {
    let b = AndroidBridge::default();
    assert_eq!(b.launch_termux(), None);
    assert_eq!(b.inject_text("hi"), None);
    assert_eq!(b.inject_keyevent(66), None);
    assert_eq!(b.termux_query(), None);
    assert!(!b.termux_installed(Some(b"package:/x")));
}

#[test]
fn bridge_command_lines() {
    let b = attached_bridge();
    assert_eq!(
        b.launch_termux().unwrap(),
        vec!["-s", "emulator-5554", "shell", "am", "start", "-n", "com.termux/.HomeActivity"]
    );
    assert_eq!(b.termux_launch_fallback(true), None);
    assert_eq!(
        b.termux_launch_fallback(false).unwrap(),
        vec![
            "-s",
            "emulator-5554",
            "shell",
            "monkey",
            "-p",
            "com.termux",
            "-c",
            "android.intent.category.LAUNCHER",
            "1"
        ]
    );
    assert_eq!(
        b.inject_text("echo hi there").unwrap(),
        vec!["-s", "emulator-5554", "shell", "input", "text", "echo%shi%sthere"]
    );
    assert_eq!(b.inject_text(""), None);
    assert_eq!(
        b.inject_keyevent(67).unwrap(),
        vec!["-s", "emulator-5554", "shell", "input", "keyevent", "67"]
    );
    assert_eq!(
        b.termux_query().unwrap(),
        vec!["-s", "emulator-5554", "shell", "pm", "path", "com.termux"]
    );
    assert!(b.termux_installed(Some(b"package:/data/app/base.apk\n")));
    assert!(!b.termux_installed(Some(b"")));
    assert!(!b.termux_installed(None));
}

fn drive(
    b: &mut AndroidBridge,
    start: LaunchEvent,
    installed: bool,
    start_ok: bool,
) -> (Vec<&'static str>, Option<LaunchOutcome>) {
    let mut cycle = AutoLaunch::new();
    let mut steps = Vec::new();
    let mut action = b.auto_launch(&mut cycle, start);
    loop {
        let ev = match action {
            LaunchAction::ListDevices(a) => {
                assert_eq!(a, vec!["devices"]);
                steps.push("list");
                LaunchEvent::DevicesListed(Some(LISTING.to_vec()))
            }
            LaunchAction::QueryTermux(a) => {
                assert_eq!(a, vec!["-s", "emulator-5554", "shell", "pm", "path", "com.termux"]);
                steps.push("query");
                let out: &[u8] = if installed { b"package:/data/app/base.apk\n" } else { b"" };
                LaunchEvent::TermuxQueried(Some(out.to_vec()))
            }
            LaunchAction::StartTermux(a) => {
                assert_eq!(a[2..], ["shell", "am", "start", "-n", "com.termux/.HomeActivity"]);
                steps.push("start");
                LaunchEvent::StartRan(start_ok)
            }
            LaunchAction::Fallback(a) => {
                assert_eq!(a[3], "monkey");
                steps.push("fallback");
                LaunchEvent::FallbackRan
            }
            LaunchAction::Done(o) => return (steps, Some(o)),
            LaunchAction::Ignored => return (steps, None),
        };
        action = b.auto_launch(&mut cycle, ev);
    }
}

#[test]
fn auto_launch_happens_once() {
    let mut b = AndroidBridge::default();
    let (steps, out) = drive(&mut b, LaunchEvent::Begin, true, true);
    assert_eq!(steps, vec!["list", "query", "start"]);
    assert_eq!(out, Some(LaunchOutcome::Launched));
    assert!(b.termux_launched);
    assert!(b.connected);
    // a later cycle finds Termux installed but does not launch it again
    let (steps, out) = drive(&mut b, LaunchEvent::BeginWithCurrent, true, true);
    assert_eq!(steps, vec!["query"]);
    assert_eq!(out, Some(LaunchOutcome::AlreadyLaunched));
}

#[test]
fn auto_launch_falls_back_and_needs_termux() {
    let mut b = AndroidBridge::default();
    let (steps, out) = drive(&mut b, LaunchEvent::Begin, false, true);
    assert_eq!(steps, vec!["list", "query"]);
    assert_eq!(out, Some(LaunchOutcome::NotInstalled));
    assert!(!b.termux_launched);
    let (steps, out) = drive(&mut b, LaunchEvent::Begin, true, false);
    assert_eq!(steps, vec!["list", "query", "start", "fallback"]);
    assert_eq!(out, Some(LaunchOutcome::LaunchedByFallback));
    assert!(b.termux_launched);
}

#[test]
fn auto_launch_without_device() {
    let mut b = AndroidBridge::default();
    let mut cycle = AutoLaunch::new();
    assert!(matches!(
        b.auto_launch(&mut cycle, LaunchEvent::BeginWithCurrent),
        LaunchAction::Done(LaunchOutcome::NoDevice)
    ));
    assert!(matches!(b.auto_launch(&mut cycle, LaunchEvent::Begin), LaunchAction::ListDevices(_)));
    assert!(matches!(b.auto_launch(&mut cycle, LaunchEvent::StartRan(true)), LaunchAction::Ignored));
    assert!(matches!(
        b.auto_launch(&mut cycle, LaunchEvent::DevicesListed(None)),
        LaunchAction::Done(LaunchOutcome::NoDevice)
    ));
    assert!(!b.connected);
    assert!(!b.termux_launched);
}

#[test]
fn runtime_auto_launch() {
    let mut r = AndroidRuntime::default();
    r.refresh(Some(LISTING));
    r.record_emulator_spawned();
    let mut cycle = AutoLaunch::new();
    let a = r.auto_launch(&mut cycle, LaunchEvent::BeginWithCurrent);
    assert!(matches!(a, LaunchAction::QueryTermux(_)));
    let a = r.auto_launch(&mut cycle, LaunchEvent::TermuxQueried(Some(b"package:x".to_vec())));
    assert!(matches!(a, LaunchAction::StartTermux(_)));
    let a = r.auto_launch(&mut cycle, LaunchEvent::StartRan(true));
    assert!(matches!(a, LaunchAction::Done(LaunchOutcome::Launched)));
    assert!(r.termux_launched);
    assert!(r.owned_by_world);
}

#[test]
fn runtime_spawn_plan() {
    let mut r = AndroidRuntime::default();
    assert!(matches!(r.try_spawn_headless_avd(None), SpawnPlan::NoAvdName));
    match r.try_spawn_headless_avd(Some("pixel")) {
        SpawnPlan::Spawn(args) => assert_eq!(
            args,
            vec!["-avd", "pixel", "-no-window", "-no-audio", "-no-boot-anim", "-gpu", "swiftshader_indirect"]
        ),
        _ => panic!("expected a spawn"),
    }
    assert!(r.refresh(Some(LISTING)));
    assert!(matches!(r.try_spawn_headless_avd(Some("pixel")), SpawnPlan::AlreadyConnected));
}

#[test]
fn runtime_shutdown_decision() {
    let mut r = AndroidRuntime::default();
    assert_eq!(r.shutdown_guest(), GuestShutdown::Nothing);
    r.refresh(Some(LISTING));
    assert_eq!(r.shutdown_guest(), GuestShutdown::LeaveRunning);
    r.record_emulator_spawned();
    assert!(r.owned_by_world);
    assert_eq!(r.shutdown_guest(), GuestShutdown::KillWorldOwned);
}

#[test]
fn embedded_refresh_keeps_last_serial() {
    let mut serial = None;
    let mut connected = false;
    assert!(refresh_adb(&mut serial, &mut connected, Some(LISTING)));
    assert!(connected);
    assert_eq!(serial.as_deref(), Some("emulator-5554"));
    assert!(!refresh_adb(&mut serial, &mut connected, None));
    assert!(!connected);
    assert_eq!(serial.as_deref(), Some("emulator-5554"));
}

#[test]
fn embedded_defaults_and_launch() {
    let mut e = EmbeddedRuntime::default();
    assert!(e.in_process);
    assert!(!e.is_connected());
    assert_eq!(
        e.request_launch_termux(),
        vec!["shell", "am", "start", "-n", "com.termux/.HomeActivity"]
    );
    e.mark_termux_ready();
    assert!(e.termux_ready);
}

#[test]
fn embedded_dispatch() {
    let s = Some("abc".to_string());
    assert_eq!(
        dispatch_input(&s, &InputCmd::Text("a b".to_string())),
        vec!["-s", "abc", "shell", "input", "text", "a%sb"]
    );
    assert_eq!(
        dispatch_input(&None, &InputCmd::Key(-3)),
        vec!["shell", "input", "keyevent", "-3"]
    );
    assert_eq!(dispatch_input(&None, &InputCmd::Text(String::new())), vec!["shell", "input", "text", ""]);
}

#[test]
fn virtual_input_gate() {
    let mut rt = AndroidRuntime::default();
    rt.refresh(Some(LISTING));
    let mut vi = VirtualInput::default();
    assert_eq!(vi.id, "world-input-0");
    assert!(vi.text("x", &rt).is_some());
    assert_eq!(
        vi.key(66, &rt).unwrap(),
        vec!["-s", "emulator-5554", "shell", "input", "keyevent", "66"]
    );
    vi.enabled = false;
    assert_eq!(vi.text("x", &rt), None);
    assert_eq!(vi.key(66, &rt), None);
    let vd = VirtualDisplay::default();
    assert!(vd.enabled);
    assert_eq!(vd.id, "world-display-0");
}
