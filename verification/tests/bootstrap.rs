use termux_world::embedded_runtime::{BootAction, BootEvent, BootPhase, DesktopBootstrap};

const LISTING: &[u8] = b"List of devices attached\nemulator-5554\tdevice\n";
const EMPTY: &[u8] = b"List of devices attached\n";

#[test]
fn attached_device_with_termux() {
    let mut b = DesktopBootstrap::new();
    assert!(matches!(b.step(BootEvent::Begin), BootAction::ListDevices(a) if a == vec!["devices"]));
    match b.step(BootEvent::DevicesListed(Some(LISTING.to_vec()))) {
        BootAction::QueryTermux(a) => {
            assert_eq!(a, vec!["-s", "emulator-5554", "shell", "pm", "path", "com.termux"])
        },
        _ => panic!("expected a query"),
    }
    assert!(b.connected);
    match b.step(BootEvent::TermuxQueried(Some(b"package:/x".to_vec()))) {
        BootAction::StartTermux(a) => assert_eq!(
            a,
            vec!["-s", "emulator-5554", "shell", "am", "start", "-n", "com.termux/.HomeActivity"]
        ),
        _ => panic!("expected a start"),
    }
    assert!(matches!(b.step(BootEvent::TermuxStarted), BootAction::Done));
    assert_eq!(b.phase, BootPhase::Finished);
    assert!(matches!(b.step(BootEvent::Begin), BootAction::Ignored));
}

#[test]
fn spawns_emulator_when_nothing_attached() {
    let mut b = DesktopBootstrap::new();
    b.step(BootEvent::Begin);
    assert!(matches!(b.step(BootEvent::DevicesListed(Some(EMPTY.to_vec()))), BootAction::ReadAvdName));
    match b.step(BootEvent::AvdName(Some("pixel".to_string()))) {
        BootAction::SpawnEmulator(a) => assert_eq!(a[1], "pixel"),
        _ => panic!("expected a spawn"),
    }
    assert!(matches!(b.step(BootEvent::EmulatorSpawned(true)), BootAction::WaitForDevice(a) if a == vec!["wait-for-device"]));
    assert!(matches!(b.step(BootEvent::DeviceWaited), BootAction::ListDevices(_)));
    assert!(matches!(b.step(BootEvent::DevicesListed(Some(LISTING.to_vec()))), BootAction::QueryTermux(_)));
    assert!(matches!(b.step(BootEvent::TermuxQueried(Some(Vec::new()))), BootAction::Done));
    assert_eq!(b.phase, BootPhase::Finished);
}

#[test]
fn gives_up_without_avd_or_spawn() {
    let mut b = DesktopBootstrap::new();
    b.step(BootEvent::Begin);
    b.step(BootEvent::DevicesListed(None));
    assert!(matches!(b.step(BootEvent::AvdName(None)), BootAction::Done));
    let mut c = DesktopBootstrap::new();
    c.step(BootEvent::Begin);
    c.step(BootEvent::DevicesListed(Some(EMPTY.to_vec())));
    c.step(BootEvent::AvdName(Some("a".to_string())));
    assert!(matches!(c.step(BootEvent::EmulatorSpawned(false)), BootAction::Done));
    assert!(!c.connected);
}

#[test]
fn unexpected_events_are_ignored() {
    let mut b = DesktopBootstrap::new();
    assert!(matches!(b.step(BootEvent::TermuxStarted), BootAction::Ignored));
    assert_eq!(b.phase, BootPhase::Idle);
}
