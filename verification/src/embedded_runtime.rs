//! Embedded runtime service: the guest connection the physics process keeps
//! from its own service thread. On the desktop it drives a headless guest
//! through `adb`; inside an Android app it uses the in-process path.

use vstd::prelude::*;

use crate::adb::{
    devices_args, emulator_args, emulator_args_view, lists_package, output_lists_package,
    package_path_args, package_path_tail, wait_for_device_args,
};
use crate::adb::{
    args_view, input_text_args, input_text_tail, keyevent_args, keyevent_tail, opt_bytes,
    opt_str_view, refreshed_serial, serial_from_devices_output, serial_prefix, start_home_args,
    start_home_tail, listed_serial,
};
use crate::framebuffer::{captured_frame, decode_rgba8, outcome_view};
use crate::shared_buffer::{FramePixels, InputCmd, InputView};

verus! {

broadcast use vstd::string::group_string_axioms;

/// The runtime service's connection state. The emulator process the world
/// may own, and the locks that share this state between threads, are held
/// by the application.
pub struct EmbeddedRuntime {
    pub serial: Option<String>,
    pub connected: bool,
    pub termux_ready: bool,
    pub in_process: bool,
}

impl Default for EmbeddedRuntime {
    fn default() -> (r: EmbeddedRuntime)
        ensures
            r.serial is None,
            !r.connected,
            !r.termux_ready,
            r.in_process,
    {
        EmbeddedRuntime { serial: None, connected: false, termux_ready: false, in_process: true }
    }
}

impl EmbeddedRuntime {
    /// Whether a guest is connected.
    pub fn is_connected(&self) -> (b: bool)
        ensures
            b == self.connected,
    {
        self.connected
    }

    /// The `adb` command that starts Termux on the desktop path. It is issued
    /// whether or not a device is known to be attached.
    pub fn request_launch_termux(&self) -> (r: Vec<String>)
        ensures
            args_view(r@) == serial_prefix(opt_str_view(self.serial)) + start_home_tail(),
    {
        start_home_args(&self.serial)
    }

    /// Records that Termux was started in-process (the Android path).
    pub fn mark_termux_ready(&mut self)
        ensures
            final(self).termux_ready,
            final(self).connected == old(self).connected,
            final(self).serial == old(self).serial,
            final(self).in_process == old(self).in_process,
    {
        self.termux_ready = true;
    }
}

/// Reads the output of `adb devices` (`None` when it could not be run) into
/// the shared serial and connection flag. A usable device sets both; when
/// none is found the flag drops and the last known serial stays.
pub fn refresh_adb(
    serial: &mut Option<String>,
    connected: &mut bool,
    devices_output: Option<&[u8]>,
) -> (r: bool)
    ensures
        r == refreshed_serial(opt_bytes(devices_output)) is Some,
        *final(connected) == r,
        r ==> opt_str_view(*final(serial)) == refreshed_serial(opt_bytes(devices_output)),
        !r ==> *final(serial) == *old(serial),
{
    let found = match devices_output {
        Some(out) => serial_from_devices_output(out),
        None => None,
    };
    match found {
        Some(s) => {
            *serial = Some(s);
            *connected = true;
            true
        },
        None => {
            *connected = false;
            false
        },
    }
}

/// The `adb` arguments of one queued input: text typed with spaces escaped
/// (empty text included), or a key event.
pub open spec fn dispatch_tail(cmd: InputView) -> Seq<Seq<char>> {
    match cmd {
        InputView::Text(t) => input_text_tail(t),
        InputView::Key(c) => keyevent_tail(c),
    }
}

/// The `adb` command that delivers one queued input to the guest.
pub fn dispatch_input(serial: &Option<String>, cmd: &InputCmd) -> (r: Vec<String>)
    ensures
        args_view(r@) == serial_prefix(opt_str_view(*serial)) + dispatch_tail(cmd@),
{
    match cmd {
        InputCmd::Text(t) => input_text_args(serial, t.as_str()),
        InputCmd::Key(c) => keyevent_args(serial, *c),
    }
}

/// The message for a capture that produced no output.
pub open spec fn no_frame() -> Seq<char> {
    "no frame"@
}

/// Reads a screenshot command's outcome into a frame for the shared buffer.
pub fn capture_frame(succeeded: bool, stdout: &[u8]) -> (r: Result<FramePixels, String>)
    ensures
        outcome_view(r) == captured_frame(succeeded, stdout@, no_frame()),
        r matches Ok(f) ==> f.rgba@.len() == f.width * f.height * 4,
{
    if !succeeded || stdout.len() == 0 {
        return Err("no frame".to_owned());
    }
    decode_rgba8(stdout)
}

/// Where the desktop bootstrap stands: it attaches to a listed device or
/// spawns the configured headless AVD, then starts Termux when it is
/// installed.
#[derive(PartialEq, Eq, Structural, Clone, Copy, Debug)]
pub enum BootPhase {
    Idle,
    ListingDevices,
    ReadingAvdName,
    SpawningEmulator,
    WaitingForDevice,
    ListingAgain,
    QueryingTermux,
    StartingTermux,
    Finished,
}

/// What the application reports back after doing what the bootstrap asked.
pub enum BootEvent {
    /// Start bootstrapping.
    Begin,
    /// The output of `adb devices`, or `None` when it could not be run.
    DevicesListed(Option<Vec<u8>>),
    /// The configured AVD name, if any.
    AvdName(Option<String>),
    /// Whether the emulator process started.
    EmulatorSpawned(bool),
    /// `adb wait-for-device` returned.
    DeviceWaited,
    /// The output of the package query, or `None` when it could not be run.
    TermuxQueried(Option<Vec<u8>>),
    /// The Termux start command ran.
    TermuxStarted,
}

/// A bootstrap event as plain values.
pub enum BootEventView {
    Begin,
    DevicesListed(Option<Seq<u8>>),
    AvdName(Option<Seq<char>>),
    EmulatorSpawned(bool),
    DeviceWaited,
    TermuxQueried(Option<Seq<u8>>),
    TermuxStarted,
}

/// The view of optional owned bytes.
pub open spec fn opt_vec_view(o: Option<Vec<u8>>) -> Option<Seq<u8>> {
    match o {
        Some(v) => Some(v@),
        None => None,
    }
}

impl View for BootEvent {
    type V = BootEventView;

    open spec fn view(&self) -> BootEventView {
        match self {
            BootEvent::Begin => BootEventView::Begin,
            BootEvent::DevicesListed(o) => BootEventView::DevicesListed(opt_vec_view(*o)),
            BootEvent::AvdName(a) => BootEventView::AvdName(opt_str_view(*a)),
            BootEvent::EmulatorSpawned(b) => BootEventView::EmulatorSpawned(*b),
            BootEvent::DeviceWaited => BootEventView::DeviceWaited,
            BootEvent::TermuxQueried(o) => BootEventView::TermuxQueried(opt_vec_view(*o)),
            BootEvent::TermuxStarted => BootEventView::TermuxStarted,
        }
    }
}

/// What the bootstrap asks the application to do next.
pub enum BootAction {
    /// Run `adb` with these arguments and report its output.
    ListDevices(Vec<String>),
    /// Read the configured AVD name and report it.
    ReadAvdName,
    /// Start the emulator with these arguments and report whether it started.
    SpawnEmulator(Vec<String>),
    /// Run `adb` with these arguments and report when it returns.
    WaitForDevice(Vec<String>),
    /// Run `adb` with these arguments and report its output.
    QueryTermux(Vec<String>),
    /// Run `adb` with these arguments and report when it ran.
    StartTermux(Vec<String>),
    /// Nothing more to do.
    Done,
    /// The event did not answer what was asked; nothing changed.
    Ignored,
}

/// A bootstrap action as plain values.
pub enum BootActionView {
    ListDevices(Seq<Seq<char>>),
    ReadAvdName,
    SpawnEmulator(Seq<Seq<char>>),
    WaitForDevice(Seq<Seq<char>>),
    QueryTermux(Seq<Seq<char>>),
    StartTermux(Seq<Seq<char>>),
    Done,
    Ignored,
}

impl View for BootAction {
    type V = BootActionView;

    open spec fn view(&self) -> BootActionView {
        match self {
            BootAction::ListDevices(a) => BootActionView::ListDevices(args_view(a@)),
            BootAction::ReadAvdName => BootActionView::ReadAvdName,
            BootAction::SpawnEmulator(a) => BootActionView::SpawnEmulator(args_view(a@)),
            BootAction::WaitForDevice(a) => BootActionView::WaitForDevice(args_view(a@)),
            BootAction::QueryTermux(a) => BootActionView::QueryTermux(args_view(a@)),
            BootAction::StartTermux(a) => BootActionView::StartTermux(args_view(a@)),
            BootAction::Done => BootActionView::Done,
            BootAction::Ignored => BootActionView::Ignored,
        }
    }
}

/// The desktop bootstrap: where it stands, and the device it found.
pub struct DesktopBootstrap {
    pub phase: BootPhase,
    pub serial: Option<String>,
    pub connected: bool,
}

/// The desktop bootstrap as plain values.
pub struct BootView {
    pub phase: BootPhase,
    pub serial: Option<Seq<char>>,
    pub connected: bool,
}

impl View for DesktopBootstrap {
    type V = BootView;

    open spec fn view(&self) -> BootView {
        BootView { phase: self.phase, serial: opt_str_view(self.serial), connected: self.connected }
    }
}

/// `s` after reading a device listing (`None` when it could not be run): a
/// usable device sets serial and connection; otherwise the connection drops
/// and the serial stays.
pub open spec fn after_listing(s: BootView, out: Option<Seq<u8>>) -> BootView {
    match refreshed_serial(out) {
        Some(x) => BootView { serial: Some(x), connected: true, ..s },
        None => BootView { connected: false, ..s },
    }
}

/// Asks where Termux is installed on the device of `s`.
pub open spec fn query_action(s: BootView) -> BootActionView {
    BootActionView::QueryTermux(serial_prefix(s.serial) + package_path_tail())
}

/// Whether a package query's output (`None` when it could not be run) says
/// Termux is installed.
pub open spec fn query_says_installed(out: Option<Seq<u8>>) -> bool {
    match out {
        Some(o) => lists_package(o),
        None => false,
    }
}

/// One step of the desktop bootstrap: the state after event `e` in state `s`
/// and the next action. An event that does not answer the pending request
/// changes nothing.
pub open spec fn boot_step(s: BootView, e: BootEventView) -> (BootView, BootActionView) {
    let ignored = (s, BootActionView::Ignored);
    let finish = (BootView { phase: BootPhase::Finished, ..s }, BootActionView::Done);
    match e {
        BootEventView::Begin => if s.phase == BootPhase::Idle {
            (
                BootView { phase: BootPhase::ListingDevices, ..s },
                BootActionView::ListDevices(seq!["devices"@]),
            )
        } else {
            ignored
        },
        BootEventView::DevicesListed(o) => if s.phase == BootPhase::ListingDevices {
            let s1 = after_listing(s, o);
            if s1.connected {
                (BootView { phase: BootPhase::QueryingTermux, ..s1 }, query_action(s1))
            } else {
                (BootView { phase: BootPhase::ReadingAvdName, ..s1 }, BootActionView::ReadAvdName)
            }
        } else if s.phase == BootPhase::ListingAgain {
            let s1 = after_listing(s, o);
            if s1.connected {
                (BootView { phase: BootPhase::QueryingTermux, ..s1 }, query_action(s1))
            } else {
                (BootView { phase: BootPhase::Finished, ..s1 }, BootActionView::Done)
            }
        } else {
            ignored
        },
        BootEventView::AvdName(a) => if s.phase == BootPhase::ReadingAvdName {
            match a {
                Some(name) => (
                    BootView { phase: BootPhase::SpawningEmulator, ..s },
                    BootActionView::SpawnEmulator(emulator_args_view(name)),
                ),
                None => finish,
            }
        } else {
            ignored
        },
        BootEventView::EmulatorSpawned(ok) => if s.phase == BootPhase::SpawningEmulator {
            if ok {
                (
                    BootView { phase: BootPhase::WaitingForDevice, ..s },
                    BootActionView::WaitForDevice(seq!["wait-for-device"@]),
                )
            } else {
                finish
            }
        } else {
            ignored
        },
        BootEventView::DeviceWaited => if s.phase == BootPhase::WaitingForDevice {
            (
                BootView { phase: BootPhase::ListingAgain, ..s },
                BootActionView::ListDevices(seq!["devices"@]),
            )
        } else {
            ignored
        },
        BootEventView::TermuxQueried(o) => if s.phase == BootPhase::QueryingTermux {
            if query_says_installed(o) {
                (
                    BootView { phase: BootPhase::StartingTermux, ..s },
                    BootActionView::StartTermux(serial_prefix(s.serial) + start_home_tail()),
                )
            } else {
                finish
            }
        } else {
            ignored
        },
        BootEventView::TermuxStarted => if s.phase == BootPhase::StartingTermux {
            finish
        } else {
            ignored
        },
    }
}

/// The order in which the bootstrap passes through its phases.
pub open spec fn phase_rank(p: BootPhase) -> int {
    match p {
        BootPhase::Idle => 0,
        BootPhase::ListingDevices => 1,
        BootPhase::ReadingAvdName => 2,
        BootPhase::SpawningEmulator => 3,
        BootPhase::WaitingForDevice => 4,
        BootPhase::ListingAgain => 5,
        BootPhase::QueryingTermux => 6,
        BootPhase::StartingTermux => 7,
        BootPhase::Finished => 8,
    }
}

/// What holds in every state the bootstrap reaches from its start: it asks
/// for the AVD name, spawns, waits and lists again only while no device is
/// attached, and queries or starts Termux only while one is.
pub open spec fn boot_inv(s: BootView) -> bool {
    &&& (s.phase == BootPhase::Idle ==> !s.connected)
    &&& (s.phase == BootPhase::ReadingAvdName || s.phase == BootPhase::SpawningEmulator || s.phase
        == BootPhase::WaitingForDevice || s.phase == BootPhase::ListingAgain) ==> !s.connected
    &&& (s.phase == BootPhase::QueryingTermux || s.phase == BootPhase::StartingTermux)
        ==> s.connected
}

/// Every answered step moves the bootstrap to a later phase; an unanswered
/// one changes nothing. So it finishes after at most eight answered steps,
/// and once finished it stays so.
pub proof fn law_bootstrap_progresses(s: BootView, e: BootEventView)
    ensures
        ({
            let (s1, a) = boot_step(s, e);
            (a is Ignored && s1 == s) || (!(a is Ignored) && phase_rank(s1.phase) > phase_rank(
                s.phase,
            ))
        }),
        s.phase == BootPhase::Finished ==> boot_step(s, e).1 is Ignored,
        boot_step(s, e).1 is Done ==> boot_step(s, e).0.phase == BootPhase::Finished,
{
}

/// The invariant holds at the start and every step keeps it.
pub proof fn law_bootstrap_invariant(s: BootView, e: BootEventView)
    ensures
        boot_inv(BootView { phase: BootPhase::Idle, serial: None, connected: false }),
        boot_inv(s) ==> boot_inv(boot_step(s, e).0),
{
}

/// In a reachable state the emulator is spawned only when no device is
/// attached, and Termux is started only on an attached device whose package
/// query named an installed package.
pub proof fn law_bootstrap_acts_on_facts(s: BootView, e: BootEventView)
    requires
        boot_inv(s),
    ensures
        boot_step(s, e).1 is SpawnEmulator ==> !s.connected && !boot_step(s, e).0.connected,
        boot_step(s, e).1 is StartTermux ==> s.connected && (e matches BootEventView::TermuxQueried(
            Some(o),
        ) && lists_package(o)),
{
}

/// The command line each answered step asks for, word for word. Beginning
/// lists the devices (`adb devices`). An AVD name read while no device is
/// attached spawns the emulator headless: `-avd`, the name, `-no-window`,
/// `-no-audio`, `-no-boot-anim`, `-gpu swiftshader_indirect`, with serial
/// and connection as they were. A spawned emulator is waited for
/// (`adb wait-for-device`). A device found asks where Termux is installed
/// (`pm path com.termux`, addressed to its serial), and a package found
/// starts its home activity on that device.
pub proof fn law_bootstrap_command_lines(s: BootView, name: Seq<char>, out: Seq<u8>)
    ensures
        s.phase == BootPhase::Idle ==> boot_step(s, BootEventView::Begin).1
            == BootActionView::ListDevices(seq!["devices"@]),
        s.phase == BootPhase::ReadingAvdName ==> boot_step(
            s,
            BootEventView::AvdName(Some(name)),
        ).1 == BootActionView::SpawnEmulator(
            seq!["-avd"@, name, "-no-window"@, "-no-audio"@, "-no-boot-anim"@, "-gpu"@,
                "swiftshader_indirect"@],
        ),
        s.phase == BootPhase::ReadingAvdName ==> boot_step(
            s,
            BootEventView::AvdName(Some(name)),
        ).0 == (BootView { phase: BootPhase::SpawningEmulator, serial: s.serial, connected: s.connected }),
        s.phase == BootPhase::SpawningEmulator ==> boot_step(
            s,
            BootEventView::EmulatorSpawned(true),
        ).1 == BootActionView::WaitForDevice(seq!["wait-for-device"@]),
        (s.phase == BootPhase::ListingDevices && listed_serial(out) is Some) ==> boot_step(
            s,
            BootEventView::DevicesListed(Some(out)),
        ).1 == BootActionView::QueryTermux(
            seq!["-s"@, listed_serial(out)->0, "shell"@, "pm"@, "path"@, "com.termux"@],
        ),
        (s.phase == BootPhase::QueryingTermux && lists_package(out) && s.serial is Some)
            ==> boot_step(s, BootEventView::TermuxQueried(Some(out))).1
            == BootActionView::StartTermux(
            seq!["-s"@, s.serial->0, "shell"@, "am"@, "start"@, "-n"@, "com.termux/.HomeActivity"@],
        ),
{
    if s.phase == BootPhase::ListingDevices && listed_serial(out) is Some {
        let x = listed_serial(out)->0;
        assert(serial_prefix(Some(x)) + package_path_tail() =~= seq![
            "-s"@,
            x,
            "shell"@,
            "pm"@,
            "path"@,
            "com.termux"@,
        ]);
    }
    if s.phase == BootPhase::QueryingTermux && lists_package(out) && s.serial is Some {
        let x = s.serial->0;
        assert(serial_prefix(Some(x)) + start_home_tail() =~= seq![
            "-s"@,
            x,
            "shell"@,
            "am"@,
            "start"@,
            "-n"@,
            "com.termux/.HomeActivity"@,
        ]);
    }
}

impl DesktopBootstrap {
    /// A bootstrap that has not started, knowing no device.
    pub fn new() -> (r: DesktopBootstrap)
        ensures
            r@ == (BootView { phase: BootPhase::Idle, serial: None, connected: false }),
    {
        DesktopBootstrap { phase: BootPhase::Idle, serial: None, connected: false }
    }

    fn take_listing(&mut self, out: Option<Vec<u8>>)
        ensures
            final(self)@ == after_listing(old(self)@, opt_vec_view(out)),
    {
        match out {
            Some(bytes) => {
                refresh_adb(&mut self.serial, &mut self.connected, Some(bytes.as_slice()));
            },
            None => {
                refresh_adb(&mut self.serial, &mut self.connected, None);
            },
        }
    }

    fn query(&self) -> (r: BootAction)
        ensures
            r@ == query_action(self@),
    {
        BootAction::QueryTermux(package_path_args(&self.serial))
    }

    /// Takes the application's report on the last action and returns the
    /// next one.
    pub fn step(&mut self, ev: BootEvent) -> (r: BootAction)
        ensures
            (final(self)@, r@) == boot_step(old(self)@, ev@),
    {
        match ev {
            BootEvent::Begin => {
                if self.phase == BootPhase::Idle {
                    self.phase = BootPhase::ListingDevices;
                    let a = devices_args();
                    BootAction::ListDevices(a)
                } else {
                    BootAction::Ignored
                }
            },
            BootEvent::DevicesListed(out) => {
                if self.phase == BootPhase::ListingDevices {
                    self.take_listing(out);
                    if self.connected {
                        self.phase = BootPhase::QueryingTermux;
                        self.query()
                    } else {
                        self.phase = BootPhase::ReadingAvdName;
                        BootAction::ReadAvdName
                    }
                } else if self.phase == BootPhase::ListingAgain {
                    self.take_listing(out);
                    if self.connected {
                        self.phase = BootPhase::QueryingTermux;
                        self.query()
                    } else {
                        self.phase = BootPhase::Finished;
                        BootAction::Done
                    }
                } else {
                    BootAction::Ignored
                }
            },
            BootEvent::AvdName(a) => {
                if self.phase == BootPhase::ReadingAvdName {
                    match a {
                        Some(name) => {
                            self.phase = BootPhase::SpawningEmulator;
                            BootAction::SpawnEmulator(emulator_args(name.as_str()))
                        },
                        None => {
                            self.phase = BootPhase::Finished;
                            BootAction::Done
                        },
                    }
                } else {
                    BootAction::Ignored
                }
            },
            BootEvent::EmulatorSpawned(ok) => {
                if self.phase == BootPhase::SpawningEmulator {
                    if ok {
                        self.phase = BootPhase::WaitingForDevice;
                        BootAction::WaitForDevice(wait_for_device_args())
                    } else {
                        self.phase = BootPhase::Finished;
                        BootAction::Done
                    }
                } else {
                    BootAction::Ignored
                }
            },
            BootEvent::DeviceWaited => {
                if self.phase == BootPhase::WaitingForDevice {
                    self.phase = BootPhase::ListingAgain;
                    BootAction::ListDevices(devices_args())
                } else {
                    BootAction::Ignored
                }
            },
            BootEvent::TermuxQueried(out) => {
                if self.phase == BootPhase::QueryingTermux {
                    let installed = match &out {
                        Some(bytes) => output_lists_package(bytes.as_slice()),
                        None => false,
                    };
                    if installed {
                        self.phase = BootPhase::StartingTermux;
                        BootAction::StartTermux(start_home_args(&self.serial))
                    } else {
                        self.phase = BootPhase::Finished;
                        BootAction::Done
                    }
                } else {
                    BootAction::Ignored
                }
            },
            BootEvent::TermuxStarted => {
                if self.phase == BootPhase::StartingTermux {
                    self.phase = BootPhase::Finished;
                    BootAction::Done
                } else {
                    BootAction::Ignored
                }
            },
        }
    }
}

} // verus!
