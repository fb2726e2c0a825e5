//! World-owned handle to the Android inhabitant: which device it talks to,
//! whether it is attached, and which `adb` command each request becomes.
//! Only world systems call it; the application runs the commands.

use vstd::prelude::*;

use crate::adb::{
    args_view, input_text_args, input_text_tail, keyevent_args, keyevent_tail, monkey_args,
    monkey_tail, opt_bytes, opt_str_view, output_lists_package, package_path_args,
    package_path_tail, refreshed_serial, serial_from_devices_output, serial_prefix,
    start_home_args, start_home_tail, lists_package, devices_args,
};

verus! {

/// The bridge's state: the device serial, whether a device is attached, and
/// whether Termux was launched automatically.
#[derive(Clone, Debug)]
pub struct AndroidBridge {
    pub serial: Option<String>,
    pub connected: bool,
    pub termux_launched: bool,
}

impl Default for AndroidBridge {
    fn default() -> (r: AndroidBridge)
        ensures
            r.serial is None,
            !r.connected,
            !r.termux_launched,
    {
        AndroidBridge { serial: None, connected: false, termux_launched: false }
    }
}

impl AndroidBridge {
    /// Reads the output of `adb devices` (`None` when it could not be run):
    /// attaches to the first usable device listed, or detaches.
    pub fn refresh_device(&mut self, devices_output: Option<&[u8]>) -> (r: bool)
        ensures
            opt_str_view(final(self).serial) == refreshed_serial(opt_bytes(devices_output)),
            r == refreshed_serial(opt_bytes(devices_output)) is Some,
            final(self).connected == r,
            final(self).termux_launched == old(self).termux_launched,
    {
        let found = match devices_output {
            Some(out) => serial_from_devices_output(out),
            None => None,
        };
        let r = found.is_some();
        self.serial = found;
        self.connected = r;
        r
    }

    /// The `adb` command that starts Termux, or `None` when no device is
    /// attached.
    pub fn launch_termux(&self) -> (r: Option<Vec<String>>)
        ensures
            r is Some <==> self.connected,
            r matches Some(a) ==> args_view(a@) == serial_prefix(opt_str_view(self.serial))
                + start_home_tail(),
    {
        if !self.connected {
            return None;
        }
        Some(start_home_args(&self.serial))
    }

    /// After the start command ran: the launcher-intent command to try when
    /// it did not succeed.
    pub fn termux_launch_fallback(&self, start_succeeded: bool) -> (r: Option<Vec<String>>)
        ensures
            r is Some <==> self.connected && !start_succeeded,
            r matches Some(a) ==> args_view(a@) == serial_prefix(opt_str_view(self.serial))
                + monkey_tail(),
    {
        if !self.connected || start_succeeded {
            return None;
        }
        Some(monkey_args(&self.serial))
    }

    /// The `adb` command that types `text` on the guest; `None` when no
    /// device is attached or the text is empty.
    pub fn inject_text(&self, text: &str) -> (r: Option<Vec<String>>)
        ensures
            r is Some <==> self.connected && text@.len() > 0,
            r matches Some(a) ==> args_view(a@) == serial_prefix(opt_str_view(self.serial))
                + input_text_tail(text@),
    {
        if !self.connected || text.is_empty() {
            return None;
        }
        Some(input_text_args(&self.serial, text))
    }

    /// The `adb` command that sends key `code`; `None` when no device is
    /// attached.
    pub fn inject_keyevent(&self, code: i32) -> (r: Option<Vec<String>>)
        ensures
            r is Some <==> self.connected,
            r matches Some(a) ==> args_view(a@) == serial_prefix(opt_str_view(self.serial))
                + keyevent_tail(code),
    {
        if !self.connected {
            return None;
        }
        Some(keyevent_args(&self.serial, code))
    }

    /// The `adb` command that asks whether Termux is installed; `None` when
    /// no device is attached.
    pub fn termux_query(&self) -> (r: Option<Vec<String>>)
        ensures
            r is Some <==> self.connected,
            r matches Some(a) ==> args_view(a@) == serial_prefix(opt_str_view(self.serial))
                + package_path_tail(),
    {
        if !self.connected {
            return None;
        }
        Some(package_path_args(&self.serial))
    }

    /// Whether Termux is installed, from the output of the query (`None` when
    /// it could not be run): a device is attached and the output names a
    /// package path.
    pub fn termux_installed(&self, query_output: Option<&[u8]>) -> (b: bool)
        ensures
            b == (self.connected && match opt_bytes(query_output) {
                Some(o) => lists_package(o),
                None => false,
            }),
    {
        if !self.connected {
            return false;
        }
        match query_output {
            Some(out) => output_lists_package(out),
            None => false,
        }
    }


}

/// Where an automatic Termux launch stands: a cycle attaches to a device,
/// asks whether Termux is installed, and launches it (falling back to its
/// launcher intent) unless it was launched before.
#[derive(PartialEq, Eq, Structural, Clone, Copy, Debug)]
pub enum LaunchPhase {
    Idle,
    Listing,
    Querying,
    Starting,
    FallingBack,
}

/// How a cycle ended.
#[derive(PartialEq, Eq, Structural, Clone, Copy, Debug)]
pub enum LaunchOutcome {
    /// No usable device is attached.
    NoDevice,
    /// A device is attached but Termux is not installed on it.
    NotInstalled,
    /// Termux is installed and was launched before: not launched again.
    AlreadyLaunched,
    /// Termux's home activity was started.
    Launched,
    /// The start failed and the launcher intent was used instead.
    LaunchedByFallback,
}

/// What the application reports back after doing what the cycle asked.
pub enum LaunchEvent {
    /// Start a cycle that first lists the devices.
    Begin,
    /// Start a cycle on the connection as it stands.
    BeginWithCurrent,
    /// The output of `adb devices`, or `None` when it could not be run.
    DevicesListed(Option<Vec<u8>>),
    /// The output of the package query, or `None` when it could not be run.
    TermuxQueried(Option<Vec<u8>>),
    /// Whether the start command ran and succeeded.
    StartRan(bool),
    /// The launcher-intent command ran.
    FallbackRan,
}

/// A launch event as plain values.
pub enum LaunchEventView {
    Begin,
    BeginWithCurrent,
    DevicesListed(Option<Seq<u8>>),
    TermuxQueried(Option<Seq<u8>>),
    StartRan(bool),
    FallbackRan,
}

/// The view of optional owned bytes.
pub open spec fn opt_bytes_view(o: Option<Vec<u8>>) -> Option<Seq<u8>> {
    match o {
        Some(v) => Some(v@),
        None => None,
    }
}

impl View for LaunchEvent {
    type V = LaunchEventView;

    open spec fn view(&self) -> LaunchEventView {
        match self {
            LaunchEvent::Begin => LaunchEventView::Begin,
            LaunchEvent::BeginWithCurrent => LaunchEventView::BeginWithCurrent,
            LaunchEvent::DevicesListed(o) => LaunchEventView::DevicesListed(opt_bytes_view(*o)),
            LaunchEvent::TermuxQueried(o) => LaunchEventView::TermuxQueried(opt_bytes_view(*o)),
            LaunchEvent::StartRan(b) => LaunchEventView::StartRan(*b),
            LaunchEvent::FallbackRan => LaunchEventView::FallbackRan,
        }
    }
}

/// What the cycle asks the application to do next.
pub enum LaunchAction {
    /// Run `adb` with these arguments and report its output.
    ListDevices(Vec<String>),
    /// Run `adb` with these arguments and report its output.
    QueryTermux(Vec<String>),
    /// Run `adb` with these arguments and report whether it succeeded.
    StartTermux(Vec<String>),
    /// Run `adb` with these arguments and report when it ran.
    Fallback(Vec<String>),
    /// The cycle ended.
    Done(LaunchOutcome),
    /// The event did not answer what was asked; nothing changed.
    Ignored,
}

/// A launch action as plain values.
pub enum LaunchActionView {
    ListDevices(Seq<Seq<char>>),
    QueryTermux(Seq<Seq<char>>),
    StartTermux(Seq<Seq<char>>),
    Fallback(Seq<Seq<char>>),
    Done(LaunchOutcome),
    Ignored,
}

impl View for LaunchAction {
    type V = LaunchActionView;

    open spec fn view(&self) -> LaunchActionView {
        match self {
            LaunchAction::ListDevices(a) => LaunchActionView::ListDevices(args_view(a@)),
            LaunchAction::QueryTermux(a) => LaunchActionView::QueryTermux(args_view(a@)),
            LaunchAction::StartTermux(a) => LaunchActionView::StartTermux(args_view(a@)),
            LaunchAction::Fallback(a) => LaunchActionView::Fallback(args_view(a@)),
            LaunchAction::Done(o) => LaunchActionView::Done(*o),
            LaunchAction::Ignored => LaunchActionView::Ignored,
        }
    }
}

/// The progress of an automatic launch cycle.
pub struct AutoLaunch {
    pub phase: LaunchPhase,
}

impl AutoLaunch {
    /// No cycle under way.
    pub fn new() -> (r: AutoLaunch)
        ensures
            r.phase == LaunchPhase::Idle,
    {
        AutoLaunch { phase: LaunchPhase::Idle }
    }
}

/// A cycle's phase together with the device state it works on.
pub struct LaunchView {
    pub phase: LaunchPhase,
    pub serial: Option<Seq<char>>,
    pub connected: bool,
    pub launched: bool,
}

/// The plain values of a cycle and its device state.
pub open spec fn launch_view(
    cycle: AutoLaunch,
    serial: Option<String>,
    connected: bool,
    launched: bool,
) -> LaunchView {
    LaunchView {
        phase: cycle.phase,
        serial: opt_str_view(serial),
        connected,
        launched,
    }
}

/// `s` after a device listing: the first usable device found, or none.
pub open spec fn launch_after_listing(s: LaunchView, out: Option<Seq<u8>>) -> LaunchView {
    LaunchView {
        serial: refreshed_serial(out),
        connected: refreshed_serial(out) is Some,
        ..s
    }
}

/// Whether a package query's output (`None` when it could not be run) names
/// an installed package.
pub open spec fn query_installed(out: Option<Seq<u8>>) -> bool {
    match out {
        Some(o) => lists_package(o),
        None => false,
    }
}

/// One step of an automatic launch cycle: the state after event `e` in state
/// `s` and the next action. Termux is started only on an attached device
/// where it is installed and only when it was not launched before; a
/// finished start, or its fallback, records the launch. An event that does
/// not answer the pending request changes nothing.
pub open spec fn launch_step(s: LaunchView, e: LaunchEventView) -> (LaunchView, LaunchActionView) {
    let ignored = (s, LaunchActionView::Ignored);
    match e {
        LaunchEventView::Begin => if s.phase == LaunchPhase::Idle {
            (
                LaunchView { phase: LaunchPhase::Listing, ..s },
                LaunchActionView::ListDevices(seq!["devices"@]),
            )
        } else {
            ignored
        },
        LaunchEventView::BeginWithCurrent => if s.phase == LaunchPhase::Idle {
            if s.connected {
                (
                    LaunchView { phase: LaunchPhase::Querying, ..s },
                    LaunchActionView::QueryTermux(serial_prefix(s.serial) + package_path_tail()),
                )
            } else {
                (s, LaunchActionView::Done(LaunchOutcome::NoDevice))
            }
        } else {
            ignored
        },
        LaunchEventView::DevicesListed(o) => if s.phase == LaunchPhase::Listing {
            let s1 = launch_after_listing(s, o);
            if s1.connected {
                (
                    LaunchView { phase: LaunchPhase::Querying, ..s1 },
                    LaunchActionView::QueryTermux(serial_prefix(s1.serial) + package_path_tail()),
                )
            } else {
                (
                    LaunchView { phase: LaunchPhase::Idle, ..s1 },
                    LaunchActionView::Done(LaunchOutcome::NoDevice),
                )
            }
        } else {
            ignored
        },
        LaunchEventView::TermuxQueried(o) => if s.phase == LaunchPhase::Querying {
            if !query_installed(o) {
                (
                    LaunchView { phase: LaunchPhase::Idle, ..s },
                    LaunchActionView::Done(LaunchOutcome::NotInstalled),
                )
            } else if s.launched {
                (
                    LaunchView { phase: LaunchPhase::Idle, ..s },
                    LaunchActionView::Done(LaunchOutcome::AlreadyLaunched),
                )
            } else {
                (
                    LaunchView { phase: LaunchPhase::Starting, ..s },
                    LaunchActionView::StartTermux(serial_prefix(s.serial) + start_home_tail()),
                )
            }
        } else {
            ignored
        },
        LaunchEventView::StartRan(ok) => if s.phase == LaunchPhase::Starting {
            if ok {
                (
                    LaunchView { phase: LaunchPhase::Idle, launched: true, ..s },
                    LaunchActionView::Done(LaunchOutcome::Launched),
                )
            } else {
                (
                    LaunchView { phase: LaunchPhase::FallingBack, ..s },
                    LaunchActionView::Fallback(serial_prefix(s.serial) + monkey_tail()),
                )
            }
        } else {
            ignored
        },
        LaunchEventView::FallbackRan => if s.phase == LaunchPhase::FallingBack {
            (
                LaunchView { phase: LaunchPhase::Idle, launched: true, ..s },
                LaunchActionView::Done(LaunchOutcome::LaunchedByFallback),
            )
        } else {
            ignored
        },
    }
}

/// One step of an automatic launch cycle on a device state held in
/// `serial`, `connected` and `launched`.
pub fn auto_launch_step(
    cycle: &mut AutoLaunch,
    serial: &mut Option<String>,
    connected: &mut bool,
    launched: &mut bool,
    ev: LaunchEvent,
) -> (r: LaunchAction)
    ensures
        (launch_view(*final(cycle), *final(serial), *final(connected), *final(launched)), r@)
            == launch_step(launch_view(*old(cycle), *old(serial), *old(connected), *old(launched)), ev@),
{
    match ev {
        LaunchEvent::Begin => {
            if cycle.phase == LaunchPhase::Idle {
                cycle.phase = LaunchPhase::Listing;
                LaunchAction::ListDevices(devices_args())
            } else {
                LaunchAction::Ignored
            }
        },
        LaunchEvent::BeginWithCurrent => {
            if cycle.phase == LaunchPhase::Idle {
                if *connected {
                    cycle.phase = LaunchPhase::Querying;
                    LaunchAction::QueryTermux(package_path_args(serial))
                } else {
                    LaunchAction::Done(LaunchOutcome::NoDevice)
                }
            } else {
                LaunchAction::Ignored
            }
        },
        LaunchEvent::DevicesListed(out) => {
            if cycle.phase == LaunchPhase::Listing {
                let found = match &out {
                    Some(bytes) => serial_from_devices_output(bytes.as_slice()),
                    None => None,
                };
                *connected = found.is_some();
                *serial = found;
                if *connected {
                    cycle.phase = LaunchPhase::Querying;
                    LaunchAction::QueryTermux(package_path_args(serial))
                } else {
                    cycle.phase = LaunchPhase::Idle;
                    LaunchAction::Done(LaunchOutcome::NoDevice)
                }
            } else {
                LaunchAction::Ignored
            }
        },
        LaunchEvent::TermuxQueried(out) => {
            if cycle.phase == LaunchPhase::Querying {
                let installed = match &out {
                    Some(bytes) => output_lists_package(bytes.as_slice()),
                    None => false,
                };
                if !installed {
                    cycle.phase = LaunchPhase::Idle;
                    LaunchAction::Done(LaunchOutcome::NotInstalled)
                } else if *launched {
                    cycle.phase = LaunchPhase::Idle;
                    LaunchAction::Done(LaunchOutcome::AlreadyLaunched)
                } else {
                    cycle.phase = LaunchPhase::Starting;
                    LaunchAction::StartTermux(start_home_args(serial))
                }
            } else {
                LaunchAction::Ignored
            }
        },
        LaunchEvent::StartRan(ok) => {
            if cycle.phase == LaunchPhase::Starting {
                if ok {
                    cycle.phase = LaunchPhase::Idle;
                    *launched = true;
                    LaunchAction::Done(LaunchOutcome::Launched)
                } else {
                    cycle.phase = LaunchPhase::FallingBack;
                    LaunchAction::Fallback(monkey_args(serial))
                }
            } else {
                LaunchAction::Ignored
            }
        },
        LaunchEvent::FallbackRan => {
            if cycle.phase == LaunchPhase::FallingBack {
                cycle.phase = LaunchPhase::Idle;
                *launched = true;
                LaunchAction::Done(LaunchOutcome::LaunchedByFallback)
            } else {
                LaunchAction::Ignored
            }
        },
    }
}

impl AndroidBridge {
    /// One step of an automatic launch cycle on this bridge's device state.
    pub fn auto_launch(&mut self, cycle: &mut AutoLaunch, ev: LaunchEvent) -> (r: LaunchAction)
        ensures
            (launch_view(*final(cycle), final(self).serial, final(self).connected, final(self).termux_launched), r@)
                == launch_step(
                launch_view(*old(cycle), old(self).serial, old(self).connected, old(self).termux_launched),
                ev@,
            ),
    {
        auto_launch_step(cycle, &mut self.serial, &mut self.connected, &mut self.termux_launched, ev)
    }
}

/// The state and actions after events `es`, in order, from state `s`.
pub open spec fn run_launch(s: LaunchView, es: Seq<LaunchEventView>) -> (LaunchView, Seq<LaunchActionView>)
    decreases es.len(),
{
    if es.len() == 0 {
        (s, Seq::<LaunchActionView>::empty())
    } else {
        let (s1, a) = launch_step(s, es[0]);
        let (s2, acts) = run_launch(s1, es.drop_first());
        (s2, seq![a] + acts)
    }
}

/// How many of `acts` start Termux.
pub open spec fn starts(acts: Seq<LaunchActionView>) -> nat
    decreases acts.len(),
{
    if acts.len() == 0 {
        0
    } else {
        (if acts[0] is StartTermux {
            1nat
        } else {
            0nat
        }) + starts(acts.drop_first())
    }
}

/// What holds in every state a cycle reaches from an idle one: it queries,
/// starts and falls back only while a device is attached.
pub open spec fn launch_inv(s: LaunchView) -> bool {
    (s.phase == LaunchPhase::Querying || s.phase == LaunchPhase::Starting || s.phase
        == LaunchPhase::FallingBack) ==> s.connected
}

/// Every idle state meets the invariant, and every step keeps it.
pub proof fn law_launch_invariant(s: LaunchView, e: LaunchEventView)
    ensures
        s.phase == LaunchPhase::Idle ==> launch_inv(s),
        launch_inv(s) ==> launch_inv(launch_step(s, e).0),
{
}

/// In a reachable state, Termux is started only on an attached device, after
/// a package query that named an installed package, and only when it was not
/// launched before; once recorded, a launch stays recorded.
pub proof fn law_launch_needs_installed_termux(s: LaunchView, e: LaunchEventView)
    requires
        launch_inv(s),
    ensures
        launch_step(s, e).1 is StartTermux ==> s.connected && !s.launched && (
        e matches LaunchEventView::TermuxQueried(Some(o)) && lists_package(o)),
        s.launched ==> launch_step(s, e).0.launched,
{
}

/// How each answer ends or continues a cycle. A query that found no package
/// ends it as not installed; one that found Termux already launched ends it
/// as such; otherwise Termux's home activity is started on the device
/// (`-s <serial>` when known, then `shell am start -n
/// com.termux/.HomeActivity`). A start that succeeded records the launch; one
/// that failed runs the launcher intent (`shell monkey -p com.termux -c
/// android.intent.category.LAUNCHER 1`), after which the launch is recorded
/// too. A listing that finds no device ends the cycle with no device and the
/// connection dropped.
pub proof fn law_launch_outcomes(s: LaunchView, out: Seq<u8>, o: Option<Seq<u8>>)
    ensures
        (s.phase == LaunchPhase::Querying && !query_installed(o)) ==> launch_step(
            s,
            LaunchEventView::TermuxQueried(o),
        ).1 == LaunchActionView::Done(LaunchOutcome::NotInstalled),
        (s.phase == LaunchPhase::Querying && lists_package(out) && s.launched) ==> launch_step(
            s,
            LaunchEventView::TermuxQueried(Some(out)),
        ).1 == LaunchActionView::Done(LaunchOutcome::AlreadyLaunched),
        (s.phase == LaunchPhase::Querying && lists_package(out) && !s.launched) ==> launch_step(
            s,
            LaunchEventView::TermuxQueried(Some(out)),
        ).1 == LaunchActionView::StartTermux(
            serial_prefix(s.serial) + seq!["shell"@, "am"@, "start"@, "-n"@,
                "com.termux/.HomeActivity"@],
        ),
        s.phase == LaunchPhase::Starting ==> launch_step(s, LaunchEventView::StartRan(true)) == (
            LaunchView { phase: LaunchPhase::Idle, serial: s.serial, connected: s.connected, launched: true },
            LaunchActionView::Done(LaunchOutcome::Launched),
        ),
        s.phase == LaunchPhase::Starting ==> launch_step(s, LaunchEventView::StartRan(false)) == (
            LaunchView {
                phase: LaunchPhase::FallingBack,
                serial: s.serial,
                connected: s.connected,
                launched: s.launched,
            },
            LaunchActionView::Fallback(
                serial_prefix(s.serial) + seq!["shell"@, "monkey"@, "-p"@, "com.termux"@, "-c"@,
                    "android.intent.category.LAUNCHER"@, "1"@],
            ),
        ),
        s.phase == LaunchPhase::FallingBack ==> launch_step(s, LaunchEventView::FallbackRan) == (
            LaunchView { phase: LaunchPhase::Idle, serial: s.serial, connected: s.connected, launched: true },
            LaunchActionView::Done(LaunchOutcome::LaunchedByFallback),
        ),
        (s.phase == LaunchPhase::Listing && refreshed_serial(o) is None) ==> launch_step(
            s,
            LaunchEventView::DevicesListed(o),
        ) == (
            LaunchView { phase: LaunchPhase::Idle, serial: None, connected: false, launched: s.launched },
            LaunchActionView::Done(LaunchOutcome::NoDevice),
        ),
{
}

proof fn lemma_no_start_once_launched(s: LaunchView, es: Seq<LaunchEventView>)
    requires
        s.launched,
    ensures
        starts(run_launch(s, es).1) == 0,
    decreases es.len(),
{
    if es.len() > 0 {
        let (s1, a) = launch_step(s, es[0]);
        lemma_no_start_once_launched(s1, es.drop_first());
        assert((seq![a] + run_launch(s1, es.drop_first()).1).drop_first() =~= run_launch(
            s1,
            es.drop_first(),
        ).1);
    }
}

proof fn lemma_no_start_while_starting(s: LaunchView, es: Seq<LaunchEventView>)
    requires
        s.phase == LaunchPhase::Starting || s.phase == LaunchPhase::FallingBack,
    ensures
        starts(run_launch(s, es).1) == 0,
    decreases es.len(),
{
    if es.len() > 0 {
        let (s1, a) = launch_step(s, es[0]);
        if s1.launched {
            lemma_no_start_once_launched(s1, es.drop_first());
        } else {
            lemma_no_start_while_starting(s1, es.drop_first());
        }
        assert((seq![a] + run_launch(s1, es.drop_first()).1).drop_first() =~= run_launch(
            s1,
            es.drop_first(),
        ).1);
    }
}

/// Whatever the application reports, Termux is started at most once over
/// any run of cycles, and never once the launch is recorded.
pub proof fn law_auto_launch_at_most_once(s: LaunchView, es: Seq<LaunchEventView>)
    ensures
        starts(run_launch(s, es).1) <= 1,
        s.launched ==> starts(run_launch(s, es).1) == 0,
    decreases es.len(),
{
    if s.launched {
        lemma_no_start_once_launched(s, es);
    }
    if es.len() > 0 {
        let (s1, a) = launch_step(s, es[0]);
        let rest = run_launch(s1, es.drop_first()).1;
        assert((seq![a] + rest).drop_first() =~= rest);
        if a is StartTermux {
            lemma_no_start_while_starting(s1, es.drop_first());
        } else {
            law_auto_launch_at_most_once(s1, es.drop_first());
        }
    }
}

} // verus!
