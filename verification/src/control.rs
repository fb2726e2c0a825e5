//! WorldControl: the world's sole authority over what the inhabitant
//! environment experiences. It holds the policy state (power, input and
//! display gates, time scale, resource budgets, registered virtual devices)
//! and a queue of commands that the world processes in the order they were
//! given.
//!
//! Time scale and budgets are single-precision numbers; this crate stores and
//! compares them by their IEEE-754 bit patterns (`f32::to_bits`) and never
//! computes on them.

use vstd::prelude::*;

use std::collections::VecDeque;

verus! {

/// A resource whose budget the world sets.
#[derive(PartialEq, Eq, Structural, Clone, Copy, Debug)]
pub enum ResourceKind {
    Cpu,
    Ram,
    Storage,
    Network,
}

/// A command from the world to the control plane.
#[derive(Clone, Debug)]
pub enum WorldCommand {
    LaunchTermux,
    SetInputEnabled(bool),
    SetDisplayEnabled(bool),
    SetEnvironmentPowered(bool),
    /// The new time scale's bit pattern, already clamped at zero by whoever
    /// built the command from a number.
    SetTimeScale(u32),
    /// The new budget's bit pattern for one resource.
    SetResourceBudget { kind: ResourceKind, limit: u32 },
    RegisterVirtualDevice { id: String, class: String },
    ShutdownGuest,
    ShutdownApp,
}

/// A virtual device the world presents to the guest.
#[derive(Clone, Debug)]
pub struct VirtualDeviceSpec {
    pub id: String,
    pub class: String,
}

/// What processing one command asks of the world outside the control plane.
#[derive(PartialEq, Eq, Structural, Clone, Copy, Debug)]
pub enum ControlAction {
    /// The command only changed the control state.
    Applied,
    /// Ask the runtime to launch Termux.
    LaunchTermux,
    /// A launch was refused because the environment is unpowered.
    LaunchDenied,
    /// The time scale now has this bit pattern.
    TimeScaleSet(u32),
    /// This resource's budget now has this bit pattern.
    BudgetSet(ResourceKind, u32),
    /// Ask the runtime to shut the guest down.
    ShutdownGuest,
    /// Shut the guest down and end the application.
    ShutdownApp,
}

/// The control plane's policy state, without its command queue.
pub struct ControlState {
    pub powered: bool,
    pub input_enabled: bool,
    pub display_enabled: bool,
    pub time_scale_bits: u32,
    pub cpu_budget_bits: u32,
    pub ram_budget_mb_bits: u32,
    pub storage_budget_mb_bits: u32,
    pub network_budget_kbps_bits: u32,
    pub devices: Seq<VirtualDeviceSpec>,
}

/// Whether input reaches the guest in state `s`.
pub open spec fn input_allowed(s: ControlState) -> bool {
    s.powered && s.input_enabled
}

/// Whether the guest's display is shown in state `s`.
pub open spec fn display_allowed(s: ControlState) -> bool {
    s.powered && s.display_enabled
}

/// `s` with the budget of `kind` set to `limit`.
pub open spec fn with_budget(s: ControlState, kind: ResourceKind, limit: u32) -> ControlState {
    match kind {
        ResourceKind::Cpu => ControlState { cpu_budget_bits: limit, ..s },
        ResourceKind::Ram => ControlState { ram_budget_mb_bits: limit, ..s },
        ResourceKind::Storage => ControlState { storage_budget_mb_bits: limit, ..s },
        ResourceKind::Network => ControlState { network_budget_kbps_bits: limit, ..s },
    }
}

/// The state after command `c` in state `s`, and what it asks of the world.
pub open spec fn step(s: ControlState, c: WorldCommand) -> (ControlState, ControlAction) {
    match c {
        WorldCommand::LaunchTermux => (
            s,
            if s.powered {
                ControlAction::LaunchTermux
            } else {
                ControlAction::LaunchDenied
            },
        ),
        WorldCommand::SetInputEnabled(v) => (ControlState { input_enabled: v, ..s }, ControlAction::Applied),
        WorldCommand::SetDisplayEnabled(v) => (
            ControlState { display_enabled: v, ..s },
            ControlAction::Applied,
        ),
        WorldCommand::SetEnvironmentPowered(v) => (ControlState { powered: v, ..s }, ControlAction::Applied),
        WorldCommand::SetTimeScale(b) => (
            ControlState { time_scale_bits: b, ..s },
            ControlAction::TimeScaleSet(b),
        ),
        WorldCommand::SetResourceBudget { kind, limit } => (
            with_budget(s, kind, limit),
            ControlAction::BudgetSet(kind, limit),
        ),
        WorldCommand::RegisterVirtualDevice { id, class } => (
            ControlState { devices: s.devices.push(VirtualDeviceSpec { id, class }), ..s },
            ControlAction::Applied,
        ),
        WorldCommand::ShutdownGuest => (s, ControlAction::ShutdownGuest),
        WorldCommand::ShutdownApp => (s, ControlAction::ShutdownApp),
    }
}

/// Processing the queue `q` from state `s`: the final state, the actions in
/// order, and how many commands were taken. Processing stops after a
/// `ShutdownApp`, since the application ends there.
pub open spec fn run(s: ControlState, q: Seq<WorldCommand>) -> (ControlState, Seq<ControlAction>, nat)
    decreases q.len(),
{
    if q.len() == 0 {
        (s, Seq::<ControlAction>::empty(), 0)
    } else {
        let (s1, a) = step(s, q[0]);
        if q[0] is ShutdownApp {
            (s1, seq![a], 1)
        } else {
            let (s2, acts, n) = run(s1, q.drop_first());
            (s2, seq![a] + acts, n + 1)
        }
    }
}

/// The state a new control plane starts in: powered, input and display
/// enabled, time scale 1.0, CPU budget 1.0, 4096 MB of RAM, 64000 MB of
/// storage, 100000 kbps of network, no devices.
pub open spec fn default_state() -> ControlState {
    ControlState {
        powered: true,
        input_enabled: true,
        display_enabled: true,
        time_scale_bits: ONE_BITS,
        cpu_budget_bits: ONE_BITS,
        ram_budget_mb_bits: DEFAULT_RAM_MB_BITS,
        storage_budget_mb_bits: DEFAULT_STORAGE_MB_BITS,
        network_budget_kbps_bits: DEFAULT_NETWORK_KBPS_BITS,
        devices: Seq::<VirtualDeviceSpec>::empty(),
    }
}

/// A launch request is carried out exactly when the environment is powered;
/// otherwise it is denied.
pub proof fn law_launch_needs_power(s: ControlState)
    ensures
        step(s, WorldCommand::LaunchTermux).1 == ControlAction::LaunchTermux <==> s.powered,
        !s.powered ==> step(s, WorldCommand::LaunchTermux).1 == ControlAction::LaunchDenied,
        step(s, WorldCommand::LaunchTermux).0 == s,
{
}

/// Powering the environment off closes both the input and the display gate,
/// whatever their own flags say.
pub proof fn law_power_off_closes_gates(s: ControlState)
    ensures
        !input_allowed(step(s, WorldCommand::SetEnvironmentPowered(false)).0),
        !display_allowed(step(s, WorldCommand::SetEnvironmentPowered(false)).0),
{
}

/// Each setter changes its own field and nothing else. Powering the
/// environment on or off leaves the input and display flags as they were, so
/// input reaches the guest after power returns only if it was enabled; the
/// input and display switches leave the power; a time scale or a budget
/// changes only that number; registering a device appends it behind the
/// others; a launch or shutdown request changes no state at all.
pub proof fn law_setters_change_one_field(
    s: ControlState,
    v: bool,
    b: u32,
    id: String,
    class: String,
)
    ensures
        step(s, WorldCommand::SetEnvironmentPowered(v)) == (
            ControlState {
                powered: v,
                input_enabled: s.input_enabled,
                display_enabled: s.display_enabled,
                time_scale_bits: s.time_scale_bits,
                cpu_budget_bits: s.cpu_budget_bits,
                ram_budget_mb_bits: s.ram_budget_mb_bits,
                storage_budget_mb_bits: s.storage_budget_mb_bits,
                network_budget_kbps_bits: s.network_budget_kbps_bits,
                devices: s.devices,
            },
            ControlAction::Applied,
        ),
        input_allowed(step(s, WorldCommand::SetEnvironmentPowered(true)).0) == s.input_enabled,
        display_allowed(step(s, WorldCommand::SetEnvironmentPowered(true)).0) == s.display_enabled,
        step(s, WorldCommand::SetInputEnabled(v)) == (
            ControlState {
                powered: s.powered,
                input_enabled: v,
                display_enabled: s.display_enabled,
                time_scale_bits: s.time_scale_bits,
                cpu_budget_bits: s.cpu_budget_bits,
                ram_budget_mb_bits: s.ram_budget_mb_bits,
                storage_budget_mb_bits: s.storage_budget_mb_bits,
                network_budget_kbps_bits: s.network_budget_kbps_bits,
                devices: s.devices,
            },
            ControlAction::Applied,
        ),
        step(s, WorldCommand::SetDisplayEnabled(v)) == (
            ControlState {
                powered: s.powered,
                input_enabled: s.input_enabled,
                display_enabled: v,
                time_scale_bits: s.time_scale_bits,
                cpu_budget_bits: s.cpu_budget_bits,
                ram_budget_mb_bits: s.ram_budget_mb_bits,
                storage_budget_mb_bits: s.storage_budget_mb_bits,
                network_budget_kbps_bits: s.network_budget_kbps_bits,
                devices: s.devices,
            },
            ControlAction::Applied,
        ),
        step(s, WorldCommand::SetTimeScale(b)) == (
            ControlState {
                powered: s.powered,
                input_enabled: s.input_enabled,
                display_enabled: s.display_enabled,
                time_scale_bits: b,
                cpu_budget_bits: s.cpu_budget_bits,
                ram_budget_mb_bits: s.ram_budget_mb_bits,
                storage_budget_mb_bits: s.storage_budget_mb_bits,
                network_budget_kbps_bits: s.network_budget_kbps_bits,
                devices: s.devices,
            },
            ControlAction::TimeScaleSet(b),
        ),
        step(s, WorldCommand::SetResourceBudget { kind: ResourceKind::Cpu, limit: b }) == (
            ControlState {
                powered: s.powered,
                input_enabled: s.input_enabled,
                display_enabled: s.display_enabled,
                time_scale_bits: s.time_scale_bits,
                cpu_budget_bits: b,
                ram_budget_mb_bits: s.ram_budget_mb_bits,
                storage_budget_mb_bits: s.storage_budget_mb_bits,
                network_budget_kbps_bits: s.network_budget_kbps_bits,
                devices: s.devices,
            },
            ControlAction::BudgetSet(ResourceKind::Cpu, b),
        ),
        step(s, WorldCommand::SetResourceBudget { kind: ResourceKind::Ram, limit: b }) == (
            ControlState {
                powered: s.powered,
                input_enabled: s.input_enabled,
                display_enabled: s.display_enabled,
                time_scale_bits: s.time_scale_bits,
                cpu_budget_bits: s.cpu_budget_bits,
                ram_budget_mb_bits: b,
                storage_budget_mb_bits: s.storage_budget_mb_bits,
                network_budget_kbps_bits: s.network_budget_kbps_bits,
                devices: s.devices,
            },
            ControlAction::BudgetSet(ResourceKind::Ram, b),
        ),
        step(s, WorldCommand::SetResourceBudget { kind: ResourceKind::Storage, limit: b }) == (
            ControlState {
                powered: s.powered,
                input_enabled: s.input_enabled,
                display_enabled: s.display_enabled,
                time_scale_bits: s.time_scale_bits,
                cpu_budget_bits: s.cpu_budget_bits,
                ram_budget_mb_bits: s.ram_budget_mb_bits,
                storage_budget_mb_bits: b,
                network_budget_kbps_bits: s.network_budget_kbps_bits,
                devices: s.devices,
            },
            ControlAction::BudgetSet(ResourceKind::Storage, b),
        ),
        step(s, WorldCommand::SetResourceBudget { kind: ResourceKind::Network, limit: b }) == (
            ControlState {
                powered: s.powered,
                input_enabled: s.input_enabled,
                display_enabled: s.display_enabled,
                time_scale_bits: s.time_scale_bits,
                cpu_budget_bits: s.cpu_budget_bits,
                ram_budget_mb_bits: s.ram_budget_mb_bits,
                storage_budget_mb_bits: s.storage_budget_mb_bits,
                network_budget_kbps_bits: b,
                devices: s.devices,
            },
            ControlAction::BudgetSet(ResourceKind::Network, b),
        ),
        step(s, WorldCommand::RegisterVirtualDevice { id, class }).0.devices.len() == s.devices.len()
            + 1,
        step(s, WorldCommand::RegisterVirtualDevice { id, class }).0.devices.drop_last()
            == s.devices,
        step(s, WorldCommand::RegisterVirtualDevice { id, class }).0.devices.last().id == id,
        step(s, WorldCommand::RegisterVirtualDevice { id, class }).0.devices.last().class == class,
        step(s, WorldCommand::RegisterVirtualDevice { id, class }).0.powered == s.powered,
        step(s, WorldCommand::RegisterVirtualDevice { id, class }).0.input_enabled
            == s.input_enabled,
        step(s, WorldCommand::RegisterVirtualDevice { id, class }).0.display_enabled
            == s.display_enabled,
        step(s, WorldCommand::RegisterVirtualDevice { id, class }).1 == ControlAction::Applied,
        step(s, WorldCommand::LaunchTermux).0 == s,
        step(s, WorldCommand::ShutdownGuest) == (s, ControlAction::ShutdownGuest),
        step(s, WorldCommand::ShutdownApp) == (s, ControlAction::ShutdownApp),
{
    let d = step(s, WorldCommand::RegisterVirtualDevice { id, class }).0.devices;
    assert(d.drop_last() =~= s.devices);
}

/// From an unpowered state, a batch of commands that never powers the
/// environment back on asks for no launch at all.
pub proof fn law_unpowered_batch_never_launches(s: ControlState, q: Seq<WorldCommand>)
    requires
        !s.powered,
        forall|i: int| #![trigger q[i]] 0 <= i < q.len() ==> !(q[i] matches WorldCommand::SetEnvironmentPowered(true)),
    ensures
        forall|j: int|
            0 <= j < run(s, q).1.len() ==> run(s, q).1[j] != ControlAction::LaunchTermux,
    decreases q.len(),
{
    if q.len() > 0 {
        let (s1, a) = step(s, q[0]);
        assert(!s1.powered);
        if !(q[0] is ShutdownApp) {
            let rest = q.drop_first();
            assert forall|i: int| #![trigger rest[i]] 0 <= i < rest.len() implies !(rest[i] matches WorldCommand::SetEnvironmentPowered(true)) by {
                assert(rest[i] == q[i + 1]);
            }
            law_unpowered_batch_never_launches(s1, rest);
            let (s2, acts, n) = run(s1, rest);
            assert forall|j: int| 0 <= j < run(s, q).1.len() implies run(s, q).1[j]
                != ControlAction::LaunchTermux by {
                if j > 0 {
                    assert(run(s, q).1[j] == acts[j - 1]);
                }
            }
        }
    }
}

/// Processing takes one action per command it takes. A batch with no
/// `ShutdownApp` is taken whole; a batch `p`, `ShutdownApp`, `rest` where `p`
/// holds none is taken up to and including that `ShutdownApp`, whose action
/// comes last, and `rest` is left waiting.
pub proof fn law_run_stops_at_exit(
    s: ControlState,
    p: Seq<WorldCommand>,
    rest: Seq<WorldCommand>,
)
    requires
        forall|i: int| #![trigger p[i]] 0 <= i < p.len() ==> !(p[i] is ShutdownApp),
    ensures
        run(s, p).1.len() == run(s, p).2,
        run(s, p).2 == p.len(),
        run(s, p + seq![WorldCommand::ShutdownApp] + rest).2 == p.len() + 1,
        run(s, p + seq![WorldCommand::ShutdownApp] + rest).1.len() == p.len() + 1,
        run(s, p + seq![WorldCommand::ShutdownApp] + rest).1.last() == ControlAction::ShutdownApp,
    decreases p.len(),
{
    let q = p + seq![WorldCommand::ShutdownApp] + rest;
    if p.len() == 0 {
        assert(q[0] is ShutdownApp);
    } else {
        let p1 = p.drop_first();
        assert forall|i: int| #![trigger p1[i]] 0 <= i < p1.len() implies !(p1[i] is ShutdownApp) by {
            assert(p1[i] == p[i + 1]);
        }
        let (s1, a) = step(s, p[0]);
        law_run_stops_at_exit(s1, p1, rest);
        assert(q[0] == p[0]);
        assert(q.drop_first() =~= p1 + seq![WorldCommand::ShutdownApp] + rest);
        let acts = run(s1, p1 + seq![WorldCommand::ShutdownApp] + rest).1;
        assert((seq![a] + acts).last() == acts.last());
    }
}

/// Processing two batches one after the other is processing them as one,
/// provided the first does not end the application.
pub proof fn law_batches_compose(s: ControlState, q1: Seq<WorldCommand>, q2: Seq<WorldCommand>)
    requires
        forall|i: int| #![trigger q1[i]] 0 <= i < q1.len() ==> !(q1[i] is ShutdownApp),
    ensures
        run(s, q1 + q2) == ({
            let (s1, a1, n1) = run(s, q1);
            let (s2, a2, n2) = run(s1, q2);
            (s2, a1 + a2, n1 + n2)
        }),
    decreases q1.len(),
{
    if q1.len() == 0 {
        assert(q1 + q2 =~= q2);
        let (s2, a2, n2) = run(s, q2);
        assert(Seq::<ControlAction>::empty() + a2 =~= a2);
    } else {
        let rest = q1.drop_first();
        assert forall|i: int| #![trigger rest[i]] 0 <= i < rest.len() implies !(rest[i] is ShutdownApp) by {
            assert(rest[i] == q1[i + 1]);
        }
        let (s1, a) = step(s, q1[0]);
        law_batches_compose(s1, rest, q2);
        assert((q1 + q2)[0] == q1[0]);
        assert((q1 + q2).drop_first() =~= rest + q2);
        let (t1, b1, m1) = run(s1, rest);
        let (t2, b2, m2) = run(t1, q2);
        assert(seq![a] + (b1 + b2) =~= (seq![a] + b1) + b2);
    }
}

/// Processing never removes a registered virtual device: the devices before
/// come first, in the same order, after.
pub proof fn law_devices_only_grow(s: ControlState, q: Seq<WorldCommand>)
    ensures
        run(s, q).0.devices.len() >= s.devices.len(),
        run(s, q).0.devices.take(s.devices.len() as int) == s.devices,
    decreases q.len(),
{
    if q.len() > 0 {
        let (s1, a) = step(s, q[0]);
        assert(s1.devices.len() >= s.devices.len());
        assert(s1.devices.take(s.devices.len() as int) =~= s.devices);
        if !(q[0] is ShutdownApp) {
            law_devices_only_grow(s1, q.drop_first());
            let s2 = run(s1, q.drop_first()).0;
            assert(s2.devices.take(s.devices.len() as int) =~= s1.devices.take(
                s1.devices.len() as int,
            ).take(s.devices.len() as int));
        }
    }
}

/// The world's control plane.
pub struct WorldControl {
    environment_powered: bool,
    input_enabled: bool,
    display_enabled: bool,
    time_scale_bits: u32,
    cpu_budget_bits: u32,
    ram_budget_mb_bits: u32,
    storage_budget_mb_bits: u32,
    network_budget_kbps_bits: u32,
    virtual_devices: Vec<VirtualDeviceSpec>,
    commands: VecDeque<WorldCommand>,
}

/// Bit pattern of 1.0.
pub const ONE_BITS: u32 = 0x3f80_0000;

/// Bit pattern of 4096.0.
pub const DEFAULT_RAM_MB_BITS: u32 = 0x4580_0000;

/// Bit pattern of 64000.0.
pub const DEFAULT_STORAGE_MB_BITS: u32 = 0x477a_0000;

/// Bit pattern of 100000.0.
pub const DEFAULT_NETWORK_KBPS_BITS: u32 = 0x47c3_5000;

impl WorldControl {
    /// The policy state.
    pub closed spec fn state(&self) -> ControlState {
        ControlState {
            powered: self.environment_powered,
            input_enabled: self.input_enabled,
            display_enabled: self.display_enabled,
            time_scale_bits: self.time_scale_bits,
            cpu_budget_bits: self.cpu_budget_bits,
            ram_budget_mb_bits: self.ram_budget_mb_bits,
            storage_budget_mb_bits: self.storage_budget_mb_bits,
            network_budget_kbps_bits: self.network_budget_kbps_bits,
            devices: self.virtual_devices@,
        }
    }

    /// The commands waiting to be processed, oldest first.
    pub closed spec fn queue(&self) -> Seq<WorldCommand> {
        self.commands@
    }

    /// Whether the environment is powered.
    pub fn environment_powered(&self) -> (r: bool)
        ensures
            r == self.state().powered,
    {
        self.environment_powered
    }

    /// Whether input is enabled (it reaches the guest only while powered too).
    pub fn input_enabled(&self) -> (r: bool)
        ensures
            r == self.state().input_enabled,
    {
        self.input_enabled
    }

    /// Whether the display is enabled (it is shown only while powered too).
    pub fn display_enabled(&self) -> (r: bool)
        ensures
            r == self.state().display_enabled,
    {
        self.display_enabled
    }

    /// The bit pattern of the time scale.
    pub fn time_scale_bits(&self) -> (r: u32)
        ensures
            r == self.state().time_scale_bits,
    {
        self.time_scale_bits
    }

    /// The bit pattern of the CPU budget.
    pub fn cpu_budget_bits(&self) -> (r: u32)
        ensures
            r == self.state().cpu_budget_bits,
    {
        self.cpu_budget_bits
    }

    /// The bit pattern of the RAM budget, in MB.
    pub fn ram_budget_mb_bits(&self) -> (r: u32)
        ensures
            r == self.state().ram_budget_mb_bits,
    {
        self.ram_budget_mb_bits
    }

    /// The bit pattern of the storage budget, in MB.
    pub fn storage_budget_mb_bits(&self) -> (r: u32)
        ensures
            r == self.state().storage_budget_mb_bits,
    {
        self.storage_budget_mb_bits
    }

    /// The bit pattern of the network budget, in kbps.
    pub fn network_budget_kbps_bits(&self) -> (r: u32)
        ensures
            r == self.state().network_budget_kbps_bits,
    {
        self.network_budget_kbps_bits
    }

    /// The registered virtual devices, in the order they were registered.
    pub fn virtual_devices(&self) -> (r: &[VirtualDeviceSpec])
        ensures
            r@ == self.state().devices,
    {
        self.virtual_devices.as_slice()
    }

    /// Queues `cmd` behind the commands already waiting.
    pub fn enqueue(&mut self, cmd: WorldCommand)
        ensures
            final(self).queue() == old(self).queue().push(cmd),
            final(self).state() == old(self).state(),
    {
        self.commands.push_back(cmd);
    }

    /// Whether input reaches the guest: the environment is powered and input
    /// is enabled.
    pub fn allows_input(&self) -> (b: bool)
        ensures
            b == input_allowed(self.state()),
    {
        self.environment_powered && self.input_enabled
    }

    /// Whether the guest's display is shown: the environment is powered and
    /// the display is enabled.
    pub fn allows_display(&self) -> (b: bool)
        ensures
            b == display_allowed(self.state()),
    {
        self.environment_powered && self.display_enabled
    }

    /// Applies one command to the policy state and says what it asks of the
    /// world.
    pub fn apply(&mut self, cmd: WorldCommand) -> (r: ControlAction)
        ensures
            (final(self).state(), r) == step(old(self).state(), cmd),
            final(self).queue() == old(self).queue(),
    {
        match cmd {
            WorldCommand::LaunchTermux => {
                if self.environment_powered {
                    ControlAction::LaunchTermux
                } else {
                    ControlAction::LaunchDenied
                }
            },
            WorldCommand::SetInputEnabled(v) => {
                self.input_enabled = v;
                ControlAction::Applied
            },
            WorldCommand::SetDisplayEnabled(v) => {
                self.display_enabled = v;
                ControlAction::Applied
            },
            WorldCommand::SetEnvironmentPowered(v) => {
                self.environment_powered = v;
                ControlAction::Applied
            },
            WorldCommand::SetTimeScale(b) => {
                self.time_scale_bits = b;
                ControlAction::TimeScaleSet(b)
            },
            WorldCommand::SetResourceBudget { kind, limit } => {
                match kind {
                    ResourceKind::Cpu => self.cpu_budget_bits = limit,
                    ResourceKind::Ram => self.ram_budget_mb_bits = limit,
                    ResourceKind::Storage => self.storage_budget_mb_bits = limit,
                    ResourceKind::Network => self.network_budget_kbps_bits = limit,
                }
                ControlAction::BudgetSet(kind, limit)
            },
            WorldCommand::RegisterVirtualDevice { id, class } => {
                self.virtual_devices.push(VirtualDeviceSpec { id, class });
                ControlAction::Applied
            },
            WorldCommand::ShutdownGuest => ControlAction::ShutdownGuest,
            WorldCommand::ShutdownApp => ControlAction::ShutdownApp,
        }
    }
}

/// Processes the commands waiting in `control`, in order, and returns what
/// each asks of the world. Stops after a `ShutdownApp`; otherwise the queue
/// ends empty.
pub fn process_world_commands(control: &mut WorldControl) -> (acts: Vec<ControlAction>)
    ensures
        final(control).state() == run(old(control).state(), old(control).queue()).0,
        acts@ == run(old(control).state(), old(control).queue()).1,
        final(control).queue() == old(control).queue().skip(
            run(old(control).state(), old(control).queue()).2 as int,
        ),
{
    let ghost s0 = control.state();
    let ghost q0 = control.queue();
    let mut acts: Vec<ControlAction> = Vec::new();
    let ghost mut taken: nat = 0;
    loop
        invariant_except_break
            control.queue() == q0.skip(taken as int),
            taken <= q0.len(),
            run(s0, q0) == ({
                let (sf, af, nf) = run(control.state(), control.queue());
                (sf, acts@ + af, taken + nf)
            }),
        ensures
            control.state() == run(s0, q0).0,
            acts@ == run(s0, q0).1,
            control.queue() == q0.skip(run(s0, q0).2 as int),
        decreases control.queue().len(),
    {
        let ghost s_before = control.state();
        let ghost q_before = control.queue();
        match control.commands.pop_front() {
            None => {
                assert(acts@ + Seq::<ControlAction>::empty() =~= acts@);
                break;
            },
            Some(cmd) => {
                let is_exit = match cmd {
                    WorldCommand::ShutdownApp => true,
                    _ => false,
                };
                assert(control.queue() =~= q_before.drop_first());
                let a = control.apply(cmd);
                acts.push(a);
                proof {
                    assert(q_before.drop_first() =~= q0.skip((taken + 1) as int));
                    taken = taken + 1;
                }
                if is_exit {
                    assert(acts@ =~= acts@.drop_last() + seq![a]);
                    break;
                }
                let ghost (sf, af, nf) = run(control.state(), control.queue());
                assert(acts@ + af =~= acts@.drop_last() + (seq![a] + af));
            },
        }
    }
    acts
}

impl Default for WorldControl {
    fn default() -> (r: WorldControl)
        ensures
            r.state() == default_state(),
            r.queue().len() == 0,
    {
        WorldControl {
            environment_powered: true,
            input_enabled: true,
            display_enabled: true,
            time_scale_bits: ONE_BITS,
            cpu_budget_bits: ONE_BITS,
            ram_budget_mb_bits: DEFAULT_RAM_MB_BITS,
            storage_budget_mb_bits: DEFAULT_STORAGE_MB_BITS,
            network_budget_kbps_bits: DEFAULT_NETWORK_KBPS_BITS,
            virtual_devices: Vec::new(),
            commands: VecDeque::new(),
        }
    }
}

} // verus!
