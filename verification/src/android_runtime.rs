//! World-managed Android runtime: the headless inhabitant the world attaches
//! to or spawns itself. Which `adb` or emulator command each request becomes,
//! and what the world does with the guest on shutdown.

use vstd::prelude::*;

use crate::android_bridge::{auto_launch_step, launch_step, launch_view, AutoLaunch, LaunchAction, LaunchEvent};
use crate::adb::{
    args_view, input_text_args, input_text_tail, keyevent_args, keyevent_tail, monkey_args,
    monkey_tail, opt_bytes, opt_str_view, output_lists_package, package_path_args,
    package_path_tail, refreshed_serial, serial_from_devices_output, serial_prefix,
    start_home_args, start_home_tail, emulator_args, emulator_args_view, lists_package,
};

verus! {

/// The runtime's state: the device serial, whether a device is attached,
/// whether Termux was launched automatically, and whether the world spawned
/// the emulator itself (the emulator process is held by the application).
pub struct AndroidRuntime {
    pub serial: Option<String>,
    pub connected: bool,
    pub termux_launched: bool,
    pub owned_by_world: bool,
}

impl Default for AndroidRuntime {
    fn default() -> (r: AndroidRuntime)
        ensures
            r.serial is None,
            !r.connected,
            !r.termux_launched,
            !r.owned_by_world,
    {
        AndroidRuntime { serial: None, connected: false, termux_launched: false, owned_by_world: false }
    }
}

/// What an attempt to spawn a headless emulator comes to.
pub enum SpawnPlan {
    /// A device is attached already: nothing to do.
    AlreadyConnected,
    /// No AVD name was configured: the world cannot spawn one.
    NoAvdName,
    /// Run the emulator with these arguments.
    Spawn(Vec<String>),
}

/// What shutting the guest down comes to.
#[derive(PartialEq, Eq, Structural, Clone, Copy, Debug)]
pub enum GuestShutdown {
    /// The world spawned the emulator: stop its process.
    KillWorldOwned,
    /// The device belongs to the user: leave it running.
    LeaveRunning,
    /// No guest: nothing to do.
    Nothing,
}

impl AndroidRuntime {
    /// Reads the output of `adb devices` (`None` when it could not be run):
    /// attaches to the first usable device listed, or detaches.
    pub fn refresh(&mut self, devices_output: Option<&[u8]>) -> (r: bool)
        ensures
            opt_str_view(final(self).serial) == refreshed_serial(opt_bytes(devices_output)),
            r == refreshed_serial(opt_bytes(devices_output)) is Some,
            final(self).connected == r,
            final(self).termux_launched == old(self).termux_launched,
            final(self).owned_by_world == old(self).owned_by_world,
    {
        let found = match devices_output {
            Some(out) => serial_from_devices_output(out),
            None => None,
        };
        let r = found.is_some();
        self.serial = found;
        self.connected = r;
        r
    }

    /// The `adb` command that starts Termux, or `None` when no device is
    /// attached.
    pub fn launch_termux(&self) -> (r: Option<Vec<String>>)
        ensures
            r is Some <==> self.connected,
            r matches Some(a) ==> args_view(a@) == serial_prefix(opt_str_view(self.serial))
                + start_home_tail(),
    {
        if !self.connected {
            return None;
        }
        Some(start_home_args(&self.serial))
    }

    /// After the start command ran: the launcher-intent command to try when
    /// it did not succeed.
    pub fn termux_launch_fallback(&self, start_succeeded: bool) -> (r: Option<Vec<String>>)
        ensures
            r is Some <==> self.connected && !start_succeeded,
            r matches Some(a) ==> args_view(a@) == serial_prefix(opt_str_view(self.serial))
                + monkey_tail(),
    {
        if !self.connected || start_succeeded {
            return None;
        }
        Some(monkey_args(&self.serial))
    }

    /// The `adb` command that types `text` on the guest; `None` when no
    /// device is attached or the text is empty.
    pub fn inject_text(&self, text: &str) -> (r: Option<Vec<String>>)
        ensures
            r is Some <==> self.connected && text@.len() > 0,
            r matches Some(a) ==> args_view(a@) == serial_prefix(opt_str_view(self.serial))
                + input_text_tail(text@),
    {
        if !self.connected || text.is_empty() {
            return None;
        }
        Some(input_text_args(&self.serial, text))
    }

    /// The `adb` command that sends key `code`; `None` when no device is
    /// attached.
    pub fn inject_keyevent(&self, code: i32) -> (r: Option<Vec<String>>)
        ensures
            r is Some <==> self.connected,
            r matches Some(a) ==> args_view(a@) == serial_prefix(opt_str_view(self.serial))
                + keyevent_tail(code),
    {
        if !self.connected {
            return None;
        }
        Some(keyevent_args(&self.serial, code))
    }

    /// The `adb` command that asks whether Termux is installed; `None` when
    /// no device is attached.
    pub fn termux_query(&self) -> (r: Option<Vec<String>>)
        ensures
            r is Some <==> self.connected,
            r matches Some(a) ==> args_view(a@) == serial_prefix(opt_str_view(self.serial))
                + package_path_tail(),
    {
        if !self.connected {
            return None;
        }
        Some(package_path_args(&self.serial))
    }

    /// Whether Termux is installed, from the output of the query (`None` when
    /// it could not be run): a device is attached and the output names a
    /// package path.
    pub fn termux_installed(&self, query_output: Option<&[u8]>) -> (b: bool)
        ensures
            b == (self.connected && match opt_bytes(query_output) {
                Some(o) => lists_package(o),
                None => false,
            }),
    {
        if !self.connected {
            return false;
        }
        match query_output {
            Some(out) => output_lists_package(out),
            None => false,
        }
    }



    /// One step of an automatic launch cycle on this runtime's device state.
    pub fn auto_launch(&mut self, cycle: &mut AutoLaunch, ev: LaunchEvent) -> (r: LaunchAction)
        ensures
            (launch_view(*final(cycle), final(self).serial, final(self).connected, final(self).termux_launched), r@)
                == launch_step(
                launch_view(*old(cycle), old(self).serial, old(self).connected, old(self).termux_launched),
                ev@,
            ),
            final(self).owned_by_world == old(self).owned_by_world,
    {
        auto_launch_step(cycle, &mut self.serial, &mut self.connected, &mut self.termux_launched, ev)
    }

    /// Whether to spawn a headless emulator, given the configured AVD name
    /// (`None` when it is not set): only when no device is attached and a
    /// name is set.
    pub fn try_spawn_headless_avd(&self, avd_name: Option<&str>) -> (r: SpawnPlan)
        ensures
            self.connected ==> r is AlreadyConnected,
            !self.connected && avd_name is None ==> r is NoAvdName,
            !self.connected && avd_name is Some ==> (r matches SpawnPlan::Spawn(a) && args_view(
                a@,
            ) == emulator_args_view(avd_name->0@)),
    {
        if self.connected {
            return SpawnPlan::AlreadyConnected;
        }
        match avd_name {
            None => SpawnPlan::NoAvdName,
            Some(avd) => SpawnPlan::Spawn(emulator_args(avd)),
        }
    }

    /// Records that the world spawned the emulator, which it now owns.
    pub fn record_emulator_spawned(&mut self)
        ensures
            final(self).owned_by_world,
            final(self).connected == old(self).connected,
            final(self).serial == old(self).serial,
            final(self).termux_launched == old(self).termux_launched,
    {
        self.owned_by_world = true;
    }

    /// What shutting the guest down does: stop the emulator when the world
    /// owns it, otherwise leave an attached device running.
    pub fn shutdown_guest(&self) -> (r: GuestShutdown)
        ensures
            r == (if self.owned_by_world {
                GuestShutdown::KillWorldOwned
            } else if self.connected {
                GuestShutdown::LeaveRunning
            } else {
                GuestShutdown::Nothing
            }),
    {
        if self.owned_by_world {
            GuestShutdown::KillWorldOwned
        } else if self.connected {
            GuestShutdown::LeaveRunning
        } else {
            GuestShutdown::Nothing
        }
    }
}

} // verus!
