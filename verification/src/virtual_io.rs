//! World-owned virtual display and virtual input: the only sanctioned I/O
//! devices between the physics reality and the Android inhabitant.

use vstd::prelude::*;

use crate::adb::{args_view, input_text_tail, keyevent_tail, opt_str_view, serial_prefix};
use crate::android_runtime::AndroidRuntime;

verus! {

/// World-owned virtual display device (pixels land on the in-world screen).
pub struct VirtualDisplay {
    pub enabled: bool,
    pub id: &'static str,
}

impl Default for VirtualDisplay {
    fn default() -> (r: VirtualDisplay)
        ensures
            r.enabled,
            r.id@ == "world-display-0"@,
    {
        VirtualDisplay { enabled: true, id: "world-display-0" }
    }
}

/// World-owned virtual input device.
pub struct VirtualInput {
    pub enabled: bool,
    pub id: &'static str,
}

impl Default for VirtualInput {
    fn default() -> (r: VirtualInput)
        ensures
            r.enabled,
            r.id@ == "world-input-0"@,
    {
        VirtualInput { enabled: true, id: "world-input-0" }
    }
}

impl VirtualInput {
    /// The command that types `s` through the runtime, when this device is
    /// enabled; the runtime in turn requires an attached device and
    /// non-empty text.
    pub fn text(&mut self, s: &str, runtime: &AndroidRuntime) -> (r: Option<Vec<String>>)
        ensures
            r is Some <==> old(self).enabled && runtime.connected && s@.len() > 0,
            r matches Some(a) ==> args_view(a@) == serial_prefix(opt_str_view(runtime.serial))
                + input_text_tail(s@),
            *final(self) == *old(self),
    {
        if self.enabled {
            runtime.inject_text(s)
        } else {
            None
        }
    }

    /// The command that sends key `code` through the runtime, when this
    /// device is enabled and a device is attached.
    pub fn key(&mut self, code: i32, runtime: &AndroidRuntime) -> (r: Option<Vec<String>>)
        ensures
            r is Some <==> old(self).enabled && runtime.connected,
            r matches Some(a) ==> args_view(a@) == serial_prefix(opt_str_view(runtime.serial))
                + keyevent_tail(code),
            *final(self) == *old(self),
    {
        if self.enabled {
            runtime.inject_keyevent(code)
        } else {
            None
        }
    }
}

} // verus!
