//! The command lines this crate asks the application to run: arguments for
//! `adb` (optionally addressed to one device serial) and for the emulator.

use vstd::prelude::*;

use crate::text::{
    attached_device_serial, attached_serial, chars_of, contains_chars, contains_word, decimal,
    escape_spaces, escaped_for_input, int_decimal, lossy_chars, string_of, utf8_lossy,
};

verus! {

broadcast use vstd::string::group_string_axioms;

/// The characters of each argument.
pub open spec fn args_view(v: Seq<String>) -> Seq<Seq<char>> {
    v.map_values(|s: String| s@)
}

/// The view of an optional string.
pub open spec fn opt_str_view(o: Option<String>) -> Option<Seq<char>> {
    match o {
        Some(s) => Some(s@),
        None => None,
    }
}

/// `-s <serial>` when a serial is known, nothing otherwise.
pub open spec fn serial_prefix(serial: Option<Seq<char>>) -> Seq<Seq<char>> {
    match serial {
        Some(s) => seq!["-s"@, s],
        None => Seq::<Seq<char>>::empty(),
    }
}

/// Starts Termux's home activity.
pub open spec fn start_home_tail() -> Seq<Seq<char>> {
    seq!["shell"@, "am"@, "start"@, "-n"@, "com.termux/.HomeActivity"@]
}

/// Starts Termux through its launcher intent, the fallback when the activity
/// manager fails.
pub open spec fn monkey_tail() -> Seq<Seq<char>> {
    seq![
        "shell"@,
        "monkey"@,
        "-p"@,
        "com.termux"@,
        "-c"@,
        "android.intent.category.LAUNCHER"@,
        "1"@,
    ]
}

/// Asks the package manager where Termux is installed.
pub open spec fn package_path_tail() -> Seq<Seq<char>> {
    seq!["shell"@, "pm"@, "path"@, "com.termux"@]
}

/// Types `text` on the guest, spaces escaped.
pub open spec fn input_text_tail(text: Seq<char>) -> Seq<Seq<char>> {
    seq!["shell"@, "input"@, "text"@, escape_spaces(text)]
}

/// Sends key `code` to the guest.
pub open spec fn keyevent_tail(code: i32) -> Seq<Seq<char>> {
    seq!["shell"@, "input"@, "keyevent"@, int_decimal(code as int)]
}

/// Writes a PNG screenshot of the guest to standard output.
pub open spec fn screencap_tail() -> Seq<Seq<char>> {
    seq!["exec-out"@, "screencap"@, "-p"@]
}

/// The emulator arguments that start AVD `avd` headless.
pub open spec fn emulator_args_view(avd: Seq<char>) -> Seq<Seq<char>> {
    seq![
        "-avd"@,
        avd,
        "-no-window"@,
        "-no-audio"@,
        "-no-boot-anim"@,
        "-gpu"@,
        "swiftshader_indirect"@,
    ]
}

/// The command lines word for word. A device is addressed by `-s` and its
/// serial when one is known, and by nothing otherwise. A screenshot is asked
/// for with `exec-out screencap -p`, the `-p` making it a PNG that the frame
/// decoder reads. The emulator starts the AVD with no window, no audio, no
/// boot animation and software rendering. Termux is started through its home
/// activity, or through its launcher intent as the fallback, and found
/// through `pm path`. Text is typed with its spaces escaped, and a key is
/// sent by its decimal code.
pub proof fn law_command_words(serial: Seq<char>, avd: Seq<char>, text: Seq<char>, code: i32)
    ensures
        serial_prefix(Some(serial)) == seq!["-s"@, serial],
        serial_prefix(None) == Seq::<Seq<char>>::empty(),
        screencap_tail().len() == 3,
        screencap_tail()[0] == "exec-out"@,
        screencap_tail()[1] == "screencap"@,
        screencap_tail()[2] == "-p"@,
        serial_prefix(Some(serial)) + screencap_tail() == seq!["-s"@, serial, "exec-out"@,
            "screencap"@, "-p"@],
        emulator_args_view(avd) == seq!["-avd"@, avd, "-no-window"@, "-no-audio"@,
            "-no-boot-anim"@, "-gpu"@, "swiftshader_indirect"@],
        start_home_tail() == seq![
            "shell"@,
            "am"@,
            "start"@,
            "-n"@,
            "com.termux/.HomeActivity"@,
        ],
        monkey_tail() == seq!["shell"@, "monkey"@, "-p"@, "com.termux"@, "-c"@,
            "android.intent.category.LAUNCHER"@, "1"@],
        package_path_tail() == seq![
            "shell"@,
            "pm"@,
            "path"@,
            "com.termux"@,
        ],
        input_text_tail(text) == seq!["shell"@, "input"@, "text"@].push(escape_spaces(text)),
        keyevent_tail(code) == seq!["shell"@, "input"@, "keyevent"@].push(int_decimal(code as int)),
{
    assert(serial_prefix(Some(serial)) + screencap_tail() =~= seq!["-s"@, serial, "exec-out"@,
        "screencap"@, "-p"@]);
    assert(input_text_tail(text) =~= seq!["shell"@, "input"@, "text"@].push(escape_spaces(text)));
    assert(keyevent_tail(code) =~= seq!["shell"@, "input"@, "keyevent"@].push(int_decimal(code as int)));
}

/// A copy of an optional string.
pub fn copy_opt_string(o: &Option<String>) -> (r: Option<String>)
    ensures
        opt_str_view(r) == opt_str_view(*o),
{
    match o {
        Some(s) => Some(s.clone()),
        None => None,
    }
}

fn strings(parts: &[&str]) -> (r: Vec<String>)
    ensures
        args_view(r@) == parts@.map_values(|p: &str| p@),
{
    let mut v: Vec<String> = Vec::new();
    for i in 0..parts.len()
        invariant
            args_view(v@) == parts@.take(i as int).map_values(|p: &str| p@),
    {
        let s = parts[i].to_owned();
        assert(s@ == parts@[i as int]@);
        let ghost before = v@;
        v.push(s);
        assert(parts@.take(i + 1) == parts@.take(i as int).push(parts@[i as int]));
        assert(args_view(v@) =~= args_view(before).push(s@));
    }
    assert(parts@.take(parts@.len() as int) == parts@);
    v
}

/// `-s <serial>` when `serial` is known, followed by `tail`.
pub fn with_serial(serial: &Option<String>, tail: Vec<String>) -> (r: Vec<String>)
    ensures
        args_view(r@) == serial_prefix(opt_str_view(*serial)) + args_view(tail@),
{
    let mut v: Vec<String> = Vec::new();
    match serial {
        Some(s) => {
            v.push("-s".to_owned());
            v.push(s.clone());
        },
        None => {},
    }
    let ghost head = v@;
    let mut tail = tail;
    let ghost t0 = tail@;
    v.append(&mut tail);
    assert(args_view(v@) =~= args_view(head) + args_view(t0));
    assert(args_view(head) =~= serial_prefix(opt_str_view(*serial)));
    v
}

/// `adb` arguments that start Termux's home activity.
pub fn start_home_args(serial: &Option<String>) -> (r: Vec<String>)
    ensures
        args_view(r@) == serial_prefix(opt_str_view(*serial)) + start_home_tail(),
{
    let tail = strings(&["shell", "am", "start", "-n", "com.termux/.HomeActivity"]);
    assert(args_view(tail@) =~= start_home_tail());
    with_serial(serial, tail)
}

/// `adb` arguments that start Termux through its launcher intent.
pub fn monkey_args(serial: &Option<String>) -> (r: Vec<String>)
    ensures
        args_view(r@) == serial_prefix(opt_str_view(*serial)) + monkey_tail(),
{
    let tail = strings(
        &["shell", "monkey", "-p", "com.termux", "-c", "android.intent.category.LAUNCHER", "1"],
    );
    assert(args_view(tail@) =~= monkey_tail());
    with_serial(serial, tail)
}

/// `adb` arguments that ask where Termux is installed.
pub fn package_path_args(serial: &Option<String>) -> (r: Vec<String>)
    ensures
        args_view(r@) == serial_prefix(opt_str_view(*serial)) + package_path_tail(),
{
    let tail = strings(&["shell", "pm", "path", "com.termux"]);
    assert(args_view(tail@) =~= package_path_tail());
    with_serial(serial, tail)
}

/// `adb` arguments that type `text` on the guest.
pub fn input_text_args(serial: &Option<String>, text: &str) -> (r: Vec<String>)
    ensures
        args_view(r@) == serial_prefix(opt_str_view(*serial)) + input_text_tail(text@),
{
    let mut tail = strings(&["shell", "input", "text"]);
    let esc = escaped_for_input(text);
    let ghost t0 = tail@;
    assert(args_view(t0) =~= seq!["shell"@, "input"@, "text"@]);
    tail.push(esc);
    assert(args_view(tail@) =~= args_view(t0).push(esc@));
    assert(args_view(tail@) =~= input_text_tail(text@));
    with_serial(serial, tail)
}

/// `adb` arguments that send key `code` to the guest.
pub fn keyevent_args(serial: &Option<String>, code: i32) -> (r: Vec<String>)
    ensures
        args_view(r@) == serial_prefix(opt_str_view(*serial)) + keyevent_tail(code),
{
    let mut tail = strings(&["shell", "input", "keyevent"]);
    let d = decimal(code);
    let ghost t0 = tail@;
    assert(args_view(t0) =~= seq!["shell"@, "input"@, "keyevent"@]);
    tail.push(d);
    assert(args_view(tail@) =~= args_view(t0).push(d@));
    assert(args_view(tail@) =~= keyevent_tail(code));
    with_serial(serial, tail)
}

/// `adb` arguments that write a PNG screenshot to standard output.
pub fn screencap_args(serial: &Option<String>) -> (r: Vec<String>)
    ensures
        args_view(r@) == serial_prefix(opt_str_view(*serial)) + screencap_tail(),
        (match *serial {
            Some(s) => args_view(r@) == seq!["-s"@, s@, "exec-out"@, "screencap"@, "-p"@],
            None => args_view(r@) == seq![
                "exec-out"@,
                "screencap"@,
                "-p"@,
            ],
        }),
{
    let tail = strings(&["exec-out", "screencap", "-p"]);
    assert(args_view(tail@) =~= screencap_tail());
    let r = with_serial(serial, tail);
    proof {
        match serial {
            Some(s) => {
                assert(serial_prefix(opt_str_view(*serial)) + screencap_tail() =~= seq![
                    "-s"@,
                    s@,
                    "exec-out"@,
                    "screencap"@,
                    "-p"@,
                ]);
            },
            None => {
                assert(serial_prefix(opt_str_view(*serial)) + screencap_tail() =~= screencap_tail());
            },
        }
    }
    r
}

/// `adb` arguments that list the attached devices.
pub fn devices_args() -> (r: Vec<String>)
    ensures
        args_view(r@) == seq!["devices"@],
{
    let r = strings(&["devices"]);
    assert(args_view(r@) =~= seq!["devices"@]);
    r
}

/// `adb` arguments that wait until a device is attached.
pub fn wait_for_device_args() -> (r: Vec<String>)
    ensures
        args_view(r@) == seq!["wait-for-device"@],
{
    let r = strings(&["wait-for-device"]);
    assert(args_view(r@) =~= seq!["wait-for-device"@]);
    r
}

/// Emulator arguments that start AVD `avd` with no window, audio or boot
/// animation, rendering in software.
pub fn emulator_args(avd: &str) -> (r: Vec<String>)
    ensures
        args_view(r@) == emulator_args_view(avd@),
        args_view(r@) == seq!["-avd"@, avd@, "-no-window"@, "-no-audio"@, "-no-boot-anim"@,
            "-gpu"@, "swiftshader_indirect"@],
{
    let mut r = strings(&["-avd"]);
    assert(args_view(r@) =~= seq!["-avd"@]);
    let a = avd.to_owned();
    let ghost r0 = r@;
    r.push(a);
    assert(args_view(r@) =~= args_view(r0).push(a@));
    let mut rest = strings(
        &["-no-window", "-no-audio", "-no-boot-anim", "-gpu", "swiftshader_indirect"],
    );
    let ghost h = r@;
    let ghost t = rest@;
    assert(args_view(t) =~= seq!["-no-window"@, "-no-audio"@, "-no-boot-anim"@, "-gpu"@, "swiftshader_indirect"@]);
    r.append(&mut rest);
    assert(args_view(r@) =~= args_view(h) + args_view(t));
    assert(args_view(r@) =~= emulator_args_view(avd@));
    r
}

/// The serial of the first usable device in the raw output of
/// `adb devices`.
pub open spec fn listed_serial(out: Seq<u8>) -> Option<Seq<char>> {
    attached_serial(utf8_lossy(out))
}

/// The serial a refresh finds: none when `adb devices` could not be run.
pub open spec fn refreshed_serial(out: Option<Seq<u8>>) -> Option<Seq<char>> {
    match out {
        Some(o) => listed_serial(o),
        None => None,
    }
}

/// The view of optional output bytes.
pub open spec fn opt_bytes(o: Option<&[u8]>) -> Option<Seq<u8>> {
    match o {
        Some(b) => Some(b@),
        None => None,
    }
}

/// Whether the raw output of `pm path com.termux` names a package path.
pub open spec fn lists_package(out: Seq<u8>) -> bool {
    contains_word(utf8_lossy(out), "package:"@)
}

/// The serial of the first usable device in the raw output of
/// `adb devices`.
pub fn serial_from_devices_output(out: &[u8]) -> (r: Option<String>)
    ensures
        opt_str_view(r) == listed_serial(out@),
{
    let text = lossy_chars(out);
    match attached_device_serial(&text) {
        Some(cs) => Some(string_of(&cs)),
        None => None,
    }
}

/// Whether the raw output of `pm path com.termux` names a package path.
pub fn output_lists_package(out: &[u8]) -> (b: bool)
    ensures
        b == lists_package(out@),
{
    let text = lossy_chars(out);
    let word = chars_of("package:");
    contains_chars(&text, &word)
}

} // verus!
