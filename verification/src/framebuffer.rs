//! Capturing guest frames into the world's sensory state: reading a
//! screenshot the guest wrote, and the state the capture loop shares with
//! the world.

use vstd::prelude::*;

pub use crate::shared_buffer::FramePixels;

use crate::adb::{copy_opt_string, opt_str_view};
use crate::shared_buffer::{after_publish, frame_opt_view, read_latest, FrameView, SharedFrameBuffer};

verus! {

broadcast use vstd::string::group_string_axioms;

/// What decoding `bytes` as an image yields: width, height and RGBA8 bytes,
/// or the decoder's error message when the bytes are not an image it reads.
/// It depends on the bytes alone because the `image` crate's process-wide
/// table of format hooks, which its format guess consults, is left empty:
/// nothing in this library, its tests or the application registers a hook.
pub uninterp spec fn decoded_rgba8(bytes: Seq<u8>) -> Result<(u32, u32, Seq<u8>), Seq<char>>;

/// Decodes `bytes` with the `image` crate: `ImageReader::with_guessed_format`
/// picks the format from the leading bytes, `decode` reads the image and
/// `to_rgba8` converts it to 8-bit RGBA; an error becomes its message. The
/// contract claims that the outcome, pixels or message, is a function of the
/// bytes alone (no format hooks are registered in this program), and that
/// the RGBA8 buffer holds exactly four bytes for each of its
/// `width * height` pixels, as the crate's decoder allocates it.
#[verifier::external_body]
pub fn decode_rgba8(bytes: &[u8]) -> (r: Result<FramePixels, String>)
    ensures
        match r {
            Ok(f) => decoded_rgba8(bytes@) == Ok::<(u32, u32, Seq<u8>), Seq<char>>((f.width, f.height, f.rgba@)),
            Err(m) => decoded_rgba8(bytes@) == Err::<(u32, u32, Seq<u8>), Seq<char>>(m@),
        },
        r matches Ok(f) ==> f.rgba@.len() == f.width * f.height * 4,
{
    let img = image::ImageReader::new(std::io::Cursor::new(bytes))
        .with_guessed_format()
        .map_err(|e| e.to_string())?
        .decode()
        .map_err(|e| e.to_string())?
        .to_rgba8();
    Ok(FramePixels { width: img.width(), height: img.height(), rgba: img.into_raw() })
}

/// A frame or a message, as plain values.
pub open spec fn outcome_view(r: Result<FramePixels, String>) -> Result<FrameView, Seq<char>> {
    match r {
        Ok(f) => Ok(f@),
        Err(m) => Err(m@),
    }
}

/// The frame a screenshot decodes to, or the decoder's message.
pub open spec fn decoded_frame(bytes: Seq<u8>) -> Result<FrameView, Seq<char>> {
    match decoded_rgba8(bytes) {
        Ok((w, h, px)) => Ok(FrameView { width: w, height: h, rgba: px }),
        Err(m) => Err(m),
    }
}

/// The outcome of a capture: `no_output` when the screenshot command failed
/// or wrote nothing, otherwise what its output decodes to.
pub open spec fn captured_frame(succeeded: bool, stdout: Seq<u8>, no_output: Seq<char>) -> Result<
    FrameView,
    Seq<char>,
> {
    if !succeeded || stdout.len() == 0 {
        Err(no_output)
    } else {
        decoded_frame(stdout)
    }
}

/// A capture yields a frame only when the screenshot command succeeded and
/// wrote something, and then exactly what the decoder makes of its bytes;
/// a failed or silent command yields the given message and never a frame.
pub proof fn law_capture_needs_output(succeeded: bool, stdout: Seq<u8>, message: Seq<char>)
    ensures
        (!succeeded || stdout.len() == 0) ==> captured_frame(succeeded, stdout, message) == Err::<
            FrameView,
            Seq<char>,
        >(message),
        (succeeded && stdout.len() > 0) ==> captured_frame(succeeded, stdout, message)
            == decoded_frame(stdout),
        captured_frame(succeeded, stdout, message) is Ok ==> succeeded && stdout.len() > 0,
{
}

/// The message for a capture that produced no output.
pub open spec fn no_frame_yet() -> Seq<char> {
    "waiting for inhabitant framebuffer"@
}

/// Reads a screenshot command's outcome (whether it exited successfully and
/// what it wrote) into a frame.
pub fn frame_from_screencap(succeeded: bool, stdout: &[u8]) -> (r: Result<FramePixels, String>)
    ensures
        outcome_view(r) == captured_frame(succeeded, stdout@, no_frame_yet()),
        r matches Ok(f) ==> f.rgba@.len() == f.width * f.height * 4,
{
    if !succeeded || stdout.len() == 0 {
        return Err("waiting for inhabitant framebuffer".to_owned());
    }
    decode_rgba8(stdout)
}

/// After a failed capture: the new failure count (wrapping at `u32::MAX`)
/// and whether to report this failure, which happens for the first one and
/// then once every thirty.
pub fn next_failure_tick(ticks: u32) -> (r: (u32, bool))
    ensures
        r.0 == (if ticks == u32::MAX {
            0
        } else {
            ticks + 1
        }),
        r.1 == (r.0 % 30 == 1),
{
    let t: u32 = if ticks == u32::MAX {
        0
    } else {
        ticks + 1
    };
    (t, t % 30 == 1)
}

/// The state the capture loop shares with the world: the latest frame and
/// the serial of the device to capture from.
pub struct FramebufferState {
    frames: SharedFrameBuffer,
    serial: Option<String>,
}

impl FramebufferState {
    /// The latest frame held.
    pub closed spec fn frame(&self) -> Option<FrameView> {
        self.frames.frame()
    }

    /// The serial of the device to capture from, if known.
    pub closed spec fn device_serial(&self) -> Option<Seq<char>> {
        opt_str_view(self.serial)
    }

    /// A copy of the serial of the device to capture from.
    pub fn serial(&self) -> (r: Option<String>)
        ensures
            opt_str_view(r) == self.device_serial(),
    {
        copy_opt_string(&self.serial)
    }

    /// No frame yet, no device known.
    pub fn new() -> (r: FramebufferState)
        ensures
            r.frame() is None,
            r.device_serial() is None,
    {
        FramebufferState { frames: SharedFrameBuffer::new(), serial: None }
    }

    /// A copy of the latest frame, if any.
    pub fn latest_frame(&self) -> (r: Option<FramePixels>)
        ensures
            frame_opt_view(r) == read_latest(self.frame()),
    {
        self.frames.latest()
    }

    /// Holds `frame` as the latest.
    pub fn store_frame(&mut self, frame: FramePixels)
        ensures
            final(self).frame() == after_publish(old(self).frame(), frame@),
            final(self).device_serial() == old(self).device_serial(),
    {
        self.frames.publish(frame);
    }

    /// Captures from the device the runtime is attached to.
    pub fn sync_serial(&mut self, runtime_serial: &Option<String>)
        ensures
            final(self).device_serial() == opt_str_view(*runtime_serial),
            final(self).frame() == old(self).frame(),
    {
        self.serial = copy_opt_string(runtime_serial);
    }
}

} // verus!
