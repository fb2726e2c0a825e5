//! In-process Android path, used when the physics engine is itself the
//! Android app. Input injection is not bound to native hooks yet.

use vstd::prelude::*;

use crate::shared_buffer::{FramePixels, FrameView};

verus! {

/// Injects text into the guest from inside the app process. Not bound to a
/// native hook yet: it has no effect.
pub fn inject_text(text: &str) {
    let _ = text;
}

/// Injects a key code into the guest from inside the app process. Not bound
/// to a native hook yet: it has no effect.
pub fn inject_key(code: i32) {
    let _ = code;
}

/// Side of the placeholder frame, in pixels.
pub const PLACEHOLDER_SIDE: u32 = 64;

/// Byte `i` of the placeholder frame: every pixel is the colour (20, 40, 30)
/// and fully opaque.
pub open spec fn placeholder_byte(i: int) -> u8 {
    let k = i % 4;
    if k == 0 {
        20
    } else if k == 1 {
        40
    } else if k == 2 {
        30
    } else {
        255
    }
}

/// The placeholder frame: 64 by 64 pixels of one dark green.
pub open spec fn placeholder_frame() -> FrameView {
    FrameView {
        width: 64,
        height: 64,
        rgba: Seq::new(64 * 64 * 4, |i: int| placeholder_byte(i)),
    }
}

/// Captures a frame from inside the app process. Until a native surface is
/// bound this is always the placeholder frame.
pub fn capture_frame_in_process() -> (r: Result<FramePixels, String>)
    ensures
        r matches Ok(f) && f@ == placeholder_frame(),
{
    let w: u32 = PLACEHOLDER_SIDE;
    let h: u32 = PLACEHOLDER_SIDE;
    let n: usize = (w as usize) * (h as usize);
    let mut rgba: Vec<u8> = Vec::new();
    for p in 0..n
        invariant
            n == 64 * 64,
            rgba@.len() == 4 * p,
            forall|i: int| 0 <= i < rgba@.len() ==> rgba@[i] == placeholder_byte(i),
    {
        let ghost before = rgba@;
        rgba.push(20u8);
        rgba.push(40u8);
        rgba.push(30u8);
        rgba.push(255u8);
        assert forall|i: int| 0 <= i < rgba@.len() implies rgba@[i] == placeholder_byte(i) by {
            if i >= before.len() {
                assert(i - 4 * p < 4);
                assert(i % 4 == i - 4 * p) by (nonlinear_arith)
                    requires
                        0 <= i - 4 * p < 4,
                        p >= 0,
                ;
            }
        }
    }
    assert(rgba@ =~= placeholder_frame().rgba);
    Ok(FramePixels { width: w, height: h, rgba })
}

} // verus!
