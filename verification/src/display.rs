//! The in-world screen: the pixels of the texture shown on the physics
//! TerminalScreen entity, and how a captured guest frame lands on them.

use vstd::prelude::*;
use vstd::arithmetic::div_mod::{
    lemma_div_pos_is_pos, lemma_fundamental_div_mod_converse, lemma_multiply_divide_lt,
};

use crate::shared_buffer::{FramePixels, FrameView};

verus! {

/// The screen texture as the world holds it: RGBA8 pixels, width by height,
/// and its bytes (absent while the texture lives only on the GPU).
pub struct ScreenImage {
    pub width: u32,
    pub height: u32,
    pub data: Option<Vec<u8>>,
}

/// A screen texture as plain values.
pub struct ScreenView {
    pub width: u32,
    pub height: u32,
    pub data: Option<Seq<u8>>,
}

impl View for ScreenImage {
    type V = ScreenView;

    open spec fn view(&self) -> ScreenView {
        ScreenView {
            width: self.width,
            height: self.height,
            data: match self.data {
                Some(d) => Some(d@),
                None => None,
            },
        }
    }
}

/// Number of bytes of a `w` by `h` RGBA8 image.
pub open spec fn rgba_len(w: u32, h: u32) -> int {
    w * h * 4
}

/// The frame pixel `(column, row)` that texture pixel `(x, y)` shows when a
/// `fw` by `fh` frame is fitted to a `tw` by `th` texture: the frame is scaled,
/// keeping its aspect, until it covers the texture, sampled at the nearest
/// pixel below, and cropped around its centre.
pub open spec fn fit_source_pixel(tw: int, th: int, fw: int, fh: int, x: int, y: int) -> (int, int) {
    if tw * fh >= th * fw {
        (x * fw / tw, (y * fw + (fh * tw - th * fw) / 2) / tw)
    } else {
        ((x * fh + (fw * th - tw * fh) / 2) / th, y * fh / th)
    }
}

/// The frame byte that texture byte `j` shows: the same channel of the frame
/// pixel its texture pixel shows.
pub open spec fn fit_source_byte(tw: int, th: int, fw: int, fh: int, j: int) -> int {
    let p = j / 4;
    let (sx, sy) = fit_source_pixel(tw, th, fw, fh, p % tw, p / tw);
    (sy * fw + sx) * 4 + j % 4
}

/// The texture bytes `d` of a `tw` by `th` texture after a `fw` by `fh`
/// frame with bytes `px` is fitted onto it; bytes past the texture's pixels
/// stay.
pub open spec fn fitted(tw: u32, th: u32, d: Seq<u8>, fw: u32, fh: u32, px: Seq<u8>) -> Seq<u8> {
    Seq::new(
        d.len(),
        |j: int|
            if j < rgba_len(tw, th) {
                px[fit_source_byte(tw as int, th as int, fw as int, fh as int, j)]
            } else {
                d[j]
            },
    )
}

/// The texture after frame `f` is copied onto `img`. The texture keeps its
/// size. A texture without bytes, or with fewer than `width * height * 4`,
/// is left alone. A frame of the same size is copied over the first
/// `width * height * 4` bytes when it holds that many. A frame of another
/// size is fitted (nearest pixel, centre crop) when it is at least one pixel
/// wide and high and holds all its pixels; otherwise nothing changes.
pub open spec fn blitted(img: ScreenView, f: FrameView) -> ScreenView {
    match img.data {
        None => img,
        Some(d) => {
            let need = rgba_len(img.width, img.height);
            if d.len() < need {
                img
            } else if img.width == f.width && img.height == f.height {
                if f.rgba.len() < need {
                    img
                } else {
                    ScreenView { data: Some(f.rgba.take(need) + d.skip(need)), ..img }
                }
            } else if f.width == 0 || f.height == 0 || f.rgba.len() < rgba_len(f.width, f.height) {
                img
            } else {
                ScreenView {
                    data: Some(fitted(img.width, img.height, d, f.width, f.height, f.rgba)),
                    ..img
                }
            }
        },
    }
}

proof fn lemma_div_below(n: int, d: int, b: int)
    requires
        0 <= n,
        0 < d,
        n < d * b,
    ensures
        0 <= n / d < b,
{
    lemma_div_pos_is_pos(n, d);
    lemma_multiply_divide_lt(n, d, b);
}

/// Every texture pixel of a fitted frame shows a pixel inside the frame.
pub proof fn law_fit_pixel_inside(tw: int, th: int, fw: int, fh: int, x: int, y: int)
    requires
        0 < tw,
        0 < th,
        0 < fw,
        0 < fh,
        0 <= x < tw,
        0 <= y < th,
    ensures
        0 <= fit_source_pixel(tw, th, fw, fh, x, y).0 < fw,
        0 <= fit_source_pixel(tw, th, fw, fh, x, y).1 < fh,
{
    if tw * fh >= th * fw {
        assert(0 <= x * fw < tw * fw) by (nonlinear_arith)
            requires
                0 <= x < tw,
                0 < fw,
        ;
        lemma_div_below(x * fw, tw, fw);
        let dd = fh * tw - th * fw;
        assert(0 <= dd / 2 <= dd);
        assert(0 <= y * fw <= (th - 1) * fw) by (nonlinear_arith)
            requires
                0 <= y < th,
                0 < fw,
        ;
        assert((th - 1) * fw == th * fw - fw) by (nonlinear_arith);
        assert(fh * tw == tw * fh) by (nonlinear_arith);
        lemma_div_below(y * fw + dd / 2, tw, fh);
    } else {
        assert(0 <= y * fh < th * fh) by (nonlinear_arith)
            requires
                0 <= y < th,
                0 < fh,
        ;
        lemma_div_below(y * fh, th, fh);
        let dd = fw * th - tw * fh;
        assert(0 <= dd / 2 <= dd);
        assert(0 <= x * fh <= (tw - 1) * fh) by (nonlinear_arith)
            requires
                0 <= x < tw,
                0 < fh,
        ;
        assert((tw - 1) * fh == tw * fh - fh) by (nonlinear_arith);
        assert(fw * th == th * fw) by (nonlinear_arith);
        lemma_div_below(x * fh + dd / 2, th, fw);
    }
}

/// Every texture byte of a fitted frame shows a byte inside the frame.
pub proof fn law_fit_byte_inside(tw: int, th: int, fw: int, fh: int, j: int)
    requires
        0 < tw,
        0 < th,
        0 < fw,
        0 < fh,
        0 <= j < tw * th * 4,
    ensures
        0 <= fit_source_byte(tw, th, fw, fh, j) < fw * fh * 4,
{
    let p = j / 4;
    assert(j < 4 * (tw * th)) by (nonlinear_arith)
        requires
            j < tw * th * 4,
    ;
    lemma_div_below(j, 4, tw * th);
    lemma_div_below(p, tw, th);
    assert(0 <= p % tw < tw);
    assert(0 <= j % 4 < 4);
    law_fit_pixel_inside(tw, th, fw, fh, p % tw, p / tw);
    let (sx, sy) = fit_source_pixel(tw, th, fw, fh, p % tw, p / tw);
    assert(0 <= sy * fw + sx < fw * fh) by (nonlinear_arith)
        requires
            0 <= sx < fw,
            0 <= sy < fh,
    ;
    assert(0 <= (sy * fw + sx) * 4 + j % 4 < fw * fh * 4) by (nonlinear_arith)
        requires
            0 <= sy * fw + sx < fw * fh,
            0 <= j % 4 < 4,
    ;
}

/// A texture of the frame's size is fitted to by copying: the fit of a frame
/// to its own size is the identity.
pub proof fn law_fit_same_size_is_copy(w: int, h: int, j: int)
    requires
        0 < w,
        0 < h,
        0 <= j < w * h * 4,
    ensures
        fit_source_byte(w, h, w, h, j) == j,
{
    let p = j / 4;
    assert(j < 4 * (w * h)) by (nonlinear_arith)
        requires
            j < w * h * 4,
    ;
    lemma_div_below(j, 4, w * h);
    let x = p % w;
    let y = p / w;
    assert(w * h >= h * w && (h * w - h * w) / 2 == 0) by (nonlinear_arith);
    assert(y * w + (h * w - h * w) / 2 == y * w);
    assert(x * w / w == x) by {
        lemma_fundamental_div_mod_converse(x * w, w, x, 0);
    }
    assert(y * w / w == y) by {
        lemma_fundamental_div_mod_converse(y * w, w, y, 0);
    }
    assert(p == y * w + x) by {
        vstd::arithmetic::div_mod::lemma_fundamental_div_mod(p, w);
        assert(w * (p / w) == (p / w) * w) by (nonlinear_arith);
    }
    assert(j == p * 4 + j % 4) by {
        vstd::arithmetic::div_mod::lemma_fundamental_div_mod(j, 4);
    }
    assert(fit_source_pixel(w, h, w, h, x, y) == (x, y));
}

/// Copying the same frame a second time changes nothing more.
pub proof fn law_blit_idempotent(img: ScreenView, f: FrameView)
    ensures
        blitted(blitted(img, f), f) == blitted(img, f),
{
    let once = blitted(img, f);
    if let Some(d) = img.data {
        let need = rgba_len(img.width, img.height);
        if !(d.len() < need) {
            if img.width == f.width && img.height == f.height {
                if !(f.rgba.len() < need) {
                    let d1 = f.rgba.take(need) + d.skip(need);
                    assert(d1.len() == d.len());
                    assert(f.rgba.take(need) + d1.skip(need) =~= d1);
                }
            } else if !(f.width == 0 || f.height == 0 || f.rgba.len() < rgba_len(f.width, f.height)) {
                let d1 = fitted(img.width, img.height, d, f.width, f.height, f.rgba);
                assert(fitted(img.width, img.height, d1, f.width, f.height, f.rgba) =~= d1);
            }
        }
    }
}

/// A frame of the texture's size, with enough bytes on both sides, lands
/// in the first `width * height * 4` bytes; the rest of the texture stays.
pub proof fn law_blit_copies_matching_frame(img: ScreenView, f: FrameView)
    requires
        img.data is Some,
        img.width == f.width,
        img.height == f.height,
        img.data->0.len() >= rgba_len(img.width, img.height),
        f.rgba.len() >= rgba_len(img.width, img.height),
    ensures
        blitted(img, f).width == img.width,
        blitted(img, f).height == img.height,
        blitted(img, f).data->0.len() == img.data->0.len(),
        forall|i: int|
            0 <= i < rgba_len(img.width, img.height) ==> #[trigger] blitted(img, f).data->0[i]
                == f.rgba[i],
        forall|i: int|
            rgba_len(img.width, img.height) <= i < img.data->0.len() ==> #[trigger] blitted(
                img,
                f,
            ).data->0[i] == img.data->0[i],
{
}

/// The texture never changes size.
pub proof fn law_blit_keeps_size(img: ScreenView, f: FrameView)
    ensures
        blitted(img, f).width == img.width,
        blitted(img, f).height == img.height,
        blitted(img, f).data is Some <==> img.data is Some,
        img.data is Some ==> blitted(img, f).data->0.len() == img.data->0.len(),
{
}

/// Copies captured guest pixels onto the screen texture: a frame of the
/// texture's size byte for byte, a frame of another size fitted to it.
pub fn blit_frame_into_image(image: &mut ScreenImage, frame: &FramePixels)
    requires
        old(image).data is Some ==> rgba_len(old(image).width, old(image).height) <= usize::MAX,
    ensures
        final(image)@ == blitted(old(image)@, frame@),
{
    let ghost img0 = image@;
    let mut data: Option<Vec<u8>> = None;
    std::mem::swap(&mut data, &mut image.data);
    let mut dst = match data {
        None => {
            assert(image@ == img0);
            return;
        },
        Some(d) => d,
    };
    let ghost d0 = dst@;
    let tw = image.width;
    let th = image.height;
    let need: usize = (tw as usize) * (th as usize) * 4;
    if dst.len() < need {
        image.data = Some(dst);
        assert(image@ == img0);
        return;
    }
    if tw == frame.width && th == frame.height {
        if frame.rgba.len() < need {
            image.data = Some(dst);
            assert(image@ == img0);
            return;
        }
        for i in 0..need
            invariant
                need == rgba_len(tw, th),
                need <= d0.len(),
                need <= frame.rgba@.len(),
                dst@.len() == d0.len(),
                forall|j: int| 0 <= j < i ==> dst@[j] == frame.rgba@[j],
                forall|j: int| i <= j < d0.len() ==> dst@[j] == d0[j],
        {
            dst.set(i, frame.rgba[i]);
        }
        assert(dst@ =~= frame.rgba@.take(need as int) + d0.skip(need as int));
        image.data = Some(dst);
        return;
    }
    let fw = frame.width;
    let fh = frame.height;
    assert((fw as u64) * (fh as u64) < 0x1_0000_0000_0000_0000) by (nonlinear_arith)
        requires
            fw < 0x1_0000_0000,
            fh < 0x1_0000_0000,
    ;
    let frame_pixels: u64 = (fw as u64) * (fh as u64);
    if fw == 0 || fh == 0 || ((frame.rgba.len() / 4) as u64) < frame_pixels {
        proof {
            if fw != 0 && fh != 0 {
                assert(frame.rgba@.len() < rgba_len(fw, fh)) by (nonlinear_arith)
                    requires
                        frame.rgba@.len() / 4 < fw * fh,
                        frame.rgba@.len() >= 0,
                ;
            }
        }
        image.data = Some(dst);
        assert(image@ == img0);
        return;
    }
    assert(frame.rgba@.len() >= rgba_len(fw, fh)) by (nonlinear_arith)
        requires
            frame.rgba@.len() / 4 >= fw * fh,
            frame.rgba@.len() >= 0,
    ;
    fit_into(&mut dst, tw, th, frame);
    image.data = Some(dst);
}

fn fit_source_offset(tw: u32, th: u32, fw: u32, fh: u32, x: u32, y: u32) -> (r: usize)
    requires
        0 < tw,
        0 < th,
        0 < fw,
        0 < fh,
        x < tw,
        y < th,
        fw * fh * 4 <= usize::MAX,
    ensures
        r == ({
            let (sx, sy) = fit_source_pixel(tw as int, th as int, fw as int, fh as int, x as int, y as int);
            (sy * fw + sx) * 4
        }),
        r + 4 <= fw * fh * 4,
{
    let ghost (gx, gy) = fit_source_pixel(tw as int, th as int, fw as int, fh as int, x as int, y as int);
    proof {
        law_fit_pixel_inside(tw as int, th as int, fw as int, fh as int, x as int, y as int);
    }
    let (tw, th, fw, fh, x, y) = (tw as u64, th as u64, fw as u64, fh as u64, x as u64, y as u64);
    assert(tw * fh < 0x1_0000_0000_0000_0000 && fh * tw == tw * fh) by (nonlinear_arith)
        requires
            tw < 0x1_0000_0000,
            fh < 0x1_0000_0000,
    ;
    assert(th * fw < 0x1_0000_0000_0000_0000 && fw * th == th * fw) by (nonlinear_arith)
        requires
            th < 0x1_0000_0000,
            fw < 0x1_0000_0000,
    ;
    let (sx, sy): (u64, u64) = if tw * fh >= th * fw {
        assert(x * fw < tw * fw && tw * fw < 0x1_0000_0000_0000_0000) by (nonlinear_arith)
            requires
                x < tw,
                0 < fw,
                tw < 0x1_0000_0000,
                fw < 0x1_0000_0000,
        ;
        assert(y * fw + fw <= th * fw) by (nonlinear_arith)
            requires
                y < th,
        ;
        let dd: u64 = fh * tw - th * fw;
        (x * fw / tw, (y * fw + dd / 2) / tw)
    } else {
        assert(y * fh < th * fh && th * fh < 0x1_0000_0000_0000_0000) by (nonlinear_arith)
            requires
                y < th,
                0 < fh,
                th < 0x1_0000_0000,
                fh < 0x1_0000_0000,
        ;
        assert(x * fh + fh <= tw * fh) by (nonlinear_arith)
            requires
                x < tw,
        ;
        let dd: u64 = fw * th - tw * fh;
        ((x * fh + dd / 2) / th, y * fh / th)
    };
    assert(sx == gx && sy == gy);
    assert(sy * fw + sx < fw * fh) by (nonlinear_arith)
        requires
            sx < fw,
            sy < fh,
    ;
    assert(sy * fw + sx + 1 <= fw * fh);
    assert((sy * fw + sx) * 4 + 4 <= fw * fh * 4) by (nonlinear_arith)
        requires
            sy * fw + sx + 1 <= fw * fh,
    ;
    let base: u64 = (sy * fw + sx) * 4;
    base as usize
}

fn fit_into(dst: &mut Vec<u8>, tw: u32, th: u32, frame: &FramePixels)
    requires
        0 < frame.width,
        0 < frame.height,
        frame.rgba@.len() >= rgba_len(frame.width, frame.height),
        old(dst)@.len() >= rgba_len(tw, th),
        rgba_len(tw, th) <= usize::MAX,
    ensures
        final(dst)@ == fitted(tw, th, old(dst)@, frame.width, frame.height, frame.rgba@),
{
    let ghost d0 = dst@;
    let fw = frame.width;
    let fh = frame.height;
    let pixels: usize = (tw as usize) * (th as usize);
    assert(pixels * 4 == rgba_len(tw, th));
    let flen = frame.rgba.len();
    let dlen = dst.len();
    for p in 0..pixels
        invariant
            flen == frame.rgba@.len(),
            dlen == d0.len(),
            pixels == tw * th,
            pixels * 4 == rgba_len(tw, th),
            0 < fw,
            0 < fh,
            fw == frame.width,
            fh == frame.height,
            frame.rgba@.len() >= rgba_len(fw, fh),
            d0.len() >= rgba_len(tw, th),
            dst@.len() == d0.len(),
            forall|j: int|
                0 <= j < 4 * p ==> dst@[j] == frame.rgba@[fit_source_byte(
                    tw as int,
                    th as int,
                    fw as int,
                    fh as int,
                    j,
                )],
            forall|j: int| 4 * p <= j < d0.len() ==> dst@[j] == d0[j],
    {
        assert(0 < tw && 0 < th) by (nonlinear_arith)
            requires
                p < tw * th,
                tw >= 0,
                th >= 0,
        ;
        assert((p as int) / (tw as int) < th) by {
            lemma_div_below(p as int, tw as int, th as int);
        }
        assert((p as int) % (tw as int) < tw);
        let x: u32 = (p % (tw as usize)) as u32;
        let y: u32 = (p / (tw as usize)) as u32;
        assert(x as int == (p as int) % (tw as int));
        assert(y as int == (p as int) / (tw as int));
        assert(fw * fh * 4 <= frame.rgba@.len());
        let base = fit_source_offset(tw, th, fw, fh, x, y);
        let ghost before = dst@;
        let mut c: usize = 0;
        while c < 4
            invariant
                c <= 4,
                p < pixels,
                dlen == d0.len(),
                flen == frame.rgba@.len(),
                pixels * 4 <= d0.len(),
                dst@.len() == d0.len(),
                base + 4 <= frame.rgba@.len(),
                forall|j: int| 0 <= j < 4 * p ==> dst@[j] == before[j],
                forall|j: int| 4 * p + c <= j < d0.len() ==> dst@[j] == before[j],
                forall|k: int| #![trigger frame.rgba@[base + k]] 0 <= k < c ==> dst@[4 * p + k] == frame.rgba@[base + k],
            decreases 4 - c,
        {
            dst.set(4 * p + c, frame.rgba[base + c]);
            c = c + 1;
        }
        assert forall|j: int| 0 <= j < 4 * (p + 1) implies dst@[j] == frame.rgba@[fit_source_byte(
            tw as int,
            th as int,
            fw as int,
            fh as int,
            j,
        )] by {
            if j >= 4 * p {
                let k = j - 4 * p;
                assert(j / 4 == p && j % 4 == k) by {
                    lemma_fundamental_div_mod_converse(j, 4, p as int, k);
                }
                assert(dst@[j] == frame.rgba@[base + k]);
                assert(fit_source_byte(tw as int, th as int, fw as int, fh as int, j) == base + k);
            } else {
                assert(dst@[j] == before[j]);
            }
        }
    }
    assert(dst@ =~= fitted(tw, th, d0, fw, fh, frame.rgba@));
}

/// Width of the screen texture before the first frame arrives.
pub const PLACEHOLDER_WIDTH: u32 = 720;

/// Height of the screen texture before the first frame arrives.
pub const PLACEHOLDER_HEIGHT: u32 = 1280;

/// The screen texture before the first frame arrives: 720 by 1280 pixels
/// whose bytes are all 20.
pub fn placeholder_screen_image() -> (r: ScreenImage)
    ensures
        r@.width == 720,
        r@.height == 1280,
        r@.data == Some(Seq::new(720 * 1280 * 4, |i: int| 20u8)),
{
    let n: usize = 720 * 1280 * 4;
    let mut data: Vec<u8> = Vec::new();
    for i in 0..n
        invariant
            data@ == Seq::new(i as nat, |j: int| 20u8),
    {
        data.push(20u8);
        assert(data@ =~= Seq::new((i + 1) as nat, |j: int| 20u8));
    }
    ScreenImage { width: PLACEHOLDER_WIDTH, height: PLACEHOLDER_HEIGHT, data: Some(data) }
}

} // verus!
