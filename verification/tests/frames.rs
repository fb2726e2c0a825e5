use std::io::Cursor;

use termux_world::android_native::{capture_frame_in_process, inject_key, inject_text};
use termux_world::display::{blit_frame_into_image, placeholder_screen_image, ScreenImage};
use termux_world::embedded_runtime::capture_frame;
use termux_world::framebuffer::{
    decode_rgba8, frame_from_screencap, next_failure_tick, FramePixels, FramebufferState,
};
use termux_world::shared_buffer::{InputCmd, InputQueue, SharedFrameBuffer};

fn png_bytes(w: u32, h: u32) -> Vec<u8> {
    let img = image::RgbaImage::from_fn(w, h, |x, y| image::Rgba([x as u8, y as u8, 7, 255]));
    let mut out = Cursor::new(Vec::new());
    img.write_to(&mut out, image::ImageFormat::Png).unwrap();
    out.into_inner()
}

#[test]
fn decodes_png_screenshots() {
    let png = png_bytes(3, 2);
    let f = decode_rgba8(&png).unwrap();
    assert_eq!((f.width, f.height), (3, 2));
    assert_eq!(f.rgba.len(), 24);
    assert_eq!(&f.rgba[0..4], &[0, 0, 7, 255]);
    assert_eq!(&f.rgba[20..24], &[2, 1, 7, 255]);
    let g = frame_from_screencap(true, &png).unwrap();
    assert_eq!(g.rgba, f.rgba);
}

#[test]
fn failed_or_empty_screencaps() {
    assert_eq!(frame_from_screencap(false, &png_bytes(1, 1)).err().unwrap(), "waiting for inhabitant framebuffer");
    assert_eq!(frame_from_screencap(true, b"").err().unwrap(), "waiting for inhabitant framebuffer");
    assert_eq!(capture_frame(true, b"").err().unwrap(), "no frame");
    assert!(frame_from_screencap(true, b"not an image").is_err());
    assert!(capture_frame(true, &png_bytes(2, 2)).is_ok());
}

#[test]
fn decoder_messages_come_through() {
    let bytes: &[u8] = b"not an image";
    let expected = image::ImageReader::new(Cursor::new(bytes))
        .with_guessed_format()
        .unwrap()
        .decode()
        .unwrap_err()
        .to_string();
    assert!(!expected.is_empty());
    assert_eq!(decode_rgba8(bytes).err().unwrap(), expected);
    assert_eq!(frame_from_screencap(true, bytes).err().unwrap(), expected);
    assert_eq!(capture_frame(true, bytes).err().unwrap(), expected);
    assert_ne!(capture_frame(true, bytes).err().unwrap(), "no frame");
}

#[test]
fn failure_reports_are_throttled() {
    assert_eq!(next_failure_tick(0), (1, true));
    assert_eq!(next_failure_tick(1), (2, false));
    assert_eq!(next_failure_tick(30), (31, true));
    assert_eq!(next_failure_tick(u32::MAX), (0, false));
}

#[test]
fn placeholder_frame() {
    let f = capture_frame_in_process().unwrap();
    assert_eq!((f.width, f.height), (64, 64));
    assert_eq!(f.rgba.len(), 64 * 64 * 4);
    for px in f.rgba.chunks(4) {
        assert_eq!(px, &[20, 40, 30, 255]);
    }
    inject_text("ignored");
    inject_key(66);
}

#[test]
fn shared_buffer_gives_back_latest() {
    let mut b = SharedFrameBuffer::default();
    assert!(b.latest().is_none());
    b.publish(FramePixels { width: 1, height: 1, rgba: vec![1, 2, 3, 4] });
    b.publish(FramePixels { width: 1, height: 1, rgba: vec![5, 6, 7, 8] });
    let f = b.latest().unwrap();
    assert_eq!(f.rgba, vec![5, 6, 7, 8]);
    assert_eq!(b.latest().unwrap().rgba, vec![5, 6, 7, 8]);
}

#[test]
fn input_queue_is_fifo() {
    let mut q = InputQueue::default();
    q.push_text("ab");
    q.push_key(66);
    q.push_text("c");
    let d = q.drain();
    assert_eq!(d.len(), 3);
    assert!(matches!(&d[0], InputCmd::Text(t) if t == "ab"));
    assert!(matches!(&d[1], InputCmd::Key(66)));
    assert!(matches!(&d[2], InputCmd::Text(t) if t == "c"));
    assert!(q.drain().is_empty());
}

#[test]
fn framebuffer_state() {
    let mut s = FramebufferState::new();
    assert!(s.latest_frame().is_none());
    assert_eq!(s.serial(), None);
    s.sync_serial(&Some("dev".to_string()));
    assert_eq!(s.serial().as_deref(), Some("dev"));
    s.store_frame(FramePixels { width: 2, height: 1, rgba: vec![9; 8] });
    assert_eq!(s.latest_frame().unwrap().rgba, vec![9; 8]);
}

#[test]
fn blit_copies_a_matching_frame() {
    let mut img = ScreenImage { width: 2, height: 1, data: Some(vec![0; 10]) };
    let f = FramePixels { width: 2, height: 1, rgba: vec![1, 2, 3, 4, 5, 6, 7, 8] };
    blit_frame_into_image(&mut img, &f);
    assert_eq!(img.data.as_ref().unwrap(), &vec![1, 2, 3, 4, 5, 6, 7, 8, 0, 0]);
    // a second copy changes nothing more
    blit_frame_into_image(&mut img, &f);
    assert_eq!(img.data.unwrap(), vec![1, 2, 3, 4, 5, 6, 7, 8, 0, 0]);
}

/// A frame whose pixel (x, y) holds the bytes [x, y, 0, 255].
fn coordinate_frame(w: u32, h: u32) -> FramePixels {
    let mut rgba = Vec::new();
    for y in 0..h {
        for x in 0..w {
            rgba.extend_from_slice(&[x as u8, y as u8, 0, 255]);
        }
    }
    FramePixels { width: w, height: h, rgba }
}

fn pixel(img: &ScreenImage, x: u32, y: u32) -> [u8; 4] {
    let i = ((y * img.width + x) * 4) as usize;
    let d = img.data.as_ref().unwrap();
    [d[i], d[i + 1], d[i + 2], d[i + 3]]
}

#[test]
fn blit_keeps_texture_size_and_crops_the_centre() {
    // a wider frame is scaled to the texture's height and cropped around its centre
    let mut img = ScreenImage { width: 2, height: 2, data: Some(vec![9; 16]) };
    blit_frame_into_image(&mut img, &coordinate_frame(4, 2));
    assert_eq!((img.width, img.height), (2, 2));
    assert_eq!(pixel(&img, 0, 0), [1, 0, 0, 255]);
    assert_eq!(pixel(&img, 1, 0), [2, 0, 0, 255]);
    assert_eq!(pixel(&img, 0, 1), [1, 1, 0, 255]);
    assert_eq!(pixel(&img, 1, 1), [2, 1, 0, 255]);
    // a taller frame is cropped top and bottom
    let mut tall = ScreenImage { width: 2, height: 2, data: Some(vec![9; 16]) };
    blit_frame_into_image(&mut tall, &coordinate_frame(2, 6));
    assert_eq!(pixel(&tall, 0, 0), [0, 2, 0, 255]);
    assert_eq!(pixel(&tall, 1, 1), [1, 3, 0, 255]);
}

#[test]
fn blit_scales_up_by_nearest_pixel() {
    let mut img = ScreenImage { width: 4, height: 4, data: Some(vec![0; 64 + 3]) };
    blit_frame_into_image(&mut img, &coordinate_frame(2, 2));
    assert_eq!((img.width, img.height), (4, 4));
    for y in 0..4 {
        for x in 0..4 {
            assert_eq!(pixel(&img, x, y), [(x / 2) as u8, (y / 2) as u8, 0, 255]);
        }
    }
    // bytes past the pixels stay
    assert_eq!(&img.data.as_ref().unwrap()[64..], &[0, 0, 0]);
    // fitting the same frame again changes nothing
    let before = img.data.clone();
    blit_frame_into_image(&mut img, &coordinate_frame(2, 2));
    assert_eq!(img.data, before);
}

#[test]
fn blit_ignores_empty_or_short_frames() {
    let mut img = placeholder_screen_image();
    assert_eq!((img.width, img.height), (720, 1280));
    assert!(img.data.as_ref().unwrap().iter().all(|b| *b == 20));
    assert_eq!(img.data.as_ref().unwrap().len(), 720 * 1280 * 4);
    blit_frame_into_image(&mut img, &FramePixels { width: 0, height: 3, rgba: vec![4, 4] });
    blit_frame_into_image(&mut img, &FramePixels { width: 2, height: 2, rgba: vec![4; 15] });
    assert_eq!((img.width, img.height), (720, 1280));
    assert!(img.data.as_ref().unwrap().iter().all(|b| *b == 20));
}

#[test]
fn blit_leaves_short_or_absent_data() {
    let mut img = ScreenImage { width: 2, height: 2, data: Some(vec![0; 4]) };
    let f = FramePixels { width: 2, height: 2, rgba: vec![1; 16] };
    blit_frame_into_image(&mut img, &f);
    assert_eq!(img.data.as_ref().unwrap(), &vec![0; 4]);
    let mut none = ScreenImage { width: 5, height: 5, data: None };
    blit_frame_into_image(&mut none, &f);
    assert_eq!((none.width, none.height), (5, 5));
    assert!(none.data.is_none());
}
