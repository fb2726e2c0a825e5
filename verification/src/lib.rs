//! Decision and data logic of a physics-world host for an Android + Termux
//! guest: the world's control plane, the shared frame and input buffers, the
//! guest bridges (which `adb` invocations to make and how to read their
//! output), the in-world screen image, the keyboard routing and the PTY
//! session plan. Process spawning, threads, rendering and physics live in the
//! application around this crate.

pub mod adb;
pub mod android_bridge;
pub mod android_native;
pub mod android_runtime;
pub mod control;
pub mod display;
pub mod embedded_runtime;
pub mod framebuffer;
pub mod keyboard;
pub mod session;
pub mod shared_buffer;
pub mod text;
pub mod virtual_io;
