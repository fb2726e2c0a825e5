# termux_world

A physics-engine world that hosts a real Android + Termux guest and is the
only way to reach it. This crate is the verified core of that program:

- `control`: the world's control plane (power, input and display gates,
  time scale, resource budgets, virtual devices) and its command queue.
- `shared_buffer`, `framebuffer`, `display`: the latest guest frame, reading
  screenshots, and copying frames onto the in-world screen texture.
- `android_bridge`, `android_runtime`, `embedded_runtime`, `adb`, `text`:
  which `adb` and emulator commands each request becomes, how their output is
  read, the automatic Termux launch and the desktop bootstrap as state
  machines.
- `virtual_io`, `keyboard`: the world-owned input device and keyboard routing.
- `session`: the PTY session plan and its output buffer.
- `android_native`: the in-process Android path.

Verus checks every function in `src/`; each one that returns a value or
changes state says in its contract what it does. The program around it
(Bevy systems and plugins, Rapier physics, processes, threads, the PTY) is in
`app/`.
