//! Core of a cycle-approximate emulator for the Intel 8080 as wired into
//! the Space Invaders arcade machine: the CPU interpreter, the machine's
//! I/O shim (hardware shift register and input ports), the video
//! framebuffer decoder, and a machine facade that ties them together.
//!
//! Window creation, key polling and frame pacing are left to a host
//! program; the core works on plain values and is verified.

pub mod disasm;
pub mod flags;
pub mod i8080;
pub mod laws;
pub mod machine;
