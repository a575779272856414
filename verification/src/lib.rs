//! Early-boot interrupt core of a minimal x86-64 kernel.
//!
//! The crate models the three pieces of machinery a kernel needs before it can
//! safely field hardware interrupts: the PS/2 scancode decoder that turns raw
//! keyboard bytes into key events, the interrupt descriptor table with its
//! dedicated double-fault stack, and the chained programmable interrupt
//! controllers with their end-of-interrupt protocol.  A text-mode screen
//! writer used for diagnostic output rounds the picture out.  All hardware
//! access (port reads and writes, loading the table into the CPU, the memory
//! mapped video buffer) is left to the surrounding unverified program; the
//! logic that decides what those accesses should do lives here.

pub mod interrupts;
pub mod ps_2_scancodes;
pub mod vga_buffer;
