//! Host-side core logic for a desktop application shell: process-lifecycle
//! control (graceful-then-forced termination with a bounded poll loop),
//! interpretation of platform tool output, construction of the command lines
//! and dialog scripts handed to platform tools, and window-placement
//! arithmetic.
//!
//! Everything here is pure logic over plain values.  The thin driver that
//! actually talks to the operating system (spawning the platform tools,
//! enumerating processes, sleeping between polls) lives outside this crate
//! and calls into it.

pub mod dialog;
pub mod geometry;
pub mod host;
pub mod procs;
pub mod shortcut;
pub mod terminate;
pub mod text;
pub mod update;
