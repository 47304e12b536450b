//! Platform bridge: the native-side decision logic of a small desktop
//! application shell.
//!
//! The bridge exposes a few operations to a UI layer it does not own:
//! a greeting echo, window visual-effect selection, portable-mode
//! detection, and hardware-id retrieval.  Everything that touches the
//! operating system or the GUI runtime (file probes, process spawning,
//! the actual visual-effect calls) happens outside this crate; the
//! functions here take those outside results as plain values and make
//! every decision, so the whole of the bridge's logic is verified.

pub mod effects;
pub mod greet;
pub mod hwid;
pub mod portable;
pub mod strutil;
