//! Core of a small full-screen terminal line editor: raw-mode bookkeeping,
//! window-size change detection, key decoding, the cursor/viewport state
//! machine, frame rendering as draw commands and their escape-sequence bytes,
//! debug-log timestamps, and the per-tick main loop step.
//!
//! Everything that touches the device (attribute and size queries, reads,
//! writes, sleeping) is done by the host program, which hands the outcomes to
//! these functions and performs what they return.

pub mod editor;
pub mod encode;
pub mod input;
pub mod main_loop;
pub mod render;
pub mod stamp;
pub mod terminal;
pub mod watcher;
