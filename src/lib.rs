//! Decisions of a password-based file encryption tool: the size grammar of
//! chaff generation, the choice of a chaff length, the progress display and
//! the state machine that moves a stream through the transform engine into
//! an atomically committed output.

pub mod chaff;
pub mod cli;
pub mod io;
pub mod progress;
pub mod size;
pub mod transfer;
