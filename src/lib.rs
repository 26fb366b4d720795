//! Runs untrusted submissions: picks the file layout and the toolchain commands for a
//! language, decides each step of a submission's life (provision, compile, run,
//! compare, clean up) and classifies every outcome into a stable status.
pub mod types;
pub mod text;
pub mod language;
pub mod paths;
pub mod program;
pub mod outcome;
pub mod pipeline;
