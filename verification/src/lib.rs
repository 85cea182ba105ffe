//! Verified core of an audio-download orchestrator.
//!
//! The library turns the loosely specified behaviour of an external
//! media-download tool (progress text on standard streams, a file written at
//! an unpredictable name, an unreliable exit code) into a deterministic,
//! typed outcome.  Everything that decides — URL canonicalization, filename
//! sanitization, argument construction, output classification, the polling
//! state machine and result assembly — lives here and is verified; the thin
//! shell that spawns processes, reads directories and sleeps feeds plain
//! values in and out.

pub mod text;
pub mod sanitize;
pub mod url;
pub mod invoke;
pub mod classify;
pub mod poll;
pub mod assemble;
pub mod orchestrate;
