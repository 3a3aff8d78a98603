//! Conversion orchestrator for incremental, rule-driven batch transcoding of a
//! directory tree of audio files.
//!
//! The library holds the verified core: pattern-based target resolution with
//! first-match-wins rules, staleness detection against destination
//! modification times, job planning, a bounded-concurrency scheduler state
//! machine, the per-job lifecycle (temp file, atomic rename, cleanup on
//! failure), and the event queue that carries lifecycle and progress messages
//! to a reporting consumer. Filesystem walking, the transcoding engine
//! bindings and terminal rendering live outside the library and talk to it
//! through plain values.

pub mod bus;
pub mod config;
pub mod engine;
pub mod job;
pub mod logfmt;
pub mod paths;
pub mod plan;
pub mod pattern;
pub mod report;
pub mod rules;
pub mod sched;
pub mod tag;
