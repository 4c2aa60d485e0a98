//! Playback-state coordinator for a MIDI-performance application.
//!
//! The coordinator is the single source of truth for transport status
//! (playing / paused / stopped), song position, total duration, the active
//! file, loop mode, and three live-adjustable performance parameters
//! (note-snap mode, key-range mode, octave transposition). It mediates
//! between a control surface issuing load / start / stop / seek / set-parameter
//! requests and a long-running playback loop that emits timed events.
//!
//! All positions, durations and timestamps are integer milliseconds. The
//! caller supplies a monotonic timestamp wherever the coordinator needs one,
//! so the position a snapshot reports is a pure function of the stored state
//! and that timestamp: while playing and unpaused it is the seek offset plus
//! the time elapsed since the last (re)start, saturated at `u64::MAX`;
//! otherwise it is the stored position.

pub mod laws;
pub mod modes;
pub mod song;
pub mod state;
