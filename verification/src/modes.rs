//! The two live-adjustable performance parameters that are small enums:
//! the note-snap mode and the key-range mode.

use vstd::prelude::*;

verus! {

/// How a note outside the playable range is mapped onto it: snapped to the
/// closest playable note, or skipped entirely.
#[derive(Debug, Clone, Copy, PartialEq, Eq, Structural)]
pub enum NoteMode {
    Closest,
    Skip,
}

/// Which range of keys the performance targets.
#[derive(Debug, Clone, Copy, PartialEq, Eq, Structural)]
pub enum KeyMode {
    Keys21,
    Keys36,
}

} // verus!
