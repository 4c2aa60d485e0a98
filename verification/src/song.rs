//! The song: an immutable parsed timeline with a known total duration.
//!
//! The coordinator owns the loaded song and hands an independently owned copy
//! to each playback generation, so generations never share mutable song data.

use vstd::prelude::*;

verus! {

/// One timed note of the timeline. `at_ms` is the note's offset from the
/// start of the song, in milliseconds.
#[derive(Debug, Clone, Copy, PartialEq, Eq, Structural)]
pub struct NoteEvent {
    pub at_ms: u64,
    pub key: u8,
    pub velocity: u8,
}

/// A parsed song: its timed notes and its total duration in milliseconds.
#[derive(Debug, Clone)]
pub struct MidiData {
    pub duration_ms: u64,
    pub notes: Vec<NoteEvent>,
}

/// The mathematical content of a song: what two independently owned copies
/// of one song agree on.
#[verifier::ext_equal]
pub ghost struct SongView {
    pub duration_ms: u64,
    pub notes: Seq<NoteEvent>,
}

impl View for MidiData {
    type V = SongView;

    open spec fn view(&self) -> SongView {
        SongView { duration_ms: self.duration_ms, notes: self.notes@ }
    }
}

impl MidiData {
    /// An independently owned copy with the same content, for handing to a
    /// new playback generation while the coordinator keeps the original.
    pub fn duplicate(&self) -> (r: MidiData)
        ensures
            r@ == self@,
    {
        let mut notes: Vec<NoteEvent> = Vec::new();
        let mut i: usize = 0;
        while i < self.notes.len()
            invariant
                i <= self.notes.len(),
                notes@ == self.notes@.subrange(0, i as int),
            decreases self.notes.len() - i,
        {
            notes.push(self.notes[i]);
            i = i + 1;
        }
        proof {
            assert(notes@ =~= self.notes@);
        }
        MidiData { duration_ms: self.duration_ms, notes }
    }
}

} // verus!
