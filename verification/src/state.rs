//! The coordinator itself: the single source of truth for transport status,
//! position, duration, active file, loop mode and the live performance
//! parameters.
//!
//! Every mutating operation is specified by an `after_*` spec function that
//! maps the state before the call to the state after it, so the effect of any
//! sequence of operations can be stated and proved by composing those
//! functions (see the `laws` module).
//!
//! Timestamps come from the caller: the surrounding application reads one
//! monotonic clock (in milliseconds) and passes its readings to
//! `start_playback`, `seek` and `get_playback_state`. The position a snapshot
//! reports while playing and unpaused is the seek offset at the last
//! (re)start plus the time elapsed since that (re)start, saturated at
//! `u64::MAX`; in every other state it is the stored position.

use vstd::prelude::*;

use crate::modes::{KeyMode, NoteMode};
use crate::song::MidiData;

verus! {

/// Why an operation could not be carried out: the loader failed (its message
/// is kept untouched), or no song is loaded yet.
#[derive(Debug, Clone, PartialEq, Eq)]
pub enum Error {
    LoadError(String),
    NotLoaded,
}

/// An immutable point-in-time view of the coordinator, produced fresh on
/// every query. Positions and durations are in milliseconds.
#[verifier::ext_equal]
#[derive(Debug, Clone)]
pub struct PlaybackState {
    pub is_playing: bool,
    pub is_paused: bool,
    pub current_position: u64,
    pub total_duration: u64,
    pub current_file: Option<String>,
    pub loop_mode: bool,
    pub note_mode: NoteMode,
    pub key_mode: KeyMode,
    pub octave_shift: i8,
}

/// The coordinator's state. One value of this type lives for the whole
/// application session; the surrounding application guards it with its own
/// lock and shares it between the control surface and the playback loop.
#[verifier::ext_equal]
pub struct AppState {
    pub is_playing: bool,
    pub is_paused: bool,
    pub loop_mode: bool,
    pub note_mode: NoteMode,
    pub key_mode: KeyMode,
    /// Octave transposition, always within [-2, 2].
    pub octave_shift: i8,
    /// Stored position in milliseconds; read by snapshots whenever the
    /// position cannot be reconstructed from the clock.
    pub current_position: u64,
    /// Total duration of the loaded song, in milliseconds.
    pub total_duration: u64,
    /// Path of the loaded song, if any.
    pub current_file: Option<String>,
    /// Timestamp of the last (re)start, while playback is running.
    pub playback_start: Option<u64>,
    /// The loaded song, if any.
    pub midi_data: Option<MidiData>,
    /// The position the next (re)start should begin from, in milliseconds.
    pub seek_offset: u64,
}

/// A requested octave shift clamped to the domain [-2, 2].
pub open spec fn clamped_octave(shift: i8) -> i8 {
    if shift < -2 {
        -2i8
    } else if shift > 2 {
        2i8
    } else {
        shift
    }
}

impl AppState {
    /// Internal consistency: the octave shift is in its domain, and a running
    /// playback always has a song to play.
    pub open spec fn wf(self) -> bool {
        &&& -2 <= self.octave_shift <= 2
        &&& self.is_playing ==> self.midi_data is Some
    }

    /// The state of a freshly created coordinator: stopped, nothing loaded,
    /// every parameter at its default.
    pub open spec fn initial_state() -> AppState {
        AppState {
            is_playing: false,
            is_paused: false,
            loop_mode: false,
            note_mode: NoteMode::Closest,
            key_mode: KeyMode::Keys21,
            octave_shift: 0,
            current_position: 0,
            total_duration: 0,
            current_file: None,
            playback_start: None,
            midi_data: None,
            seek_offset: 0,
        }
    }

    /// Effect of a successful load: the new song replaces the old one, and
    /// duration, file, seek offset and position are reset for it.
    pub open spec fn after_load(self, path: String, song: MidiData) -> AppState {
        AppState {
            total_duration: song.duration_ms,
            current_file: Some(path),
            midi_data: Some(song),
            seek_offset: 0,
            current_position: 0,
            ..self
        }
    }

    /// Effect of starting playback at time `now_ms`: running and unpaused,
    /// the start timestamp is reset to now, and the stored position is set to
    /// the seek offset the playback begins from.
    pub open spec fn after_start(self, now_ms: u64) -> AppState {
        AppState {
            is_playing: true,
            is_paused: false,
            playback_start: Some(now_ms),
            current_position: self.seek_offset,
            ..self
        }
    }

    /// Effect of stopping: not playing, not paused, position zero, no start
    /// timestamp.
    pub open spec fn after_stop(self) -> AppState {
        AppState {
            is_playing: false,
            is_paused: false,
            current_position: 0,
            playback_start: None,
            ..self
        }
    }

    /// Effect of a pause toggle: flips the pause flag while playing and does
    /// nothing otherwise.
    pub open spec fn after_toggle_pause(self) -> AppState {
        if self.is_playing {
            AppState { is_paused: !self.is_paused, ..self }
        } else {
            self
        }
    }

    /// Effect of seeking to `position_ms` while playing: the seek offset is
    /// set to the target, then the current generation is stopped and a new
    /// one started at time `now_ms`, as one composite operation.
    pub open spec fn after_seek_playing(self, position_ms: u64, now_ms: u64) -> AppState {
        AppState { seek_offset: position_ms, ..self }.after_stop().after_start(now_ms)
    }

    /// Effect of seeking to `position_ms` while stopped: only the stored
    /// position and the seek offset move; no generation is affected.
    pub open spec fn after_seek_stopped(self, position_ms: u64) -> AppState {
        AppState { current_position: position_ms, seek_offset: position_ms, ..self }
    }

    /// Effect of the playback loop reaching the end of the timeline with loop
    /// mode off: the loop clears the playing flag itself, so a later snapshot
    /// reports stopped state although `stop_playback` was never called.
    pub open spec fn after_finish(self) -> AppState {
        AppState { is_playing: false, ..self }
    }

    pub open spec fn after_note_mode(self, mode: NoteMode) -> AppState {
        AppState { note_mode: mode, ..self }
    }

    pub open spec fn after_key_mode(self, mode: KeyMode) -> AppState {
        AppState { key_mode: mode, ..self }
    }

    pub open spec fn after_octave_shift(self, shift: i8) -> AppState {
        AppState { octave_shift: clamped_octave(shift), ..self }
    }

    pub open spec fn after_loop_mode(self, enabled: bool) -> AppState {
        AppState { loop_mode: enabled, ..self }
    }

    /// The position a snapshot taken at time `now_ms` reports: while playing
    /// and unpaused, the seek offset of the last (re)start plus the time
    /// elapsed since it, saturated at `u64::MAX`; otherwise the stored
    /// position. A reading older than the start timestamp counts as no
    /// elapsed time.
    pub open spec fn position_at(self, now_ms: u64) -> u64 {
        if self.is_playing && !self.is_paused && self.playback_start is Some {
            let started: u64 = self.playback_start->Some_0;
            let elapsed: int = if now_ms >= started { now_ms - started } else { 0 };
            let total: int = self.seek_offset + elapsed;
            if total > u64::MAX {
                u64::MAX
            } else {
                total as u64
            }
        } else {
            self.current_position
        }
    }

    /// The snapshot a query at time `now_ms` returns: every stored field as
    /// it is, and the position reconstructed by `position_at`.
    pub open spec fn snapshot_at(self, now_ms: u64) -> PlaybackState {
        PlaybackState {
            is_playing: self.is_playing,
            is_paused: self.is_paused,
            current_position: self.position_at(now_ms),
            total_duration: self.total_duration,
            current_file: self.current_file,
            loop_mode: self.loop_mode,
            note_mode: self.note_mode,
            key_mode: self.key_mode,
            octave_shift: self.octave_shift,
        }
    }

    /// A fresh coordinator: stopped, nothing loaded, defaults everywhere.
    pub fn new() -> (r: AppState)
        ensures
            r == AppState::initial_state(),
            r.wf(),
    {
        AppState {
            is_playing: false,
            is_paused: false,
            loop_mode: false,
            note_mode: NoteMode::Closest,
            key_mode: KeyMode::Keys21,
            octave_shift: 0,
            current_position: 0,
            total_duration: 0,
            current_file: None,
            playback_start: None,
            midi_data: None,
            seek_offset: 0,
        }
    }

    /// Installs the loader's result. On success the song, its duration and
    /// its path replace the previous ones and seek offset and position are
    /// reset; on failure the loader's message is propagated untouched and the
    /// state does not change. The loader itself is an external collaborator:
    /// the surrounding application parses the file and passes the outcome in.
    pub fn load_midi(&mut self, path: String, loaded: Result<MidiData, String>) -> (r: Result<
        (),
        Error,
    >)
        ensures
            match loaded {
                Ok(song) => r == Ok::<(), Error>(()) && *final(self) == old(self).after_load(
                    path,
                    song,
                ),
                Err(msg) => r == Err::<(), Error>(Error::LoadError(msg)) && *final(self) == *old(
                    self,
                ),
            },
    {
        match loaded {
            Ok(song) => {
                self.total_duration = song.duration_ms;
                self.current_file = Some(path);
                self.midi_data = Some(song);
                self.seek_offset = 0;
                self.current_position = 0;
                Ok(())
            },
            Err(msg) => Err(Error::LoadError(msg)),
        }
    }

    /// Starts a new playback generation at time `now_ms`. Fails with
    /// `NotLoaded`, changing nothing, when no song is present. Otherwise the
    /// coordinator becomes playing and unpaused, the start timestamp is reset
    /// to `now_ms`, the stored position is set to the seek offset, and the
    /// new generation's own copy of the song is returned for the surrounding
    /// application to run the playback loop on.
    pub fn start_playback(&mut self, now_ms: u64) -> (r: Result<MidiData, Error>)
        ensures
            old(self).midi_data is None ==> {
                &&& r == Err::<MidiData, Error>(Error::NotLoaded)
                &&& *final(self) == *old(self)
            },
            old(self).midi_data is Some ==> {
                &&& *final(self) == old(self).after_start(now_ms)
                &&& (r matches Ok(d) && d@ == old(self).midi_data->Some_0@)
            },
    {
        match &self.midi_data {
            Some(song) => {
                let copy = song.duplicate();
                self.is_playing = true;
                self.is_paused = false;
                self.playback_start = Some(now_ms);
                self.current_position = self.seek_offset;
                Ok(copy)
            },
            None => Err(Error::NotLoaded),
        }
    }

    /// Requests the current generation's exit and clears the transport:
    /// not playing, not paused, position zero, no start timestamp. The
    /// bounded grace wait that gives the generation time to observe the flag
    /// belongs to the surrounding application.
    pub fn stop_playback(&mut self)
        ensures
            *final(self) == old(self).after_stop(),
    {
        self.is_playing = false;
        self.is_paused = false;
        self.current_position = 0;
        self.playback_start = None;
    }

    /// Flips the pause flag, but only while playing: a pause toggle in any
    /// other state is a no-op.
    pub fn toggle_pause(&mut self)
        ensures
            *final(self) == old(self).after_toggle_pause(),
            !old(self).is_playing ==> *final(self) == *old(self),
    {
        if self.is_playing {
            self.is_paused = !self.is_paused;
        }
    }

    /// Seeks to `position_ms`. While playing this is one composite
    /// operation: record the target as the seek offset, stop the current
    /// generation, and start a new one at time `now_ms`, whose song copy is
    /// returned for the surrounding application to run. While stopped only
    /// the stored position and the seek offset move and no generation is
    /// affected.
    pub fn seek(&mut self, position_ms: u64, now_ms: u64) -> (r: Result<
        Option<MidiData>,
        Error,
    >)
        requires
            old(self).wf(),
        ensures
            old(self).is_playing ==> {
                &&& *final(self) == old(self).after_seek_playing(position_ms, now_ms)
                &&& (r matches Ok(Some(d)) && d@ == old(self).midi_data->Some_0@)
            },
            !old(self).is_playing ==> {
                &&& *final(self) == old(self).after_seek_stopped(position_ms)
                &&& r == Ok::<Option<MidiData>, Error>(None)
            },
            final(self).wf(),
    {
        if self.is_playing {
            self.seek_offset = position_ms;
            self.stop_playback();
            match self.start_playback(now_ms) {
                Ok(d) => Ok(Some(d)),
                Err(e) => {
                    proof {
                        assert(false);
                    }
                    Err(e)
                },
            }
        } else {
            self.current_position = position_ms;
            self.seek_offset = position_ms;
            Ok(None)
        }
    }

    /// For the playback loop to call when it reaches the end of the timeline
    /// with loop mode off: the loop clears the playing flag itself and exits,
    /// so a snapshot taken after natural completion reports stopped state.
    pub fn finish_playback(&mut self)
        ensures
            *final(self) == old(self).after_finish(),
    {
        self.is_playing = false;
    }

    /// Sets the note-snap mode; visible to a running generation on its next
    /// poll, with no restart.
    pub fn set_note_mode(&mut self, mode: NoteMode)
        ensures
            *final(self) == old(self).after_note_mode(mode),
    {
        self.note_mode = mode;
    }

    pub fn get_note_mode(&self) -> (r: NoteMode)
        ensures
            r == self.note_mode,
    {
        self.note_mode
    }

    /// Sets the key-range mode; visible to a running generation on its next
    /// poll, with no restart.
    pub fn set_key_mode(&mut self, mode: KeyMode)
        ensures
            *final(self) == old(self).after_key_mode(mode),
    {
        self.key_mode = mode;
    }

    pub fn get_key_mode(&self) -> (r: KeyMode)
        ensures
            r == self.key_mode,
    {
        self.key_mode
    }

    /// Sets the octave transposition, clamping any requested value to the
    /// nearest bound of [-2, 2] before storing it.
    pub fn set_octave_shift(&mut self, shift: i8)
        ensures
            *final(self) == old(self).after_octave_shift(shift),
            -2 <= final(self).octave_shift <= 2,
    {
        let clamped: i8 = if shift < -2 {
            -2
        } else if shift > 2 {
            2
        } else {
            shift
        };
        self.octave_shift = clamped;
    }

    pub fn get_octave_shift(&self) -> (r: i8)
        ensures
            r == self.octave_shift,
    {
        self.octave_shift
    }

    /// Switches loop mode; visible to a running generation on its next poll.
    pub fn set_loop_mode(&mut self, enabled: bool)
        ensures
            *final(self) == old(self).after_loop_mode(enabled),
    {
        self.loop_mode = enabled;
    }

    /// Assembles a fresh snapshot for time `now_ms`: every stored field as it
    /// is, and the position reconstructed by `position_at`.
    pub fn get_playback_state(&self, now_ms: u64) -> (r: PlaybackState)
        ensures
            r == self.snapshot_at(now_ms),
    {
        let mut position: u64 = self.current_position;
        if self.is_playing && !self.is_paused {
            if let Some(started) = self.playback_start {
                let elapsed: u64 = if now_ms >= started {
                    now_ms - started
                } else {
                    0
                };
                position = if elapsed <= u64::MAX - self.seek_offset {
                    self.seek_offset + elapsed
                } else {
                    u64::MAX
                };
            }
        }
        let file: Option<String> = match &self.current_file {
            Some(p) => Some(p.clone()),
            None => None,
        };
        PlaybackState {
            is_playing: self.is_playing,
            is_paused: self.is_paused,
            current_position: position,
            total_duration: self.total_duration,
            current_file: file,
            loop_mode: self.loop_mode,
            note_mode: self.note_mode,
            key_mode: self.key_mode,
            octave_shift: self.octave_shift,
        }
    }
}

} // verus!
