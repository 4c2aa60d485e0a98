//! Laws that relate several coordinator operations, proved over the `after_*`
//! transition functions and `snapshot_at`, which are exactly what the
//! executable operations' contracts state about them.

use vstd::prelude::*;

use crate::song::MidiData;
use crate::state::AppState;

verus! {

/// After a successful load, a snapshot taken at any time while playback is
/// not running reports the new song's duration and position zero.
pub proof fn lemma_load_resets_snapshot(s: AppState, path: String, song: MidiData, now_ms: u64)
    requires
        !s.is_playing,
    ensures
        s.after_load(path, song).snapshot_at(now_ms).total_duration == song.duration_ms,
        s.after_load(path, song).snapshot_at(now_ms).current_position == 0,
        !s.after_load(path, song).snapshot_at(now_ms).is_playing,
{
}

/// Stopping always leads to snapshots that report not playing and position
/// zero, whatever the prior state and whenever the snapshot is taken.
pub proof fn lemma_stop_resets_snapshot(s: AppState, now_ms: u64)
    ensures
        !s.after_stop().snapshot_at(now_ms).is_playing,
        s.after_stop().snapshot_at(now_ms).current_position == 0,
{
}

/// Seeking while playing keeps playback running and unpaused, and the
/// position later snapshots report starts at the seek target and never
/// decreases as time advances.
pub proof fn lemma_seek_while_playing_position(
    s: AppState,
    position_ms: u64,
    now_ms: u64,
    t1: u64,
    t2: u64,
)
    requires
        s.is_playing,
        now_ms <= t1 <= t2,
    ensures
        s.after_seek_playing(position_ms, now_ms).snapshot_at(t1).is_playing,
        !s.after_seek_playing(position_ms, now_ms).snapshot_at(t1).is_paused,
        s.after_seek_playing(position_ms, now_ms).snapshot_at(t1).current_position >= position_ms,
        s.after_seek_playing(position_ms, now_ms).snapshot_at(t1).current_position <= s.after_seek_playing(
            position_ms,
            now_ms,
        ).snapshot_at(t2).current_position,
{
}

/// Seeking while stopped moves the reported position to the seek target and
/// leaves playback stopped, whenever the snapshot is taken.
pub proof fn lemma_seek_while_stopped_position(s: AppState, position_ms: u64, now_ms: u64)
    requires
        !s.is_playing,
    ensures
        !s.after_seek_stopped(position_ms).snapshot_at(now_ms).is_playing,
        s.after_seek_stopped(position_ms).snapshot_at(now_ms).current_position == position_ms,
{
}

} // verus!
