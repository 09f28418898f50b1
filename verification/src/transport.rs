//! Shared transport state: the playhead into the current track, its cached
//! millisecond position, the track duration, and the play/pause gate. In
//! the running system each field lives in an atomic cell read from several
//! threads; the state and every transition on it are modelled here as plain
//! values, and each transition keeps the position consistent with the
//! playhead.

use vstd::prelude::*;

use crate::track::Track;

verus! {

/// The transport fields shared between the feeder, the output callback and
/// the readers.
pub struct Transport {
    /// Frame index into the current track; never exceeds its frame count.
    pub playhead: u64,
    /// Cached copy of the playhead in milliseconds at the track's rate.
    pub position_ms: u64,
    /// Duration of the current track in milliseconds; set once per track.
    pub duration_ms: u64,
    /// Play/pause gate read by the output callback.
    pub is_playing: bool,
}

/// A frame index expressed in milliseconds at the given sample rate.
pub open spec fn position_of(playhead: int, rate: int) -> int
    recommends
        rate >= 1,
{
    playhead * 1000 / rate
}

/// Where the playhead lands after skipping forward by `window` frames:
/// clamped to the frame count, never beyond.
pub open spec fn skip_forward_spec(playhead: int, frame_count: int, window: int) -> int {
    if playhead + window >= frame_count {
        frame_count
    } else {
        playhead + window
    }
}

/// Where the playhead lands after skipping backward by `window` frames:
/// clamped to zero, never negative.
pub open spec fn skip_backward_spec(playhead: int, window: int) -> int {
    if playhead <= window {
        0
    } else {
        playhead - window
    }
}

/// The transport is consistent with the given track: the playhead is
/// inside it and the cached position matches it.
pub open spec fn consistent_with(t: Transport, track: Track) -> bool {
    &&& t.playhead <= track.frame_count
    &&& t.position_ms == position_of(t.playhead as int, track.sample_rate as int)
}

/// Compute a playhead's millisecond position.
pub fn position_ms_of(playhead: u64, rate: u32) -> (ms: u64)
    requires
        rate >= 1,
        playhead * 1000 / (rate as int) <= u64::MAX,
    ensures
        ms == position_of(playhead as int, rate as int),
{
    let wide: u128 = (playhead as u128) * 1000 / (rate as u128);
    wide as u64
}

/// The default skip window: five seconds' worth of frames at the given
/// rate.
pub fn default_skip_window(rate: u32) -> (w: u64)
    ensures
        w == 5 * rate,
{
    5 * (rate as u64)
}

impl Transport {
    /// The state before any track is loaded: at rest, at zero.
    pub fn new() -> (t: Transport)
        ensures
            t == (Transport { playhead: 0, position_ms: 0, duration_ms: 0, is_playing: false }),
    {
        Transport { playhead: 0, position_ms: 0, duration_ms: 0, is_playing: false }
    }

    /// Move the playhead forward by `window` frames, clamped to the end of
    /// the track, and recompute the cached position.
    pub fn skip_forward(&mut self, track: &Track, window: u64)
        requires
            track.wf(),
            old(self).playhead <= track.frame_count,
        ensures
            final(self).playhead == skip_forward_spec(
                old(self).playhead as int,
                track.frame_count as int,
                window as int,
            ),
            final(self).position_ms == position_of(
                final(self).playhead as int,
                track.sample_rate as int,
            ),
            final(self).playhead <= track.frame_count,
            final(self).duration_ms == old(self).duration_ms,
            final(self).is_playing == old(self).is_playing,
            consistent_with(*final(self), *track),
    {
        let new_playhead: u64 = if track.frame_count - self.playhead <= window {
            track.frame_count
        } else {
            self.playhead + window
        };
        proof {
            crate::transport::lemma_position_fits(new_playhead as int, track.sample_rate as int);
        }
        self.playhead = new_playhead;
        self.position_ms = position_ms_of(new_playhead, track.sample_rate);
    }

    /// Move the playhead backward by `window` frames, clamped to the start
    /// of the track, and recompute the cached position.
    pub fn skip_backward(&mut self, track: &Track, window: u64)
        requires
            track.wf(),
            old(self).playhead <= track.frame_count,
        ensures
            final(self).playhead == skip_backward_spec(old(self).playhead as int, window as int),
            final(self).position_ms == position_of(
                final(self).playhead as int,
                track.sample_rate as int,
            ),
            final(self).playhead <= track.frame_count,
            final(self).duration_ms == old(self).duration_ms,
            final(self).is_playing == old(self).is_playing,
            consistent_with(*final(self), *track),
    {
        let new_playhead: u64 = if self.playhead <= window {
            0
        } else {
            self.playhead - window
        };
        proof {
            crate::transport::lemma_position_fits(new_playhead as int, track.sample_rate as int);
        }
        self.playhead = new_playhead;
        self.position_ms = position_ms_of(new_playhead, track.sample_rate);
    }

    /// Flip the play/pause gate. A single control message carries toggle
    /// semantics rather than an explicit target state. Nothing else is
    /// touched: pausing leaves every queued frame where it is.
    pub fn toggle_play(&mut self)
        ensures
            final(self).is_playing == !old(self).is_playing,
            final(self).playhead == old(self).playhead,
            final(self).position_ms == old(self).position_ms,
            final(self).duration_ms == old(self).duration_ms,
    {
        self.is_playing = !self.is_playing;
    }

    /// A track change was requested: gate the output off and rewind before
    /// the decode starts, so readers see silence rather than stale audio.
    pub fn begin_track_change(&mut self)
        ensures
            *final(self) == (Transport {
                playhead: 0,
                position_ms: 0,
                duration_ms: old(self).duration_ms,
                is_playing: false,
            }),
    {
        self.is_playing = false;
        self.playhead = 0;
        self.position_ms = 0;
    }

    /// A decode finished: publish the new duration with the playhead at
    /// zero, and only then open the play gate, so no reader pairs a stale
    /// duration with a fresh playhead.
    pub fn install_track(&mut self, track: &Track)
        requires
            track.wf(),
        ensures
            *final(self) == (Transport {
                playhead: 0,
                position_ms: 0,
                duration_ms: position_of(track.frame_count as int, track.sample_rate as int) as u64,
                is_playing: true,
            }),
            consistent_with(*final(self), *track),
    {
        self.playhead = 0;
        self.position_ms = 0;
        proof {
            crate::transport::lemma_position_fits(track.frame_count as int, track.sample_rate as int);
        }
        self.duration_ms = position_ms_of(track.frame_count, track.sample_rate);
        self.is_playing = true;
    }
}

/// A millisecond position of a playhead inside a well-formed track fits in
/// a `u64`.
pub proof fn lemma_position_fits(playhead: int, rate: int)
    requires
        0 <= playhead <= crate::track::MAX_FRAME_COUNT,
        rate >= 1,
    ensures
        0 <= position_of(playhead, rate) <= u64::MAX,
{
    assert(playhead * 1000 <= crate::track::MAX_FRAME_COUNT * 1000) by (nonlinear_arith)
        requires
            0 <= playhead <= crate::track::MAX_FRAME_COUNT,
    ;
    assert(playhead * 1000 / rate <= playhead * 1000) by {
        vstd::arithmetic::div_mod::lemma_div_is_ordered_by_denominator(playhead * 1000, 1, rate);
    };
    assert(playhead * 1000 >= 0) by (nonlinear_arith)
        requires
            playhead >= 0,
    ;
    assert(position_of(playhead, rate) >= 0) by {
        vstd::arithmetic::div_mod::lemma_div_is_ordered(0, playhead * 1000, rate);
    };
}

/// Skipping forward and then backward by the same window returns the
/// playhead to where it was, whenever neither skip was clamped at a track
/// boundary.
pub proof fn lemma_skip_round_trip(playhead: int, frame_count: int, window: int)
    requires
        0 <= window,
        0 <= playhead,
        playhead + window < frame_count,
    ensures
        skip_backward_spec(
            skip_forward_spec(playhead, frame_count, window),
            window,
        ) == playhead,
{
}

/// Skipping backward and then forward by the same window returns the
/// playhead to where it was, whenever neither skip was clamped at a track
/// boundary.
pub proof fn lemma_skip_round_trip_back_first(playhead: int, frame_count: int, window: int)
    requires
        0 < window,
        window < playhead,
        playhead <= frame_count,
    ensures
        skip_forward_spec(
            skip_backward_spec(playhead, window),
            frame_count,
            window,
        ) == playhead,
{
}

} // verus!
