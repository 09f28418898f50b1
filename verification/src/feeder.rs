//! The feeder loop's decisions: apply one polled transport command, then
//! move up to one chunk of frames from the track into the ring buffer.
//! The loop shell — polling cadence, sleeping, and performing a requested
//! decode — stays outside; everything decided here is a function of the
//! state handed in.

use vstd::prelude::*;

use crate::ring::RingBuffer;
use crate::track::Track;
use crate::Frame;
use crate::transport::{
    position_of, skip_backward_spec, skip_forward_spec, Transport,
};

verus! {

/// How many frames one feeder iteration moves at most.
pub const CHUNK_FRAMES: usize = 1024;

/// A transport command, delivered over the bounded command channel and
/// consumed exactly once.
#[derive(PartialEq, Eq, Debug)]
pub enum Command {
    /// Load and play the track at this path.
    ChangeTrack(String),
    /// Move the playhead forward by one skip window.
    SkipForward,
    /// Move the playhead backward by one skip window.
    SkipBackward,
    /// Flip the play/pause gate; one message carries toggle semantics.
    TogglePlay,
}

/// What one command does to the transport, and the decode request it
/// leaves for the caller: a track change rewinds and silences the output,
/// handing back the path to load; skips clamp inside the track; the stop
/// message flips between playing and paused.
pub open spec fn apply_command_spec(
    t: Transport,
    frame_count: int,
    rate: int,
    window: int,
    cmd: Command,
) -> (Transport, Option<String>) {
    match cmd {
        Command::ChangeTrack(path) => (
            Transport {
                playhead: 0,
                position_ms: 0,
                duration_ms: t.duration_ms,
                is_playing: false,
            },
            Some(path),
        ),
        Command::SkipForward => (
            Transport {
                playhead: skip_forward_spec(t.playhead as int, frame_count, window) as u64,
                position_ms: position_of(
                    skip_forward_spec(t.playhead as int, frame_count, window),
                    rate,
                ) as u64,
                duration_ms: t.duration_ms,
                is_playing: t.is_playing,
            },
            None,
        ),
        Command::SkipBackward => (
            Transport {
                playhead: skip_backward_spec(t.playhead as int, window) as u64,
                position_ms: position_of(
                    skip_backward_spec(t.playhead as int, window),
                    rate,
                ) as u64,
                duration_ms: t.duration_ms,
                is_playing: t.is_playing,
            },
            None,
        ),
        Command::TogglePlay => (
            Transport {
                playhead: t.playhead,
                position_ms: t.position_ms,
                duration_ms: t.duration_ms,
                is_playing: !t.is_playing,
            },
            None,
        ),
    }
}

/// Apply one polled command to the transport. Returns the path to decode
/// when the command was a track change; the caller performs the decode and
/// then installs the new track.
pub fn apply_command(t: &mut Transport, track: &Track, cmd: Command, window: u64) -> (load: Option<
    String,
>)
    requires
        track.wf(),
        old(t).playhead <= track.frame_count,
    ensures
        (*final(t), load) == apply_command_spec(
            *old(t),
            track.frame_count as int,
            track.sample_rate as int,
            window as int,
            cmd,
        ),
        final(t).playhead <= track.frame_count,
{
    match cmd {
        Command::ChangeTrack(path) => {
            t.begin_track_change();
            Some(path)
        },
        Command::SkipForward => {
            t.skip_forward(track, window);
            None
        },
        Command::SkipBackward => {
            t.skip_backward(track, window);
            None
        },
        Command::TogglePlay => {
            t.toggle_play();
            None
        },
    }
}

/// The smallest of the chunk size, the frames left in the track, and the
/// free slots of the ring buffer: how many frames one pump moves.
pub open spec fn pump_amount(playhead: int, frame_count: int, free: int) -> int {
    let remaining = frame_count - playhead;
    let step = if remaining <= CHUNK_FRAMES { remaining } else { CHUNK_FRAMES as int };
    if free <= step {
        free
    } else {
        step
    }
}

/// What one pump does to the transport and the queued frames. At rest it
/// does nothing. At the end of the track it wraps the playhead to zero —
/// playback loops rather than stopping, a continuously-running design.
/// Otherwise it appends up to one chunk of the track to the queue, stopping
/// early when the buffer is full, and advances the playhead by exactly the
/// frames it moved.
pub open spec fn pump_spec(t: Transport, track: Track, queued: Seq<Frame>, cap: nat) -> (
    Transport,
    Seq<Frame>,
    int,
) {
    if !t.is_playing {
        (t, queued, 0)
    } else if t.playhead >= track.frame_count {
        (
            Transport {
                playhead: 0,
                position_ms: 0,
                duration_ms: t.duration_ms,
                is_playing: t.is_playing,
            },
            queued,
            0,
        )
    } else {
        let pushed = pump_amount(
            t.playhead as int,
            track.frame_count as int,
            cap - queued.len(),
        );
        (
            Transport {
                playhead: (t.playhead + pushed) as u64,
                position_ms: position_of(t.playhead + pushed, track.sample_rate as int) as u64,
                duration_ms: t.duration_ms,
                is_playing: t.is_playing,
            },
            queued + track.frames@.subrange(t.playhead as int, t.playhead + pushed),
            pushed,
        )
    }
}

/// One pump of the feeder: when playing, copy up to one chunk of frames
/// from the track into the ring buffer by repeated `try_push`, stopping
/// early if the buffer reports full, and advance the playhead by the
/// number of frames actually pushed; at the end of the track, wrap to the
/// start.
pub fn feeder_pump(t: &mut Transport, track: &Track, rb: &mut RingBuffer) -> (pushed: usize)
    requires
        track.wf(),
        old(t).playhead <= track.frame_count,
        old(rb).wf(),
    ensures
        final(rb).wf(),
        final(rb).cap() == old(rb).cap(),
        final(t).playhead <= track.frame_count,
        crate::transport::consistent_with(*old(t), *track) ==> crate::transport::consistent_with(
            *final(t),
            *track,
        ),
        (*final(t), final(rb).contents(), pushed as int) == pump_spec(
            *old(t),
            *track,
            old(rb).contents(),
            old(rb).cap(),
        ),
{
    if !t.is_playing {
        return 0;
    }
    if t.playhead >= track.frame_count {
        t.playhead = 0;
        t.position_ms = 0;
        return 0;
    }
    let track_len: usize = track.frames.len();
    let base: u64 = t.playhead;
    let base_idx: usize = base as usize;
    let remaining: u64 = track.frame_count - base;
    let chunk: usize = if remaining <= CHUNK_FRAMES as u64 {
        remaining as usize
    } else {
        CHUNK_FRAMES
    };
    let free: usize = rb.slots();
    let quota: usize = if free <= chunk {
        free
    } else {
        chunk
    };
    proof {
        assert(quota as int == pump_amount(
            base as int,
            track.frame_count as int,
            old(rb).cap() - old(rb).contents().len(),
        ));
    }
    let mut i: usize = 0;
    while i < quota
        invariant
            track.wf(),
            rb.wf(),
            rb.cap() == old(rb).cap(),
            base == old(t).playhead,
            base_idx == base,
            track_len == track.frames@.len(),
            base + quota <= track.frame_count,
            quota <= old(rb).cap() - old(rb).contents().len(),
            i <= quota,
            rb.contents() == old(rb).contents() + track.frames@.subrange(base as int, base + i),
        decreases quota - i,
    {
        let frame = track.frames[base_idx + i];
        let ok = rb.try_push(frame);
        proof {
            assert(ok);
            assert(rb.contents() =~= old(rb).contents() + track.frames@.subrange(
                base as int,
                base + i + 1,
            ));
        }
        i = i + 1;
    }
    proof {
        crate::transport::lemma_position_fits(base + quota, track.sample_rate as int);
    }
    t.playhead = base + quota as u64;
    t.position_ms = crate::transport::position_ms_of(t.playhead, track.sample_rate);
    quota
}

/// Frames reach the output in the order they were decoded: what one pump
/// appends to an initially empty queue is the track's own frame sequence
/// from the playhead on, and a block rendered while playing returns
/// exactly those frames, in that order.
pub proof fn lemma_decode_order_preserved(t: Transport, track: Track, cap: nat, n: nat)
    requires
        t.is_playing,
        t.playhead < track.frame_count,
        track.wf(),
    ensures
        ({
            let (t1, queued, pushed) = pump_spec(t, track, Seq::empty(), cap);
            forall|i: int|
                0 <= i < n && i < queued.len() ==> crate::output::rendered_block(true, queued, n)[i]
                    == track.frames@[t.playhead + i]
        }),
{
    let (t1, queued, pushed) = pump_spec(t, track, Seq::empty(), cap);
    assert(queued =~= track.frames@.subrange(t.playhead as int, t.playhead + pushed));
}

/// The command channel's receiving half (an outside type, declared so it
/// can stand in signatures).
#[verifier::external_type_specification]
#[verifier::external_body]
#[verifier::reject_recursive_types(T)]
pub struct ExReceiver<T>(crossbeam_channel::Receiver<T>);

/// Relies on crossbeam_channel::Receiver::try_recv: takes one queued
/// message without blocking, or returns nothing when the channel is empty
/// or disconnected. Which command arrives, if any, depends on the sending
/// threads, so nothing is promised of the result.
#[verifier::external_body]
fn try_recv_command(rx: &crossbeam_channel::Receiver<Command>) -> (cmd: Option<Command>)
{
    rx.try_recv().ok()
}

/// How one feeder iteration relates its end state to its start state,
/// given the command it polled: the command (if any) is applied first; a
/// requested track change ends the iteration with the path to load and the
/// queue untouched; otherwise one chunk is pumped.
pub open spec fn feeder_step_rel(
    t0: Transport,
    q0: Seq<Frame>,
    cap: nat,
    track: Track,
    window: int,
    cmd: Option<Command>,
    t1: Transport,
    q1: Seq<Frame>,
    load: Option<String>,
    pushed: int,
) -> bool {
    let mid = match cmd {
        Some(c) => apply_command_spec(
            t0,
            track.frame_count as int,
            track.sample_rate as int,
            window,
            c,
        ),
        None => (t0, None),
    };
    &&& load == mid.1
    &&& if mid.1 is Some {
        t1 == mid.0 && q1 == q0 && pushed == 0
    } else {
        (t1, q1, pushed) == pump_spec(mid.0, track, q0, cap)
    }
}

/// One iteration of the feeder's decisions: poll the command channel
/// without blocking, apply whatever command arrived, and — unless a track
/// change asked for a decode — pump one chunk into the ring buffer.
/// Returns the path to load, if a track change arrived, and the number of
/// frames pushed.
pub fn feeder_step(
    rx: &crossbeam_channel::Receiver<Command>,
    t: &mut Transport,
    track: &Track,
    rb: &mut RingBuffer,
    window: u64,
) -> (r: (Option<String>, usize))
    requires
        track.wf(),
        old(t).playhead <= track.frame_count,
        old(rb).wf(),
    ensures
        final(rb).wf(),
        final(rb).cap() == old(rb).cap(),
        final(t).playhead <= track.frame_count,
        exists|cmd: Option<Command>|
            feeder_step_rel(
                *old(t),
                old(rb).contents(),
                old(rb).cap(),
                *track,
                window as int,
                cmd,
                *final(t),
                final(rb).contents(),
                r.0,
                r.1 as int,
            ),
{
    let polled = try_recv_command(rx);
    let ghost gcmd = polled;
    let load: Option<String> = match polled {
        Some(c) => apply_command(t, track, c, window),
        None => None,
    };
    let r: (Option<String>, usize) = match load {
        Some(path) => (Some(path), 0),
        None => {
            let pushed = feeder_pump(t, track, rb);
            (None, pushed)
        },
    };
    proof {
        assert(feeder_step_rel(
            *old(t),
            old(rb).contents(),
            old(rb).cap(),
            *track,
            window as int,
            gcmd,
            *final(t),
            final(rb).contents(),
            r.0,
            r.1 as int,
        ));
    }
    r
}

} // verus!
