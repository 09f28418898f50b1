//! The output-callback logic: fill one fixed-size device block from the
//! ring buffer. When the transport is paused the block is silence and the
//! buffer is left untouched; when playing, queued frames are popped in
//! order and any shortfall — an underrun — is silence, never an error.

use vstd::prelude::*;

use crate::ring::RingBuffer;
use crate::Frame;

verus! {

/// The silent frame.
pub open spec fn silent_frame() -> Frame {
    Frame { left: 0, right: 0 }
}

/// What one block of output holds: silence throughout when paused; when
/// playing, the queued frames in order, padded with silence once the queue
/// runs dry.
pub open spec fn rendered_block(playing: bool, queued: Seq<Frame>, n: nat) -> Seq<Frame> {
    Seq::new(
        n,
        |i: int|
            if playing && i < queued.len() {
                queued[i]
            } else {
                silent_frame()
            },
    )
}

/// What stays queued after one block: everything when paused; when
/// playing, whatever the block did not consume.
pub open spec fn queued_after_block(playing: bool, queued: Seq<Frame>, n: nat) -> Seq<Frame> {
    if playing {
        if n < queued.len() {
            queued.skip(n as int)
        } else {
            Seq::empty()
        }
    } else {
        queued
    }
}

/// Produce exactly `block_size` frames for the device. Never blocks and
/// never comes up short: a missing frame becomes silence.
pub fn render_block(playing: bool, ring: &mut RingBuffer, block_size: usize) -> (out: Vec<Frame>)
    requires
        old(ring).wf(),
    ensures
        final(ring).wf(),
        final(ring).cap() == old(ring).cap(),
        out@ == rendered_block(playing, old(ring).contents(), block_size as nat),
        final(ring).contents() == queued_after_block(
            playing,
            old(ring).contents(),
            block_size as nat,
        ),
{
    let mut out: Vec<Frame> = Vec::new();
    if !playing {
        let mut i: usize = 0;
        while i < block_size
            invariant
                i <= block_size,
                out@.len() == i,
                forall|j: int| 0 <= j < i ==> out@[j] == silent_frame(),
            decreases block_size - i,
        {
            out.push(Frame { left: 0, right: 0 });
            i = i + 1;
        }
        proof {
            assert(out@ =~= rendered_block(playing, old(ring).contents(), block_size as nat));
        }
        return out;
    }
    let mut i: usize = 0;
    while i < block_size
        invariant
            ring.wf(),
            ring.cap() == old(ring).cap(),
            i <= block_size,
            out@.len() == i,
            ring.contents() == queued_after_block(true, old(ring).contents(), i as nat),
            forall|j: int| 0 <= j < i ==> out@[j] == rendered_block(
                true,
                old(ring).contents(),
                block_size as nat,
            )[j],
        decreases block_size - i,
    {
        match ring.try_pop() {
            Some(frame) => {
                out.push(frame);
            },
            None => {
                out.push(Frame { left: 0, right: 0 });
            },
        }
        proof {
            assert(ring.contents() =~= queued_after_block(
                true,
                old(ring).contents(),
                (i + 1) as nat,
            ));
        }
        i = i + 1;
    }
    proof {
        assert(out@ =~= rendered_block(true, old(ring).contents(), block_size as nat));
    }
    out
}

/// Underrun is silence: when the queue is empty and the transport is
/// playing, every sample of the rendered block is exactly zero.
pub proof fn lemma_underrun_silence(queued: Seq<Frame>, n: nat)
    requires
        queued.len() == 0,
    ensures
        forall|i: int| 0 <= i < n ==> rendered_block(true, queued, n)[i] == silent_frame(),
{
}

/// Pause preserves the queue: a paused block neither drains nor alters the
/// queued frames, and the block itself is silence.
pub proof fn lemma_pause_preserves_queue(queued: Seq<Frame>, n: nat)
    ensures
        queued_after_block(false, queued, n) == queued,
        forall|i: int| 0 <= i < n ==> rendered_block(false, queued, n)[i] == silent_frame(),
{
}

/// Resuming continues from the next queued frame: after any paused blocks,
/// a playing block starts with the very frames that were queued, in order —
/// nothing skipped and nothing repeated.
pub proof fn lemma_resume_continues(queued: Seq<Frame>, paused_blocks: nat, n: nat)
    ensures
        forall|i: int|
            0 <= i < n && i < queued.len() ==> rendered_block(
                true,
                queued_after_block(false, queued, paused_blocks),
                n,
            )[i] == queued[i],
{
}

} // verus!
