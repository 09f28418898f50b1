//! A verified real-time audio playback core: a decoded track of stereo
//! frames, a fixed-capacity single-producer/single-consumer ring buffer,
//! transport state (playhead, position, play/pause), the feeder-loop and
//! output-callback logic around them, and a multi-band waveform analyzer.
//!
//! Amplitudes are held in fixed point: a sample value `q` stands for the
//! amplitude `q / 32768`, so full scale is `AMP_SCALE = 32768` and every
//! frame channel lies in `[-AMP_SCALE, AMP_SCALE]`.

use vstd::prelude::*;

pub mod analyze;
pub mod control;
pub mod decode;
pub mod feeder;
pub mod math;
pub mod output;
pub mod ring;
pub mod track;
pub mod transport;

verus! {

/// One full-scale amplitude unit: a channel value `q` stands for `q / 32768`.
pub const AMP_SCALE: i32 = 32768;

/// One stereo frame: one sample per channel at a single time index.
#[derive(Clone, Copy, PartialEq, Eq, Structural, Debug)]
pub struct Frame {
    pub left: i32,
    pub right: i32,
}

impl Frame {
    /// A channel value is a normalized amplitude, within one full scale.
    pub open spec fn wf(self) -> bool {
        -AMP_SCALE <= self.left <= AMP_SCALE && -AMP_SCALE <= self.right <= AMP_SCALE
    }
}

} // verus!
