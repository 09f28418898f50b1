//! The decoded track: an immutable, in-memory sequence of stereo frames
//! with its sample rate and display tags, and the normalization that turns
//! raw integer samples of any supported source representation into
//! full-scale fixed-point amplitudes.

use vstd::prelude::*;

use crate::math::{clamp64, clamp_spec, tdiv, tdiv64};
use crate::{Frame, AMP_SCALE};
use vstd::arithmetic::power2::pow2;
use vstd::bits::{lemma_u64_pow2_no_overflow, lemma_u64_shl_is_mul};

verus! {

/// The largest frame count a track may carry, so that every millisecond
/// position `playhead * 1000 / sample_rate` fits in a `u64`.
pub const MAX_FRAME_COUNT: u64 = u64::MAX / 1000;

/// A fully decoded stereo track. Built once per track change, then never
/// mutated; the feeder replaces it wholesale.
pub struct Track {
    /// The decoded frames, in decode order.
    pub frames: Vec<Frame>,
    /// Sample rate in Hz; the device rate is assumed to match.
    pub sample_rate: u32,
    /// Total number of frames; always equal to `frames.len()`.
    pub frame_count: u64,
    /// Track title, or a placeholder when the file carries none.
    pub title: String,
    /// Track artist, or a placeholder when the file carries none.
    pub artist: String,
}

impl Track {
    /// Well-formedness: the count matches the frames, the rate is usable,
    /// the track is short enough for millisecond arithmetic, and every
    /// frame is a normalized amplitude pair.
    pub open spec fn wf(self) -> bool {
        &&& self.frame_count == self.frames@.len()
        &&& self.frame_count <= MAX_FRAME_COUNT
        &&& 1 <= self.sample_rate
        &&& forall|i: int| 0 <= i < self.frames@.len() ==> (#[trigger] self.frames@[i]).wf()
    }
}

/// Normalize a raw value to full scale against the divisor `d`, then clamp
/// into `[-AMP_SCALE, AMP_SCALE]`.
pub open spec fn norm_scaled(v: int, d: int) -> int
    recommends
        d >= 1,
{
    clamp_spec(tdiv(v * AMP_SCALE, d), AMP_SCALE as int)
}

/// Raw planar channel data, one variant per supported integer source
/// representation, as a decoder hands it over. Each variant holds the left
/// and right channel samples of one decoded buffer.
pub enum RawChannels {
    U8 { left: Vec<u8>, right: Vec<u8> },
    S8 { left: Vec<i8>, right: Vec<i8> },
    U16 { left: Vec<u16>, right: Vec<u16> },
    S16 { left: Vec<i16>, right: Vec<i16> },
    U24 { left: Vec<u32>, right: Vec<u32> },
    S24 { left: Vec<i32>, right: Vec<i32> },
    U32 { left: Vec<u32>, right: Vec<u32> },
    S32 { left: Vec<i32>, right: Vec<i32> },
}

pub open spec fn min_nat(a: nat, b: nat) -> nat {
    if a <= b {
        a
    } else {
        b
    }
}

impl RawChannels {
    /// Number of frames the buffer yields: the channels are walked in
    /// lock-step, so the shorter channel decides.
    pub open spec fn frame_len(self) -> nat {
        match self {
            RawChannels::U8 { left, right } => min_nat(left@.len(), right@.len()),
            RawChannels::S8 { left, right } => min_nat(left@.len(), right@.len()),
            RawChannels::U16 { left, right } => min_nat(left@.len(), right@.len()),
            RawChannels::S16 { left, right } => min_nat(left@.len(), right@.len()),
            RawChannels::U24 { left, right } => min_nat(left@.len(), right@.len()),
            RawChannels::S24 { left, right } => min_nat(left@.len(), right@.len()),
            RawChannels::U32 { left, right } => min_nat(left@.len(), right@.len()),
            RawChannels::S32 { left, right } => min_nat(left@.len(), right@.len()),
        }
    }

    /// The normalized frame at index `i`. Each representation is scaled by
    /// its natural full-scale divisor: the positive maximum for signed
    /// values (with the historical exception of 8-bit, which divides by
    /// 128), the full unsigned maximum for unsigned values, and 8-bit
    /// unsigned values are first re-centered around 128.
    pub open spec fn frame_at(self, i: int) -> Frame {
        match self {
            RawChannels::U8 { left, right } => Frame {
                left: norm_scaled(left@[i] - 128, 128) as i32,
                right: norm_scaled(right@[i] - 128, 128) as i32,
            },
            RawChannels::S8 { left, right } => Frame {
                left: norm_scaled(left@[i] as int, 128) as i32,
                right: norm_scaled(right@[i] as int, 128) as i32,
            },
            RawChannels::U16 { left, right } => Frame {
                left: norm_scaled(left@[i] as int, 0xFFFF) as i32,
                right: norm_scaled(right@[i] as int, 0xFFFF) as i32,
            },
            RawChannels::S16 { left, right } => Frame {
                left: norm_scaled(left@[i] as int, 0x7FFF) as i32,
                right: norm_scaled(right@[i] as int, 0x7FFF) as i32,
            },
            RawChannels::U24 { left, right } => Frame {
                left: norm_scaled(left@[i] as int, 0x7F_FFFF) as i32,
                right: norm_scaled(right@[i] as int, 0x7F_FFFF) as i32,
            },
            RawChannels::S24 { left, right } => Frame {
                left: norm_scaled(left@[i] as int, 0x7F_FFFF) as i32,
                right: norm_scaled(right@[i] as int, 0x7F_FFFF) as i32,
            },
            RawChannels::U32 { left, right } => Frame {
                left: norm_scaled(left@[i] as int, 0xFFFF_FFFF) as i32,
                right: norm_scaled(right@[i] as int, 0xFFFF_FFFF) as i32,
            },
            RawChannels::S32 { left, right } => Frame {
                left: norm_scaled(left@[i] as int, 0x7FFF_FFFF) as i32,
                right: norm_scaled(right@[i] as int, 0x7FFF_FFFF) as i32,
            },
        }
    }
}

/// Normalize one raw value against divisor `d`. The result is a full-scale
/// amplitude in `[-AMP_SCALE, AMP_SCALE]`.
pub fn norm_sample(v: i64, d: i64) -> (r: i32)
    requires
        1 <= d,
        -0x1_0000_0000 <= v <= 0x1_0000_0000,
    ensures
        r == norm_scaled(v as int, d as int),
        -AMP_SCALE <= r <= AMP_SCALE,
{
    assert(-0x8000_0000_0000i64 <= v * 32768 <= 0x8000_0000_0000i64) by (nonlinear_arith)
        requires
            -0x1_0000_0000 <= v <= 0x1_0000_0000,
    ;
    let scaled: i64 = v * (AMP_SCALE as i64);
    let q: i64 = tdiv64(scaled, d);
    clamp64(q, AMP_SCALE as i64) as i32
}

/// Normalize a sample of a signed stream with the given bit depth: the
/// divisor is half the representation's range, `2^(bits - 1)`. This is
/// the stream decoder's convention; the per-representation buffer path
/// (`RawChannels::frame_at`) divides by the positive maximum instead, so
/// for a 16-bit sample the two paths divide by 32768 and 32767. Both
/// conventions are deliberate and carried as they stand.
pub open spec fn norm_bits(s: int, bits: nat) -> int
    recommends
        1 <= bits <= 32,
{
    norm_scaled(s, pow2((bits - 1) as nat) as int)
}

/// The divisor `2^(bits - 1)` for a signed stream of the given bit depth.
pub fn full_scale_divisor(bits: u32) -> (d: i64)
    requires
        1 <= bits <= 32,
    ensures
        d == pow2((bits - 1) as nat),
        1 <= d <= 0x8000_0000,
{
    proof {
        lemma_u64_pow2_no_overflow((bits - 1) as nat);
        lemma_u64_shl_is_mul(1u64, (bits - 1) as u64);
        vstd::arithmetic::power2::lemma2_to64();
        if bits < 32 {
            vstd::arithmetic::power2::lemma_pow2_strictly_increases(
                (bits - 1) as nat,
                31,
            );
        }
    }
    let d: u64 = 1u64 << (bits - 1);
    d as i64
}

/// Normalize one sample of a signed stream with the given bit depth.
pub fn norm_sample_bits(s: i32, bits: u32) -> (r: i32)
    requires
        1 <= bits <= 32,
    ensures
        r == norm_bits(s as int, bits as nat),
        -AMP_SCALE <= r <= AMP_SCALE,
{
    let d: i64 = full_scale_divisor(bits);
    norm_sample(s as i64, d)
}

/// Normalize one decoded planar buffer to fixed-point stereo frames,
/// walking the two channels in lock-step as far as the shorter one
/// reaches.
pub fn normalize_buffer(raw: &RawChannels) -> (out: Vec<Frame>)
    ensures
        out@.len() == raw.frame_len(),
        forall|j: int| 0 <= j < out@.len() ==> out@[j] == raw.frame_at(j),
        forall|j: int| 0 <= j < out@.len() ==> (#[trigger] out@[j]).wf(),
{
    let mut out: Vec<Frame> = Vec::new();
    match raw {
        RawChannels::U8 { left, right } => {
            let n: usize = if left.len() <= right.len() { left.len() } else { right.len() };
            let mut i: usize = 0;
            while i < n
                invariant
                    n == raw.frame_len(),
                    raw matches RawChannels::U8 { left: l2, right: r2 } && l2 == *left
                        && r2 == *right,
                    n <= left@.len() && n <= right@.len(),
                    i <= n,
                    out@.len() == i,
                    forall|j: int| 0 <= j < i ==> out@[j] == raw.frame_at(j),
                    forall|j: int| 0 <= j < i ==> (#[trigger] out@[j]).wf(),
                decreases n - i,
            {
                let lv: i64 = left[i] as i64 - 128;
                let rv: i64 = right[i] as i64 - 128;
                out.push(Frame { left: norm_sample(lv, 128), right: norm_sample(rv, 128) });
                i = i + 1;
            }
        },
        RawChannels::S8 { left, right } => {
            let n: usize = if left.len() <= right.len() { left.len() } else { right.len() };
            let mut i: usize = 0;
            while i < n
                invariant
                    n == raw.frame_len(),
                    raw matches RawChannels::S8 { left: l2, right: r2 } && l2 == *left
                        && r2 == *right,
                    n <= left@.len() && n <= right@.len(),
                    i <= n,
                    out@.len() == i,
                    forall|j: int| 0 <= j < i ==> out@[j] == raw.frame_at(j),
                    forall|j: int| 0 <= j < i ==> (#[trigger] out@[j]).wf(),
                decreases n - i,
            {
                out.push(
                    Frame {
                        left: norm_sample(left[i] as i64, 128),
                        right: norm_sample(right[i] as i64, 128),
                    },
                );
                i = i + 1;
            }
        },
        RawChannels::U16 { left, right } => {
            let n: usize = if left.len() <= right.len() { left.len() } else { right.len() };
            let mut i: usize = 0;
            while i < n
                invariant
                    n == raw.frame_len(),
                    raw matches RawChannels::U16 { left: l2, right: r2 } && l2 == *left
                        && r2 == *right,
                    n <= left@.len() && n <= right@.len(),
                    i <= n,
                    out@.len() == i,
                    forall|j: int| 0 <= j < i ==> out@[j] == raw.frame_at(j),
                    forall|j: int| 0 <= j < i ==> (#[trigger] out@[j]).wf(),
                decreases n - i,
            {
                out.push(
                    Frame {
                        left: norm_sample(left[i] as i64, 0xFFFF),
                        right: norm_sample(right[i] as i64, 0xFFFF),
                    },
                );
                i = i + 1;
            }
        },
        RawChannels::S16 { left, right } => {
            let n: usize = if left.len() <= right.len() { left.len() } else { right.len() };
            let mut i: usize = 0;
            while i < n
                invariant
                    n == raw.frame_len(),
                    raw matches RawChannels::S16 { left: l2, right: r2 } && l2 == *left
                        && r2 == *right,
                    n <= left@.len() && n <= right@.len(),
                    i <= n,
                    out@.len() == i,
                    forall|j: int| 0 <= j < i ==> out@[j] == raw.frame_at(j),
                    forall|j: int| 0 <= j < i ==> (#[trigger] out@[j]).wf(),
                decreases n - i,
            {
                out.push(
                    Frame {
                        left: norm_sample(left[i] as i64, 0x7FFF),
                        right: norm_sample(right[i] as i64, 0x7FFF),
                    },
                );
                i = i + 1;
            }
        },
        RawChannels::U24 { left, right } => {
            let n: usize = if left.len() <= right.len() { left.len() } else { right.len() };
            let mut i: usize = 0;
            while i < n
                invariant
                    n == raw.frame_len(),
                    raw matches RawChannels::U24 { left: l2, right: r2 } && l2 == *left
                        && r2 == *right,
                    n <= left@.len() && n <= right@.len(),
                    i <= n,
                    out@.len() == i,
                    forall|j: int| 0 <= j < i ==> out@[j] == raw.frame_at(j),
                    forall|j: int| 0 <= j < i ==> (#[trigger] out@[j]).wf(),
                decreases n - i,
            {
                out.push(
                    Frame {
                        left: norm_sample(left[i] as i64, 0x7F_FFFF),
                        right: norm_sample(right[i] as i64, 0x7F_FFFF),
                    },
                );
                i = i + 1;
            }
        },
        RawChannels::S24 { left, right } => {
            let n: usize = if left.len() <= right.len() { left.len() } else { right.len() };
            let mut i: usize = 0;
            while i < n
                invariant
                    n == raw.frame_len(),
                    raw matches RawChannels::S24 { left: l2, right: r2 } && l2 == *left
                        && r2 == *right,
                    n <= left@.len() && n <= right@.len(),
                    i <= n,
                    out@.len() == i,
                    forall|j: int| 0 <= j < i ==> out@[j] == raw.frame_at(j),
                    forall|j: int| 0 <= j < i ==> (#[trigger] out@[j]).wf(),
                decreases n - i,
            {
                out.push(
                    Frame {
                        left: norm_sample(left[i] as i64, 0x7F_FFFF),
                        right: norm_sample(right[i] as i64, 0x7F_FFFF),
                    },
                );
                i = i + 1;
            }
        },
        RawChannels::U32 { left, right } => {
            let n: usize = if left.len() <= right.len() { left.len() } else { right.len() };
            let mut i: usize = 0;
            while i < n
                invariant
                    n == raw.frame_len(),
                    raw matches RawChannels::U32 { left: l2, right: r2 } && l2 == *left
                        && r2 == *right,
                    n <= left@.len() && n <= right@.len(),
                    i <= n,
                    out@.len() == i,
                    forall|j: int| 0 <= j < i ==> out@[j] == raw.frame_at(j),
                    forall|j: int| 0 <= j < i ==> (#[trigger] out@[j]).wf(),
                decreases n - i,
            {
                out.push(
                    Frame {
                        left: norm_sample(left[i] as i64, 0xFFFF_FFFF),
                        right: norm_sample(right[i] as i64, 0xFFFF_FFFF),
                    },
                );
                i = i + 1;
            }
        },
        RawChannels::S32 { left, right } => {
            let n: usize = if left.len() <= right.len() { left.len() } else { right.len() };
            let mut i: usize = 0;
            while i < n
                invariant
                    n == raw.frame_len(),
                    raw matches RawChannels::S32 { left: l2, right: r2 } && l2 == *left
                        && r2 == *right,
                    n <= left@.len() && n <= right@.len(),
                    i <= n,
                    out@.len() == i,
                    forall|j: int| 0 <= j < i ==> out@[j] == raw.frame_at(j),
                    forall|j: int| 0 <= j < i ==> (#[trigger] out@[j]).wf(),
                decreases n - i,
            {
                out.push(
                    Frame {
                        left: norm_sample(left[i] as i64, 0x7FFF_FFFF),
                        right: norm_sample(right[i] as i64, 0x7FFF_FFFF),
                    },
                );
                i = i + 1;
            }
        },
    }
    out
}

} // verus!
