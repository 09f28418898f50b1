//! The waveform analyzer: a pure batch pass over a decoded track that
//! splits the frames into a requested number of contiguous time slices and
//! produces, for each slice, RMS and peak amplitude per channel in three
//! frequency bands. The crossover is approximated by cascaded one-pole
//! exponential-smoothing filters in Q16 fixed point: the low band is a
//! low-pass near 300 Hz, the mid band is the difference of the two
//! low-passes, and the high band is the input minus a low-pass near 4 kHz
//! (coefficients chosen for a 48 kHz source rate).

use vstd::math::{abs, max};
use vstd::prelude::*;

use crate::math::{
    is_floor_sqrt, isqrt64, lemma_mean_bound, lemma_sqrt_bound, lemma_square_bound,
    lemma_tdiv_bound, tdiv, tdiv64,
};
use crate::Frame;

verus! {

/// The fixed-point scale of the filter coefficients.
pub const FILTER_SCALE: i64 = 65536;

/// The low crossover coefficient, about 0.9961 of full scale: a one-pole
/// low-pass near 300 Hz at a 48 kHz rate.
pub const LOW_COEFF: i64 = 65280;

/// The high crossover coefficient, about 0.9484 of full scale: a one-pole
/// low-pass near 4 kHz at a 48 kHz rate.
pub const HIGH_COEFF: i64 = 62154;

/// A bound on the high-pass state; every band value stays within it.
pub const BAND_BOUND: i64 = 2031616;

/// A bound on every accumulated squared band value.
pub const SQUARE_BOUND: u64 = 4127463571456;

/// One step of a one-pole exponential smoothing filter with coefficient
/// `c` of `FILTER_SCALE`: the state moves toward the input by the
/// complement of the coefficient.
pub open spec fn lp(state: int, x: int, c: int) -> int {
    tdiv(state * c + x * (FILTER_SCALE - c), FILTER_SCALE as int)
}

/// The eight filter states carried across one time slice: per channel, the
/// low-band low-pass, the two mid-band low-passes, and the high-band
/// state (which holds the previous high-band output).
pub struct FilterState {
    pub low_l: int,
    pub low_r: int,
    pub mid_lo_l: int,
    pub mid_lo_r: int,
    pub mid_hi_l: int,
    pub mid_hi_r: int,
    pub high_l: int,
    pub high_r: int,
}

/// Everything accumulated over one time slice: the filter states, the
/// running sums of squared band values, and the running peaks.
pub struct BinAcc {
    pub st: FilterState,
    pub sum_low_l: int,
    pub sum_low_r: int,
    pub sum_mid_l: int,
    pub sum_mid_r: int,
    pub sum_high_l: int,
    pub sum_high_r: int,
    pub peak_low_l: int,
    pub peak_low_r: int,
    pub peak_mid_l: int,
    pub peak_mid_r: int,
    pub peak_high_l: int,
    pub peak_high_r: int,
}

/// The accumulator at the start of a slice: filters at rest, sums and
/// peaks at zero.
pub open spec fn acc_init() -> BinAcc {
    BinAcc {
        st: FilterState {
            low_l: 0,
            low_r: 0,
            mid_lo_l: 0,
            mid_lo_r: 0,
            mid_hi_l: 0,
            mid_hi_r: 0,
            high_l: 0,
            high_r: 0,
        },
        sum_low_l: 0,
        sum_low_r: 0,
        sum_mid_l: 0,
        sum_mid_r: 0,
        sum_high_l: 0,
        sum_high_r: 0,
        peak_low_l: 0,
        peak_low_r: 0,
        peak_mid_l: 0,
        peak_mid_r: 0,
        peak_high_l: 0,
        peak_high_r: 0,
    }
}

/// Feed one frame through the crossover filters and accumulate squares
/// and peaks of the three band values per channel.
pub open spec fn acc_step(a: BinAcc, f: Frame) -> BinAcc {
    let xl = f.left as int;
    let xr = f.right as int;
    let low_l = lp(a.st.low_l, xl, LOW_COEFF as int);
    let low_r = lp(a.st.low_r, xr, LOW_COEFF as int);
    let mid_lo_l = lp(a.st.mid_lo_l, xl, LOW_COEFF as int);
    let mid_lo_r = lp(a.st.mid_lo_r, xr, LOW_COEFF as int);
    let mid_hi_l = lp(a.st.mid_hi_l, xl, HIGH_COEFF as int);
    let mid_hi_r = lp(a.st.mid_hi_r, xr, HIGH_COEFF as int);
    let mid_l = mid_hi_l - mid_lo_l;
    let mid_r = mid_hi_r - mid_lo_r;
    let high_l = xl - lp(a.st.high_l, xl, HIGH_COEFF as int);
    let high_r = xr - lp(a.st.high_r, xr, HIGH_COEFF as int);
    BinAcc {
        st: FilterState { low_l, low_r, mid_lo_l, mid_lo_r, mid_hi_l, mid_hi_r, high_l, high_r },
        sum_low_l: a.sum_low_l + low_l * low_l,
        sum_low_r: a.sum_low_r + low_r * low_r,
        sum_mid_l: a.sum_mid_l + mid_l * mid_l,
        sum_mid_r: a.sum_mid_r + mid_r * mid_r,
        sum_high_l: a.sum_high_l + high_l * high_l,
        sum_high_r: a.sum_high_r + high_r * high_r,
        peak_low_l: max(a.peak_low_l, abs(low_l) as int),
        peak_low_r: max(a.peak_low_r, abs(low_r) as int),
        peak_mid_l: max(a.peak_mid_l, abs(mid_l) as int),
        peak_mid_r: max(a.peak_mid_r, abs(mid_r) as int),
        peak_high_l: max(a.peak_high_l, abs(high_l) as int),
        peak_high_r: max(a.peak_high_r, abs(high_r) as int),
    }
}

/// The accumulator after the first `k` frames of the slice starting at
/// `start`.
pub open spec fn acc_over(frames: Seq<Frame>, start: int, k: nat) -> BinAcc
    decreases k,
{
    if k == 0 {
        acc_init()
    } else {
        acc_step(acc_over(frames, start, (k - 1) as nat), frames[start + k - 1])
    }
}

/// RMS and peak amplitude of one frequency band, for both channels, over
/// one time slice, in the track's fixed-point amplitude scale.
#[derive(Clone, Copy, PartialEq, Eq, Structural, Debug)]
pub struct FrequencyBand {
    pub rms_left: u32,
    pub rms_right: u32,
    pub peak_left: u32,
    pub peak_right: u32,
}

/// One time slice of the waveform: the three frequency bands.
#[derive(Clone, Copy, PartialEq, Eq, Structural, Debug)]
pub struct WaveformBin {
    pub low: FrequencyBand,
    pub mid: FrequencyBand,
    pub high: FrequencyBand,
}

/// An all-zero band.
pub open spec fn zero_band() -> FrequencyBand {
    FrequencyBand { rms_left: 0, rms_right: 0, peak_left: 0, peak_right: 0 }
}

/// An all-zero bin, emitted for slices that start past the end.
pub open spec fn zero_bin() -> WaveformBin {
    WaveformBin { low: zero_band(), mid: zero_band(), high: zero_band() }
}

/// A band is finished correctly: each RMS field is the floor square root
/// of the mean of the accumulated squares, and each peak field is the
/// accumulated peak.
pub open spec fn band_matches(
    b: FrequencyBand,
    sum_l: int,
    sum_r: int,
    peak_l: int,
    peak_r: int,
    k: int,
) -> bool {
    &&& is_floor_sqrt(b.rms_left as int, sum_l / k)
    &&& is_floor_sqrt(b.rms_right as int, sum_r / k)
    &&& b.peak_left == peak_l
    &&& b.peak_right == peak_r
}

/// The number of frames per slice: the ceiling of the frame count over
/// the bin count.
pub open spec fn frames_per_bin(len: int, num_bins: int) -> int
    recommends
        len >= 1,
        num_bins >= 1,
{
    (len - 1) / num_bins + 1
}

/// Bin `b` of the waveform is correct for its slice: all zero when the
/// slice starts past the end of the track; otherwise the bands are
/// accumulated over the slice, whose length is capped by the end of the
/// track.
pub open spec fn bin_matches(bin: WaveformBin, frames: Seq<Frame>, start: int, spb: int) -> bool {
    if start >= frames.len() {
        bin == zero_bin()
    } else {
        let k = if spb <= frames.len() - start {
            spb
        } else {
            frames.len() - start
        };
        let a = acc_over(frames, start, k as nat);
        &&& band_matches(bin.low, a.sum_low_l, a.sum_low_r, a.peak_low_l, a.peak_low_r, k)
        &&& band_matches(bin.mid, a.sum_mid_l, a.sum_mid_r, a.peak_mid_l, a.peak_mid_r, k)
        &&& band_matches(bin.high, a.sum_high_l, a.sum_high_r, a.peak_high_l, a.peak_high_r, k)
    }
}

/// One step of the smoothing filter in executable form.
fn lp_step(state: i64, x: i64, c: i64) -> (r: i64)
    requires
        0 < c < FILTER_SCALE,
        -BAND_BOUND <= state <= BAND_BOUND,
        -32768 <= x <= 32768,
    ensures
        r == lp(state as int, x as int, c as int),
        -BAND_BOUND <= r <= BAND_BOUND,
{
    assert((-(BAND_BOUND * FILTER_SCALE) <= state * c + x * (FILTER_SCALE - c) <= BAND_BOUND
        * FILTER_SCALE) && (-(BAND_BOUND * FILTER_SCALE) <= state * c <= BAND_BOUND
        * FILTER_SCALE) && (-(32768 * FILTER_SCALE) <= x * (FILTER_SCALE - c) <= 32768
        * FILTER_SCALE)) by (nonlinear_arith)
        requires
            0 < c < FILTER_SCALE,
            -BAND_BOUND <= state <= BAND_BOUND,
            -32768 <= x <= 32768,
    ;
    let r = tdiv64(state * c + x * (FILTER_SCALE - c), FILTER_SCALE);
    proof {
        lemma_tdiv_bound(
            state * c + x * (FILTER_SCALE - c),
            FILTER_SCALE as int,
            BAND_BOUND as int,
        );
    }
    r
}

/// A small low-pass step stays within full scale when its state does.
proof fn lemma_lp_small(s: int, x: int, c: int)
    requires
        0 < c < 65536,
        -32768 <= s <= 32768,
        -32768 <= x <= 32768,
    ensures
        -32768 <= lp(s, x, c) <= 32768,
{
    assert(-(32768 * 65536) <= s * c + x * (65536 - c) <= 32768 * 65536) by (nonlinear_arith)
        requires
            0 < c < 65536,
            -32768 <= s <= 32768,
            -32768 <= x <= 32768,
    ;
    lemma_tdiv_bound(s * c + x * (65536 - c), 65536, 32768);
}

/// The high-band state stays within `BAND_BOUND` across one step.
proof fn lemma_high_step_bound(h: int, x: int)
    requires
        -2031616 <= h <= 2031616,
        -32768 <= x <= 32768,
    ensures
        -2031616 <= x - lp(h, x, HIGH_COEFF as int) <= 2031616,
{
    let c = HIGH_COEFF as int;
    assert(-(1928500 * 65536) <= h * c + x * (65536 - c) <= 1928500 * 65536) by (nonlinear_arith)
        requires
            c == 62154,
            -2031616 <= h <= 2031616,
            -32768 <= x <= 32768,
    ;
    lemma_tdiv_bound(h * c + x * (65536 - c), 65536, 1928500);
}

/// Finish one band from its accumulated sums and peaks.
fn finish_band(sum_l: u128, sum_r: u128, peak_l: i64, peak_r: i64, k: usize) -> (b: FrequencyBand)
    requires
        1 <= k,
        sum_l <= k * SQUARE_BOUND,
        sum_r <= k * SQUARE_BOUND,
        0 <= peak_l <= BAND_BOUND,
        0 <= peak_r <= BAND_BOUND,
    ensures
        band_matches(b, sum_l as int, sum_r as int, peak_l as int, peak_r as int, k as int),
{
    proof {
        lemma_mean_bound(sum_l as int, k as int, SQUARE_BOUND as int);
        lemma_mean_bound(sum_r as int, k as int, SQUARE_BOUND as int);
    }
    let mean_l: u64 = (sum_l / (k as u128)) as u64;
    let mean_r: u64 = (sum_r / (k as u128)) as u64;
    let rms_l: u64 = isqrt64(mean_l);
    let rms_r: u64 = isqrt64(mean_r);
    proof {
        lemma_sqrt_bound(rms_l as int, mean_l as int, 2097152);
        lemma_sqrt_bound(rms_r as int, mean_r as int, 2097152);
    }
    FrequencyBand {
        rms_left: rms_l as u32,
        rms_right: rms_r as u32,
        peak_left: peak_l as u32,
        peak_right: peak_r as u32,
    }
}

/// Run the crossover filters over one slice of `k` frames starting at
/// `start`, and finish its three bands.
#[verifier::rlimit(60)]
fn analyze_chunk(frames: &Vec<Frame>, start: usize, k: usize) -> (bin: WaveformBin)
    requires
        1 <= k,
        start + k <= frames@.len(),
        forall|i: int| 0 <= i < frames@.len() ==> (#[trigger] frames@[i]).wf(),
    ensures
        ({
            let a = acc_over(frames@, start as int, k as nat);
            &&& band_matches(
                bin.low,
                a.sum_low_l,
                a.sum_low_r,
                a.peak_low_l,
                a.peak_low_r,
                k as int,
            )
            &&& band_matches(
                bin.mid,
                a.sum_mid_l,
                a.sum_mid_r,
                a.peak_mid_l,
                a.peak_mid_r,
                k as int,
            )
            &&& band_matches(
                bin.high,
                a.sum_high_l,
                a.sum_high_r,
                a.peak_high_l,
                a.peak_high_r,
                k as int,
            )
        }),
{
    let mut low_l: i64 = 0;
    let mut low_r: i64 = 0;
    let mut mid_lo_l: i64 = 0;
    let mut mid_lo_r: i64 = 0;
    let mut mid_hi_l: i64 = 0;
    let mut mid_hi_r: i64 = 0;
    let mut high_l: i64 = 0;
    let mut high_r: i64 = 0;
    let mut sum_low_l: u128 = 0;
    let mut sum_low_r: u128 = 0;
    let mut sum_mid_l: u128 = 0;
    let mut sum_mid_r: u128 = 0;
    let mut sum_high_l: u128 = 0;
    let mut sum_high_r: u128 = 0;
    let mut peak_low_l: i64 = 0;
    let mut peak_low_r: i64 = 0;
    let mut peak_mid_l: i64 = 0;
    let mut peak_mid_r: i64 = 0;
    let mut peak_high_l: i64 = 0;
    let mut peak_high_r: i64 = 0;
    let flen: usize = frames.len();
    let mut j: usize = 0;
    while j < k
        invariant
            1 <= k,
            flen == frames@.len(),
            start + k <= frames@.len(),
            forall|i: int| 0 <= i < frames@.len() ==> (#[trigger] frames@[i]).wf(),
            j <= k,
            ({
                let a = acc_over(frames@, start as int, j as nat);
                &&& low_l == a.st.low_l
                &&& low_r == a.st.low_r
                &&& mid_lo_l == a.st.mid_lo_l
                &&& mid_lo_r == a.st.mid_lo_r
                &&& mid_hi_l == a.st.mid_hi_l
                &&& mid_hi_r == a.st.mid_hi_r
                &&& high_l == a.st.high_l
                &&& high_r == a.st.high_r
                &&& sum_low_l == a.sum_low_l
                &&& sum_low_r == a.sum_low_r
                &&& sum_mid_l == a.sum_mid_l
                &&& sum_mid_r == a.sum_mid_r
                &&& sum_high_l == a.sum_high_l
                &&& sum_high_r == a.sum_high_r
                &&& peak_low_l == a.peak_low_l
                &&& peak_low_r == a.peak_low_r
                &&& peak_mid_l == a.peak_mid_l
                &&& peak_mid_r == a.peak_mid_r
                &&& peak_high_l == a.peak_high_l
                &&& peak_high_r == a.peak_high_r
            }),
            -32768 <= low_l <= 32768,
            -32768 <= low_r <= 32768,
            -32768 <= mid_lo_l <= 32768,
            -32768 <= mid_lo_r <= 32768,
            -32768 <= mid_hi_l <= 32768,
            -32768 <= mid_hi_r <= 32768,
            -BAND_BOUND <= high_l <= BAND_BOUND,
            -BAND_BOUND <= high_r <= BAND_BOUND,
            0 <= peak_low_l <= BAND_BOUND,
            0 <= peak_low_r <= BAND_BOUND,
            0 <= peak_mid_l <= BAND_BOUND,
            0 <= peak_mid_r <= BAND_BOUND,
            0 <= peak_high_l <= BAND_BOUND,
            0 <= peak_high_r <= BAND_BOUND,
            sum_low_l <= j * SQUARE_BOUND,
            sum_low_r <= j * SQUARE_BOUND,
            sum_mid_l <= j * SQUARE_BOUND,
            sum_mid_r <= j * SQUARE_BOUND,
            sum_high_l <= j * SQUARE_BOUND,
            sum_high_r <= j * SQUARE_BOUND,
        decreases k - j,
    {
        let f = frames[start + j];
        let xl: i64 = f.left as i64;
        let xr: i64 = f.right as i64;
        proof {
            lemma_lp_small(low_l as int, xl as int, LOW_COEFF as int);
            lemma_lp_small(low_r as int, xr as int, LOW_COEFF as int);
            lemma_lp_small(mid_lo_l as int, xl as int, LOW_COEFF as int);
            lemma_lp_small(mid_lo_r as int, xr as int, LOW_COEFF as int);
            lemma_lp_small(mid_hi_l as int, xl as int, HIGH_COEFF as int);
            lemma_lp_small(mid_hi_r as int, xr as int, HIGH_COEFF as int);
            lemma_high_step_bound(high_l as int, xl as int);
            lemma_high_step_bound(high_r as int, xr as int);
        }
        low_l = lp_step(low_l, xl, LOW_COEFF);
        low_r = lp_step(low_r, xr, LOW_COEFF);
        mid_lo_l = lp_step(mid_lo_l, xl, LOW_COEFF);
        mid_lo_r = lp_step(mid_lo_r, xr, LOW_COEFF);
        mid_hi_l = lp_step(mid_hi_l, xl, HIGH_COEFF);
        mid_hi_r = lp_step(mid_hi_r, xr, HIGH_COEFF);
        let mid_l: i64 = mid_hi_l - mid_lo_l;
        let mid_r: i64 = mid_hi_r - mid_lo_r;
        high_l = xl - lp_step(high_l, xl, HIGH_COEFF);
        high_r = xr - lp_step(high_r, xr, HIGH_COEFF);
        proof {
            lemma_square_bound(low_l as int, BAND_BOUND as int);
            lemma_square_bound(low_r as int, BAND_BOUND as int);
            lemma_square_bound(mid_l as int, BAND_BOUND as int);
            lemma_square_bound(mid_r as int, BAND_BOUND as int);
            lemma_square_bound(high_l as int, BAND_BOUND as int);
            lemma_square_bound(high_r as int, BAND_BOUND as int);
        }
        sum_low_l = sum_low_l + ((low_l * low_l) as u128);
        sum_low_r = sum_low_r + ((low_r * low_r) as u128);
        sum_mid_l = sum_mid_l + ((mid_l * mid_l) as u128);
        sum_mid_r = sum_mid_r + ((mid_r * mid_r) as u128);
        sum_high_l = sum_high_l + ((high_l * high_l) as u128);
        sum_high_r = sum_high_r + ((high_r * high_r) as u128);
        let av_low_l: i64 = if low_l >= 0 { low_l } else { -low_l };
        let av_low_r: i64 = if low_r >= 0 { low_r } else { -low_r };
        let av_mid_l: i64 = if mid_l >= 0 { mid_l } else { -mid_l };
        let av_mid_r: i64 = if mid_r >= 0 { mid_r } else { -mid_r };
        let av_high_l: i64 = if high_l >= 0 { high_l } else { -high_l };
        let av_high_r: i64 = if high_r >= 0 { high_r } else { -high_r };
        if av_low_l > peak_low_l { peak_low_l = av_low_l; }
        if av_low_r > peak_low_r { peak_low_r = av_low_r; }
        if av_mid_l > peak_mid_l { peak_mid_l = av_mid_l; }
        if av_mid_r > peak_mid_r { peak_mid_r = av_mid_r; }
        if av_high_l > peak_high_l { peak_high_l = av_high_l; }
        if av_high_r > peak_high_r { peak_high_r = av_high_r; }
        j = j + 1;
    }
    let low = finish_band(sum_low_l, sum_low_r, peak_low_l, peak_low_r, k);
    let mid = finish_band(sum_mid_l, sum_mid_r, peak_mid_l, peak_mid_r, k);
    let high = finish_band(sum_high_l, sum_high_r, peak_high_l, peak_high_r, k);
    WaveformBin { low, mid, high }
}

/// The analyzer: split the track's frames into `num_bins` contiguous
/// slices of `frames_per_bin` frames (the last may be shorter, and slices
/// past the end are all-zero), and produce RMS and peak per band and
/// channel for each. Deterministic and re-runnable; an empty track yields
/// an empty waveform.
pub fn generate_waveform(frames: &Vec<Frame>, num_bins: usize) -> (out: Vec<WaveformBin>)
    requires
        num_bins >= 1,
        forall|i: int| 0 <= i < frames@.len() ==> (#[trigger] frames@[i]).wf(),
    ensures
        out@.len() == if frames@.len() == 0 {
            0int
        } else {
            num_bins as int
        },
        forall|b: int|
            0 <= b < out@.len() ==> #[trigger] bin_matches(
                out@[b],
                frames@,
                b * frames_per_bin(frames@.len() as int, num_bins as int),
                frames_per_bin(frames@.len() as int, num_bins as int),
            ),
{
    let flen: usize = frames.len();
    if flen == 0 {
        return Vec::new();
    }
    let spb: usize = (flen - 1) / num_bins + 1;
    let mut out: Vec<WaveformBin> = Vec::new();
    let mut cur: usize = 0;
    let ghost mut gstart: int = 0;
    let mut b: usize = 0;
    while b < num_bins
        invariant
            num_bins >= 1,
            1 <= spb,
            flen == frames@.len(),
            flen >= 1,
            spb == frames_per_bin(flen as int, num_bins as int),
            b <= num_bins,
            out@.len() == b,
            gstart == b * spb,
            cur == if gstart <= flen {
                gstart
            } else {
                flen as int
            },
            forall|bb: int|
                0 <= bb < b ==> #[trigger] bin_matches(out@[bb], frames@, bb * spb, spb as int),
            forall|i: int| 0 <= i < frames@.len() ==> (#[trigger] frames@[i]).wf(),
        decreases num_bins - b,
    {
        if cur >= flen {
            out.push(
                WaveformBin {
                    low: FrequencyBand { rms_left: 0, rms_right: 0, peak_left: 0, peak_right: 0 },
                    mid: FrequencyBand { rms_left: 0, rms_right: 0, peak_left: 0, peak_right: 0 },
                    high: FrequencyBand { rms_left: 0, rms_right: 0, peak_left: 0, peak_right: 0 },
                },
            );
        } else {
            let k: usize = if flen - cur < spb {
                flen - cur
            } else {
                spb
            };
            let bin = analyze_chunk(frames, cur, k);
            out.push(bin);
        }
        cur = if flen - cur < spb {
            flen
        } else {
            cur + spb
        };
        proof {
            assert((b + 1) * spb == b * spb + spb) by (nonlinear_arith);
            gstart = gstart + spb;
        }
        b = b + 1;
    }
    out
}

} // verus!
