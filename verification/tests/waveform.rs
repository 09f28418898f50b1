use anahata::analyze::generate_waveform;
use anahata::math::{clamp64, isqrt64, tdiv64};
use anahata::Frame;

#[test]
fn isqrt_exact_values() {
    assert_eq!(isqrt64(0), 0);
    assert_eq!(isqrt64(1), 1);
    assert_eq!(isqrt64(15), 3);
    assert_eq!(isqrt64(16), 4);
    assert_eq!(isqrt64(1_000_000), 1000);
    assert_eq!(isqrt64(u64::MAX), 4_294_967_295);
}

#[test]
fn tdiv_truncates_toward_zero() {
    assert_eq!(tdiv64(7, 2), 3);
    assert_eq!(tdiv64(-7, 2), -3);
    assert_eq!(tdiv64(-1, 65536), 0);
}

#[test]
fn clamp_to_full_scale() {
    assert_eq!(clamp64(40000, 32768), 32768);
    assert_eq!(clamp64(-40000, 32768), -32768);
    assert_eq!(clamp64(123, 32768), 123);
}

#[test]
fn zero_track_gives_all_zero_bins() {
    let frames = vec![Frame { left: 0, right: 0 }; 1000];
    let bins = generate_waveform(&frames, 100);
    assert_eq!(bins.len(), 100);
    for bin in &bins {
        for band in [&bin.low, &bin.mid, &bin.high] {
            assert_eq!(band.rms_left, 0);
            assert_eq!(band.rms_right, 0);
            assert_eq!(band.peak_left, 0);
            assert_eq!(band.peak_right, 0);
        }
    }
}

#[test]
fn empty_track_gives_empty_waveform() {
    let frames: Vec<Frame> = Vec::new();
    assert_eq!(generate_waveform(&frames, 100).len(), 0);
}

#[test]
fn single_full_scale_frame_band_split() {
    // One full-scale frame through the crossover, computed by hand in the
    // Q16 arithmetic: the low band admits 32768/256, the mid band is the
    // difference of the two low-passes, the high band is the rest.
    let frames = vec![Frame { left: 32768, right: -32768 }];
    let bins = generate_waveform(&frames, 1);
    assert_eq!(bins.len(), 1);
    let bin = &bins[0];
    assert_eq!(bin.low.rms_left, 128);
    assert_eq!(bin.low.peak_left, 128);
    assert_eq!(bin.mid.rms_left, 1563);
    assert_eq!(bin.mid.peak_left, 1563);
    assert_eq!(bin.high.rms_left, 31077);
    assert_eq!(bin.high.peak_left, 31077);
    // The right channel mirrors the left in magnitude.
    assert_eq!(bin.low.rms_right, 128);
    assert_eq!(bin.low.peak_right, 128);
    assert_eq!(bin.mid.rms_right, 1563);
    assert_eq!(bin.high.rms_right, 31077);
}

#[test]
fn slices_past_the_end_are_zero() {
    // Five frames over ten bins: one frame per slice, the last five empty.
    let frames = vec![Frame { left: 32768, right: 32768 }; 5];
    let bins = generate_waveform(&frames, 10);
    assert_eq!(bins.len(), 10);
    assert!(bins[0].high.rms_left > 0);
    assert!(bins[4].high.rms_left > 0);
    for bin in &bins[5..] {
        assert_eq!(bin.low.peak_left, 0);
        assert_eq!(bin.mid.peak_left, 0);
        assert_eq!(bin.high.rms_left, 0);
    }
}

#[test]
fn rms_of_constant_chunk_converges_from_zero_state() {
    // A long constant chunk: the low-pass state climbs toward the input,
    // so the low peak ends at the input value less the truncation floor.
    let frames = vec![Frame { left: 32768, right: 32768 }; 4000];
    let bins = generate_waveform(&frames, 1);
    assert_eq!(bins.len(), 1);
    // After thousands of samples the low filter has nearly converged.
    assert!(bins[0].low.peak_left > 30000);
    assert!(bins[0].low.peak_left <= 32768);
    // The high band peaks at the onset and settles toward its fixed
    // point near the input times C / (K + C), about 15950 here.
    assert_eq!(bins[0].high.peak_left, 31077);
    assert!(bins[0].high.rms_left > 14000);
    assert!(bins[0].high.rms_left < 18000);
}
