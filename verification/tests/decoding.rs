use anahata::decode::{build_track, decode_flac_track, DecodeError};
use anahata::track::{norm_sample, norm_sample_bits, normalize_buffer, RawChannels};
use anahata::Frame;

#[test]
fn norm_sixteen_bit_exact_values() {
    // Signed 16-bit streams divide by 2^15 on this path.
    assert_eq!(norm_sample_bits(16384, 16), 16384);
    assert_eq!(norm_sample_bits(-16384, 16), -16384);
    assert_eq!(norm_sample_bits(32767, 16), 32767);
    assert_eq!(norm_sample_bits(-32768, 16), -32768);
    assert_eq!(norm_sample_bits(0, 16), 0);
}

#[test]
fn norm_eight_and_twenty_four_bit() {
    assert_eq!(norm_sample_bits(1, 8), 256);
    assert_eq!(norm_sample_bits(-128, 8), -32768);
    assert_eq!(norm_sample_bits(4096, 24), 16);
    assert_eq!(norm_sample_bits(-8388608, 24), -32768);
}

#[test]
fn norm_clamps_out_of_range_input() {
    // A corrupt stream may hand back values outside the declared depth;
    // they clamp to full scale instead of overflowing.
    assert_eq!(norm_sample_bits(2_000_000, 16), 32768);
    assert_eq!(norm_sample_bits(-2_000_000, 16), -32768);
}

#[test]
fn norm_sample_divisor_semantics() {
    // The buffer path divides signed 16-bit by the positive maximum.
    assert_eq!(norm_sample(32767, 0x7FFF), 32768);
    assert_eq!(norm_sample(-32768, 0x7FFF), -32768);
    assert_eq!(norm_sample(16384, 0x7FFF), 16384);
    // Division truncates toward zero, as the hardware does.
    assert_eq!(norm_sample(-1, 3), -10922);
}

#[test]
fn normalize_buffer_s16() {
    let raw = RawChannels::S16 {
        left: vec![0, 16384, -32768],
        right: vec![32767, -16384, 0],
    };
    let frames = normalize_buffer(&raw);
    assert_eq!(frames.len(), 3);
    assert_eq!(frames[0], Frame { left: 0, right: 32768 });
    assert_eq!(frames[1], Frame { left: 16384, right: -16384 });
    assert_eq!(frames[2], Frame { left: -32768, right: 0 });
}

#[test]
fn normalize_buffer_u8_recenters() {
    let raw = RawChannels::U8 { left: vec![128, 255, 0], right: vec![129, 127, 128] };
    let frames = normalize_buffer(&raw);
    assert_eq!(frames[0], Frame { left: 0, right: 256 });
    assert_eq!(frames[1], Frame { left: 32512, right: -256 });
    assert_eq!(frames[2], Frame { left: -32768, right: 0 });
}

#[test]
fn normalize_buffer_stops_at_shorter_channel() {
    let raw = RawChannels::S32 { left: vec![0, 0, 0], right: vec![0, 0] };
    assert_eq!(normalize_buffer(&raw).len(), 2);
}

#[test]
fn build_track_pairs_interleaved_samples() {
    let samples = vec![100, -200, 300, -400, 500];
    let track = build_track(&samples, 44100, 16, "T".to_string(), "A".to_string()).unwrap();
    // Five interleaved samples make two frames; the unpaired tail is dropped.
    assert_eq!(track.frame_count, 2);
    assert_eq!(track.frames.len(), 2);
    assert_eq!(track.frames[0], Frame { left: 100, right: -200 });
    assert_eq!(track.frames[1], Frame { left: 300, right: -400 });
    assert_eq!(track.sample_rate, 44100);
    assert_eq!(track.title, "T");
    assert_eq!(track.artist, "A");
}

#[test]
fn decode_rejects_garbage() {
    let r = decode_flac_track(vec![0x6e, 0x6f, 0x70, 0x65, 0, 0, 0, 0]);
    assert!(matches!(r, Err(DecodeError::CorruptStream)));
}

#[test]
fn decode_rejects_truncated_input() {
    let r = decode_flac_track(Vec::new());
    assert!(matches!(r, Err(DecodeError::Unreadable)));
}

fn crc8(data: &[u8]) -> u8 {
    let mut crc: u8 = 0;
    for &b in data {
        crc ^= b;
        for _ in 0..8 {
            crc = if crc & 0x80 != 0 { (crc << 1) ^ 0x07 } else { crc << 1 };
        }
    }
    crc
}

fn crc16(data: &[u8]) -> u16 {
    let mut crc: u16 = 0;
    for &b in data {
        crc ^= (b as u16) << 8;
        for _ in 0..8 {
            crc = if crc & 0x8000 != 0 { (crc << 1) ^ 0x8005 } else { crc << 1 };
        }
    }
    crc
}

/// A minimal FLAC stream builder: `channels` constant-valued channels of
/// 16 frames at 48 kHz and 16 bits, a declared total of `total_samples`,
/// and optional TITLE/ARTIST tags.
fn make_flac(channels: u8, total_samples: u32, tags: bool) -> Vec<u8> {
    let mut bytes: Vec<u8> = Vec::new();
    bytes.extend_from_slice(b"fLaC");
    // Streaminfo block header; the last-block flag is set unless a Vorbis
    // comment block follows.
    let streaminfo_header: u8 = if tags { 0x00 } else { 0x80 };
    bytes.extend_from_slice(&[streaminfo_header, 0x00, 0x00, 0x22]);
    let rate_low_and_channels: u8 = (channels - 1) << 1;
    let mut streaminfo: Vec<u8> = vec![
        0x00, 0x10, // min block size 16
        0x00, 0x10, // max block size 16
        0x00, 0x00, 0x00, // min frame size unknown
        0x00, 0x00, 0x00, // max frame size unknown
        0x0B, 0xB8, // sample rate 48000, upper 16 of 20 bits
        rate_low_and_channels, // rate low nibble 0, channel count, bps msb 0
        0xF0, // bits-per-sample low bits (16-1), total-samples high nibble 0
    ];
    streaminfo.extend_from_slice(&total_samples.to_be_bytes());
    streaminfo.extend_from_slice(&[0u8; 16]); // md5
    assert_eq!(streaminfo.len(), 34);
    bytes.extend_from_slice(&streaminfo);
    if tags {
        let mut comments: Vec<u8> = Vec::new();
        comments.extend_from_slice(&0u32.to_le_bytes()); // empty vendor string
        comments.extend_from_slice(&2u32.to_le_bytes());
        for entry in ["TITLE=Sunrise", "ARTIST=Ana"] {
            comments.extend_from_slice(&(entry.len() as u32).to_le_bytes());
            comments.extend_from_slice(entry.as_bytes());
        }
        bytes.push(0x84); // last block, type Vorbis comment
        bytes.push(0x00);
        bytes.push(0x00);
        bytes.push(comments.len() as u8);
        bytes.extend_from_slice(&comments);
    }
    let channel_assignment: u8 = (channels - 1) << 4;
    let mut frame: Vec<u8> = vec![
        0xFF, 0xF8, // sync, fixed block size
        0x60, // block size from 8-bit field, sample rate from streaminfo
        channel_assignment | 0x08, // independent channels, 16 bits per sample
        0x00, // frame number 0
        0x0F, // block size 16 - 1
    ];
    let h = crc8(&frame);
    frame.push(h);
    // One constant subframe per channel: 1000, then -2000, then 1000...
    for ch in 0..channels {
        if ch % 2 == 0 {
            frame.extend_from_slice(&[0x00, 0x03, 0xE8]);
        } else {
            frame.extend_from_slice(&[0x00, 0xF8, 0x30]);
        }
    }
    let c = crc16(&frame);
    frame.push((c >> 8) as u8);
    frame.push((c & 0xFF) as u8);
    bytes.extend_from_slice(&frame);
    bytes
}

#[test]
fn decode_minimal_flac_stream() {
    let track = decode_flac_track(make_flac(2, 16, false)).unwrap();
    assert_eq!(track.sample_rate, 48_000);
    assert_eq!(track.frame_count, 16);
    assert_eq!(track.frames.len(), 16);
    // No tags in the stream: the placeholder strings stand in.
    assert_eq!(track.title, "EH");
    assert_eq!(track.artist, "AH");
    for f in &track.frames {
        // 16-bit samples divide by 2^15 on this path.
        assert_eq!(f.left, 1000);
        assert_eq!(f.right, -2000);
    }
}

#[test]
fn decode_reads_title_and_artist_tags() {
    let track = decode_flac_track(make_flac(2, 16, true)).unwrap();
    assert_eq!(track.title, "Sunrise");
    assert_eq!(track.artist, "Ana");
    assert_eq!(track.frame_count, 16);
}

#[test]
fn decode_rejects_mono_streams() {
    let r = decode_flac_track(make_flac(1, 16, false));
    assert!(matches!(r, Err(DecodeError::NoUsableAudio)));
}

#[test]
fn decode_rejects_missing_frame_count() {
    let r = decode_flac_track(make_flac(2, 0, false));
    assert!(matches!(r, Err(DecodeError::MissingMetadata)));
}

#[test]
fn decode_is_deterministic() {
    // The decode is a function of the bytes alone: equal bytes, equal
    // tracks.
    let bytes = make_flac(2, 16, true);
    let a = decode_flac_track(bytes.clone()).unwrap();
    let b = decode_flac_track(bytes).unwrap();
    assert_eq!(a.frames, b.frames);
    assert_eq!(a.sample_rate, b.sample_rate);
    assert_eq!(a.frame_count, b.frame_count);
    assert_eq!(a.title, b.title);
    assert_eq!(a.artist, b.artist);
}
