//! The decoder: turn the bytes of a FLAC file into a fully decoded,
//! normalized `Track`. The FLAC container and stream are read by an
//! outside decoder through trusted wrappers. Each wrapper's result is a
//! function of the bytes alone, so it carries a name for that result, and
//! the entry point's contract says exactly which bytes decode, to which
//! frames, tags and errors — the same bytes always to the same track.
//! Everything after the raw samples — pairing the interleaved channels
//! into frames, normalizing them, and assembling the track — is verified
//! here.

use vstd::prelude::*;
use vstd::string::StringExecFns;

use crate::track::{norm_bits, norm_sample_bits, Track, MAX_FRAME_COUNT};
use crate::Frame;

verus! {

/// Why a track change failed. A failure is fatal to the request, never to
/// the player: the transport simply stays paused.
#[derive(Clone, Copy, PartialEq, Eq, Structural, Debug)]
pub enum DecodeError {
    /// The underlying bytes could not be read.
    Unreadable,
    /// The container or stream uses a feature the decoder does not
    /// support, or the stream is too large to address.
    UnsupportedFormat,
    /// The stream is ill-formed.
    CorruptStream,
    /// The stream holds no audio this player can use (not two channels).
    NoUsableAudio,
    /// The stream is missing required metadata (the total frame count).
    MissingMetadata,
}

/// An open FLAC stream of the outside decoder, held opaquely: its reader
/// type cannot be declared to the verifier (its bound is a trait the
/// verifier does not know), so the whole holder is trusted and opaque.
#[verifier::external_body]
pub struct FlacStream {
    reader: claxon::FlacReader<std::io::Cursor<Vec<u8>>>,
}

/// What an opened stream holds: the bytes it was opened from. Every
/// wrapper of the outside decoder speaks over it, which makes each
/// decoder result a function of those bytes alone.
pub uninterp spec fn stream_bytes(stream: FlacStream) -> Seq<u8>;

/// Whether the outside decoder accepts the bytes as a FLAC stream:
/// nothing when the header and metadata blocks parse, otherwise the
/// error class on which they do not.
pub uninterp spec fn flac_open_spec(bytes: Seq<u8>) -> Option<DecodeError>;

/// The stream information the outside decoder reads from the bytes:
/// sample rate, channel count, bit depth, and the declared total frame
/// count if the header carries one.
pub uninterp spec fn flac_streaminfo_spec(bytes: Seq<u8>) -> (u32, u32, u32, Option<u64>);

/// The first value of the named Vorbis comment of the bytes, if any.
pub uninterp spec fn flac_tag_spec(bytes: Seq<u8>, name: Seq<char>) -> Option<Seq<char>>;

/// The outside decoder's full decode of the bytes: the interleaved
/// channel samples, or the error class on which decoding fails.
pub uninterp spec fn flac_samples_spec(bytes: Seq<u8>) -> Result<Seq<i32>, DecodeError>;

/// Relies on claxon::FlacReader::new: reads the FLAC header and metadata
/// blocks from the bytes — a pure parse of the bytes alone — and fails on
/// anything that is not a well-formed FLAC stream. Its error taxonomy is
/// mapped one variant to one variant.
#[verifier::external_body]
fn flac_open(bytes: Vec<u8>) -> (r: Result<FlacStream, DecodeError>)
    ensures
        r is Ok <==> flac_open_spec(bytes@) is None,
        r matches Ok(stream) ==> stream_bytes(stream) == bytes@,
        r matches Err(e) ==> flac_open_spec(bytes@) == Some(e),
{
    match claxon::FlacReader::new(std::io::Cursor::new(bytes)) {
        Ok(reader) => Ok(FlacStream { reader }),
        Err(claxon::Error::IoError(_)) => Err(DecodeError::Unreadable),
        Err(claxon::Error::FormatError(_)) => Err(DecodeError::CorruptStream),
        Err(claxon::Error::Unsupported(_)) => Err(DecodeError::UnsupportedFormat),
    }
}

/// Relies on claxon::FlacReader::streaminfo: the stream's sample rate,
/// channel count, bit depth, and total inter-channel frame count if the
/// header carries one. The reader validates these on open: the sample rate
/// is 1..=655350, the channel count 1..=8, the bit depth 1..=32.
#[verifier::external_body]
fn flac_streaminfo(stream: &FlacStream) -> (info: (
    u32,
    u32,
    u32,
    Option<u64>,
))
    ensures
        info == flac_streaminfo_spec(stream_bytes(*stream)),
        1 <= info.0 <= 655350,
        1 <= info.1 <= 8,
        1 <= info.2 <= 32,
{
    let si = stream.reader.streaminfo();
    (si.sample_rate, si.channels, si.bits_per_sample, si.samples)
}

/// Relies on claxon::FlacReader::get_tag: case-insensitive lookup of a
/// Vorbis comment in the stream's stored metadata; the first value, if
/// the stream carries one.
#[verifier::external_body]
fn flac_tag(stream: &FlacStream, name: &str) -> (tag: Option<String>)
    ensures
        tag is Some <==> flac_tag_spec(stream_bytes(*stream), name@) is Some,
        tag matches Some(t) ==> flac_tag_spec(stream_bytes(*stream), name@) == Some(t@),
{
    stream.reader.get_tag(name).next().map(|s| s.to_string())
}

/// The samples the outside decoder yields for the bytes; empty where
/// decoding fails.
pub open spec fn samples_of(bytes: Seq<u8>) -> Seq<i32> {
    match flac_samples_spec(bytes) {
        Ok(samples) => samples,
        Err(_) => Seq::empty(),
    }
}

/// Relies on claxon::FlacReader::samples: decodes the whole stream into
/// channel-interleaved samples, sign-extended to `i32`. Reading audio
/// consumes the stream, so this wrapper takes it; every stream value is
/// in the freshly opened state (metadata reads do not consume), which
/// makes the result a function of the bytes alone. No bound is promised
/// of the values; the verified caller normalizes and clamps every one.
#[verifier::external_body]
fn flac_all_samples(stream: FlacStream) -> (out: Result<Vec<i32>, DecodeError>)
    ensures
        out is Ok <==> flac_samples_spec(stream_bytes(stream)) is Ok,
        out matches Ok(v) ==> v@ == samples_of(stream_bytes(stream)),
        out matches Err(e) ==> (flac_samples_spec(stream_bytes(stream)) matches Err(e2) && e2
            == e),
{
    let mut stream = stream;
    match stream.reader.samples().collect::<Result<Vec<i32>, claxon::Error>>() {
        Ok(samples) => Ok(samples),
        Err(claxon::Error::IoError(_)) => Err(DecodeError::Unreadable),
        Err(claxon::Error::FormatError(_)) => Err(DecodeError::CorruptStream),
        Err(claxon::Error::Unsupported(_)) => Err(DecodeError::UnsupportedFormat),
    }
}

/// Pair interleaved stereo samples into frames and normalize each channel
/// value for the given bit depth. A trailing unpaired sample is dropped.
pub fn build_track(
    samples: &Vec<i32>,
    sample_rate: u32,
    bits_per_sample: u32,
    title: String,
    artist: String,
) -> (r: Result<Track, DecodeError>)
    requires
        1 <= sample_rate,
        1 <= bits_per_sample <= 32,
    ensures
        samples@.len() / 2 <= MAX_FRAME_COUNT <==> r is Ok,
        r matches Ok(t) ==> {
            &&& t.wf()
            &&& t.sample_rate == sample_rate
            &&& t.title == title
            &&& t.artist == artist
            &&& t.frame_count == samples@.len() / 2
            &&& forall|i: int|
                0 <= i < t.frames@.len() ==> (#[trigger] t.frames@[i]) == (Frame {
                    left: norm_bits(samples@[2 * i] as int, bits_per_sample as nat) as i32,
                    right: norm_bits(samples@[2 * i + 1] as int, bits_per_sample as nat) as i32,
                })
        },
        r matches Err(e) ==> e == DecodeError::UnsupportedFormat,
{
    let slen: usize = samples.len();
    let n_frames: usize = slen / 2;
    if (n_frames as u64) > MAX_FRAME_COUNT {
        return Err(DecodeError::UnsupportedFormat);
    }
    proof {
        vstd::arithmetic::div_mod::lemma_fundamental_div_mod(samples@.len() as int, 2);
        vstd::arithmetic::div_mod::lemma_mod_bound(samples@.len() as int, 2);
    }
    let mut frames: Vec<Frame> = Vec::new();
    let mut i: usize = 0;
    while i < n_frames
        invariant
            1 <= bits_per_sample <= 32,
            slen == samples@.len(),
            n_frames == samples@.len() / 2,
            2 * n_frames <= slen,
            i <= n_frames,
            frames@.len() == i,
            forall|j: int|
                0 <= j < i ==> (#[trigger] frames@[j]) == (Frame {
                    left: norm_bits(samples@[2 * j] as int, bits_per_sample as nat) as i32,
                    right: norm_bits(samples@[2 * j + 1] as int, bits_per_sample as nat) as i32,
                }),
            forall|j: int| 0 <= j < i ==> (#[trigger] frames@[j]).wf(),
        decreases n_frames - i,
    {
        let left = norm_sample_bits(samples[2 * i], bits_per_sample);
        let right = norm_sample_bits(samples[2 * i + 1], bits_per_sample);
        frames.push(Frame { left, right });
        i = i + 1;
    }
    Ok(
        Track {
            frames,
            sample_rate,
            frame_count: n_frames as u64,
            title,
            artist,
        },
    )
}

/// The bytes decode to a playable track: the stream parses, is stereo,
/// declares its total frame count, decodes in full, and fits the size
/// bound.
pub open spec fn decode_ok_spec(bytes: Seq<u8>) -> bool {
    &&& flac_open_spec(bytes) is None
    &&& flac_streaminfo_spec(bytes).1 == 2
    &&& flac_streaminfo_spec(bytes).3 is Some
    &&& flac_samples_spec(bytes) is Ok
    &&& samples_of(bytes).len() / 2 <= MAX_FRAME_COUNT
}

/// The error a failing decode returns, in the order the faults are
/// discovered: the parse error first, then not-stereo, then a missing
/// frame count, then the decode error, and last the size bound.
pub open spec fn decode_err_spec(bytes: Seq<u8>) -> DecodeError {
    match flac_open_spec(bytes) {
        Some(e) => e,
        None => {
            if flac_streaminfo_spec(bytes).1 != 2 {
                DecodeError::NoUsableAudio
            } else if flac_streaminfo_spec(bytes).3 is None {
                DecodeError::MissingMetadata
            } else {
                match flac_samples_spec(bytes) {
                    Err(e) => e,
                    Ok(_) => DecodeError::UnsupportedFormat,
                }
            }
        },
    }
}

/// The named tag's value in the bytes, or the placeholder when the
/// stream carries none.
pub open spec fn tag_or_default(bytes: Seq<u8>, name: Seq<char>, default: Seq<char>) -> Seq<char> {
    match flac_tag_spec(bytes, name) {
        Some(value) => value,
        None => default,
    }
}

/// Decode the bytes of a FLAC file into a normalized stereo track: the
/// same bytes always yield the same track. Succeeds exactly when the
/// bytes parse as stereo FLAC with a declared frame count and decode in
/// full; the frames are then the normalized interleaved samples at the
/// stream's bit depth, and the title and artist are the stream's tags,
/// falling back to placeholder strings. Fails — fatally for the request,
/// not for the player — with the error `decode_err_spec` gives.
pub fn decode_flac_track(bytes: Vec<u8>) -> (r: Result<Track, DecodeError>)
    ensures
        r is Ok <==> decode_ok_spec(bytes@),
        r matches Ok(t) ==> {
            &&& t.wf()
            &&& t.sample_rate == flac_streaminfo_spec(bytes@).0
            &&& t.frame_count == samples_of(bytes@).len() / 2
            &&& forall|i: int|
                0 <= i < t.frames@.len() ==> (#[trigger] t.frames@[i]) == (Frame {
                    left: norm_bits(
                        samples_of(bytes@)[2 * i] as int,
                        flac_streaminfo_spec(bytes@).2 as nat,
                    ) as i32,
                    right: norm_bits(
                        samples_of(bytes@)[2 * i + 1] as int,
                        flac_streaminfo_spec(bytes@).2 as nat,
                    ) as i32,
                })
            &&& t.title@ == tag_or_default(bytes@, "title"@, "EH"@)
            &&& t.artist@ == tag_or_default(bytes@, "artist"@, "AH"@)
        },
        r matches Err(e) ==> e == decode_err_spec(bytes@),
{
    let ghost byte_view = bytes@;
    let stream = match flac_open(bytes) {
        Ok(stream) => stream,
        Err(e) => { return Err(e); },
    };
    let (sample_rate, channels, bits_per_sample, total_frames) = flac_streaminfo(&stream);
    if channels != 2 {
        return Err(DecodeError::NoUsableAudio);
    }
    if total_frames.is_none() {
        return Err(DecodeError::MissingMetadata);
    }
    let title = match flac_tag(&stream, "title") {
        Some(tag) => tag,
        None => String::from_str("EH"),
    };
    let artist = match flac_tag(&stream, "artist") {
        Some(tag) => tag,
        None => String::from_str("AH"),
    };
    let samples = match flac_all_samples(stream) {
        Ok(samples) => samples,
        Err(e) => { return Err(e); },
    };
    match build_track(&samples, sample_rate, bits_per_sample, title, artist) {
        Ok(track) => Ok(track),
        Err(_) => Err(DecodeError::UnsupportedFormat),
    }
}

} // verus!
