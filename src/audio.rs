//! Waveform handling: decoding clips, measuring them, and composing several
//! narration clips into one track with a silence gap after each clip.
use vstd::prelude::*;

use crate::model::DirectorError;

verus! {

/// Nanoseconds in one second.
pub const NANOS_PER_SEC: u64 = 1_000_000_000;

/// The largest number of samples a composed track may hold, so that the
/// size of a file of 32-bit samples, header included, stays within a `u32`.
pub const MAX_TRACK_SAMPLES: usize = 0x3fff_0000;

/// The shared layout of a waveform: rate, channel count and sample width.
#[derive(Clone, Copy, Debug, PartialEq, Eq, Structural)]
pub struct WavFormat {
    pub sample_rate: u32,
    pub channels: u16,
    pub bits_per_sample: u16,
}

/// A decoded waveform: its format, its length in frames (samples per
/// channel) and its interleaved samples.
#[derive(Debug)]
pub struct WavClip {
    pub format: WavFormat,
    pub frames: u32,
    pub samples: Vec<i16>,
}

/// hound's reading of a WAVE byte stream as (sample rate, channels, bits per
/// sample, frames, 16-bit samples), or `None` where hound rejects the stream.
pub uninterp spec fn wav_decoded(b: Seq<u8>) -> Option<(u32, u16, u16, u32, Seq<i16>)>;

/// hound's WAVE encoding of integer samples in the given layout, or `None`
/// where hound refuses it.
pub uninterp spec fn wav_encoded(rate: u32, channels: u16, bits: u16, samples: Seq<i32>) -> Option<Seq<u8>>;

pub open spec fn clip_view(c: WavClip) -> (u32, u16, u16, u32, Seq<i16>) {
    (c.format.sample_rate, c.format.channels, c.format.bits_per_sample, c.frames, c.samples@)
}

pub open spec fn opt_clip_view(r: Option<WavClip>) -> Option<(u32, u16, u16, u32, Seq<i16>)> {
    match r {
        Some(c) => Some(clip_view(c)),
        None => None,
    }
}

pub open spec fn opt_bytes_view(r: Option<Vec<u8>>) -> Option<Seq<u8>> {
    match r {
        Some(v) => Some(v@),
        None => None,
    }
}

pub open spec fn format_of(d: (u32, u16, u16, u32, Seq<i16>)) -> WavFormat {
    WavFormat { sample_rate: d.0, channels: d.1, bits_per_sample: d.2 }
}

pub open spec fn encoded_in(f: WavFormat, samples: Seq<i32>) -> Option<Seq<u8>> {
    wav_encoded(f.sample_rate, f.channels, f.bits_per_sample, samples)
}

/// Relies on hound's `WavReader::new`, `spec`, `duration` and `samples::<i16>`
/// over an in-memory stream: the result depends on the bytes alone. hound
/// refuses a stream that declares zero channels or whose sample count is not
/// a multiple of the channel count; it reports the frame count as that
/// sample count over the channel count, and yields exactly that many samples.
#[verifier::external_body]
fn read_wav(bytes: &Vec<u8>) -> (r: Option<WavClip>)
    ensures
        opt_clip_view(r) == wav_decoded(bytes@),
        r is Some ==> r->Some_0.format.channels > 0,
        r is Some ==> r->Some_0.samples@.len() == r->Some_0.frames as nat * (
        r->Some_0.format.channels as nat),
{
    let mut reader = hound::WavReader::new(std::io::Cursor::new(bytes.as_slice())).ok()?;
    let spec = reader.spec();
    let frames = reader.duration();
    let samples = reader.samples::<i16>().collect::<Result<Vec<i16>, hound::Error>>().ok()?;
    let format = WavFormat {
        sample_rate: spec.sample_rate,
        channels: spec.channels,
        bits_per_sample: spec.bits_per_sample,
    };
    Some(WavClip { format, frames, samples })
}

/// Bytes per sample for a sample width in bits.
pub open spec fn bytes_per_sample(bits: u16) -> nat {
    (bits as nat + 7) / 8
}

/// A format hound writes without failing a check of its own: a non-zero
/// rate and channel count, a supported sample width, and a byte rate that
/// fits in a `u32`.
pub open spec fn writable_format(f: WavFormat) -> bool {
    &&& f.sample_rate > 0
    &&& f.channels > 0
    &&& (f.bits_per_sample == 8 || f.bits_per_sample == 16 || f.bits_per_sample == 24
        || f.bits_per_sample == 32)
    &&& f.sample_rate as nat * bytes_per_sample(f.bits_per_sample) * (f.channels as nat)
        <= 0xffff_ffff
}

/// Whether hound can write waveforms in format `f`.
pub fn is_writable_format(f: WavFormat) -> (r: bool)
    ensures
        r == writable_format(f),
{
    if f.sample_rate == 0 || f.channels == 0 {
        return false;
    }
    if f.bits_per_sample != 8 && f.bits_per_sample != 16 && f.bits_per_sample != 24
        && f.bits_per_sample != 32 {
        return false;
    }
    let bytes: u64 = (f.bits_per_sample as u64 + 7) / 8;
    assert(bytes <= 4);
    assert(f.sample_rate as u64 * bytes <= 0xffff_ffffu64 * 4) by (nonlinear_arith)
        requires
            bytes <= 4,
            f.sample_rate <= 0xffff_ffffu32,
    ;
    let per_frame: u64 = f.sample_rate as u64 * bytes;
    assert(per_frame * (f.channels as u64) <= 0xffff_ffffu64 * 4u64 * 0xffffu64)
        by (nonlinear_arith)
        requires
            per_frame <= 0xffff_ffffu64 * 4,
            f.channels <= 0xffffu16,
    ;
    per_frame * f.channels as u64 <= 0xffff_ffffu64
}

/// Relies on hound's `WavWriter::new`, `write_sample` and `finalize` over an
/// in-memory stream, with integer samples: the result depends on the
/// arguments alone. hound panics where the format is not writable: it
/// computes the byte rate in `u32` and divides it by the sample rate, adds 7
/// to the sample width in `u16`, and divides by the channel count when it
/// finishes. The bound on the length keeps its `u32` sizes from overflowing.
#[verifier::external_body]
fn write_wav(format: WavFormat, samples: &Vec<i32>) -> (r: Option<Vec<u8>>)
    requires
        samples@.len() <= MAX_TRACK_SAMPLES,
        writable_format(format),
    ensures
        opt_bytes_view(r) == wav_encoded(
            format.sample_rate,
            format.channels,
            format.bits_per_sample,
            samples@,
        ),
{
    let spec = hound::WavSpec {
        channels: format.channels,
        sample_rate: format.sample_rate,
        bits_per_sample: format.bits_per_sample,
        sample_format: hound::SampleFormat::Int,
    };
    let mut cursor = std::io::Cursor::new(Vec::new());
    let mut writer = hound::WavWriter::new(&mut cursor, spec).ok()?;
    for s in samples.iter() {
        writer.write_sample(*s).ok()?;
    }
    writer.finalize().ok()?;
    Some(cursor.into_inner())
}

/// Decodes a WAVE byte stream.
pub fn decode_wav(bytes: &Vec<u8>) -> (r: Option<WavClip>)
    ensures
        opt_clip_view(r) == wav_decoded(bytes@),
        r is Some ==> r->Some_0.format.channels > 0,
        r is Some ==> r->Some_0.samples@.len() == r->Some_0.frames as nat * (
        r->Some_0.format.channels as nat),
{
    read_wav(bytes)
}

/// Encodes integer samples as a WAVE byte stream in the given format.
pub fn encode_wav(format: WavFormat, samples: &Vec<i32>) -> (r: Option<Vec<u8>>)
    requires
        samples@.len() <= MAX_TRACK_SAMPLES,
        writable_format(format),
    ensures
        opt_bytes_view(r) == encoded_in(format, samples@),
{
    write_wav(format, samples)
}

/// How long `frames` frames last at `rate` frames per second, in whole
/// nanoseconds (rounded down).
pub open spec fn duration_ns_of(frames: nat, rate: nat) -> nat
    recommends
        rate > 0,
{
    (frames * (NANOS_PER_SEC as nat)) / rate
}

/// The duration of a waveform, from its frame count and sample rate.
pub fn wav_duration_ns(frames: u32, rate: u32) -> (r: u64)
    requires
        rate > 0,
    ensures
        r as nat == duration_ns_of(frames as nat, rate as nat),
{
    assert(frames as u64 * NANOS_PER_SEC <= 0xffff_ffff * 1_000_000_000u64) by (nonlinear_arith)
        requires
            frames <= 0xffff_ffffu32,
    ;
    (frames as u64 * NANOS_PER_SEC) / rate as u64
}

/// The duration of an encoded waveform, where it decodes and has a non-zero
/// sample rate.
pub open spec fn decoded_duration_ns(b: Seq<u8>) -> Option<nat> {
    match wav_decoded(b) {
        Some(d) => if d.0 > 0 {
            Some(duration_ns_of(d.3 as nat, d.0 as nat))
        } else {
            None
        },
        None => None,
    }
}

/// Measures an encoded waveform: its duration in nanoseconds, or `None`
/// where it does not decode or declares a zero sample rate.
pub fn measure_wav(bytes: &Vec<u8>) -> (r: Option<u64>)
    ensures
        match r {
            Some(d) => decoded_duration_ns(bytes@) == Some(d as nat),
            None => decoded_duration_ns(bytes@) is None,
        },
{
    match read_wav(bytes) {
        Some(clip) => {
            if clip.format.sample_rate == 0 {
                None
            } else {
                Some(wav_duration_ns(clip.frames, clip.format.sample_rate))
            }
        },
        None => None,
    }
}

/// Samples in the silence gap that follows each clip: three tenths of a
/// second of frames, times the channel count.
pub open spec fn silence_len(f: WavFormat) -> nat {
    ((f.sample_rate as nat * 3) / 10) * (f.channels as nat)
}

/// The number of samples in the silence gap of format `f`.
pub fn silence_samples(f: WavFormat) -> (r: u64)
    ensures
        r as nat == silence_len(f),
{
    let frames: u64 = (f.sample_rate as u64 * 3) / 10;
    assert(frames * (f.channels as u64) <= 0xffff_ffffu64 * 0xffffu64) by (nonlinear_arith)
        requires
            frames <= 0xffff_ffffu64,
            f.channels <= 0xffffu16,
    ;
    frames * f.channels as u64
}

pub open spec fn widen(s: Seq<i16>) -> Seq<i32> {
    Seq::new(s.len(), |i: int| s[i] as i32)
}

pub open spec fn zeros(n: nat) -> Seq<i32> {
    Seq::new(n, |i: int| 0i32)
}

/// The composed track: each clip's samples in order, each followed by `gap`
/// zero samples (the last one too).
pub open spec fn composed(clips: Seq<Seq<i16>>, gap: nat) -> Seq<i32>
    decreases clips.len(),
{
    if clips.len() == 0 {
        Seq::empty()
    } else {
        composed(clips.drop_last(), gap) + widen(clips.last()) + zeros(gap)
    }
}

/// The number of samples over all clips.
pub open spec fn total_len(clips: Seq<Seq<i16>>) -> nat
    decreases clips.len(),
{
    if clips.len() == 0 {
        0
    } else {
        total_len(clips.drop_last()) + clips.last().len()
    }
}

/// A composed track holds exactly the samples of all clips plus one silence
/// gap per clip, the trailing gap after the last clip included.
pub proof fn lemma_composed_len(clips: Seq<Seq<i16>>, gap: nat)
    ensures
        composed(clips, gap).len() == total_len(clips) + clips.len() * gap,
    decreases clips.len(),
{
    if clips.len() > 0 {
        lemma_composed_len(clips.drop_last(), gap);
        assert(clips.len() * gap == (clips.len() - 1) * gap + gap) by (nonlinear_arith);
    }
}

/// Composing a prefix of the clips never gives a longer track than composing
/// all of them.
proof fn lemma_composed_prefix_len(clips: Seq<Seq<i16>>, gap: nat, i: int)
    requires
        0 <= i <= clips.len(),
    ensures
        composed(clips.take(i), gap).len() <= composed(clips, gap).len(),
    decreases clips.len(),
{
    if i == clips.len() {
        assert(clips.take(i) =~= clips);
    } else {
        assert(clips.drop_last().take(i) =~= clips.take(i));
        lemma_composed_prefix_len(clips.drop_last(), gap, i);
    }
}

/// Every clip's bytes decode.
pub open spec fn all_decode(clips: Seq<Vec<u8>>) -> bool {
    forall|i: int| 0 <= i < clips.len() ==> (#[trigger] wav_decoded(clips[i]@)) is Some
}

/// The decoded samples of every clip, in order.
pub open spec fn clip_samples(clips: Seq<Vec<u8>>) -> Seq<Seq<i16>> {
    Seq::new(clips.len(), |i: int| wav_decoded(clips[i]@)->Some_0.4)
}

/// The format of the first clip, which the whole track shares.
pub open spec fn track_format(clips: Seq<Vec<u8>>) -> WavFormat {
    format_of(wav_decoded(clips[0]@)->Some_0)
}

/// The samples of the track composed from encoded clips.
pub open spec fn track_samples(clips: Seq<Vec<u8>>) -> Seq<i32> {
    composed(clip_samples(clips), silence_len(track_format(clips)))
}

/// Whether the clips can be composed: there is at least one, each decodes,
/// hound can write the first clip's format, the track fits, and hound
/// encodes it.
pub open spec fn composable(clips: Seq<Vec<u8>>) -> bool {
    &&& clips.len() > 0
    &&& all_decode(clips)
    &&& writable_format(track_format(clips))
    &&& track_samples(clips).len() <= MAX_TRACK_SAMPLES
    &&& encoded_in(track_format(clips), track_samples(clips)) is Some
}

/// The track composed from encoded clips holds each clip's decoded samples
/// and one silence gap, in the first clip's format, per clip.
pub proof fn lemma_track_len(clips: Seq<Vec<u8>>)
    requires
        clips.len() > 0,
        all_decode(clips),
    ensures
        track_samples(clips).len() == total_len(clip_samples(clips)) + clips.len() * silence_len(
            track_format(clips),
        ),
{
    lemma_composed_len(clip_samples(clips), silence_len(track_format(clips)));
}

fn append_widened(out: &mut Vec<i32>, s: &Vec<i16>)
    ensures
        final(out)@ == old(out)@ + widen(s@),
{
    let ghost base = out@;
    let mut k: usize = 0;
    while k < s.len()
        invariant
            k <= s@.len(),
            out@ == base + widen(s@.take(k as int)),
        decreases s@.len() - k,
    {
        out.push(s[k] as i32);
        k = k + 1;
        assert(widen(s@.take(k as int)) =~= widen(s@.take(k - 1)).push(s@[k - 1] as i32));
    }
    assert(s@.take(s@.len() as int) =~= s@);
}

fn append_silence(out: &mut Vec<i32>, n: usize)
    ensures
        final(out)@ == old(out)@ + zeros(n as nat),
{
    let ghost base = out@;
    let mut k: usize = 0;
    while k < n
        invariant
            k <= n,
            out@ == base + zeros(k as nat),
        decreases n - k,
    {
        out.push(0i32);
        k = k + 1;
        assert(zeros(k as nat) =~= zeros((k - 1) as nat).push(0i32));
    }
}

/// Concatenates encoded narration clips into one encoded track: the first
/// clip fixes the format, each clip's samples follow in order, and each is
/// followed by three tenths of a second of silence. An empty clip list is
/// refused with `NoNarrationClips`; a clip that does not decode, a format
/// hound cannot write, a track too long to encode, or an encoding failure
/// gives a `TTS` error.
pub fn compose_audio(clips: &Vec<Vec<u8>>) -> (r: Result<Vec<u8>, DirectorError>)
    ensures
        clips@.len() == 0 <==> r == Err::<Vec<u8>, DirectorError>(DirectorError::NoNarrationClips),
        r is Ok <==> composable(clips@),
        r is Ok ==> Some(r->Ok_0@) == encoded_in(track_format(clips@), track_samples(clips@)),
        r is Err && clips@.len() > 0 ==> r->Err_0 is TTS,
{
    if clips.len() == 0 {
        return Err(DirectorError::NoNarrationClips);
    }
    let format = match read_wav(&clips[0]) {
        Some(first) => first.format,
        None => {
            return Err(DirectorError::TTS(String::from_str("the first clip is not a waveform")));
        },
    };
    if !is_writable_format(format) {
        return Err(DirectorError::TTS(String::from_str("the clips' format cannot be written")));
    }
    let gap64 = silence_samples(format);
    if gap64 > MAX_TRACK_SAMPLES as u64 {
        proof {
            let all = clip_samples(clips@);
            lemma_composed_len(all, gap64 as nat);
            assert(all.len() * gap64 >= gap64) by (nonlinear_arith)
                requires
                    all.len() >= 1,
            ;
        }
        return Err(DirectorError::TTS(String::from_str("the composed track is too long")));
    }
    let gap = gap64 as usize;
    let ghost all = clip_samples(clips@);
    let mut out: Vec<i32> = Vec::new();
    let mut i: usize = 0;
    while i < clips.len()
        invariant
            i <= clips@.len(),
            clips@.len() > 0,
            wav_decoded(clips@[0]@) is Some,
            format == track_format(clips@),
            writable_format(format),
            gap as nat == silence_len(format),
            all == clip_samples(clips@),
            forall|j: int| 0 <= j < i ==> (#[trigger] wav_decoded(clips@[j]@)) is Some,
            out@ == composed(all.take(i as int), gap as nat),
            out@.len() <= MAX_TRACK_SAMPLES,
        decreases clips@.len() - i,
    {
        let clip = match read_wav(&clips[i]) {
            Some(c) => c,
            None => {
                return Err(DirectorError::TTS(String::from_str("a clip is not a waveform")));
            },
        };
        proof {
            assert(all.take(i + 1).drop_last() =~= all.take(i as int));
            assert(all.take(i + 1).last() == clip.samples@);
            lemma_composed_len(all.take(i as int), gap as nat);
            lemma_composed_len(all.take(i + 1), gap as nat);
        }
        if clip.samples.len() > MAX_TRACK_SAMPLES - out.len()
            || gap > MAX_TRACK_SAMPLES - out.len() - clip.samples.len() {
            proof {
                lemma_composed_prefix_len(all, gap as nat, i + 1);
            }
            return Err(DirectorError::TTS(String::from_str("the composed track is too long")));
        }
        append_widened(&mut out, &clip.samples);
        append_silence(&mut out, gap);
        i = i + 1;
    }
    assert(all.take(clips@.len() as int) =~= all);
    match write_wav(format, &out) {
        Some(bytes) => Ok(bytes),
        None => Err(DirectorError::TTS(String::from_str("the composed track cannot be encoded"))),
    }
}

} // verus!
