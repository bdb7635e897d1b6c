use ndclient::audio::{is_writable_format, silence_samples, wav_duration_ns};
use ndclient::{compose_audio, decode_wav, encode_wav, measure_wav, DirectorError, WavFormat};

fn mono(rate: u32) -> WavFormat {
    WavFormat { sample_rate: rate, channels: 1, bits_per_sample: 16 }
}

fn wav(format: WavFormat, samples: &[i32]) -> Vec<u8> {
    encode_wav(format, &samples.to_vec()).unwrap()
}

#[test]
fn encoded_wav_decodes_back() {
    let bytes = wav(mono(8000), &[1, -2, 3, 32767, -32768]);
    assert!(bytes.len() > 5);
    let clip = decode_wav(&bytes).unwrap();
    assert_eq!(clip.format, mono(8000));
    assert_eq!(clip.frames, 5);
    assert_eq!(clip.samples, vec![1i16, -2, 3, 32767, -32768]);
}

#[test]
fn garbage_does_not_decode() {
    assert!(decode_wav(&vec![1u8, 2, 3, 4]).is_none());
    assert_eq!(measure_wav(&vec![0u8; 16]), None);
}

#[test]
fn durations_in_nanoseconds() {
    assert_eq!(wav_duration_ns(22050, 22050), 1_000_000_000);
    assert_eq!(wav_duration_ns(1, 3), 333_333_333);
    assert_eq!(wav_duration_ns(0, 8000), 0);
    assert_eq!(wav_duration_ns(u32::MAX, 1), 4_294_967_295_000_000_000);
    let bytes = wav(mono(1000), &[0; 250]);
    assert_eq!(measure_wav(&bytes), Some(250_000_000));
}

#[test]
fn silence_is_three_tenths_of_a_second() {
    assert_eq!(silence_samples(mono(22050)), 6615);
    assert_eq!(silence_samples(WavFormat { sample_rate: 22050, channels: 2, bits_per_sample: 16 }), 13230);
    assert_eq!(silence_samples(mono(44100)), 13230);
    assert_eq!(silence_samples(mono(11)), 3);
}

#[test]
fn composed_track_has_every_clip_and_a_gap_after_each() {
    let f = mono(1000);
    let a: Vec<i32> = (1..=100).collect();
    let b: Vec<i32> = (-50..0).collect();
    let track = compose_audio(&vec![wav(f, &a), wav(f, &b)]).unwrap();
    let clip = decode_wav(&track).unwrap();
    assert_eq!(clip.format, f);
    // 100 + 50 samples, and two gaps of 300
    assert_eq!(clip.samples.len(), 100 + 50 + 2 * 300);
    let mut expected: Vec<i16> = a.iter().map(|s| *s as i16).collect();
    expected.extend(vec![0i16; 300]);
    expected.extend(b.iter().map(|s| *s as i16));
    expected.extend(vec![0i16; 300]);
    assert_eq!(clip.samples, expected);
    assert_eq!(measure_wav(&track), Some(750_000_000));
}

#[test]
fn single_clip_keeps_trailing_silence() {
    let f = WavFormat { sample_rate: 10, channels: 2, bits_per_sample: 16 };
    let track = compose_audio(&vec![wav(f, &[5, 6, 7, 8])]).unwrap();
    let clip = decode_wav(&track).unwrap();
    assert_eq!(clip.samples, vec![5i16, 6, 7, 8, 0, 0, 0, 0, 0, 0]);
    assert_eq!(clip.frames, 5);
}

#[test]
fn composing_no_clip_is_its_own_error() {
    let r = compose_audio(&vec![]);
    assert!(matches!(r, Err(DirectorError::NoNarrationClips)));
}

#[test]
fn composing_a_broken_clip_is_a_narration_error() {
    let good = wav(mono(1000), &[1, 2, 3]);
    assert!(matches!(compose_audio(&vec![vec![9u8; 10]]), Err(DirectorError::TTS(_))));
    assert!(matches!(compose_audio(&vec![good, vec![9u8; 10]]), Err(DirectorError::TTS(_))));
}

fn header_with_rate(rate: u32) -> Vec<u8> {
    let mut b = Vec::new();
    b.extend_from_slice(b"RIFF");
    b.extend_from_slice(&40u32.to_le_bytes());
    b.extend_from_slice(b"WAVEfmt ");
    b.extend_from_slice(&16u32.to_le_bytes());
    b.extend_from_slice(&1u16.to_le_bytes());
    b.extend_from_slice(&1u16.to_le_bytes());
    b.extend_from_slice(&rate.to_le_bytes());
    b.extend_from_slice(&(rate * 2).to_le_bytes());
    b.extend_from_slice(&2u16.to_le_bytes());
    b.extend_from_slice(&16u16.to_le_bytes());
    b.extend_from_slice(b"data");
    b.extend_from_slice(&4u32.to_le_bytes());
    b.extend_from_slice(&[1, 0, 2, 0]);
    b
}

#[test]
fn hand_written_header_decodes() {
    let clip = decode_wav(&header_with_rate(8000)).unwrap();
    assert_eq!(clip.format, mono(8000));
    assert_eq!(clip.frames, 2);
    assert_eq!(clip.samples, vec![1i16, 2]);
}

#[test]
fn zero_rate_clip_is_a_narration_error() {
    let bytes = header_with_rate(0);
    let clip = decode_wav(&bytes).unwrap();
    assert_eq!(clip.format.sample_rate, 0);
    assert_eq!(measure_wav(&bytes), None);
    assert!(matches!(compose_audio(&vec![bytes]), Err(DirectorError::TTS(_))));
}

#[test]
fn writable_formats() {
    assert!(is_writable_format(mono(22050)));
    assert!(is_writable_format(WavFormat { sample_rate: 48000, channels: 8, bits_per_sample: 24 }));
    assert!(!is_writable_format(mono(0)));
    assert!(!is_writable_format(WavFormat { sample_rate: 8000, channels: 0, bits_per_sample: 16 }));
    assert!(!is_writable_format(WavFormat { sample_rate: 8000, channels: 1, bits_per_sample: 12 }));
    assert!(!is_writable_format(WavFormat { sample_rate: u32::MAX, channels: 2, bits_per_sample: 16 }));
}
