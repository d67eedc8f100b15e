use unicaptions::audio::{capture_source, encode_wav_pcm16, loopback_batch_len, CaptureSource};

#[test]
fn capture_source_selection() {
    assert!(capture_source("system") == CaptureSource::SystemLoopback);
    assert!(capture_source("microphone") == CaptureSource::Microphone);
    assert!(capture_source("") == CaptureSource::Microphone);
}

#[test]
fn loopback_batches_whole_frames() {
    assert_eq!(loopback_batch_len(8, 8), 8);
    assert_eq!(loopback_batch_len(20, 8), 16);
    assert_eq!(loopback_batch_len(8 * 600 + 3, 8), 8 * 512);
}

#[test]
fn wav_header_fields() {
    let wav = encode_wav_pcm16(&[0, 1, -1, i16::MAX, i16::MIN], 16_000);
    assert_eq!(wav.len(), 44 + 10);
    assert_eq!(&wav[0..4], b"RIFF");
    assert_eq!(u32::from_le_bytes([wav[4], wav[5], wav[6], wav[7]]), 36 + 10);
    assert_eq!(&wav[8..12], b"WAVE");
    assert_eq!(&wav[12..16], b"fmt ");
    assert_eq!(u32::from_le_bytes([wav[16], wav[17], wav[18], wav[19]]), 16);
    assert_eq!(u16::from_le_bytes([wav[20], wav[21]]), 1);
    assert_eq!(u16::from_le_bytes([wav[22], wav[23]]), 1);
    assert_eq!(u32::from_le_bytes([wav[24], wav[25], wav[26], wav[27]]), 16_000);
    assert_eq!(u32::from_le_bytes([wav[28], wav[29], wav[30], wav[31]]), 32_000);
    assert_eq!(u16::from_le_bytes([wav[32], wav[33]]), 2);
    assert_eq!(u16::from_le_bytes([wav[34], wav[35]]), 16);
    assert_eq!(&wav[36..40], b"data");
    assert_eq!(u32::from_le_bytes([wav[40], wav[41], wav[42], wav[43]]), 10);
}

#[test]
fn wav_samples_little_endian() {
    let samples: [i16; 5] = [0, 1, -1, i16::MAX, i16::MIN];
    let wav = encode_wav_pcm16(&samples, 48_000);
    let mut expected = Vec::new();
    for s in samples {
        expected.extend_from_slice(&s.to_le_bytes());
    }
    assert_eq!(&wav[44..], &expected[..]);
}

#[test]
fn wav_of_no_samples() {
    let wav = encode_wav_pcm16(&[], 8_000);
    assert_eq!(wav.len(), 44);
    assert_eq!(u32::from_le_bytes([wav[40], wav[41], wav[42], wav[43]]), 0);
    assert_eq!(u32::from_le_bytes([wav[4], wav[5], wav[6], wav[7]]), 36);
}
