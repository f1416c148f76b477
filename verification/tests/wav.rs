use audio_hook::wav::encode_wav_pcm16;

#[test]
fn wav_header_layout() {
    let samples: Vec<i16> = vec![0, 1, -1, 12345, -12345];
    let bytes = encode_wav_pcm16(&samples);
    assert_eq!(bytes.len(), 44 + 2 * samples.len());
    assert_eq!(&bytes[0..4], b"RIFF");
    // Chunk size: 36 plus the sample block.
    assert_eq!(&bytes[4..8], &(36u32 + 10).to_le_bytes());
    assert_eq!(&bytes[8..12], b"WAVE");
    assert_eq!(&bytes[12..16], b"fmt ");
    assert_eq!(&bytes[16..20], &16u32.to_le_bytes());
    assert_eq!(&bytes[20..22], &1u16.to_le_bytes()); // PCM
    assert_eq!(&bytes[22..24], &1u16.to_le_bytes()); // mono
    assert_eq!(&bytes[24..28], &48000u32.to_le_bytes());
    assert_eq!(&bytes[28..32], &96000u32.to_le_bytes());
    assert_eq!(&bytes[32..34], &2u16.to_le_bytes()); // block align
    assert_eq!(&bytes[34..36], &16u16.to_le_bytes()); // bits per sample
    assert_eq!(&bytes[36..40], b"data");
    assert_eq!(&bytes[40..44], &10u32.to_le_bytes());
}

#[test]
fn wav_samples_little_endian() {
    let samples: Vec<i16> = vec![0, 1, -1, 12345, -12345, i16::MIN, i16::MAX];
    let bytes = encode_wav_pcm16(&samples);
    for (i, s) in samples.iter().enumerate() {
        assert_eq!(&bytes[44 + 2 * i..46 + 2 * i], &s.to_le_bytes());
    }
}

#[test]
fn wav_empty_input_is_bare_header() {
    let samples: Vec<i16> = vec![];
    let bytes = encode_wav_pcm16(&samples);
    assert_eq!(bytes.len(), 44);
    assert_eq!(&bytes[4..8], &36u32.to_le_bytes());
    assert_eq!(&bytes[40..44], &0u32.to_le_bytes());
}
