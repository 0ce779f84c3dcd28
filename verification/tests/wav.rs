use scribe::wav::encode_wav;

#[test]
fn wav_header_and_samples_are_little_endian_pcm() {
    let bytes = encode_wav(&[1, -1, 256], 16_000).expect("encode");
    assert_eq!(bytes.len(), 44 + 6);
    assert_eq!(&bytes[0..4], b"RIFF");
    assert_eq!(&bytes[4..8], &(36u32 + 6).to_le_bytes());
    assert_eq!(&bytes[8..16], b"WAVEfmt ");
    assert_eq!(&bytes[16..20], &16u32.to_le_bytes());
    assert_eq!(&bytes[20..22], &1u16.to_le_bytes());
    assert_eq!(&bytes[22..24], &1u16.to_le_bytes());
    assert_eq!(&bytes[24..28], &16_000u32.to_le_bytes());
    assert_eq!(&bytes[28..32], &32_000u32.to_le_bytes());
    assert_eq!(&bytes[32..34], &2u16.to_le_bytes());
    assert_eq!(&bytes[34..36], &16u16.to_le_bytes());
    assert_eq!(&bytes[36..40], b"data");
    assert_eq!(&bytes[40..44], &6u32.to_le_bytes());
    assert_eq!(&bytes[44..], &[0x01, 0x00, 0xff, 0xff, 0x00, 0x01]);
}

#[test]
fn empty_segment_is_a_bare_header() {
    let bytes = encode_wav(&[], 8_000).expect("encode");
    assert_eq!(bytes.len(), 44);
    assert_eq!(&bytes[40..44], &0u32.to_le_bytes());
}
