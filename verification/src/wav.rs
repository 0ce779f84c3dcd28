//! In-memory WAV encoding of 16-bit mono PCM, the form in which a segment is
//! sent to transcription.  The bytes are written by `hound`.
use vstd::prelude::*;

verus! {

#[verifier::external_type_specification]
#[verifier::external_body]
pub struct ExHoundError(hound::Error);

/// `x` (below 2^16) as two little-endian bytes.
pub open spec fn le16(x: int) -> Seq<u8> {
    seq![(x % 256) as u8, ((x / 256) % 256) as u8]
}

/// `x` (below 2^32) as four little-endian bytes.
pub open spec fn le32(x: int) -> Seq<u8> {
    seq![
        (x % 256) as u8,
        ((x / 256) % 256) as u8,
        ((x / 65536) % 256) as u8,
        ((x / 16777216) % 256) as u8,
    ]
}

/// The samples as little-endian two's-complement 16-bit values.
pub open spec fn sample_bytes(samples: Seq<i16>) -> Seq<u8>
    decreases samples.len(),
{
    if samples.len() == 0 {
        Seq::empty()
    } else {
        sample_bytes(samples.drop_last()) + le16(
            if samples.last() < 0 {
                samples.last() + 65536
            } else {
                samples.last() as int
            },
        )
    }
}

/// The 44-byte RIFF header of a 16-bit mono PCM file with `n` samples at
/// `rate` samples per second: the `RIFF` chunk size, the `fmt ` chunk
/// (PCM, one channel, the rate, the byte rate, block align 2, 16 bits) and the
/// `data` chunk size.
pub open spec fn wav_header(rate: u32, n: nat) -> Seq<u8> {
    seq![0x52u8, 0x49, 0x46, 0x46] + le32((36 + 2 * n) as int) + seq![0x57u8, 0x41, 0x56, 0x45] + seq![
        0x66u8,
        0x6d,
        0x74,
        0x20,
    ] + le32(16) + le16(1) + le16(1) + le32(rate as int) + le32(2 * rate) + le16(2) + le16(16)
        + seq![0x64u8, 0x61, 0x74, 0x61] + le32((2 * n) as int)
}

/// A complete 16-bit mono PCM WAV file.
pub open spec fn pcm16_mono_wav(rate: u32, samples: Seq<i16>) -> Seq<u8> {
    wav_header(rate, samples.len()) + sample_bytes(samples)
}

/// The inputs `hound` can encode: a rate above zero whose byte rate fits in
/// 32 bits, and a data chunk whose size fits in the 32-bit RIFF size field.
pub open spec fn encodable(samples_len: nat, sample_rate: u32) -> bool {
    &&& 0 < sample_rate <= 0x7fff_ffff
    &&& 36 + 2 * samples_len <= u32::MAX
}

/// `hound::WavWriter` over an in-memory cursor, with the spec `{ channels: 1,
/// sample_rate, bits_per_sample: 16, sample_format: Int }`: `new`, one
/// `write_sample` per sample, `finalize`.  For at most two channels of at
/// most 16 bits `hound` writes the plain PCM header (not
/// WAVE_FORMAT_EXTENSIBLE), then each sample little-endian, and on
/// `finalize` patches the RIFF and data sizes.  (`hound` multiplies the
/// sample rate and adds sizes in 32 bits, hence the requirement.)  For 16-bit
/// samples `hound` reports an error only when its writer does, and the writer
/// here is an in-memory cursor, so encoding succeeds.
#[verifier::external_body]
fn hound_write_pcm16(samples: &[i16], sample_rate: u32) -> (r: Result<Vec<u8>, hound::Error>)
    requires
        encodable(samples@.len(), sample_rate),
    ensures
        r is Ok,
        r matches Ok(bytes) ==> bytes@ == pcm16_mono_wav(sample_rate, samples@),
{
    let spec = hound::WavSpec { channels: 1, sample_rate, bits_per_sample: 16, sample_format: hound::SampleFormat::Int };
    let mut cursor = std::io::Cursor::new(Vec::new());
    let mut writer = hound::WavWriter::new(&mut cursor, spec)?;
    for &s in samples {
        writer.write_sample(s)?;
    }
    writer.finalize()?;
    Ok(cursor.into_inner())
}

/// A failed WAV encoding, with the encoder's message.
#[derive(Debug, Clone)]
pub struct WavError {
    pub message: String,
}

/// Encode 16-bit PCM samples as a mono WAV file in memory; this always
/// succeeds on the inputs it accepts.
pub fn encode_wav(samples: &[i16], sample_rate: u32) -> (r: Result<Vec<u8>, WavError>)
    requires
        encodable(samples@.len(), sample_rate),
    ensures
        r is Ok,
        r matches Ok(bytes) ==> bytes@ == pcm16_mono_wav(sample_rate, samples@),
{
    match hound_write_pcm16(samples, sample_rate) {
        Ok(bytes) => Ok(bytes),
        Err(e) => Err(WavError { message: e.to_string() }),
    }
}

} // verus!
