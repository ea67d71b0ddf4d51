//! Encoding a finished utterance as a WAVE file image: mono, 16-bit signed
//! PCM, at the configured sample rate.

use vstd::prelude::*;

verus! {

/// Largest sample rate whose byte rate (two bytes per sample) still fits the
/// 32-bit field of the WAVE header.
pub const MAX_SAMPLE_RATE: u32 = 0x7FFF_FFFF;

/// Most samples whose bytes, with the 36 bytes of header that are counted in
/// the file size, still fit the 32-bit size fields of the WAVE header.
pub const MAX_SAMPLES: usize = 2_147_483_629;

/// Channels of the image: mono.
pub const CHANNELS: u16 = 1;

/// Bits of one sample in the image.
pub const BITS_PER_SAMPLE: u16 = 16;

/// Bytes of the image before the first sample.
pub const HEADER_LEN: usize = 44;

/// Why an utterance could not be encoded.
#[derive(Debug, Clone, Copy, PartialEq, Eq, Structural)]
pub enum WavError {
    /// The sample rate is zero or above `MAX_SAMPLE_RATE`.
    UnsupportedRate,
    /// The utterance has more than `MAX_SAMPLES` samples.
    TooLong,
    /// The encoder reported a failure.
    Encoder,
}

#[verifier::external_type_specification]
#[verifier::external_body]
pub struct ExHoundError(hound::Error);

/// The bytes of the WAVE file that holds `samples`, interleaved over
/// `channels` channels, as integer PCM of `bits_per_sample` bits at
/// `sample_rate`, as the `hound` crate writes it.
pub uninterp spec fn wav_bytes(
    samples: Seq<i16>,
    channels: u16,
    bits_per_sample: u16,
    sample_rate: u32,
) -> Seq<u8>;

/// The image of an utterance: one channel of 16-bit samples.
pub open spec fn utterance_image(samples: Seq<i16>, sample_rate: u32) -> Seq<u8> {
    wav_bytes(samples, CHANNELS, BITS_PER_SAMPLE, sample_rate)
}

/// Whether a sample rate can be written to a WAVE header.
pub open spec fn rate_supported(sample_rate: u32) -> bool {
    0 < sample_rate <= MAX_SAMPLE_RATE
}

/// The error that `save_wav` gives without running the encoder, if any:
/// the rate is looked at before the length.
pub open spec fn refusal(samples: Seq<i16>, sample_rate: u32) -> Option<WavError> {
    if !rate_supported(sample_rate) {
        Some(WavError::UnsupportedRate)
    } else if samples.len() > MAX_SAMPLES {
        Some(WavError::TooLong)
    } else {
        None
    }
}

/// Runs `hound::WavWriter` over an in-memory cursor: `WavWriter::new` with
/// an integer `WavSpec` of the given channels, bits and rate, `write_sample`
/// for each sample in order, then `finalize`.
///
/// The contract claims, for one channel of 16 bits:
/// - the bytes written depend on the arguments alone, and are named
///   `wav_bytes`;
/// - the call succeeds: the writer fails only on a bit depth it does not
///   know, on a sample too wide for the depth, on a frame left unfinished
///   (none with one channel) or when the cursor refuses a write or a seek,
///   which a cursor over a vector does not;
/// - the image is the 44 bytes of the header and two bytes for each sample.
///
/// The writer divides by the sample rate and multiplies it by the bytes of
/// a frame, so a rate of zero or above `MAX_SAMPLE_RATE` is kept out; it
/// counts the bytes it wrote in 32 bits, so more than `MAX_SAMPLES` samples
/// are kept out. The writer borrows the cursor and gives it back only when
/// it is dropped, so the three calls cannot be told apart into three
/// functions.
#[verifier::external_body]
fn write_wav(samples: &[i16], channels: u16, bits_per_sample: u16, sample_rate: u32) -> (r: Result<
    Vec<u8>,
    hound::Error,
>)
    requires
        channels == CHANNELS,
        bits_per_sample == BITS_PER_SAMPLE,
        rate_supported(sample_rate),
        samples@.len() <= MAX_SAMPLES,
    ensures
        r is Ok,
        r matches Ok(bytes) ==> bytes@ == wav_bytes(
            samples@,
            channels,
            bits_per_sample,
            sample_rate,
        ),
        r matches Ok(bytes) ==> bytes@.len() == HEADER_LEN + 2 * samples@.len(),
{
    let spec = hound::WavSpec {
        channels,
        sample_rate,
        bits_per_sample,
        sample_format: hound::SampleFormat::Int,
    };
    let mut cursor = std::io::Cursor::new(Vec::new());
    let mut writer = hound::WavWriter::new(&mut cursor, spec)?;
    for sample in samples {
        writer.write_sample(*sample)?;
    }
    writer.finalize()?;
    Ok(cursor.into_inner())
}

/// Turns what the encoder gave back into the library's own result: its
/// bytes as they are, any failure as `WavError::Encoder`.
pub fn wav_outcome(written: Result<Vec<u8>, hound::Error>) -> (r: Result<Vec<u8>, WavError>)
    ensures
        match written {
            Ok(bytes) => r == Ok::<Vec<u8>, WavError>(bytes),
            Err(_) => r == Err::<Vec<u8>, WavError>(WavError::Encoder),
        },
{
    match written {
        Ok(bytes) => Ok(bytes),
        Err(_) => Err(WavError::Encoder),
    }
}

/// Encodes an utterance as the image of a WAVE file: mono, 16-bit signed
/// PCM at `sample_rate`.
///
/// Fails with `UnsupportedRate` exactly when the rate is zero or above
/// `MAX_SAMPLE_RATE`, and with `TooLong` exactly when the rate is supported
/// and there are more than `MAX_SAMPLES` samples. On every other input it
/// succeeds with the image, which is the header and two bytes per sample.
pub fn save_wav(samples: &[i16], sample_rate: u32) -> (r: Result<Vec<u8>, WavError>)
    ensures
        match refusal(samples@, sample_rate) {
            Some(refused) => r == Err::<Vec<u8>, WavError>(refused),
            None => r matches Ok(bytes) && bytes@ == utterance_image(samples@, sample_rate)
                && bytes@.len() == HEADER_LEN + 2 * samples@.len(),
        },
{
    if sample_rate == 0 || sample_rate > MAX_SAMPLE_RATE {
        return Err(WavError::UnsupportedRate);
    }
    if samples.len() > MAX_SAMPLES {
        return Err(WavError::TooLong);
    }
    wav_outcome(write_wav(samples, CHANNELS, BITS_PER_SAMPLE, sample_rate))
}

} // verus!
