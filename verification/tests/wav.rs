use thehand::wav::{save_wav, wav_outcome, WavError, MAX_SAMPLE_RATE};

#[test]
fn wav_image_holds_header_and_samples() {
    let bytes = save_wav(&[1, -2, 32767, -32768], 16000).unwrap();
    assert_eq!(bytes.len(), 44 + 8);
    assert_eq!(&bytes[0..4], b"RIFF");
    assert_eq!(&bytes[4..8], &44u32.to_le_bytes());
    assert_eq!(&bytes[8..16], b"WAVEfmt ");
    // PCM, one channel
    assert_eq!(&bytes[20..24], &[1, 0, 1, 0]);
    assert_eq!(&bytes[24..28], &16000u32.to_le_bytes());
    assert_eq!(&bytes[28..32], &32000u32.to_le_bytes());
    // block align 2, 16 bits per sample
    assert_eq!(&bytes[32..36], &[2, 0, 16, 0]);
    assert_eq!(&bytes[36..40], b"data");
    assert_eq!(&bytes[40..44], &8u32.to_le_bytes());
    assert_eq!(&bytes[44..], &[1, 0, 0xFE, 0xFF, 0xFF, 0x7F, 0x00, 0x80]);
}

#[test]
fn wav_image_reads_back() {
    let samples = vec![0i16, 100, -100, 12345, -12345];
    let bytes = save_wav(&samples, 44100).unwrap();
    let mut reader = hound::WavReader::new(std::io::Cursor::new(bytes)).unwrap();
    let spec = reader.spec();
    assert_eq!(spec.channels, 1);
    assert_eq!(spec.sample_rate, 44100);
    assert_eq!(spec.bits_per_sample, 16);
    let back: Vec<i16> = reader.samples::<i16>().map(|s| s.unwrap()).collect();
    assert_eq!(back, samples);
}

#[test]
fn wav_of_no_samples_is_a_bare_header() {
    assert_eq!(save_wav(&[], 8000).unwrap().len(), 44);
}

#[test]
fn unsupported_rates_are_refused() {
    assert_eq!(save_wav(&[1], 0), Err(WavError::UnsupportedRate));
    assert_eq!(save_wav(&[1], MAX_SAMPLE_RATE + 1), Err(WavError::UnsupportedRate));
    assert_eq!(save_wav(&[1], u32::MAX), Err(WavError::UnsupportedRate));
    assert!(save_wav(&[1], MAX_SAMPLE_RATE).is_ok());
    assert!(save_wav(&[1], 1).is_ok());
}

#[test]
fn encoder_failure_becomes_an_error() {
    assert_eq!(wav_outcome(Err(hound::Error::Unsupported)), Err(WavError::Encoder));
    assert_eq!(wav_outcome(Ok(vec![1, 2])), Ok(vec![1, 2]));
}

#[test]
fn wav_image_is_header_and_two_bytes_per_sample() {
    for n in [0usize, 1, 2, 17, 1000] {
        let samples = vec![-5i16; n];
        assert_eq!(save_wav(&samples, 16000).unwrap().len(), 44 + 2 * n);
    }
}
