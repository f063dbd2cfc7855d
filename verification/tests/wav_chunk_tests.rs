use rms_recorder::services::groq::split_wav_chunks;
use std::io::Cursor;

fn decode(bytes: &[u8]) -> (hound::WavSpec, Vec<i16>) {
    let mut reader = hound::WavReader::new(Cursor::new(bytes.to_vec())).unwrap();
    let spec = reader.spec();
    let samples = reader.samples::<i16>().map(|s| s.unwrap()).collect();
    (spec, samples)
}

#[test]
fn chunks_hold_the_samples_in_order_with_the_rest_last() {
    let samples: Vec<i16> = (0..10).map(|i| i * 100 - 300).collect();
    let chunks = split_wav_chunks(1, 16_000, 16, &samples, 4).unwrap();
    assert_eq!(chunks.len(), 3);
    let parts: Vec<Vec<i16>> = chunks.iter().map(|c| decode(c).1).collect();
    assert_eq!(parts[0], samples[0..4].to_vec());
    assert_eq!(parts[1], samples[4..8].to_vec());
    assert_eq!(parts[2], samples[8..10].to_vec());
    let (spec, _) = decode(&chunks[0]);
    assert_eq!(spec.channels, 1);
    assert_eq!(spec.sample_rate, 16_000);
    assert_eq!(spec.bits_per_sample, 16);
    assert_eq!(&chunks[0][0..4], b"RIFF");
}

#[test]
fn an_exact_multiple_makes_no_empty_chunk() {
    let samples = vec![1i16; 8];
    assert_eq!(split_wav_chunks(2, 8_000, 16, &samples, 4).unwrap().len(), 2);
    assert_eq!(split_wav_chunks(2, 8_000, 16, &Vec::new(), 4).unwrap().len(), 0);
}

#[test]
fn unwritable_chunks_are_refused() {
    // An incomplete stereo frame in the last chunk.
    assert!(split_wav_chunks(2, 8_000, 16, &vec![0i16; 5], 4).is_err());
    // An 8-bit sample that does not fit.
    assert!(split_wav_chunks(1, 8_000, 8, &vec![0i16, 200], 4).is_err());
    assert!(split_wav_chunks(1, 8_000, 8, &vec![0i16, 100], 4).is_ok());
    // A width that is not written.
    assert!(split_wav_chunks(1, 8_000, 12, &vec![0i16; 4], 4).is_err());
}
