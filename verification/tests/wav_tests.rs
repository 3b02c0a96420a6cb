use audioscribe::wav::{decode_wav, encode_wav};

fn bits(samples: &[f32]) -> Vec<u32> {
    samples.iter().map(|s| s.to_bits()).collect()
}

#[test]
fn round_trip_samples() {
    let samples = bits(&[0.0f32, 0.5, -0.5, 1.0, -1.0, 0.25, 3.125e-2, -7.75]);
    let encoded = encode_wav(&samples, 44100, 1);
    let decoded = decode_wav(&encoded).expect("own container must decode");
    assert_eq!(decoded.samples, samples);
    assert_eq!(decoded.sample_rate, 44100);
    assert_eq!(decoded.channels, 1);
}

#[test]
fn round_trip_empty_buffer() {
    let samples: Vec<u32> = Vec::new();
    let encoded = encode_wav(&samples, 44100, 1);
    assert_eq!(encoded.len(), 68);
    let decoded = decode_wav(&encoded).expect("empty container must decode");
    assert!(decoded.samples.is_empty());
}

#[test]
fn round_trip_stereo() {
    let samples = bits(&[0.1f32, -0.1, 0.2, -0.2]);
    let encoded = encode_wav(&samples, 48000, 2);
    let decoded = decode_wav(&encoded).expect("stereo container must decode");
    assert_eq!(decoded.samples, samples);
    assert_eq!(decoded.sample_rate, 48000);
    assert_eq!(decoded.channels, 2);
}

#[test]
fn header_layout_exact() {
    let samples = bits(&[1.0f32]);
    let b = encode_wav(&samples, 44100, 1);
    assert_eq!(b.len(), 72);
    assert_eq!(&b[0..4], b"RIFF");
    // file size: 4 bytes of data + 60
    assert_eq!(&b[4..8], &64u32.to_le_bytes());
    assert_eq!(&b[8..12], b"WAVE");
    assert_eq!(&b[12..16], b"fmt ");
    // fmt chunk length 40, extensible format tag
    assert_eq!(&b[16..20], &40u32.to_le_bytes());
    assert_eq!(&b[20..22], &0xFFFEu16.to_le_bytes());
    assert_eq!(&b[22..24], &1u16.to_le_bytes());
    assert_eq!(&b[24..28], &44100u32.to_le_bytes());
    // bytes per second, block align, container bits
    assert_eq!(&b[28..32], &(44100u32 * 4).to_le_bytes());
    assert_eq!(&b[32..34], &4u16.to_le_bytes());
    assert_eq!(&b[34..36], &32u16.to_le_bytes());
    // extension size, valid bits, channel mask
    assert_eq!(&b[36..38], &22u16.to_le_bytes());
    assert_eq!(&b[38..40], &32u16.to_le_bytes());
    assert_eq!(&b[40..44], &1u32.to_le_bytes());
    // IEEE-float subformat GUID
    assert_eq!(
        &b[44..60],
        &[0x03, 0x00, 0x00, 0x00, 0x00, 0x00, 0x10, 0x00, 0x80, 0x00, 0x00, 0xaa, 0x00, 0x38,
            0x9b, 0x71],
    );
    assert_eq!(&b[60..64], b"data");
    assert_eq!(&b[64..68], &4u32.to_le_bytes());
    assert_eq!(&b[68..72], &1.0f32.to_bits().to_le_bytes());
}

#[test]
fn decode_rejects_truncated_input() {
    assert!(decode_wav(&Vec::new()).is_none());
    assert!(decode_wav(&vec![0u8; 40]).is_none());
    let samples = bits(&[0.5f32]);
    let mut encoded = encode_wav(&samples, 44100, 1);
    encoded.pop();
    assert!(decode_wav(&encoded).is_none());
}

#[test]
fn decode_rejects_corrupt_header() {
    let samples = bits(&[0.5f32]);
    let mut encoded = encode_wav(&samples, 44100, 1);
    encoded[0] = b'X';
    assert!(decode_wav(&encoded).is_none());
}

#[test]
fn conforming_reader_accepts_container() {
    let floats = [0.0f32, 0.5, -0.25, 1.0, -1.0];
    let encoded = encode_wav(&bits(&floats), 44100, 1);
    let reader = hound::WavReader::new(std::io::Cursor::new(encoded)).expect("hound must accept");
    let spec = reader.spec();
    assert_eq!(spec.channels, 1);
    assert_eq!(spec.sample_rate, 44100);
    assert_eq!(spec.bits_per_sample, 32);
    assert_eq!(spec.sample_format, hound::SampleFormat::Float);
    let read: Vec<f32> = reader.into_samples::<f32>().map(|s| s.unwrap()).collect();
    assert_eq!(read, floats);
}

#[test]
fn matches_reference_writer_bytes() {
    let floats = [0.125f32, -0.375, 0.875, 0.0];
    let spec = hound::WavSpec {
        channels: 1,
        sample_rate: 44100,
        bits_per_sample: 32,
        sample_format: hound::SampleFormat::Float,
    };
    let mut cursor = std::io::Cursor::new(Vec::new());
    {
        let mut writer = hound::WavWriter::new(&mut cursor, spec).unwrap();
        for &f in &floats {
            writer.write_sample(f).unwrap();
        }
        writer.finalize().unwrap();
    }
    let reference = cursor.into_inner();
    let encoded = encode_wav(&bits(&floats), 44100, 1);
    assert_eq!(encoded, reference);
}
