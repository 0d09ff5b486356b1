use bvreader::data::{decode_samples, BVData, Sample};
use bvreader::error::Error;
use bvreader::format::{BinaryFormat, DataOrientation};

const BYTES: [u8; 8] = [110, 80, 20, 30, 110, 80, 20, 30];

#[test]
fn aligned_buffers_decode_to_one_sample_per_chunk() {
    for (format, width) in [
        (BinaryFormat::IEEE_FLOAT_32, 4),
        (BinaryFormat::INT_32, 4),
        (BinaryFormat::INT_16, 2),
        (BinaryFormat::UINT_16, 2),
    ] {
        for len in [0usize, 4, 8, 12] {
            let samples = decode_samples(vec![7; len], format, false).unwrap();
            assert_eq!(samples.len(), len / width);
        }
    }
}

#[test]
fn misaligned_buffers_fail_with_offset_and_length() {
    assert_eq!(
        decode_samples(vec![1; 7], BinaryFormat::IEEE_FLOAT_32, false),
        Err(Error::BinaryParserError("f32".to_string(), 4, 7))
    );
    assert_eq!(
        decode_samples(vec![1; 5], BinaryFormat::UINT_16, true),
        Err(Error::BinaryParserError("u16".to_string(), 4, 5))
    );
    assert_eq!(
        decode_samples(vec![1; 3], BinaryFormat::INT_16, false),
        Err(Error::BinaryParserError("i16".to_string(), 2, 3))
    );
    assert_eq!(
        decode_samples(vec![1; 6], BinaryFormat::INT_32, false),
        Err(Error::BinaryParserError("i32".to_string(), 4, 6))
    );
}

#[test]
fn unknown_format_always_fails() {
    assert_eq!(decode_samples(vec![], BinaryFormat::Unknown, false), Err(Error::InvalidBinaryFormat));
    assert_eq!(decode_samples(vec![1, 2], BinaryFormat::Unknown, true), Err(Error::InvalidBinaryFormat));
}

#[test]
fn float_samples_read_as_ieee_values() {
    let samples = decode_samples(BYTES.to_vec(), BinaryFormat::IEEE_FLOAT_32, false).unwrap();
    let expected = f32::from_le_bytes([110, 80, 20, 30]);
    for s in &samples {
        match s {
            Sample::Float32(bits) => assert_eq!(f32::from_bits(*bits), expected),
            _ => panic!("not a float sample"),
        }
    }
    assert_eq!(samples.len(), 2);
    assert!((expected - 7.8517e-21).abs() < 1e-24);
}

#[test]
fn sixteen_bit_samples_little_endian() {
    let u = decode_samples(BYTES.to_vec(), BinaryFormat::UINT_16, false).unwrap();
    assert_eq!(u, vec![Sample::UInt16(20590), Sample::UInt16(7700), Sample::UInt16(20590), Sample::UInt16(7700)]);
    let i = decode_samples(BYTES.to_vec(), BinaryFormat::INT_16, false).unwrap();
    assert_eq!(i, vec![Sample::Int16(20590), Sample::Int16(7700), Sample::Int16(20590), Sample::Int16(7700)]);
}

#[test]
fn decoding_twice_gives_the_same_result() {
    for big in [false, true] {
        let a = decode_samples(BYTES.to_vec(), BinaryFormat::INT_32, big);
        let b = decode_samples(BYTES.to_vec(), BinaryFormat::INT_32, big);
        assert_eq!(a, b);
    }
    let le = decode_samples(BYTES.to_vec(), BinaryFormat::UINT_16, false);
    let be = decode_samples(BYTES.to_vec(), BinaryFormat::UINT_16, true);
    let le_again = decode_samples(BYTES.to_vec(), BinaryFormat::UINT_16, false);
    assert_ne!(le, be);
    assert_eq!(le, le_again);
}

#[test]
fn dataset_from_multiplexed_bytes() {
    let d = BVData::from_bytes("rec.eeg", BYTES.to_vec(), 2, BinaryFormat::UINT_16, DataOrientation::MULTIPLEXED, false)
        .unwrap();
    assert_eq!(d.data_path, "rec.eeg");
    assert_eq!(d.num_chan, 2);
    assert_eq!(d.data, vec![vec![Sample::UInt16(20590), Sample::UInt16(20590)], vec![Sample::UInt16(7700), Sample::UInt16(7700)]]);
}

#[test]
fn dataset_from_vectorized_bytes() {
    let d = BVData::from_bytes("rec.eeg", vec![1, 0, 2, 0, 3, 0, 4, 0], 2, BinaryFormat::INT_16, DataOrientation::VECTORIZED, false)
        .unwrap();
    assert_eq!(d.data, vec![vec![Sample::Int16(1), Sample::Int16(2)], vec![Sample::Int16(3), Sample::Int16(4)]]);
}

#[test]
fn dataset_errors() {
    let f = |bytes: Vec<u8>, n: usize, fmt: BinaryFormat, o: DataOrientation| BVData::from_bytes("p", bytes, n, fmt, o, false);
    assert_eq!(f(vec![], 2, BinaryFormat::INT_16, DataOrientation::MULTIPLEXED), Err(Error::EmptyBinary));
    assert_eq!(f(vec![1, 2], 2, BinaryFormat::Unknown, DataOrientation::MULTIPLEXED), Err(Error::InvalidBinaryFormat));
    assert_eq!(f(vec![1, 2], 1, BinaryFormat::INT_16, DataOrientation::Unknown), Err(Error::InvalidDataOrientation));
    assert_eq!(f(vec![1, 2], 0, BinaryFormat::INT_16, DataOrientation::VECTORIZED), Err(Error::ZeroChannels));
    assert_eq!(
        f(vec![1, 2, 3], 1, BinaryFormat::INT_16, DataOrientation::VECTORIZED),
        Err(Error::BinaryParserError("i16".to_string(), 2, 3))
    );
    assert_eq!(
        f(vec![1, 2, 3, 4, 5, 6], 2, BinaryFormat::UINT_16, DataOrientation::MULTIPLEXED),
        Err(Error::BinaryOrientationError("MULTIPLEXED".to_string(), 3, 4))
    );
}

#[test]
fn dataset_scaling_in_place() {
    let mut d = BVData {
        data_path: "p".to_string(),
        data: vec![vec![110.0f64, 20.0, 110.0, 20.0], vec![80.0, 30.0, 80.0, 30.0]],
        num_chan: 2,
    };
    d.scale_channels(&vec![Some(0.5), None], |x: f64, r: f64| x * r).unwrap();
    assert_eq!(d.data, vec![vec![55.0, 10.0, 55.0, 10.0], vec![80.0, 30.0, 80.0, 30.0]]);
    assert_eq!(d.scale_channels(&vec![Some(0.5)], |x: f64, r: f64| x * r), Err(Error::ChannelDataMismatch(2, 1)));
}
