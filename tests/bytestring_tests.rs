use bvreader::bytestring::{
    format_2byte_arr, format_4byte_arr, parse_bytestring_to_f32, parse_bytestring_to_i16,
    parse_bytestring_to_i32, parse_bytestring_to_u16,
};
use bvreader::error::Error;

#[test]
fn test_parse_bytestring_f32() {
    let res: Vec<f32> = parse_bytestring_to_f32(vec![110, 80, 20, 30, 110, 80, 20, 30], false)
        .unwrap()
        .into_iter()
        .map(f32::from_bits)
        .collect();
    let expected = vec![7.851687231645703e-21, 7.851687231645703e-21];
    assert_eq!(res, expected)
}

#[test]
fn test_parse_bytestring_u16() {
    let res: Vec<f32> = parse_bytestring_to_u16(vec![110, 80, 20, 30, 110, 80, 20, 30], false)
        .unwrap()
        .into_iter()
        .map(f32::from)
        .collect();
    let expected = vec![20590.0, 7700.0, 20590.0, 7700.0];
    assert_eq!(res, expected)
}

#[test]
fn test_parse_bytestring_i16() {
    let res: Vec<f32> = parse_bytestring_to_i16(vec![110, 80, 20, 30, 110, 80, 20, 30], false)
        .unwrap()
        .into_iter()
        .map(f32::from)
        .collect();
    let expected = vec![20590., 7700., 20590., 7700.];
    assert_eq!(res, expected)
}

#[test]
fn test_format_4byte_chunk() {
    let res = format_4byte_arr(&[12,12,12,12]);
    assert_eq!(res, [12; 4])
}

#[test]
fn test_format_2byte_chunk() {
    let res = format_2byte_arr(&[12,12]);
    assert_eq!(res, [12; 2])
}

#[test]
fn test_parse_bytestring_f32_empty() {
    let res = parse_bytestring_to_f32(vec![], false);
    let expected: Result<Vec<u32>, Error> = Ok(vec![]);
    assert_eq!(res, expected)
}

#[test]
fn f32_bits_match_std_in_both_byte_orders() {
    let bytes = vec![110, 80, 20, 30];
    let le = parse_bytestring_to_f32(bytes.clone(), false).unwrap();
    let be = parse_bytestring_to_f32(bytes, true).unwrap();
    assert_eq!(le, vec![u32::from_le_bytes([110, 80, 20, 30])]);
    assert_eq!(be, vec![u32::from_be_bytes([110, 80, 20, 30])]);
    assert_eq!(f32::from_bits(le[0]), f32::from_le_bytes([110, 80, 20, 30]));
    assert_eq!(f32::from_bits(be[0]), f32::from_be_bytes([110, 80, 20, 30]));
}

#[test]
fn u16_big_endian() {
    let res = parse_bytestring_to_u16(vec![110, 80, 20, 30], true).unwrap();
    assert_eq!(res, vec![28240, 5150]);
}

#[test]
fn i16_negative_values() {
    let res = parse_bytestring_to_i16(vec![0xff, 0xff, 0x00, 0x80, 0xff, 0x7f], false).unwrap();
    assert_eq!(res, vec![-1, -32768, 32767]);
    let res = parse_bytestring_to_i16(vec![0xff, 0xfe], true).unwrap();
    assert_eq!(res, vec![-2]);
}

#[test]
fn i32_both_byte_orders() {
    let res = parse_bytestring_to_i32(vec![0xfe, 0xff, 0xff, 0xff, 1, 0, 0, 0], false).unwrap();
    assert_eq!(res, vec![-2, 1]);
    let res = parse_bytestring_to_i32(vec![0, 0, 1, 0], true).unwrap();
    assert_eq!(res, vec![256]);
}

#[test]
fn partial_chunk_reports_consumed_and_total() {
    assert_eq!(
        parse_bytestring_to_f32(vec![1, 2, 3, 4, 5, 6], false),
        Err(Error::BinaryParserError("f32".to_string(), 4, 6))
    );
    assert_eq!(
        parse_bytestring_to_i32(vec![1, 2, 3], true),
        Err(Error::BinaryParserError("i32".to_string(), 0, 3))
    );
    assert_eq!(
        parse_bytestring_to_u16(vec![1, 2, 3], false),
        Err(Error::BinaryParserError("u16".to_string(), 2, 3))
    );
    assert_eq!(
        parse_bytestring_to_i16(vec![7], false),
        Err(Error::BinaryParserError("i16".to_string(), 0, 1))
    );
}
