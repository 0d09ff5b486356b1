use bvreader::error::Error;
use bvreader::format::HeaderEncoding;
use bvreader::marker::{parse_marker_data, parse_timecode, BVMarker, MarkerData};
use bvreader::timecode::BVTime;

#[test]
fn test_parse_marker_data() {
        let input = "; Fields are delimited by commas, some fields might be omitted (empty).
        ; Commas in type or description text are coded as \"\\1\".
        Mk1=New Segment,,1,1,0,20200316125805099157
        Mk2=Response,R  3,8598,1,0
        Mk3=Response,R  2,10854,1,0";
        let output = parse_marker_data(input);
        let expected = MarkerData{
            marker_id: "Mk2".to_string(),
            marker_type: "Response".to_string(),
            marker_description: "R  3".to_string(),
            marker_position: 8598,
            marker_length: 1,
            marker_chan: 0,
        };
        assert_eq!(output[1], expected);
}

#[test]
fn test_parse_marker_data_empty() {
        let input = "; Fields are delimited by commas, some fields might be omitted (empty).
        ; Commas in type or description text are coded as \"\\1\".
        Mk1=
        Mk2=
        Mk3=";
        let output = parse_marker_data(input);
        let expected = vec![];
        assert_eq!(output, expected);
}

#[test]
fn test_parse_timecode() {
        let input = "Mk1=New Segment,,1,1,0,20200316125805099157";
        let output = parse_timecode(input).unwrap();
        let expected = BVTime::from_str("20200316125805099157").unwrap();
        assert_eq!(output, expected);
}

#[test]
fn test_parse_timecode_empty() {
        let input = "Mk1=New Segment,,1,1,0";
        let output = parse_timecode(input);
        let expected = Option::None;
        assert_eq!(output, expected);
}

#[test]
fn marker_lines_with_unreadable_numbers_are_skipped() {
    let input = "Mk1=Stimulus,S  1,12,1,0
Mk2=Response,R  3,,1,0";
    let output = parse_marker_data(input);
    assert_eq!(output.len(), 1);
    assert_eq!(output[0].marker_id, "Mk1");
    assert_eq!(output[0].marker_position, 12);
}

#[test]
fn marker_file_from_text() {
    let text = "Brain Vision Data Exchange Marker File, Version 1.0
[Common Infos]
Codepage=UTF-8
DataFile=01_data.eeg
[Marker Infos]
Mk1=New Segment,,1,1,0,20200316125805099157
Mk2=Response,R  3,8598,1,0";
    let m = BVMarker::from_text("dir/01_marker.vmrk", text).unwrap();
    assert_eq!(m.marker_path, "dir/01_marker.vmrk");
    assert_eq!(m.header_version, "1.0");
    assert_eq!(m.header_encoding, HeaderEncoding::UTF8);
    assert_eq!(m.data_file, "01_data.eeg");
    assert_eq!(m.marker_data.len(), 2);
    assert_eq!(m.marker_data[1].marker_description, "R  3");
    assert_eq!(m.start_time, BVTime::from_str("20200316125805099157"));
    assert_eq!(BVMarker::from_text("x", "no version"), Err(Error::InvalidHeaderVersion));
}
