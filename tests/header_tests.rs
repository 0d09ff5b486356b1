use bvreader::data::{BVData, Sample};
use bvreader::error::Error;
use bvreader::format::{BinaryFormat, DataFormat, DataOrientation, DataUnit, HeaderEncoding};
use bvreader::header::BVheader;
use bvreader::marker::BVMarker;
use bvreader::recording::BVFile;
use bvreader::validator::{parse_invalid_to_error, validate_num_chan, IsValid};

const HEADER: &str = "Brain Vision Data Exchange Header File Version 1.0
; Data created by the Vision Recorder

[Common Infos]
Codepage=UTF-8
DataFile=01_data.eeg
MarkerFile=01_marker.vmrk
DataFormat=BINARY
DataOrientation=MULTIPLEXED
NumberOfChannels=2
SamplingInterval=2000

[Binary Infos]
BinaryFormat=INT_16
UseBigEndianOrder=NO

[Channel Infos]
Ch1=Fp1,,0.5,µV
Ch2=Fz,,0.5,µV

BrainVision Recorder Professional   -   V. 1.21.0201
Number of channels: 2
Sampling Rate [Hz]: 500
Sampling Interval [µS]: 2000
Reference Channel Name = Cz
Reference Phys. Chn.   = 24
Good Level [kOhms]     = 10
Bad Level [kOhms]      = 50
";

#[test]
fn header_from_text() {
    let h = BVheader::from_text("dir/01_header.vhdr", HEADER).unwrap();
    assert_eq!(h.header_path, "dir/01_header.vhdr");
    assert_eq!(h.header_version, "1.0");
    assert_eq!(h.header_encoding, HeaderEncoding::UTF8);
    assert_eq!(h.data_file, "01_data.eeg");
    assert_eq!(h.marker_file, "01_marker.vmrk");
    assert_eq!(h.data_format, DataFormat::BINARY);
    assert_eq!(h.data_orientation, DataOrientation::MULTIPLEXED);
    assert_eq!(h.num_channels, 2);
    assert_eq!(h.sampling_interval, 2000);
    assert_eq!(h.binary_format, BinaryFormat::INT_16);
    assert!(!h.use_big_endian);
    assert_eq!(h.channel_info.len(), 2);
    assert_eq!(h.channel_info[1].label, "Fz");
    assert_eq!(h.channel_info[1].unit, DataUnit::uV);
    assert_eq!(h.recorder_version, "1.21.0201");
    assert_eq!(h.amp_channels, 2);
    assert_eq!(h.amp_sr, 500);
    assert_eq!(h.amp_sample_interval, 2000);
    assert_eq!(h.reference_label, "Cz");
    assert_eq!(h.reference_phys_chan, 24);
    assert_eq!(h.good_level, 10);
    assert_eq!(h.bad_level, 50);
}

#[test]
fn header_without_version_fails() {
    assert_eq!(BVheader::from_text("p", "Codepage=UTF-8"), Err(Error::InvalidHeaderVersion));
}

#[test]
fn int32_format_token_is_known() {
    assert_eq!(bvreader::fields::parse_binaryformat("BinaryFormat=INT_32"), BinaryFormat::INT_32);
    assert_eq!(bvreader::fields::parse_binaryformat("BinaryFormat=FLOAT_64"), BinaryFormat::Unknown);
}

fn recording(channels_in_data: usize) -> BVFile {
    let bv_header = BVheader::from_text("dir/01_header.vhdr", HEADER).unwrap();
    let bv_data = BVData::<Sample> {
        data_path: "dir/01_data.eeg".to_string(),
        data: vec![vec![Sample::Int16(1)]; channels_in_data],
        num_chan: channels_in_data,
    };
    BVFile { bv_header, bv_marker: BVMarker::default(), bv_data }
}

#[test]
fn validation_passes_when_counts_agree() {
    let f = recording(2);
    assert_eq!(validate_num_chan(&f), IsValid::True);
    assert_eq!(f.validate(), Ok(()));
}

#[test]
fn validation_reports_data_mismatch() {
    let f = recording(3);
    let expected = "Channel mismatch: channels in header 2, channels in data 3".to_string();
    assert_eq!(validate_num_chan(&f), IsValid::False(expected.clone()));
    assert_eq!(f.validate(), Err(Error::ValidationError(expected)));
}

#[test]
fn validation_reports_amplifier_mismatch_first() {
    let mut f = recording(3);
    f.bv_header.amp_channels = 17;
    assert_eq!(
        validate_num_chan(&f),
        IsValid::False("Channel mismatch: channels in header 2, channels in AMP 17".to_string())
    );
}

#[test]
fn invalid_to_error_messages() {
    assert_eq!(parse_invalid_to_error(&IsValid::False("bad".to_string())), Error::ValidationError("bad".to_string()));
    assert_eq!(parse_invalid_to_error(&IsValid::True), Error::ValidationError(String::new()));
}
