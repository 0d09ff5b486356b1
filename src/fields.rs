use vstd::prelude::*;

use crate::format::{
    big_endian_from_token, big_endian_of, binary_format_from_token, binary_format_of,
    data_format_from_token, data_format_of, data_orientation_from_token, data_orientation_of,
    data_type_from_token, data_type_of, header_encoding_from_token, header_encoding_of, BinaryFormat,
    DataFormat, DataOrientation, DataType, HeaderEncoding,
};
use crate::pattern::{capture_first, first_group, opt_view};
use crate::text::{decimal_value, parse_decimal};

verus! {

/// The number that group 1 of the first match of `pattern` in `text` writes.
pub open spec fn field_number(pattern: Seq<char>, text: Seq<char>) -> Option<usize> {
    match first_group(pattern, text) {
        Some(t) => decimal_value(t),
        None => None,
    }
}

/// Reads the decimal number captured by group 1 of the first match of the
/// regular expression `pattern` in `textcontent`.
pub fn parse_generic_value(textcontent: &str, pattern: &str) -> (r: Option<usize>)
    ensures
        r == field_number(pattern@, textcontent@),
{
    match capture_first(pattern, textcontent) {
        Some(t) => parse_decimal(t.as_str()),
        None => None,
    }
}

/// The version in the first line of a header file.
pub fn parse_header_version(textcontent: &str) -> (r: Option<String>)
    ensures
        opt_view(r) == first_group("Brain Vision Data Exchange Header File Version (\\d{1,}\\.\\d{1,})"@, textcontent@),
{
    capture_first("Brain Vision Data Exchange Header File Version (\\d{1,}\\.\\d{1,})", textcontent)
}

/// The version in the first line of a marker file.
pub fn parse_marker_version(textcontent: &str) -> (r: Option<String>)
    ensures
        opt_view(r) == first_group("Brain Vision Data Exchange Marker File, Version (\\d{1,}\\.\\d{1,})"@, textcontent@),
{
    capture_first("Brain Vision Data Exchange Marker File, Version (\\d{1,}\\.\\d{1,})", textcontent)
}

/// The code page; `Unknown` if absent or not known.
pub fn parse_header_encoding(textcontent: &str) -> (r: HeaderEncoding)
    ensures
        r == match first_group("Codepage=([\\w-]*)"@, textcontent@) {
            Some(t) => header_encoding_of(t),
            None => HeaderEncoding::Unknown,
        },
{
    match capture_first("Codepage=([\\w-]*)", textcontent) {
        Some(t) => header_encoding_from_token(t.as_str()),
        None => HeaderEncoding::Unknown,
    }
}

/// The name of the data file.
pub fn parse_datafilepath(textcontent: &str) -> (r: Option<String>)
    ensures
        opt_view(r) == first_group("DataFile=([\\w\\.-]*)"@, textcontent@),
{
    capture_first("DataFile=([\\w\\.-]*)", textcontent)
}

/// The name of the marker file.
pub fn parse_markerfilepath(textcontent: &str) -> (r: Option<String>)
    ensures
        opt_view(r) == first_group("MarkerFile=([\\w\\.-]*)"@, textcontent@),
{
    capture_first("MarkerFile=([\\w\\.-]*)", textcontent)
}

/// The data format; `Unknown` if absent or not known.
pub fn parse_dataformat(textcontent: &str) -> (r: DataFormat)
    ensures
        r == match first_group("DataFormat=(\\w*)"@, textcontent@) {
            Some(t) => data_format_of(t),
            None => DataFormat::Unknown,
        },
{
    match capture_first("DataFormat=(\\w*)", textcontent) {
        Some(t) => data_format_from_token(t.as_str()),
        None => DataFormat::Unknown,
    }
}

/// The data orientation; `Unknown` if absent or not known.
pub fn parse_data_orientation(textcontent: &str) -> (r: DataOrientation)
    ensures
        r == match first_group("DataOrientation=(\\w*)"@, textcontent@) {
            Some(t) => data_orientation_of(t),
            None => DataOrientation::Unknown,
        },
{
    match capture_first("DataOrientation=(\\w*)", textcontent) {
        Some(t) => data_orientation_from_token(t.as_str()),
        None => DataOrientation::Unknown,
    }
}

/// The data type; time domain if absent, `Unknown` if not known.
pub fn parse_datatype(textcontent: &str) -> (r: DataType)
    ensures
        r == match first_group("DataType=(\\w*)"@, textcontent@) {
            Some(t) => data_type_of(t),
            None => DataType::Timedomain,
        },
{
    match capture_first("DataType=(\\w*)", textcontent) {
        Some(t) => data_type_from_token(t.as_str()),
        None => DataType::Timedomain,
    }
}

/// The binary sample format; `Unknown` if absent or not known.
pub fn parse_binaryformat(textcontent: &str) -> (r: BinaryFormat)
    ensures
        r == match first_group("BinaryFormat=(\\w*)"@, textcontent@) {
            Some(t) => binary_format_of(t),
            None => BinaryFormat::Unknown,
        },
{
    match capture_first("BinaryFormat=(\\w*)", textcontent) {
        Some(t) => binary_format_from_token(t.as_str()),
        None => BinaryFormat::Unknown,
    }
}

/// Whether the samples are big-endian; little-endian unless the header says `YES`.
pub fn parse_endian(textcontent: &str) -> (r: bool)
    ensures
        r == match first_group("UseBigEndianOrder=(\\w*)"@, textcontent@) {
            Some(t) => big_endian_of(t),
            None => false,
        },
{
    match capture_first("UseBigEndianOrder=(\\w*)", textcontent) {
        Some(t) => big_endian_from_token(t.as_str()),
        None => false,
    }
}

/// The declared number of channels.
pub fn parse_numchans(textcontent: &str) -> (r: Option<usize>)
    ensures
        r == field_number("NumberOfChannels=(\\d*)"@, textcontent@),
{
    parse_generic_value(textcontent, "NumberOfChannels=(\\d*)")
}

/// The sampling interval in microseconds.
pub fn parse_sampling_interval(textcontent: &str) -> (r: Option<usize>)
    ensures
        r == field_number("SamplingInterval=(\\d*)"@, textcontent@),
{
    parse_generic_value(textcontent, "SamplingInterval=(\\d*)")
}

/// The version of the recording software.
pub fn parse_recorder_version(textcontent: &str) -> (r: Option<String>)
    ensures
        opt_view(r) == first_group("BrainVision Recorder Professional   -   V. (.*)"@, textcontent@),
{
    capture_first("BrainVision Recorder Professional   -   V. (.*)", textcontent)
}

/// The number of channels of the amplifier.
pub fn parse_amp_numchan(textcontent: &str) -> (r: Option<usize>)
    ensures
        r == field_number("Number of channels: (\\d*)"@, textcontent@),
{
    parse_generic_value(textcontent, "Number of channels: (\\d*)")
}

/// The sampling rate of the amplifier in hertz.
pub fn parse_amp_samplingrate(textcontent: &str) -> (r: Option<usize>)
    ensures
        r == field_number("Sampling Rate \\[Hz\\]: (\\d*)"@, textcontent@),
{
    parse_generic_value(textcontent, "Sampling Rate \\[Hz\\]: (\\d*)")
}

/// The sampling interval of the amplifier in microseconds.
pub fn parse_amp_samplinginterval(textcontent: &str) -> (r: Option<usize>)
    ensures
        r == field_number("Sampling Interval \\[µS\\]: (\\d*)"@, textcontent@),
{
    parse_generic_value(textcontent, "Sampling Interval \\[µS\\]: (\\d*)")
}

/// The name of the reference channel.
pub fn parse_reference_label(textcontent: &str) -> (r: Option<String>)
    ensures
        opt_view(r) == first_group("Reference Channel Name = (\\w*)"@, textcontent@),
{
    capture_first("Reference Channel Name = (\\w*)", textcontent)
}

/// The physical channel of the reference.
pub fn parse_reference_phys_chan(textcontent: &str) -> (r: Option<usize>)
    ensures
        r == field_number("Reference Phys. Chn.   = (\\w*)"@, textcontent@),
{
    parse_generic_value(textcontent, "Reference Phys. Chn.   = (\\w*)")
}

/// The impedance below which an electrode counts as good, in kilohms.
pub fn parse_good_level(textcontent: &str) -> (r: Option<usize>)
    ensures
        r == field_number("Good Level \\[kOhms\\]     = (\\d*)"@, textcontent@),
{
    parse_generic_value(textcontent, "Good Level \\[kOhms\\]     = (\\d*)")
}

/// The impedance above which an electrode counts as bad, in kilohms.
pub fn parse_bad_level(textcontent: &str) -> (r: Option<usize>)
    ensures
        r == field_number("Bad Level \\[kOhms\\]      = (\\d*)"@, textcontent@),
{
    parse_generic_value(textcontent, "Bad Level \\[kOhms\\]      = (\\d*)")
}

} // verus!
