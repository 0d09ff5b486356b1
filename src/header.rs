use vstd::prelude::*;

use crate::channels::{channel_entries, channel_view, parse_chan_info, ChannelInfo};
use crate::error::Error;
use crate::fields::{
    field_number, parse_amp_numchan, parse_amp_samplinginterval, parse_amp_samplingrate, parse_bad_level,
    parse_binaryformat, parse_data_orientation, parse_datafilepath, parse_dataformat, parse_endian,
    parse_good_level, parse_header_encoding, parse_header_version, parse_markerfilepath, parse_numchans,
    parse_recorder_version, parse_reference_label, parse_reference_phys_chan, parse_sampling_interval,
};
use crate::format::{
    big_endian_of, binary_format_of, data_format_of, data_orientation_of, header_encoding_of, BinaryFormat,
    DataFormat, DataOrientation, HeaderEncoding,
};
use crate::pattern::{all_groups, first_group};

verus! {

pub open spec fn or_zero(o: Option<usize>) -> usize {
    match o {
        Some(v) => v,
        None => 0,
    }
}

pub open spec fn or_empty(o: Option<Seq<char>>) -> Seq<char> {
    match o {
        Some(v) => v,
        None => Seq::empty(),
    }
}

fn string_or_empty(o: Option<String>) -> (r: String)
    ensures
        r@ == match o {
            Some(s) => s@,
            None => Seq::<char>::empty(),
        },
{
    match o {
        Some(s) => s,
        None => String::new(),
    }
}

fn number_or_zero(o: Option<usize>) -> (r: usize)
    ensures
        r == or_zero(o),
{
    match o {
        Some(v) => v,
        None => 0,
    }
}

/// The contents of a header file. A field that the file does not state is
/// zero or empty.
#[derive(Default, Clone, Debug, PartialEq, Eq)]
pub struct BVheader {
    pub header_path: String,
    pub header_version: String,
    pub header_encoding: HeaderEncoding,
    pub data_file: String,
    pub marker_file: String,
    pub data_format: DataFormat,
    pub data_orientation: DataOrientation,
    pub num_channels: usize,
    pub sampling_interval: usize,
    pub binary_format: BinaryFormat,
    pub use_big_endian: bool,
    pub channel_info: Vec<ChannelInfo>,
    pub recorder_version: String,
    pub amp_channels: usize,
    pub amp_sr: usize,
    pub amp_sample_interval: usize,
    pub reference_label: String,
    pub reference_phys_chan: usize,
    pub good_level: usize,
    pub bad_level: usize,
}

impl BVheader {
    /// Reads the text of the header file found at `filepath`. Fails when the
    /// text does not state its version.
    pub fn from_text(filepath: &str, textcontent: &str) -> (r: Result<Self, Error>)
        ensures
            first_group("Brain Vision Data Exchange Header File Version (\\d{1,}\\.\\d{1,})"@, textcontent@) is None
                ==> r == Err::<Self, Error>(Error::InvalidHeaderVersion),
            first_group("Brain Vision Data Exchange Header File Version (\\d{1,}\\.\\d{1,})"@, textcontent@) is Some
                ==> r is Ok,
            r is Err ==> r == Err::<Self, Error>(Error::InvalidHeaderVersion),
            r matches Ok(h) ==> {
                let t = textcontent@;
                &&& h.header_path@ == filepath@
                &&& first_group("Brain Vision Data Exchange Header File Version (\\d{1,}\\.\\d{1,})"@, t)
                    == Some(h.header_version@)
                &&& h.header_encoding == match first_group("Codepage=([\\w-]*)"@, t) {
                    Some(v) => header_encoding_of(v),
                    None => HeaderEncoding::Unknown,
                }
                &&& h.data_file@ == or_empty(first_group("DataFile=([\\w\\.-]*)"@, t))
                &&& h.marker_file@ == or_empty(first_group("MarkerFile=([\\w\\.-]*)"@, t))
                &&& h.data_format == match first_group("DataFormat=(\\w*)"@, t) {
                    Some(v) => data_format_of(v),
                    None => DataFormat::Unknown,
                }
                &&& h.data_orientation == match first_group("DataOrientation=(\\w*)"@, t) {
                    Some(v) => data_orientation_of(v),
                    None => DataOrientation::Unknown,
                }
                &&& h.num_channels == or_zero(field_number("NumberOfChannels=(\\d*)"@, t))
                &&& h.sampling_interval == or_zero(field_number("SamplingInterval=(\\d*)"@, t))
                &&& h.binary_format == match first_group("BinaryFormat=(\\w*)"@, t) {
                    Some(v) => binary_format_of(v),
                    None => BinaryFormat::Unknown,
                }
                &&& h.use_big_endian == match first_group("UseBigEndianOrder=(\\w*)"@, t) {
                    Some(v) => big_endian_of(v),
                    None => false,
                }
                &&& h.channel_info@.map_values(|c: ChannelInfo| channel_view(c)) == channel_entries(
                    all_groups("([Cch].\\d.*)=([\\w\\.,]*)"@, t, 2),
                )
                &&& h.recorder_version@ == or_empty(
                    first_group("BrainVision Recorder Professional   -   V. (.*)"@, t),
                )
                &&& h.amp_channels == or_zero(field_number("Number of channels: (\\d*)"@, t))
                &&& h.amp_sr == or_zero(field_number("Sampling Rate \\[Hz\\]: (\\d*)"@, t))
                &&& h.amp_sample_interval == or_zero(field_number("Sampling Interval \\[µS\\]: (\\d*)"@, t))
                &&& h.reference_label@ == or_empty(first_group("Reference Channel Name = (\\w*)"@, t))
                &&& h.reference_phys_chan == or_zero(field_number("Reference Phys. Chn.   = (\\w*)"@, t))
                &&& h.good_level == or_zero(field_number("Good Level \\[kOhms\\]     = (\\d*)"@, t))
                &&& h.bad_level == or_zero(field_number("Bad Level \\[kOhms\\]      = (\\d*)"@, t))
            },
    {
        let header_version = match parse_header_version(textcontent) {
            Some(v) => v,
            None => return Err(Error::InvalidHeaderVersion),
        };
        Ok(
            BVheader {
                header_path: filepath.to_string(),
                header_version,
                header_encoding: parse_header_encoding(textcontent),
                data_file: string_or_empty(parse_datafilepath(textcontent)),
                marker_file: string_or_empty(parse_markerfilepath(textcontent)),
                data_format: parse_dataformat(textcontent),
                data_orientation: parse_data_orientation(textcontent),
                num_channels: number_or_zero(parse_numchans(textcontent)),
                sampling_interval: number_or_zero(parse_sampling_interval(textcontent)),
                binary_format: parse_binaryformat(textcontent),
                use_big_endian: parse_endian(textcontent),
                channel_info: parse_chan_info(textcontent),
                recorder_version: string_or_empty(parse_recorder_version(textcontent)),
                amp_channels: number_or_zero(parse_amp_numchan(textcontent)),
                amp_sr: number_or_zero(parse_amp_samplingrate(textcontent)),
                amp_sample_interval: number_or_zero(parse_amp_samplinginterval(textcontent)),
                reference_label: string_or_empty(parse_reference_label(textcontent)),
                reference_phys_chan: number_or_zero(parse_reference_phys_chan(textcontent)),
                good_level: number_or_zero(parse_good_level(textcontent)),
                bad_level: number_or_zero(parse_bad_level(textcontent)),
            },
        )
    }
}

} // verus!
