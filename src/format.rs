use vstd::prelude::*;

use crate::text::{decimal_value, parse_decimal, str_eq};

verus! {

/// How each sample is stored in the binary data file.
#[allow(non_camel_case_types)]
#[derive(Default, Clone, Copy, Debug, PartialEq, Eq)]
pub enum BinaryFormat {
    #[default]
    IEEE_FLOAT_32,
    INT_16,
    UINT_16,
    INT_32,
    Unknown,
}

/// How the samples of the channels are laid out one after another.
#[derive(Default, Clone, Copy, Debug, PartialEq, Eq)]
pub enum DataOrientation {
    #[default]
    MULTIPLEXED,
    VECTORIZED,
    Unknown,
}

/// Bytes taken by one sample of `f`; zero for an unknown format.
pub open spec fn chunk_width(f: BinaryFormat) -> nat {
    match f {
        BinaryFormat::IEEE_FLOAT_32 => 4,
        BinaryFormat::INT_32 => 4,
        BinaryFormat::INT_16 => 2,
        BinaryFormat::UINT_16 => 2,
        BinaryFormat::Unknown => 0,
    }
}

/// Whether the data file holds binary samples.
#[derive(Default, Clone, Copy, Debug, PartialEq, Eq)]
pub enum DataFormat {
    #[default]
    BINARY,
    Unknown,
}

/// The domain the samples are recorded in.
#[derive(Default, Clone, Copy, Debug, PartialEq, Eq)]
pub enum DataType {
    #[default]
    Timedomain,
    Frequencydomain,
    Unknown,
}

/// The text encoding of the header and marker files.
#[derive(Default, Clone, Copy, Debug, PartialEq, Eq)]
pub enum HeaderEncoding {
    #[default]
    UTF8,
    ASCII,
    Unknown,
}

/// The physical unit of a channel.
#[allow(non_camel_case_types)]
#[derive(Default, Clone, Copy, Debug, PartialEq, Eq)]
pub enum DataUnit {
    V,
    mV,
    #[default]
    uV,
    nV,
    /// Degrees Celsius.
    C,
    /// Unit of breathing data.
    ARU,
    /// Siemens.
    S,
    uS,
    N,
    NA,
}

/// A filter of the amplifier: off, on at a frequency, direct current, or a
/// value that could not be read.
#[derive(Default, Clone, Copy, Debug, PartialEq, Eq)]
pub enum FilterSetting {
    #[default]
    OFF,
    ON(usize),
    DC,
    Unknown,
}

pub open spec fn binary_format_of(t: Seq<char>) -> BinaryFormat {
    if t == "IEEE_FLOAT_32"@ {
        BinaryFormat::IEEE_FLOAT_32
    } else if t == "INT_16"@ {
        BinaryFormat::INT_16
    } else if t == "UINT_16"@ {
        BinaryFormat::UINT_16
    } else if t == "INT_32"@ {
        BinaryFormat::INT_32
    } else {
        BinaryFormat::Unknown
    }
}

/// The binary format that a header token names.
pub fn binary_format_from_token(t: &str) -> (r: BinaryFormat)
    ensures
        r == binary_format_of(t@),
{
    if str_eq(t, "IEEE_FLOAT_32") {
        BinaryFormat::IEEE_FLOAT_32
    } else if str_eq(t, "INT_16") {
        BinaryFormat::INT_16
    } else if str_eq(t, "UINT_16") {
        BinaryFormat::UINT_16
    } else if str_eq(t, "INT_32") {
        BinaryFormat::INT_32
    } else {
        BinaryFormat::Unknown
    }
}

pub open spec fn data_orientation_of(t: Seq<char>) -> DataOrientation {
    if t == "MULTIPLEXED"@ {
        DataOrientation::MULTIPLEXED
    } else if t == "VECTORIZED"@ {
        DataOrientation::VECTORIZED
    } else {
        DataOrientation::Unknown
    }
}

/// The orientation that a header token names.
pub fn data_orientation_from_token(t: &str) -> (r: DataOrientation)
    ensures
        r == data_orientation_of(t@),
{
    if str_eq(t, "MULTIPLEXED") {
        DataOrientation::MULTIPLEXED
    } else if str_eq(t, "VECTORIZED") {
        DataOrientation::VECTORIZED
    } else {
        DataOrientation::Unknown
    }
}

pub open spec fn data_format_of(t: Seq<char>) -> DataFormat {
    if t == "BINARY"@ {
        DataFormat::BINARY
    } else {
        DataFormat::Unknown
    }
}

/// The data format that a header token names.
pub fn data_format_from_token(t: &str) -> (r: DataFormat)
    ensures
        r == data_format_of(t@),
{
    if str_eq(t, "BINARY") {
        DataFormat::BINARY
    } else {
        DataFormat::Unknown
    }
}

pub open spec fn data_type_of(t: Seq<char>) -> DataType {
    if t == "TIMEDOMAIN"@ {
        DataType::Timedomain
    } else if t == "FREQUENCYDOMAIN"@ {
        DataType::Frequencydomain
    } else {
        DataType::Unknown
    }
}

/// The data type that a header token names.
pub fn data_type_from_token(t: &str) -> (r: DataType)
    ensures
        r == data_type_of(t@),
{
    if str_eq(t, "TIMEDOMAIN") {
        DataType::Timedomain
    } else if str_eq(t, "FREQUENCYDOMAIN") {
        DataType::Frequencydomain
    } else {
        DataType::Unknown
    }
}

pub open spec fn header_encoding_of(t: Seq<char>) -> HeaderEncoding {
    if t == "UTF-8"@ {
        HeaderEncoding::UTF8
    } else if t == "ASCII"@ {
        HeaderEncoding::ASCII
    } else {
        HeaderEncoding::Unknown
    }
}

/// The encoding that a code page token names.
pub fn header_encoding_from_token(t: &str) -> (r: HeaderEncoding)
    ensures
        r == header_encoding_of(t@),
{
    if str_eq(t, "UTF-8") {
        HeaderEncoding::UTF8
    } else if str_eq(t, "ASCII") {
        HeaderEncoding::ASCII
    } else {
        HeaderEncoding::Unknown
    }
}

/// Only `YES` selects big-endian byte order.
pub open spec fn big_endian_of(t: Seq<char>) -> bool {
    t == "YES"@
}

/// Whether a byte order token selects big-endian order.
pub fn big_endian_from_token(t: &str) -> (r: bool)
    ensures
        r == big_endian_of(t@),
{
    str_eq(t, "YES")
}

pub open spec fn data_unit_of(t: Seq<char>) -> DataUnit {
    if t == "V"@ {
        DataUnit::V
    } else if t == "mV"@ {
        DataUnit::mV
    } else if t == "uV"@ || t == "µV"@ {
        DataUnit::uV
    } else if t == "nV"@ {
        DataUnit::nV
    } else if t == "C"@ || t == "°C"@ {
        DataUnit::C
    } else if t == "S"@ {
        DataUnit::S
    } else if t == "uS"@ || t == "µS"@ {
        DataUnit::uS
    } else if t == "ARU"@ {
        DataUnit::ARU
    } else if t == "N"@ {
        DataUnit::N
    } else {
        DataUnit::NA
    }
}

/// The unit that a channel's unit token names; `NA` for `n/a` and for any
/// token not known.
pub fn data_unit_from_token(t: &str) -> (r: DataUnit)
    ensures
        r == data_unit_of(t@),
{
    if str_eq(t, "V") {
        DataUnit::V
    } else if str_eq(t, "mV") {
        DataUnit::mV
    } else if str_eq(t, "uV") || str_eq(t, "µV") {
        DataUnit::uV
    } else if str_eq(t, "nV") {
        DataUnit::nV
    } else if str_eq(t, "C") || str_eq(t, "°C") {
        DataUnit::C
    } else if str_eq(t, "S") {
        DataUnit::S
    } else if str_eq(t, "uS") || str_eq(t, "µS") {
        DataUnit::uS
    } else if str_eq(t, "ARU") {
        DataUnit::ARU
    } else if str_eq(t, "N") {
        DataUnit::N
    } else {
        DataUnit::NA
    }
}

pub open spec fn filter_setting_of(t: Seq<char>) -> FilterSetting {
    if t == "DC"@ {
        FilterSetting::DC
    } else if t == "OFF"@ || t == "Off"@ {
        FilterSetting::OFF
    } else {
        match decimal_value(t) {
            Some(f) => FilterSetting::ON(f),
            None => FilterSetting::Unknown,
        }
    }
}

/// Reads a filter setting: `DC`, `OFF` or `Off`, or a frequency in decimal.
pub fn parse_filter_setting(input: &str) -> (r: FilterSetting)
    ensures
        r == filter_setting_of(input@),
{
    if str_eq(input, "DC") {
        FilterSetting::DC
    } else if str_eq(input, "OFF") || str_eq(input, "Off") {
        FilterSetting::OFF
    } else {
        match parse_decimal(input) {
            Some(f) => FilterSetting::ON(f),
            None => FilterSetting::Unknown,
        }
    }
}

} // verus!
