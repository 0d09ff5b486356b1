use vstd::prelude::*;

verus! {

/// Every way in which reading or decoding a recording can fail.
#[derive(Debug, PartialEq, Eq)]
pub enum Error {
    FileOpen(String),
    FileMeta(String),
    FileRead(String),
    InvalidHeaderVersion,
    InvalidBinaryFormat,
    EmptyBinary,
    InvalidDataOrientation,
    /// A channel count of zero was declared.
    ZeroChannels,
    /// Format name, bytes consumed, bytes in the buffer.
    BinaryParserError(String, usize, usize),
    /// Orientation name, values expected, values placed.
    BinaryOrientationError(String, usize, usize),
    /// Channels in the data, entries in the channel metadata.
    ChannelDataMismatch(usize, usize),
    /// Expected samples per channel, samples found.
    ChannelDataMalformed(usize, usize),
    ValidationError(String),
}

} // verus!
