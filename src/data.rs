use vstd::prelude::*;

use crate::bytestring::{
    is_misaligned, parse_bytestring_to_f32, parse_bytestring_to_i16, parse_bytestring_to_i32,
    parse_bytestring_to_u16, signed16, signed32, u16_at, u32_at,
};
use crate::error::Error;
use crate::format::{chunk_width, BinaryFormat, DataOrientation};
use crate::orientation::{
    channels_view, is_misoriented, is_multiplexed, is_vectorized, parse_multiplexed_data, parse_vectorized_data,
};
use crate::scale::{first_malformed, scale_channels, scaled_by, uniform};

verus! {

/// One decoded sample, as the binary format stores it. A float keeps its
/// IEEE 754 bit pattern.
#[derive(Clone, Copy, Debug, PartialEq, Eq, Structural)]
pub enum Sample {
    Float32(u32),
    Int32(i32),
    Int16(i16),
    UInt16(u16),
}

/// The name under which decoding errors report the format.
pub open spec fn format_name(f: BinaryFormat) -> Seq<char> {
    match f {
        BinaryFormat::IEEE_FLOAT_32 => "f32"@,
        BinaryFormat::INT_32 => "i32"@,
        BinaryFormat::INT_16 => "i16"@,
        BinaryFormat::UINT_16 => "u16"@,
        BinaryFormat::Unknown => "unknown"@,
    }
}

/// Sample `i` of the bytes `b` in the known format `f`.
pub open spec fn sample_at(b: Seq<u8>, i: int, f: BinaryFormat, big_endian: bool) -> Sample {
    match f {
        BinaryFormat::IEEE_FLOAT_32 => Sample::Float32(u32_at(b, 4 * i, big_endian) as u32),
        BinaryFormat::INT_32 => Sample::Int32(signed32(u32_at(b, 4 * i, big_endian)) as i32),
        BinaryFormat::INT_16 => Sample::Int16(signed16(u16_at(b, 2 * i, big_endian)) as i16),
        _ => Sample::UInt16(u16_at(b, 2 * i, big_endian) as u16),
    }
}

/// All samples of `b`, one per whole chunk, in order.
pub open spec fn decoded(b: Seq<u8>, f: BinaryFormat, big_endian: bool) -> Seq<Sample> {
    Seq::new(b.len() / chunk_width(f), |i: int| sample_at(b, i, f, big_endian))
}

/// What decoding `b` in format `f` gives: the samples when `b` splits into whole
/// chunks, else the error that tells where decoding stopped.
pub open spec fn decode_result(b: Seq<u8>, f: BinaryFormat, big_endian: bool, r: Result<Vec<Sample>, Error>) -> bool {
    if f == BinaryFormat::Unknown {
        r == Err::<Vec<Sample>, Error>(Error::InvalidBinaryFormat)
    } else {
        match r {
            Ok(v) => b.len() % chunk_width(f) == 0 && v@ == decoded(b, f, big_endian),
            Err(e) => b.len() % chunk_width(f) != 0 && is_misaligned(e, format_name(f), b.len() as int, chunk_width(f) as int),
        }
    }
}

fn wrap_all<U: Copy, F: Fn(U) -> Sample>(v: Vec<U>, wrap: F) -> (r: Vec<Sample>)
    requires
        forall|x: U| wrap.requires((x,)),
    ensures
        r.len() == v.len(),
        forall|i: int| 0 <= i < v.len() ==> wrap.ensures((v[i],), #[trigger] r[i]),
{
    let mut r: Vec<Sample> = Vec::with_capacity(v.len());
    let mut i: usize = 0;
    while i < v.len()
        invariant
            i <= v.len(),
            r.len() == i,
            forall|x: U| wrap.requires((x,)),
            forall|j: int| 0 <= j < i ==> wrap.ensures((v[j],), #[trigger] r[j]),
        decreases v.len() - i,
    {
        r.push(wrap(v[i]));
        i = i + 1;
    }
    r
}

/// Reads the bytes as consecutive samples of the given format and byte order.
pub fn decode_samples(bytestring: Vec<u8>, binary_format: BinaryFormat, use_big_endian: bool) -> (r: Result<Vec<Sample>, Error>)
    ensures
        decode_result(bytestring@, binary_format, use_big_endian, r),
{
    let ghost b = bytestring@;
    match binary_format {
        BinaryFormat::IEEE_FLOAT_32 => match parse_bytestring_to_f32(bytestring, use_big_endian) {
            Ok(v) => {
                let r = wrap_all(v, |x: u32| -> (s: Sample) ensures s == Sample::Float32(x) { Sample::Float32(x) });
                assert(r@ =~= decoded(b, binary_format, use_big_endian));
                Ok(r)
            },
            Err(e) => Err(e),
        },
        BinaryFormat::INT_32 => match parse_bytestring_to_i32(bytestring, use_big_endian) {
            Ok(v) => {
                let r = wrap_all(v, |x: i32| -> (s: Sample) ensures s == Sample::Int32(x) { Sample::Int32(x) });
                assert(r@ =~= decoded(b, binary_format, use_big_endian));
                Ok(r)
            },
            Err(e) => Err(e),
        },
        BinaryFormat::INT_16 => match parse_bytestring_to_i16(bytestring, use_big_endian) {
            Ok(v) => {
                let r = wrap_all(v, |x: i16| -> (s: Sample) ensures s == Sample::Int16(x) { Sample::Int16(x) });
                assert(r@ =~= decoded(b, binary_format, use_big_endian));
                Ok(r)
            },
            Err(e) => Err(e),
        },
        BinaryFormat::UINT_16 => match parse_bytestring_to_u16(bytestring, use_big_endian) {
            Ok(v) => {
                let r = wrap_all(v, |x: u16| -> (s: Sample) ensures s == Sample::UInt16(x) { Sample::UInt16(x) });
                assert(r@ =~= decoded(b, binary_format, use_big_endian));
                Ok(r)
            },
            Err(e) => Err(e),
        },
        BinaryFormat::Unknown => Err(Error::InvalidBinaryFormat),
    }
}

/// Two decoding errors say the same thing.
pub open spec fn same_error(e1: Error, e2: Error) -> bool {
    match (e1, e2) {
        (Error::BinaryParserError(n1, a1, t1), Error::BinaryParserError(n2, a2, t2)) => n1@ == n2@ && a1 == a2 && t1 == t2,
        _ => e1 == e2,
    }
}

/// A buffer that splits into whole samples of a known format always decodes, to
/// one sample per chunk.
pub proof fn lemma_aligned_buffer_decodes(
    b: Seq<u8>,
    f: BinaryFormat,
    big_endian: bool,
    r: Result<Vec<Sample>, Error>,
)
    requires
        f != BinaryFormat::Unknown,
        b.len() % chunk_width(f) == 0,
        decode_result(b, f, big_endian, r),
    ensures
        r matches Ok(v) && v.len() == b.len() / chunk_width(f),
{
}

/// A buffer with a partial chunk at its end never decodes: the error gives the
/// bytes consumed by the whole chunks and the length of the buffer.
pub proof fn lemma_partial_chunk_fails(
    b: Seq<u8>,
    f: BinaryFormat,
    big_endian: bool,
    r: Result<Vec<Sample>, Error>,
)
    requires
        f != BinaryFormat::Unknown,
        b.len() % chunk_width(f) != 0,
        decode_result(b, f, big_endian, r),
    ensures
        r matches Err(Error::BinaryParserError(name, consumed, total)) && name@ == format_name(f)
            && consumed == b.len() - b.len() % chunk_width(f) && total == b.len(),
{
}

/// Decoding has no hidden state: two decodings of the same bytes, format and
/// byte order agree.
pub proof fn lemma_decoding_is_deterministic(
    b: Seq<u8>,
    f: BinaryFormat,
    big_endian: bool,
    r1: Result<Vec<Sample>, Error>,
    r2: Result<Vec<Sample>, Error>,
)
    requires
        decode_result(b, f, big_endian, r1),
        decode_result(b, f, big_endian, r2),
    ensures
        r1 is Ok <==> r2 is Ok,
        r1 matches Ok(v1) ==> r2 matches Ok(v2) && v1@ == v2@,
        r1 matches Err(e1) ==> r2 matches Err(e2) && same_error(e1, e2),
{
}

/// A decoded recording: one sequence of samples per channel.
#[derive(Clone, Debug, PartialEq)]
pub struct BVData<T> {
    pub data_path: String,
    pub data: Vec<Vec<T>>,
    pub num_chan: usize,
}

impl<T> BVData<T> {
    /// One sequence per declared channel, all of the same length.
    pub open spec fn wf(&self) -> bool {
        &&& self.num_chan == self.data.len()
        &&& uniform(self.data@)
    }
}

impl BVData<Sample> {
    /// Decodes the bytes of a data file and splits the samples into channels.
    ///
    /// Fails on an unknown format or orientation, on bytes that do not split into
    /// whole samples, on a file without samples, on a channel count of zero and
    /// on a sample count that the channels do not share evenly.
    pub fn from_bytes(
        datapath: &str,
        bytestring: Vec<u8>,
        num_channels: usize,
        binary_format: BinaryFormat,
        orientation: DataOrientation,
        use_big_endian: bool,
    ) -> (r: Result<Self, Error>)
        ensures
            binary_format == BinaryFormat::Unknown ==> r == Err::<Self, Error>(Error::InvalidBinaryFormat),
            binary_format != BinaryFormat::Unknown && bytestring@.len() % chunk_width(binary_format) != 0 ==> {
                &&& r matches Err(e)
                &&& is_misaligned(e, format_name(binary_format), bytestring.len() as int, chunk_width(binary_format) as int)
            },
            binary_format != BinaryFormat::Unknown && bytestring@.len() % chunk_width(binary_format) == 0 ==> {
                let s = decoded(bytestring@, binary_format, use_big_endian);
                let m = s.len() as int;
                let n = num_channels as int;
                &&& s.len() == 0 ==> r == Err::<Self, Error>(Error::EmptyBinary)
                &&& s.len() > 0 && orientation == DataOrientation::Unknown
                    ==> r == Err::<Self, Error>(Error::InvalidDataOrientation)
                &&& s.len() > 0 && orientation != DataOrientation::Unknown && n == 0
                    ==> r == Err::<Self, Error>(Error::ZeroChannels)
                &&& s.len() > 0 && orientation == DataOrientation::MULTIPLEXED && n > 0 && m % n != 0 ==> {
                    &&& r matches Err(e)
                    &&& is_misoriented(e, "MULTIPLEXED"@, m, (m / n + 1) * n)
                }
                &&& s.len() > 0 && orientation == DataOrientation::VECTORIZED && n > 0 && m % n != 0 ==> {
                    &&& r matches Err(e)
                    &&& is_misoriented(e, "VECTORIZED"@, m, (m / n) * n)
                }
                &&& s.len() > 0 && orientation != DataOrientation::Unknown && n > 0 && m % n == 0 ==> {
                    &&& r matches Ok(d)
                    &&& d.data_path@ == datapath@
                    &&& d.num_chan == num_channels
                    &&& d.wf()
                    &&& orientation == DataOrientation::MULTIPLEXED ==> is_multiplexed(s, num_channels as nat, channels_view(d.data@))
                    &&& orientation == DataOrientation::VECTORIZED ==> is_vectorized(s, num_channels as nat, channels_view(d.data@))
                }
            },
    {
        let len = bytestring.len();
        let raw_data = match decode_samples(bytestring, binary_format, use_big_endian) {
            Ok(v) => v,
            Err(e) => return Err(e),
        };
        proof {
            vstd::arithmetic::div_mod::lemma_div_is_ordered_by_denominator(len as int, 1, chunk_width(binary_format) as int);
            vstd::arithmetic::div_mod::lemma_div_is_ordered_by_denominator(len as int, 2, chunk_width(binary_format) as int);
            vstd::arithmetic::div_mod::lemma_div_is_ordered(len as int, usize::MAX as int, 2);
        }
        if raw_data.len() == 0 {
            return Err(Error::EmptyBinary);
        }
        let ghost s = raw_data@;
        let parsed = match orientation {
            DataOrientation::MULTIPLEXED => parse_multiplexed_data(raw_data, num_channels),
            DataOrientation::VECTORIZED => parse_vectorized_data(raw_data, num_channels),
            DataOrientation::Unknown => {
                return Err(Error::InvalidDataOrientation);
            },
        };
        let data = match parsed {
            Ok(d) => d,
            Err(e) => return Err(e),
        };
        proof {
            let v = channels_view(data@);
            let n = num_channels as int;
            let l = s.len() / num_channels as nat;
            assert forall|i: int| 0 <= i < data.len() implies (#[trigger] data@[i])@.len() == data@[0]@.len() by {
                assert(v[i] == data@[i]@);
                assert(v[0] == data@[0]@);
                if orientation == DataOrientation::VECTORIZED {
                    vstd::arithmetic::div_mod::lemma_fundamental_div_mod(s.len() as int, n);
                    assert((i + 1) * l <= n * l) by (nonlinear_arith)
                        requires
                            i + 1 <= n,
                            l >= 0,
                    ;
                    assert(i * l >= 0) by (nonlinear_arith)
                        requires
                            i >= 0,
                            l >= 0,
                    ;
                    assert((i + 1) * l == i * l + l) by (nonlinear_arith);
                    assert(n * l == l * n) by (nonlinear_arith);
                    assert(v[0] == s.subrange(0int * l, (0int + 1) * l));
                }
            }
        }
        Ok(BVData { data_path: datapath.to_string(), data, num_chan: num_channels })
    }
}

impl<T: Copy> BVData<T> {
    /// Multiplies the samples of each channel by its resolution; see
    /// [`scale_channels`].
    pub fn scale_channels<R: Copy, F: Fn(T, R) -> T>(&mut self, resolutions: &Vec<Option<R>>, product: F) -> (r: Result<(), Error>)
        requires
            forall|x: T, f: R| product.requires((x, f)),
        ensures
            final(self).data_path == old(self).data_path,
            final(self).num_chan == old(self).num_chan,
            old(self).wf() ==> final(self).wf(),
            old(self).data.len() != resolutions.len() ==> {
                &&& r == Err::<(), Error>(Error::ChannelDataMismatch(old(self).data.len(), resolutions.len()))
                &&& final(self).data == old(self).data
            },
            old(self).data.len() == resolutions.len() && !uniform(old(self).data@) ==> {
                &&& final(self).data == old(self).data
                &&& exists|i: int|
                    first_malformed(old(self).data@, i) && r == Err::<(), Error>(
                        Error::ChannelDataMalformed(old(self).data@[0]@.len() as usize, old(self).data@[i]@.len() as usize),
                    )
            },
            old(self).data.len() == resolutions.len() && uniform(old(self).data@) ==> {
                &&& r is Ok
                &&& final(self).data.len() == old(self).data.len()
                &&& forall|i: int|
                    0 <= i < old(self).data.len() ==> scaled_by(
                        old(self).data@[i]@,
                        resolutions@[i],
                        product,
                        #[trigger] final(self).data@[i]@,
                    )
            },
    {
        let r = scale_channels(&mut self.data, resolutions, product);
        proof {
            if old(self).wf() && r is Ok {
                assert forall|i: int| 0 <= i < self.data.len() implies (#[trigger] self.data@[i])@.len()
                    == self.data@[0]@.len() by {
                    assert(scaled_by(old(self).data@[i]@, resolutions@[i], product, self.data@[i]@));
                    assert(scaled_by(old(self).data@[0]@, resolutions@[0], product, self.data@[0]@));
                }
            }
        }
        r
    }
}

} // verus!
