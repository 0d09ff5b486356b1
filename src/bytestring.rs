use vstd::prelude::*;

use crate::error::Error;

verus! {

/// The unsigned value of the two bytes of `b` at `at`, in the given byte order.
pub open spec fn u16_at(b: Seq<u8>, at: int, big_endian: bool) -> int {
    if big_endian {
        b[at] * 256 + b[at + 1]
    } else {
        b[at] + b[at + 1] * 256
    }
}

/// The unsigned value of the four bytes of `b` at `at`, in the given byte order.
pub open spec fn u32_at(b: Seq<u8>, at: int, big_endian: bool) -> int {
    if big_endian {
        b[at] * 0x100_0000 + b[at + 1] * 0x1_0000 + b[at + 2] * 0x100 + b[at + 3]
    } else {
        b[at] + b[at + 1] * 0x100 + b[at + 2] * 0x1_0000 + b[at + 3] * 0x100_0000
    }
}

/// Two's complement reading of a 16-bit pattern.
pub open spec fn signed16(u: int) -> int {
    if u < 0x8000 { u } else { u - 0x1_0000 }
}

/// Two's complement reading of a 32-bit pattern.
pub open spec fn signed32(u: int) -> int {
    if u < 0x8000_0000 { u } else { u - 0x1_0000_0000 }
}

/// `e` reports a buffer of `len` bytes that does not split into chunks of `width`
/// bytes: the decoder named `name` stopped after the last whole chunk.
pub open spec fn is_misaligned(e: Error, name: Seq<char>, len: int, width: int) -> bool {
    &&& e matches Error::BinaryParserError(n, at, total)
    &&& n@ == name
    &&& at == len - len % width
    &&& total == len
}

/// Copies a four-byte slice into an array.
pub fn format_4byte_arr(chunk: &[u8]) -> (r: [u8; 4])
    requires
        chunk@.len() == 4,
    ensures
        r@ == chunk@,
{
    let r = [chunk[0], chunk[1], chunk[2], chunk[3]];
    assert(r@ =~= chunk@);
    r
}

/// Copies a two-byte slice into an array.
pub fn format_2byte_arr(chunk: &[u8]) -> (r: [u8; 2])
    requires
        chunk@.len() == 2,
    ensures
        r@ == chunk@,
{
    let r = [chunk[0], chunk[1]];
    assert(r@ =~= chunk@);
    r
}

fn word16(a: [u8; 2], big_endian: bool) -> (r: u16)
    ensures
        r == u16_at(a@, 0, big_endian),
{
    if big_endian {
        (a[0] as u16) * 256 + a[1] as u16
    } else {
        a[0] as u16 + (a[1] as u16) * 256
    }
}

fn word32(a: [u8; 4], big_endian: bool) -> (r: u32)
    ensures
        r == u32_at(a@, 0, big_endian),
{
    if big_endian {
        (a[0] as u32) * 0x100_0000 + (a[1] as u32) * 0x1_0000 + (a[2] as u32) * 0x100 + a[3] as u32
    } else {
        a[0] as u32 + (a[1] as u32) * 0x100 + (a[2] as u32) * 0x1_0000 + (a[3] as u32) * 0x100_0000
    }
}

fn chunk16(b: &Vec<u8>, at: usize, big_endian: bool) -> (r: u16)
    requires
        at + 2 <= b.len(),
    ensures
        r == u16_at(b@, at as int, big_endian),
{
    let a = format_2byte_arr(vstd::slice::slice_subrange(b.as_slice(), at, at + 2));
    word16(a, big_endian)
}

fn chunk32(b: &Vec<u8>, at: usize, big_endian: bool) -> (r: u32)
    requires
        at + 4 <= b.len(),
    ensures
        r == u32_at(b@, at as int, big_endian),
{
    let a = format_4byte_arr(vstd::slice::slice_subrange(b.as_slice(), at, at + 4));
    word32(a, big_endian)
}

/// Every whole two-byte chunk of `b`, in order, read as unsigned.
fn read_words16(b: &Vec<u8>, big_endian: bool) -> (v: Vec<u16>)
    ensures
        v.len() == b.len() / 2,
        forall|i: int| 0 <= i < v.len() ==> #[trigger] v[i] as int == u16_at(b@, 2 * i, big_endian),
{
    let len = b.len();
    let mut v: Vec<u16> = Vec::with_capacity(len / 2);
    let mut at: usize = 0;
    while len - at >= 2
        invariant
            len == b.len(),
            at <= len,
            at == 2 * v.len(),
            forall|i: int| 0 <= i < v.len() ==> #[trigger] v[i] as int == u16_at(b@, 2 * i, big_endian),
        decreases len - at,
    {
        v.push(chunk16(b, at, big_endian));
        at = at + 2;
    }
    v
}

/// Every whole four-byte chunk of `b`, in order, read as unsigned.
fn read_words32(b: &Vec<u8>, big_endian: bool) -> (v: Vec<u32>)
    ensures
        v.len() == b.len() / 4,
        forall|i: int| 0 <= i < v.len() ==> #[trigger] v[i] as int == u32_at(b@, 4 * i, big_endian),
{
    let len = b.len();
    let mut v: Vec<u32> = Vec::with_capacity(len / 4);
    let mut at: usize = 0;
    while len - at >= 4
        invariant
            len == b.len(),
            at <= len,
            at == 4 * v.len(),
            forall|i: int| 0 <= i < v.len() ==> #[trigger] v[i] as int == u32_at(b@, 4 * i, big_endian),
        decreases len - at,
    {
        v.push(chunk32(b, at, big_endian));
        at = at + 4;
    }
    v
}

fn to_signed16(u: u16) -> (r: i16)
    ensures
        r as int == signed16(u as int),
{
    if u < 0x8000 {
        u as i16
    } else {
        (u as i32 - 0x1_0000) as i16
    }
}

fn to_signed32(u: u32) -> (r: i32)
    ensures
        r as int == signed32(u as int),
{
    if u < 0x8000_0000 {
        u as i32
    } else {
        (u as i64 - 0x1_0000_0000) as i32
    }
}

/// Decodes 32-bit IEEE floats. Each sample is returned as its bit pattern: the
/// four bytes in the given order, read as one unsigned integer.
pub fn parse_bytestring_to_f32(bytestring: Vec<u8>, use_big_endian: bool) -> (r: Result<Vec<u32>, Error>)
    ensures
        match r {
            Ok(v) => {
                &&& bytestring.len() % 4 == 0
                &&& v.len() == bytestring.len() / 4
                &&& forall|i: int| 0 <= i < v.len() ==> #[trigger] v[i] as int == u32_at(bytestring@, 4 * i, use_big_endian)
            },
            Err(e) => bytestring.len() % 4 != 0 && is_misaligned(e, "f32"@, bytestring.len() as int, 4),
        },
{
    let len = bytestring.len();
    if len % 4 != 0 {
        return Err(Error::BinaryParserError("f32".to_string(), len - len % 4, len));
    }
    Ok(read_words32(&bytestring, use_big_endian))
}

/// Decodes signed 32-bit integers.
pub fn parse_bytestring_to_i32(bytestring: Vec<u8>, use_big_endian: bool) -> (r: Result<Vec<i32>, Error>)
    ensures
        match r {
            Ok(v) => {
                &&& bytestring.len() % 4 == 0
                &&& v.len() == bytestring.len() / 4
                &&& forall|i: int| 0 <= i < v.len() ==> #[trigger] v[i] as int == signed32(u32_at(bytestring@, 4 * i, use_big_endian))
            },
            Err(e) => bytestring.len() % 4 != 0 && is_misaligned(e, "i32"@, bytestring.len() as int, 4),
        },
{
    let len = bytestring.len();
    if len % 4 != 0 {
        return Err(Error::BinaryParserError("i32".to_string(), len - len % 4, len));
    }
    let words = read_words32(&bytestring, use_big_endian);
    let mut v: Vec<i32> = Vec::with_capacity(words.len());
    let mut k: usize = 0;
    while k < words.len()
        invariant
            k <= words.len(),
            v.len() == k,
            forall|i: int| 0 <= i < k ==> #[trigger] v[i] as int == signed32(words[i] as int),
        decreases words.len() - k,
    {
        v.push(to_signed32(words[k]));
        k = k + 1;
    }
    Ok(v)
}

/// Decodes unsigned 16-bit integers.
pub fn parse_bytestring_to_u16(bytestring: Vec<u8>, use_big_endian: bool) -> (r: Result<Vec<u16>, Error>)
    ensures
        match r {
            Ok(v) => {
                &&& bytestring.len() % 2 == 0
                &&& v.len() == bytestring.len() / 2
                &&& forall|i: int| 0 <= i < v.len() ==> #[trigger] v[i] as int == u16_at(bytestring@, 2 * i, use_big_endian)
            },
            Err(e) => bytestring.len() % 2 != 0 && is_misaligned(e, "u16"@, bytestring.len() as int, 2),
        },
{
    let len = bytestring.len();
    if len % 2 != 0 {
        return Err(Error::BinaryParserError("u16".to_string(), len - len % 2, len));
    }
    Ok(read_words16(&bytestring, use_big_endian))
}

/// Decodes signed 16-bit integers.
pub fn parse_bytestring_to_i16(bytestring: Vec<u8>, use_big_endian: bool) -> (r: Result<Vec<i16>, Error>)
    ensures
        match r {
            Ok(v) => {
                &&& bytestring.len() % 2 == 0
                &&& v.len() == bytestring.len() / 2
                &&& forall|i: int| 0 <= i < v.len() ==> #[trigger] v[i] as int == signed16(u16_at(bytestring@, 2 * i, use_big_endian))
            },
            Err(e) => bytestring.len() % 2 != 0 && is_misaligned(e, "i16"@, bytestring.len() as int, 2),
        },
{
    let len = bytestring.len();
    if len % 2 != 0 {
        return Err(Error::BinaryParserError("i16".to_string(), len - len % 2, len));
    }
    let words = read_words16(&bytestring, use_big_endian);
    let mut v: Vec<i16> = Vec::with_capacity(words.len());
    let mut k: usize = 0;
    while k < words.len()
        invariant
            k <= words.len(),
            v.len() == k,
            forall|i: int| 0 <= i < k ==> #[trigger] v[i] as int == signed16(words[i] as int),
        decreases words.len() - k,
    {
        v.push(to_signed16(words[k]));
        k = k + 1;
    }
    Ok(v)
}

} // verus!
