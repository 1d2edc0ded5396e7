//! Big-endian field readers over a byte payload with an explicit cursor.

use vstd::prelude::*;

verus! {

/// The unsigned value of the two bytes at `i`, most significant first.
pub open spec fn be16(b: Seq<u8>, i: int) -> int {
    b[i] as int * 256 + b[i + 1] as int
}

/// The unsigned value of the four bytes at `i`, most significant first.
pub open spec fn be32(b: Seq<u8>, i: int) -> int {
    b[i] as int * 16777216 + b[i + 1] as int * 65536 + b[i + 2] as int * 256 + b[i + 3] as int
}

/// The two's-complement reading of a 16-bit unsigned value.
pub open spec fn signed16(u: int) -> int {
    if u >= 32768 { u - 65536 } else { u }
}

/// The two's-complement reading of a 32-bit unsigned value.
pub open spec fn signed32(u: int) -> int {
    if u >= 2147483648 { u - 4294967296 } else { u }
}

/// Reads one byte at `*pos`; on success the cursor moves past it.
pub fn parse_u8(buf: &[u8], pos: &mut usize) -> (r: Option<u8>)
    ensures
        *old(pos) < buf@.len() ==> r == Some(buf@[*old(pos) as int]) && *final(pos) == *old(pos) + 1,
        *old(pos) >= buf@.len() ==> r is None && *final(pos) == *old(pos),
{
    if *pos < buf.len() {
        let v = buf[*pos];
        *pos = *pos + 1;
        Some(v)
    } else {
        None
    }
}

/// Reads a big-endian `u16` at `*pos`; on success the cursor moves past it.
pub fn parse_u16(buf: &[u8], pos: &mut usize) -> (r: Option<u16>)
    ensures
        *old(pos) + 2 <= buf@.len() ==> r == Some(be16(buf@, *old(pos) as int) as u16)
            && *final(pos) == *old(pos) + 2,
        *old(pos) + 2 > buf@.len() ==> r is None && *final(pos) == *old(pos),
{
    if buf.len() >= 2 && *pos <= buf.len() - 2 {
        let p = *pos;
        let v = (buf[p] as u16) * 256 + (buf[p + 1] as u16);
        *pos = p + 2;
        Some(v)
    } else {
        None
    }
}

/// Reads a big-endian two's-complement `i16` at `*pos`; on success the
/// cursor moves past it.
pub fn parse_i16(buf: &[u8], pos: &mut usize) -> (r: Option<i16>)
    ensures
        *old(pos) + 2 <= buf@.len() ==> r == Some(signed16(be16(buf@, *old(pos) as int)) as i16)
            && *final(pos) == *old(pos) + 2,
        *old(pos) + 2 > buf@.len() ==> r is None && *final(pos) == *old(pos),
{
    match parse_u16(buf, pos) {
        Some(u) => {
            if u >= 32768 {
                Some((u as i32 - 65536) as i16)
            } else {
                Some(u as i16)
            }
        },
        None => None,
    }
}

/// Reads a big-endian `u32` at `*pos`; on success the cursor moves past it.
pub fn parse_u32(buf: &[u8], pos: &mut usize) -> (r: Option<u32>)
    ensures
        *old(pos) + 4 <= buf@.len() ==> r == Some(be32(buf@, *old(pos) as int) as u32)
            && *final(pos) == *old(pos) + 4,
        *old(pos) + 4 > buf@.len() ==> r is None && *final(pos) == *old(pos),
{
    if buf.len() >= 4 && *pos <= buf.len() - 4 {
        let p = *pos;
        let v = (buf[p] as u32) * 16777216 + (buf[p + 1] as u32) * 65536 + (buf[p + 2] as u32)
            * 256 + (buf[p + 3] as u32);
        *pos = p + 4;
        Some(v)
    } else {
        None
    }
}

/// Reads a big-endian two's-complement `i32` at `*pos`; on success the
/// cursor moves past it.
pub fn parse_i32(buf: &[u8], pos: &mut usize) -> (r: Option<i32>)
    ensures
        *old(pos) + 4 <= buf@.len() ==> r == Some(signed32(be32(buf@, *old(pos) as int)) as i32)
            && *final(pos) == *old(pos) + 4,
        *old(pos) + 4 > buf@.len() ==> r is None && *final(pos) == *old(pos),
{
    match parse_u32(buf, pos) {
        Some(u) => {
            if u >= 2147483648 {
                Some((u as i64 - 4294967296) as i32)
            } else {
                Some(u as i32)
            }
        },
        None => None,
    }
}

/// Whether a byte sequence is well-formed UTF-8, as std's decoder judges it.
pub uninterp spec fn is_utf8(b: Seq<u8>) -> bool;

/// Relies on `std::str::from_utf8`: it succeeds exactly on well-formed UTF-8,
/// and the empty sequence is well-formed.
#[verifier::external_body]
fn utf8_ok(b: &[u8]) -> (r: bool)
    ensures
        r == is_utf8(b@),
        b@.len() == 0 ==> r,
{
    std::str::from_utf8(b).is_ok()
}

/// Why a payload could not be decoded.
#[derive(Clone, Copy, Debug, PartialEq, Eq, Structural)]
pub enum DecodeError {
    /// Fewer bytes remain than a fixed-size field needs.
    Truncated,
    /// A length-prefixed string runs past the end of the payload.
    Overrun,
    /// Text that is not well-formed UTF-8.
    BadText,
}

/// What reading a length-prefixed string at `i` yields: the string's bytes and
/// the cursor after it.
pub open spec fn pstr_at(b: Seq<u8>, i: int) -> Result<(Seq<u8>, int), DecodeError> {
    if i + 2 > b.len() {
        Err(DecodeError::Truncated)
    } else if i + 2 + be16(b, i) > b.len() {
        Err(DecodeError::Overrun)
    } else if !is_utf8(b.subrange(i + 2, i + 2 + be16(b, i))) {
        Err(DecodeError::BadText)
    } else {
        Ok((b.subrange(i + 2, i + 2 + be16(b, i)), i + 2 + be16(b, i)))
    }
}

/// Checks that the bytes from `start` to the end are UTF-8 and copies them.
pub fn parse_text(buf: &[u8], start: usize) -> (r: Result<Vec<u8>, DecodeError>)
    requires
        start <= buf@.len(),
    ensures
        is_utf8(buf@.subrange(start as int, buf@.len() as int)) ==> (r matches Ok(v) && v@
            == buf@.subrange(start as int, buf@.len() as int)),
        !is_utf8(buf@.subrange(start as int, buf@.len() as int)) ==> r == Err::<Vec<u8>, DecodeError>(
            DecodeError::BadText,
        ),
        start == buf@.len() ==> (r matches Ok(v) && v@.len() == 0),
{
    let bytes = &buf[start..buf.len()];
    if utf8_ok(bytes) {
        Ok(vstd::slice::slice_to_vec(bytes))
    } else {
        Err(DecodeError::BadText)
    }
}

/// Reads a string of a big-endian `u16` byte count followed by that many
/// UTF-8 bytes; on success the cursor moves past it.
pub fn parse_string(buf: &[u8], pos: &mut usize) -> (r: Result<Vec<u8>, DecodeError>)
    ensures
        match pstr_at(buf@, *old(pos) as int) {
            Ok((s, e)) => (r matches Ok(v) && v@ == s) && *final(pos) == e,
            Err(k) => r == Err::<Vec<u8>, DecodeError>(k),
        },
        *old(pos) + 2 <= buf@.len() && be16(buf@, *old(pos) as int) == 0 ==> (r matches Ok(v)
            && v@.len() == 0) && *final(pos) == *old(pos) + 2,
{
    let start = *pos;
    let n = match parse_u16(buf, pos) {
        Some(n) => n as usize,
        None => {
            return Err(DecodeError::Truncated);
        },
    };
    let p = *pos;
    if n > buf.len() - p {
        return Err(DecodeError::Overrun);
    }
    let bytes = &buf[p..p + n];
    if !utf8_ok(bytes) {
        return Err(DecodeError::BadText);
    }
    *pos = p + n;
    Ok(vstd::slice::slice_to_vec(bytes))
}

/// Where the frame that starts at `at` in a byte stream has its payload, if
/// the stream holds the whole frame: a big-endian `u16` length and then that
/// many bytes.
pub open spec fn frame_span(stream: Seq<u8>, at: int) -> Option<(int, int)> {
    if at + 2 <= stream.len() && at + 2 + be16(stream, at) <= stream.len() {
        Some((at + 2, at + 2 + be16(stream, at)))
    } else {
        None
    }
}

/// Locates the payload of the frame at `at`: `None` where the stream ends
/// before the length prefix or before the bytes that it declares.
pub fn frame_at(stream: &[u8], at: usize) -> (r: Option<(usize, usize)>)
    ensures
        match frame_span(stream@, at as int) {
            Some((s, e)) => r == Some((s as usize, e as usize)),
            None => r is None,
        },
{
    let mut pos = at;
    match parse_u16(stream, &mut pos) {
        Some(n) => {
            if (n as usize) <= stream.len() - pos {
                Some((pos, pos + n as usize))
            } else {
                None
            }
        },
        None => None,
    }
}

} // verus!
