//! The byte layout that the decoder reads, and what decoding it gives back.

use vstd::prelude::*;
use crate::message::{
    decode_spec, DecodedModel, DiagnosticModel, MessageModel, DIAGNOSTIC_TAG, LOG_LINE_TAG,
};
use crate::render::{
    decimal, diagnostic_tail, occurrence_suffix, rendered, severity_head, stamp_prefix, PaletteModel,
};
use crate::wire::{be16, be32, frame_span, is_utf8, pstr_at};

verus! {

/// The big-endian bytes of a value below 2^16.
pub open spec fn u16_bytes(x: int) -> Seq<u8> {
    seq![(x / 256) as u8, (x % 256) as u8]
}

/// The big-endian bytes of a value below 2^32.
pub open spec fn u32_bytes(x: int) -> Seq<u8> {
    seq![(x / 16777216) as u8, ((x / 65536) % 256) as u8, ((x / 256) % 256) as u8, (x % 256) as u8]
}

/// The 16-bit two's-complement pattern of a signed value.
pub open spec fn unsigned16(v: int) -> int {
    if v < 0 { v + 65536 } else { v }
}

/// The 32-bit two's-complement pattern of a signed value.
pub open spec fn unsigned32(v: int) -> int {
    if v < 0 { v + 4294967296 } else { v }
}

/// A length-prefixed string.
pub open spec fn pstr(s: Seq<u8>) -> Seq<u8> {
    u16_bytes(s.len() as int) + s
}

/// The header of a payload: tag, timestamp bits and sequence number.
pub open spec fn header_bytes(tag: u8, stamp_bits: u32, sequence: i16) -> Seq<u8> {
    seq![tag] + u32_bytes(stamp_bits as int) + u16_bytes(unsigned16(sequence as int))
}

/// The payload that carries a diagnostic event.
#[verifier::opaque]
pub open spec fn diagnostic_payload(stamp_bits: u32, sequence: i16, d: DiagnosticModel) -> Seq<u8> {
    header_bytes(DIAGNOSTIC_TAG, stamp_bits, sequence) + u16_bytes(unsigned16(d.occurrences as int))
        + u32_bytes(unsigned32(d.error_code as int)) + seq![d.flags] + pstr(d.details) + pstr(
        d.location,
    ) + pstr(d.callstack)
}

/// The payload that carries a log line.
pub open spec fn log_line_payload(stamp_bits: u32, sequence: i16, text: Seq<u8>) -> Seq<u8> {
    header_bytes(LOG_LINE_TAG, stamp_bits, sequence) + text
}

/// A frame: the payload's length, then the payload.
pub open spec fn frame_of(payload: Seq<u8>) -> Seq<u8> {
    u16_bytes(payload.len() as int) + payload
}

/// Whether a diagnostic event can be carried in a frame.
pub open spec fn diagnostic_fits(d: DiagnosticModel) -> bool {
    &&& d.details.len() < 65536
    &&& d.location.len() < 65536
    &&& d.callstack.len() < 65536
    &&& 20 + d.details.len() + d.location.len() + d.callstack.len() <= 65535
    &&& is_utf8(d.details)
    &&& is_utf8(d.location)
    &&& is_utf8(d.callstack)
}

proof fn lemma_be16_of(b: Seq<u8>, i: int, x: int)
    requires
        0 <= x < 65536,
        0 <= i,
        i + 2 <= b.len(),
        b.subrange(i, i + 2) == u16_bytes(x),
    ensures
        be16(b, i) == x,
{
    assert(b[i] == b.subrange(i, i + 2)[0]);
    assert(b[i + 1] == b.subrange(i, i + 2)[1]);
}

proof fn lemma_be32_of(b: Seq<u8>, i: int, x: int)
    requires
        0 <= x < 4294967296,
        0 <= i,
        i + 4 <= b.len(),
        b.subrange(i, i + 4) == u32_bytes(x),
    ensures
        be32(b, i) == x,
{
    assert(b[i] == b.subrange(i, i + 4)[0]);
    assert(b[i + 1] == b.subrange(i, i + 4)[1]);
    assert(b[i + 2] == b.subrange(i, i + 4)[2]);
    assert(b[i + 3] == b.subrange(i, i + 4)[3]);
}

proof fn lemma_pstr_at(pre: Seq<u8>, s: Seq<u8>, post: Seq<u8>)
    requires
        s.len() < 65536,
        is_utf8(s),
    ensures
        pstr_at(pre + pstr(s) + post, pre.len() as int) == Ok::<(Seq<u8>, int), crate::wire::DecodeError>(
            (s, pre.len() + 2 + s.len() as int),
        ),
{
    let b = pre + pstr(s) + post;
    let i = pre.len() as int;
    assert(b.subrange(i, i + 2) =~= u16_bytes(s.len() as int));
    lemma_be16_of(b, i, s.len() as int);
    assert(b.subrange(i + 2, i + 2 + s.len()) =~= s);
}

/// Decoding a diagnostic event's payload gives back every field, and the
/// cursor stops exactly at the end of the payload.
pub proof fn lemma_diagnostic_round_trip(stamp_bits: u32, sequence: i16, d: DiagnosticModel)
    requires
        diagnostic_fits(d),
    ensures
        decode_spec(diagnostic_payload(stamp_bits, sequence, d)) == Ok::<DecodedModel, crate::wire::DecodeError>(
            DecodedModel {
                stamp_bits,
                sequence,
                message: MessageModel::Diagnostic(d),
                end: diagnostic_payload(stamp_bits, sequence, d).len() as int,
            },
        ),
{
    let h = header_bytes(DIAGNOSTIC_TAG, stamp_bits, sequence) + u16_bytes(unsigned16(d.occurrences as int))
        + u32_bytes(unsigned32(d.error_code as int)) + seq![d.flags];
    let p = diagnostic_payload(stamp_bits, sequence, d);
    reveal(diagnostic_payload);
    assert(h.len() == 14);
    assert(p.subrange(1, 5) =~= u32_bytes(stamp_bits as int));
    assert(p.subrange(5, 7) =~= u16_bytes(unsigned16(sequence as int)));
    assert(p.subrange(7, 9) =~= u16_bytes(unsigned16(d.occurrences as int)));
    assert(p.subrange(9, 13) =~= u32_bytes(unsigned32(d.error_code as int)));
    lemma_be32_of(p, 1, stamp_bits as int);
    lemma_be16_of(p, 5, unsigned16(sequence as int));
    lemma_be16_of(p, 7, unsigned16(d.occurrences as int));
    lemma_be32_of(p, 9, unsigned32(d.error_code as int));
    assert(p[0] == DIAGNOSTIC_TAG);
    assert(p[13] == d.flags);
    assert(p =~= h + pstr(d.details) + (pstr(d.location) + pstr(d.callstack)));
    lemma_pstr_at(h, d.details, pstr(d.location) + pstr(d.callstack));
    assert(p =~= (h + pstr(d.details)) + pstr(d.location) + pstr(d.callstack));
    lemma_pstr_at(h + pstr(d.details), d.location, pstr(d.callstack));
    assert(p =~= (h + pstr(d.details) + pstr(d.location)) + pstr(d.callstack) + Seq::<u8>::empty());
    lemma_pstr_at(h + pstr(d.details) + pstr(d.location), d.callstack, Seq::<u8>::empty());
}

/// Decoding a log line's payload gives back the text, and the cursor stops
/// exactly at the end of the payload.
pub proof fn lemma_log_line_round_trip(stamp_bits: u32, sequence: i16, text: Seq<u8>)
    requires
        is_utf8(text),
    ensures
        decode_spec(log_line_payload(stamp_bits, sequence, text)) == Ok::<DecodedModel, crate::wire::DecodeError>(
            DecodedModel {
                stamp_bits,
                sequence,
                message: MessageModel::LogLine(text),
                end: log_line_payload(stamp_bits, sequence, text).len() as int,
            },
        ),
{
    let p = log_line_payload(stamp_bits, sequence, text);
    assert(p.subrange(1, 5) =~= u32_bytes(stamp_bits as int));
    assert(p.subrange(5, 7) =~= u16_bytes(unsigned16(sequence as int)));
    lemma_be32_of(p, 1, stamp_bits as int);
    lemma_be16_of(p, 5, unsigned16(sequence as int));
    assert(p[0] == LOG_LINE_TAG);
    assert(p.subrange(7, p.len() as int) =~= text);
}

/// A frame read back from the front of a stream yields exactly its payload,
/// and the next frame starts right after it.
pub proof fn lemma_frame_round_trip(payload: Seq<u8>, rest: Seq<u8>)
    requires
        payload.len() <= 65535,
    ensures
        frame_span(frame_of(payload) + rest, 0) == Some((2int, 2 + payload.len() as int)),
        (frame_of(payload) + rest).subrange(2, 2 + payload.len() as int) == payload,
        (frame_of(payload) + rest).subrange(2 + payload.len() as int, (frame_of(payload) + rest).len() as int)
            == rest,
{
    let s = frame_of(payload) + rest;
    assert(s.subrange(0, 2) =~= u16_bytes(payload.len() as int));
    lemma_be16_of(s, 0, payload.len() as int);
    assert(s.subrange(2, 2 + payload.len() as int) =~= payload);
    assert(s.subrange(2 + payload.len() as int, s.len() as int) =~= rest);
}

/// Decoding the payload of a diagnostic event and rendering the result shows
/// `(<n>x)` between the code and the colon exactly when the event occurred
/// more than once, `n` being its occurrence count in decimal; otherwise the
/// code is followed directly by ` :`.
pub proof fn lemma_occurrence_suffix(
    pal: PaletteModel,
    stamp: Seq<u8>,
    stamp_bits: u32,
    sequence: i16,
    d: DiagnosticModel,
)
    requires
        diagnostic_fits(d),
    ensures
        decode_spec(diagnostic_payload(stamp_bits, sequence, d)) matches Ok(m) && m.message
            == MessageModel::Diagnostic(d),
        d.occurrences > 1 ==> rendered(pal, stamp, MessageModel::Diagnostic(d)) == stamp_prefix(
            pal,
            stamp,
        ) + severity_head(pal, d) + (seq![40u8] + decimal(d.occurrences as int) + seq![120u8, 41])
            + diagnostic_tail(pal, d),
        d.occurrences <= 1 ==> rendered(pal, stamp, MessageModel::Diagnostic(d)) == stamp_prefix(
            pal,
            stamp,
        ) + severity_head(pal, d) + diagnostic_tail(pal, d),
{
    lemma_diagnostic_round_trip(stamp_bits, sequence, d);
    lemma_count_shown(pal, stamp, d);
}

/// A diagnostic event that occurred more than once renders with `(<n>x)`
/// between its code and the colon, `n` being its occurrence count in
/// decimal; one that occurred at most once renders with nothing there, so
/// that the code is followed directly by ` :`.
proof fn lemma_count_shown(pal: PaletteModel, stamp: Seq<u8>, d: DiagnosticModel)
    ensures
        d.occurrences > 1 ==> rendered(pal, stamp, MessageModel::Diagnostic(d)) == stamp_prefix(
            pal,
            stamp,
        ) + severity_head(pal, d) + (seq![40u8] + decimal(d.occurrences as int) + seq![120u8, 41])
            + diagnostic_tail(pal, d),
        d.occurrences <= 1 ==> rendered(pal, stamp, MessageModel::Diagnostic(d)) == stamp_prefix(
            pal,
            stamp,
        ) + severity_head(pal, d) + diagnostic_tail(pal, d),
{
    lemma_render_diagnostic(pal, stamp, d);
    let pre = stamp_prefix(pal, stamp);
    let head = severity_head(pal, d);
    let tail = diagnostic_tail(pal, d);
    if d.occurrences <= 1 {
        assert(occurrence_suffix(d.occurrences as int) == Seq::<u8>::empty());
        assert(pre + head + Seq::<u8>::empty() + tail =~= pre + head + tail);
    }
}

proof fn lemma_render_diagnostic(pal: PaletteModel, stamp: Seq<u8>, d: DiagnosticModel)
    ensures
        rendered(pal, stamp, MessageModel::Diagnostic(d)) == stamp_prefix(pal, stamp)
            + severity_head(pal, d) + occurrence_suffix(d.occurrences as int) + diagnostic_tail(
            pal,
            d,
        ),
{
    let pre = stamp_prefix(pal, stamp);
    let head = severity_head(pal, d);
    let suffix = occurrence_suffix(d.occurrences as int);
    let tail = diagnostic_tail(pal, d);
    assert(rendered(pal, stamp, MessageModel::Diagnostic(d)) == pre + (head + suffix + tail));
    assert(pre + (head + suffix + tail) =~= pre + head + suffix + tail);
}

/// A payload with a tag other than a diagnostic event or a log line decodes
/// without error whatever follows its header, renders as nothing, and the
/// frame after it in the stream is found where it would be on its own.
pub proof fn lemma_unknown_tag_skipped(pal: PaletteModel, stamp: Seq<u8>, payload: Seq<u8>, rest: Seq<u8>)
    requires
        7 <= payload.len() <= 65535,
        payload[0] != DIAGNOSTIC_TAG,
        payload[0] != LOG_LINE_TAG,
    ensures
        decode_spec(payload) matches Ok(m) && m.message == MessageModel::Unknown(payload[0])
            && m.end == payload.len() && rendered(pal, stamp, m.message) == Seq::<u8>::empty(),
        frame_span(frame_of(payload) + rest, 0) == Some((2int, 2 + payload.len() as int)),
        frame_span(frame_of(payload) + rest, 2 + payload.len() as int) == match frame_span(rest, 0) {
            Some((a, b)) => Some((a + 2 + payload.len() as int, b + 2 + payload.len() as int)),
            None => None::<(int, int)>,
        },
{
    lemma_frame_round_trip(payload, rest);
    let s = frame_of(payload) + rest;
    let k = 2 + payload.len() as int;
    if rest.len() >= 2 {
        assert(s[k] == rest[0]);
        assert(s[k + 1] == rest[1]);
    }
}

} // verus!
