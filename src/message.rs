//! Messages carried in frame payloads, and their decoding.

use vstd::prelude::*;
use crate::wire::{
    be16, be32, is_utf8, parse_i16, parse_i32, parse_string, parse_text, parse_u32, parse_u8,
    pstr_at, signed16, signed32, DecodeError,
};

verus! {

/// The tag of a diagnostic event.
pub const DIAGNOSTIC_TAG: u8 = 11;

/// The tag of a log line.
pub const LOG_LINE_TAG: u8 = 12;

/// Bytes before the tag-specific body: tag, timestamp and sequence number.
pub const HEADER_LEN: usize = 7;

/// An error or warning reported by the controller.
#[derive(Clone, Debug)]
pub struct DiagnosticEvent {
    pub occurrences: i16,
    pub error_code: i32,
    /// Bit 0 set: an error; clear: a warning.
    pub flags: u8,
    pub details: Vec<u8>,
    pub location: Vec<u8>,
    pub callstack: Vec<u8>,
}

pub ghost struct DiagnosticModel {
    pub occurrences: i16,
    pub error_code: i32,
    pub flags: u8,
    pub details: Seq<u8>,
    pub location: Seq<u8>,
    pub callstack: Seq<u8>,
}

impl View for DiagnosticEvent {
    type V = DiagnosticModel;

    open spec fn view(&self) -> DiagnosticModel {
        DiagnosticModel {
            occurrences: self.occurrences,
            error_code: self.error_code,
            flags: self.flags,
            details: self.details@,
            location: self.location@,
            callstack: self.callstack@,
        }
    }
}

impl DiagnosticEvent {
    /// Whether the event is an error rather than a warning.
    pub fn is_error(&self) -> (r: bool)
        ensures
            r == (self.flags & 1 != 0),
    {
        self.flags & 1 != 0
    }
}

/// The body of one payload.
#[derive(Clone, Debug)]
pub enum Message {
    Diagnostic(DiagnosticEvent),
    /// UTF-8 text of a log line, without a line break.
    LogLine(Vec<u8>),
    /// A tag that this protocol does not know; its body is skipped.
    Unknown(u8),
}

pub ghost enum MessageModel {
    Diagnostic(DiagnosticModel),
    LogLine(Seq<u8>),
    Unknown(u8),
}

impl View for Message {
    type V = MessageModel;

    open spec fn view(&self) -> MessageModel {
        match self {
            Message::Diagnostic(d) => MessageModel::Diagnostic(d@),
            Message::LogLine(t) => MessageModel::LogLine(t@),
            Message::Unknown(t) => MessageModel::Unknown(*t),
        }
    }
}

/// A decoded payload.
#[derive(Clone, Debug)]
pub struct Decoded {
    /// The IEEE 754 bits of the timestamp in seconds.
    pub stamp_bits: u32,
    pub sequence: i16,
    pub message: Message,
    /// Where the decoding cursor stopped in the payload.
    pub end: usize,
}

pub ghost struct DecodedModel {
    pub stamp_bits: u32,
    pub sequence: i16,
    pub message: MessageModel,
    pub end: int,
}

impl View for Decoded {
    type V = DecodedModel;

    open spec fn view(&self) -> DecodedModel {
        DecodedModel {
            stamp_bits: self.stamp_bits,
            sequence: self.sequence,
            message: self.message@,
            end: self.end as int,
        }
    }
}

/// The body of a diagnostic event that starts at `HEADER_LEN`, with the
/// cursor after its last string.
pub open spec fn diagnostic_body(p: Seq<u8>) -> Result<(DiagnosticModel, int), DecodeError> {
    if p.len() < 14 {
        Err(DecodeError::Truncated)
    } else {
        match pstr_at(p, 14) {
            Err(e) => Err(e),
            Ok((details, i)) => match pstr_at(p, i) {
                Err(e) => Err(e),
                Ok((location, j)) => match pstr_at(p, j) {
                    Err(e) => Err(e),
                    Ok((callstack, k)) => Ok(
                        (
                            DiagnosticModel {
                                occurrences: signed16(be16(p, 7)) as i16,
                                error_code: signed32(be32(p, 9)) as i32,
                                flags: p[13],
                                details,
                                location,
                                callstack,
                            },
                            k,
                        ),
                    ),
                },
            },
        }
    }
}

/// What a payload decodes to: a header of tag, timestamp and sequence number,
/// then a body by tag. A diagnostic event's fields are read in order; a log
/// line is the rest of the payload as UTF-8; another tag skips the rest.
pub open spec fn decode_spec(p: Seq<u8>) -> Result<DecodedModel, DecodeError> {
    if p.len() < HEADER_LEN {
        Err(DecodeError::Truncated)
    } else {
        let stamp_bits = be32(p, 1) as u32;
        let sequence = signed16(be16(p, 5)) as i16;
        if p[0] == DIAGNOSTIC_TAG {
            match diagnostic_body(p) {
                Err(e) => Err(e),
                Ok((d, k)) => Ok(
                    DecodedModel { stamp_bits, sequence, message: MessageModel::Diagnostic(d), end: k },
                ),
            }
        } else if p[0] == LOG_LINE_TAG {
            let text = p.subrange(HEADER_LEN as int, p.len() as int);
            if is_utf8(text) {
                Ok(
                    DecodedModel {
                        stamp_bits,
                        sequence,
                        message: MessageModel::LogLine(text),
                        end: p.len() as int,
                    },
                )
            } else {
                Err(DecodeError::BadText)
            }
        } else {
            Ok(
                DecodedModel {
                    stamp_bits,
                    sequence,
                    message: MessageModel::Unknown(p[0]),
                    end: p.len() as int,
                },
            )
        }
    }
}

/// Decodes the diagnostic event whose fields start at `*pos`.
fn decode_diagnostic(p: &[u8], pos: &mut usize) -> (r: Result<DiagnosticEvent, DecodeError>)
    requires
        *old(pos) == HEADER_LEN,
    ensures
        match diagnostic_body(p@) {
            Ok((d, k)) => (r matches Ok(v) && v@ == d) && *final(pos) == k,
            Err(e) => r == Err::<DiagnosticEvent, DecodeError>(e),
        },
{
    let occurrences = match parse_i16(p, pos) {
        Some(v) => v,
        None => return Err(DecodeError::Truncated),
    };
    let error_code = match parse_i32(p, pos) {
        Some(v) => v,
        None => return Err(DecodeError::Truncated),
    };
    let flags = match parse_u8(p, pos) {
        Some(v) => v,
        None => return Err(DecodeError::Truncated),
    };
    let details = parse_string(p, pos)?;
    let location = parse_string(p, pos)?;
    let callstack = parse_string(p, pos)?;
    Ok(DiagnosticEvent { occurrences, error_code, flags, details, location, callstack })
}

/// Decodes one frame payload. Unknown tags are no error: their body is
/// skipped and the cursor is put at the end of the payload.
pub fn decode_payload(p: &[u8]) -> (r: Result<Decoded, DecodeError>)
    ensures
        match decode_spec(p@) {
            Ok(d) => r matches Ok(v) && v@ == d,
            Err(e) => r == Err::<Decoded, DecodeError>(e),
        },
{
    let mut pos: usize = 0;
    let tag = match parse_u8(p, &mut pos) {
        Some(t) => t,
        None => return Err(DecodeError::Truncated),
    };
    let stamp_bits = match parse_u32(p, &mut pos) {
        Some(v) => v,
        None => return Err(DecodeError::Truncated),
    };
    let sequence = match parse_i16(p, &mut pos) {
        Some(v) => v,
        None => return Err(DecodeError::Truncated),
    };
    if tag == DIAGNOSTIC_TAG {
        let d = decode_diagnostic(p, &mut pos)?;
        Ok(Decoded { stamp_bits, sequence, message: Message::Diagnostic(d), end: pos })
    } else if tag == LOG_LINE_TAG {
        let text = parse_text(p, pos)?;
        Ok(Decoded { stamp_bits, sequence, message: Message::LogLine(text), end: p.len() })
    } else {
        Ok(Decoded { stamp_bits, sequence, message: Message::Unknown(tag), end: p.len() })
    }
}

} // verus!
