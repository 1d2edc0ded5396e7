use riolog::message::{decode_payload, Message};
use riolog::wire::DecodeError;

fn pstr(s: &str) -> Vec<u8> {
    let mut v = (s.len() as u16).to_be_bytes().to_vec();
    v.extend_from_slice(s.as_bytes());
    v
}

fn header(tag: u8, stamp: f32, seq: i16) -> Vec<u8> {
    let mut v = vec![tag];
    v.extend_from_slice(&stamp.to_bits().to_be_bytes());
    v.extend_from_slice(&seq.to_be_bytes());
    v
}

fn diagnostic(occ: i16, code: i32, flags: u8, details: &str, location: &str, callstack: &str) -> Vec<u8> {
    let mut v = header(11, 12.5, 3);
    v.extend_from_slice(&occ.to_be_bytes());
    v.extend_from_slice(&code.to_be_bytes());
    v.push(flags);
    v.extend(pstr(details));
    v.extend(pstr(location));
    v.extend(pstr(callstack));
    v
}

fn frame(payload: &[u8]) -> Vec<u8> {
    let mut v = (payload.len() as u16).to_be_bytes().to_vec();
    v.extend_from_slice(payload);
    v
}

#[test]
fn diagnostic_round_trip_recovers_fields() {
    let f = frame(&diagnostic(-4, -70000, 1, "bad thing", "main.cpp:12", "at a\nat b"));
    let (s, e) = riolog::wire::frame_at(&f, 0).unwrap();
    assert_eq!((s, e), (2, f.len()));
    let d = decode_payload(&f[s..e]).unwrap();
    assert_eq!(f32::from_bits(d.stamp_bits), 12.5);
    assert_eq!(d.sequence, 3);
    assert_eq!(d.end, e - s);
    match d.message {
        Message::Diagnostic(ev) => {
            assert_eq!(ev.occurrences, -4);
            assert_eq!(ev.error_code, -70000);
            assert_eq!(ev.flags, 1);
            assert!(ev.is_error());
            assert_eq!(ev.details, b"bad thing".to_vec());
            assert_eq!(ev.location, b"main.cpp:12".to_vec());
            assert_eq!(ev.callstack, b"at a\nat b".to_vec());
        }
        other => panic!("unexpected {:?}", other),
    }
}

#[test]
fn log_line_cursor_reaches_end() {
    let mut p = header(12, 1.0, -1);
    p.extend_from_slice("INFO ready é".as_bytes());
    let d = decode_payload(&p).unwrap();
    assert_eq!(d.end, p.len());
    assert_eq!(d.sequence, -1);
    match d.message {
        Message::LogLine(t) => assert_eq!(t, "INFO ready é".as_bytes().to_vec()),
        other => panic!("unexpected {:?}", other),
    }
}

#[test]
fn unknown_tag_is_skipped() {
    let mut p = header(99, 0.0, 0);
    p.extend_from_slice(&[0xff, 0x00, 0x13]);
    let d = decode_payload(&p).unwrap();
    assert!(matches!(d.message, Message::Unknown(99)));
    assert_eq!(d.end, p.len());
}

#[test]
fn short_header_is_truncated() {
    assert_eq!(decode_payload(&[]).unwrap_err(), DecodeError::Truncated);
    assert_eq!(decode_payload(&[12u8, 0, 0, 0, 0, 0]).unwrap_err(), DecodeError::Truncated);
    assert_eq!(decode_payload(&[99u8, 0, 0]).unwrap_err(), DecodeError::Truncated);
}

#[test]
fn short_diagnostic_fields_are_truncated() {
    let mut p = header(11, 0.0, 0);
    p.extend_from_slice(&[0, 1, 0, 0]);
    assert_eq!(decode_payload(&p).unwrap_err(), DecodeError::Truncated);
}

#[test]
fn overrunning_string_is_rejected() {
    let mut p = diagnostic(1, 2, 0, "a", "b", "c");
    p.pop();
    assert_eq!(decode_payload(&p).unwrap_err(), DecodeError::Overrun);
}

#[test]
fn invalid_utf8_is_rejected() {
    let mut p = header(12, 0.0, 0);
    p.extend_from_slice(&[b'o', 0xc0]);
    assert_eq!(decode_payload(&p).unwrap_err(), DecodeError::BadText);
    let mut q = header(11, 0.0, 0);
    q.extend_from_slice(&[0, 1, 0, 0, 0, 1, 0]);
    q.extend_from_slice(&[0, 1, 0xff]);
    assert_eq!(decode_payload(&q).unwrap_err(), DecodeError::BadText);
}

#[test]
fn trailing_bytes_after_callstack_are_left() {
    let mut p = diagnostic(1, 2, 0, "a", "b", "c");
    let n = p.len();
    p.push(0);
    let d = decode_payload(&p).unwrap();
    assert_eq!(d.end, n);
}
