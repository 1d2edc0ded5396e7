use riolog::wire::{frame_at, parse_i16, parse_i32, parse_string, parse_text, parse_u16, parse_u32, parse_u8, DecodeError};

#[test]
fn parse_u8_reads_and_advances() {
    let b = [7u8, 9];
    let mut pos: usize = 1;
    assert_eq!(parse_u8(&b, &mut pos), Some(9));
    assert_eq!(pos, 2);
    assert_eq!(parse_u8(&b, &mut pos), None);
    assert_eq!(pos, 2);
}

#[test]
fn parse_u16_is_big_endian() {
    let b = [0x12u8, 0x34, 0xff];
    let mut pos: usize = 0;
    assert_eq!(parse_u16(&b, &mut pos), Some(0x1234));
    assert_eq!(pos, 2);
    assert_eq!(parse_u16(&b, &mut pos), None);
    assert_eq!(pos, 2);
}

#[test]
fn parse_i16_reads_twos_complement() {
    let b = [0xffu8, 0xfe, 0x7f, 0xff];
    let mut pos: usize = 0;
    assert_eq!(parse_i16(&b, &mut pos), Some(-2));
    assert_eq!(parse_i16(&b, &mut pos), Some(32767));
    assert_eq!(pos, 4);
}

#[test]
fn parse_u32_and_i32_are_big_endian() {
    let b = [0x80u8, 0, 0, 1, 0xff, 0xff, 0xff, 0xfd];
    let mut pos: usize = 0;
    assert_eq!(parse_u32(&b, &mut pos), Some(0x8000_0001));
    assert_eq!(parse_i32(&b, &mut pos), Some(-3));
    assert_eq!(pos, 8);
    let mut pos: usize = 5;
    assert_eq!(parse_i32(&b, &mut pos), None);
    assert_eq!(pos, 5);
}

#[test]
fn parse_string_reads_length_prefixed_text() {
    let b = [0u8, 3, b'a', b'b', b'c', 0xaa];
    let mut pos: usize = 0;
    assert_eq!(parse_string(&b, &mut pos), Ok(b"abc".to_vec()));
    assert_eq!(pos, 5);
}

#[test]
fn parse_string_errors() {
    let mut pos: usize = 0;
    assert_eq!(parse_string(&[0u8], &mut pos), Err(DecodeError::Truncated));
    let mut pos: usize = 0;
    assert_eq!(parse_string(&[0u8, 4, b'a'], &mut pos), Err(DecodeError::Overrun));
    let mut pos: usize = 0;
    assert_eq!(parse_string(&[0u8, 1, 0xff], &mut pos), Err(DecodeError::BadText));
    let mut pos: usize = 0;
    assert_eq!(parse_string(&[0u8, 0], &mut pos), Ok(Vec::new()));
    assert_eq!(pos, 2);
}

#[test]
fn parse_text_checks_utf8() {
    let b = "xxé!".as_bytes();
    assert_eq!(parse_text(b, 2), Ok("é!".as_bytes().to_vec()));
    assert_eq!(parse_text(&[1u8, 0xc3], 1), Err(DecodeError::BadText));
    assert_eq!(parse_text(&[1u8], 1), Ok(Vec::new()));
}

#[test]
fn frame_at_finds_whole_frames() {
    let s = [0u8, 2, 9, 9, 0, 1, 5];
    assert_eq!(frame_at(&s, 0), Some((2, 4)));
    assert_eq!(frame_at(&s, 4), Some((6, 7)));
    assert_eq!(frame_at(&s, 7), None);
}

#[test]
fn frame_longer_than_stream_is_not_taken() {
    let s = [0u8, 10, 1, 2, 3];
    assert_eq!(frame_at(&s, 0), None);
    assert_eq!(frame_at(&[0u8], 0), None);
}
