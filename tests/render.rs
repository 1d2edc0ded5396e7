use crossterm::style::{Color, ResetColor, SetForegroundColor};
use riolog::message::{DiagnosticEvent, Message};
use riolog::render::{push_decimal, render, Palette};

fn tags() -> Palette {
    Palette {
        dark_grey: b"<grey>".to_vec(),
        red: b"<red>".to_vec(),
        dark_yellow: b"<yellow>".to_vec(),
        cyan: b"<cyan>".to_vec(),
        green: b"<green>".to_vec(),
        blue: b"<blue>".to_vec(),
        dark_red: b"<darkred>".to_vec(),
        reset: b"</>".to_vec(),
    }
}

fn event(occ: i16, code: i32, flags: u8) -> Message {
    Message::Diagnostic(DiagnosticEvent {
        occurrences: occ,
        error_code: code,
        flags,
        details: b"lost".to_vec(),
        location: b"arm.cpp".to_vec(),
        callstack: b"frame0".to_vec(),
    })
}

fn text(b: Vec<u8>) -> String {
    String::from_utf8(b).unwrap()
}

#[test]
fn single_occurrence_omits_count() {
    let out = text(render(&tags(), b"1.5000", &event(1, 44, 1)));
    assert_eq!(out, "<grey>1.5000 - </><red>ERROR 44 :\n</>lost at arm.cpp\nframe0");
    let out = text(render(&tags(), b"1.5000", &event(0, 44, 1)));
    assert_eq!(out, "<grey>1.5000 - </><red>ERROR 44 :\n</>lost at arm.cpp\nframe0");
}

#[test]
fn repeated_occurrence_shows_count() {
    let out = text(render(&tags(), b"2.0000", &event(3, -12, 0)));
    assert_eq!(out, "<grey>2.0000 - </><yellow>WARNING -12 (3x):\n</>lost at arm.cpp\nframe0");
    let out = text(render(&tags(), b"2.0000", &event(i16::MAX, 7, 2)));
    assert_eq!(out, "<grey>2.0000 - </><yellow>WARNING 7 (32767x):\n</>lost at arm.cpp\nframe0");
}

#[test]
fn log_line_warn_is_coloured() {
    let out = text(render(&tags(), b"0.1000", &Message::LogLine(b"WARN: disk full".to_vec())));
    assert_eq!(out, "<grey>0.1000 - </><yellow>WARN</>: disk full\n");
}

#[test]
fn log_line_warn_uses_terminal_colours() {
    let pal = Palette::terminal();
    let out = text(render(&pal, b"0.1000", &Message::LogLine(b"WARN: disk full".to_vec())));
    let expected = format!(
        "{}0.1000 - {}{}WARN{}: disk full\n",
        SetForegroundColor(Color::DarkGrey),
        ResetColor,
        SetForegroundColor(Color::DarkYellow),
        ResetColor
    );
    assert_eq!(out, expected);
}

#[test]
fn every_level_keyword_is_coloured() {
    let line = b"TRACE INFO DEBUG WARNING ERROR TRACERROR plain".to_vec();
    let out = text(render(&tags(), b"t", &Message::LogLine(line)));
    assert_eq!(
        out,
        "<grey>t - </><cyan>TRACE</> <green>INFO</> <blue>DEBUG</> <yellow>WARN</>ING \
<darkred>ERROR</> <cyan>TRACE</>RROR plain\n"
    );
}

#[test]
fn empty_log_line_is_a_line_break() {
    let out = text(render(&tags(), b"t", &Message::LogLine(Vec::new())));
    assert_eq!(out, "<grey>t - </>\n");
}

#[test]
fn unknown_message_renders_nothing() {
    assert!(render(&tags(), b"9.0000", &Message::Unknown(99)).is_empty());
}

#[test]
fn decimal_text() {
    let mut out = b"x".to_vec();
    push_decimal(&mut out, -2147483648);
    assert_eq!(out, b"x-2147483648".to_vec());
    let mut out = Vec::new();
    push_decimal(&mut out, 0);
    push_decimal(&mut out, 905);
    push_decimal(&mut out, i64::MIN);
    assert_eq!(out, b"0905-9223372036854775808".to_vec());
}
