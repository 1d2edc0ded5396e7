//! Turning decoded messages into coloured terminal text.

use std::fmt::Write;
use vstd::prelude::*;
use crate::message::{DiagnosticEvent, DiagnosticModel, Message, MessageModel};

verus! {

/// The foreground colours that the renderer uses.
#[derive(Clone, Copy, Debug, PartialEq, Eq, Structural)]
pub enum Hue {
    DarkGrey,
    Red,
    DarkYellow,
    Cyan,
    Green,
    Blue,
    DarkRed,
}

/// Relies on crossterm's `Display` of `SetForegroundColor`: the escape text
/// that selects a foreground colour. It honours `NO_COLOR` and the console
/// kind, so nothing is claimed of the bytes. Where the console takes colours
/// by system calls and none can be reached, the `Display` fails; the marker
/// is then empty.
#[verifier::external_body]
fn fg_marker(hue: Hue) -> (r: Vec<u8>) {
    let color = match hue {
        Hue::DarkGrey => crossterm::style::Color::DarkGrey,
        Hue::Red => crossterm::style::Color::Red,
        Hue::DarkYellow => crossterm::style::Color::DarkYellow,
        Hue::Cyan => crossterm::style::Color::Cyan,
        Hue::Green => crossterm::style::Color::Green,
        Hue::Blue => crossterm::style::Color::Blue,
        Hue::DarkRed => crossterm::style::Color::DarkRed,
    };
    let mut text = String::new();
    match write!(text, "{}", crossterm::style::SetForegroundColor(color)) {
        Ok(()) => text.into_bytes(),
        Err(_) => Vec::new(),
    }
}

/// Relies on crossterm's `Display` of `ResetColor`: the escape text that
/// restores the default colours; empty where that `Display` fails.
#[verifier::external_body]
fn reset_marker() -> (r: Vec<u8>) {
    let mut text = String::new();
    match write!(text, "{}", crossterm::style::ResetColor) {
        Ok(()) => text.into_bytes(),
        Err(_) => Vec::new(),
    }
}

/// The escape texts that open each colour, and the one that closes any.
#[derive(Clone, Debug)]
pub struct Palette {
    pub dark_grey: Vec<u8>,
    pub red: Vec<u8>,
    pub dark_yellow: Vec<u8>,
    pub cyan: Vec<u8>,
    pub green: Vec<u8>,
    pub blue: Vec<u8>,
    pub dark_red: Vec<u8>,
    pub reset: Vec<u8>,
}

pub ghost struct PaletteModel {
    pub dark_grey: Seq<u8>,
    pub red: Seq<u8>,
    pub dark_yellow: Seq<u8>,
    pub cyan: Seq<u8>,
    pub green: Seq<u8>,
    pub blue: Seq<u8>,
    pub dark_red: Seq<u8>,
    pub reset: Seq<u8>,
}

impl View for Palette {
    type V = PaletteModel;

    open spec fn view(&self) -> PaletteModel {
        PaletteModel {
            dark_grey: self.dark_grey@,
            red: self.red@,
            dark_yellow: self.dark_yellow@,
            cyan: self.cyan@,
            green: self.green@,
            blue: self.blue@,
            dark_red: self.dark_red@,
            reset: self.reset@,
        }
    }
}

impl Palette {
    /// The escape texts of the terminal library.
    pub fn terminal() -> (r: Palette) {
        Palette {
            dark_grey: fg_marker(Hue::DarkGrey),
            red: fg_marker(Hue::Red),
            dark_yellow: fg_marker(Hue::DarkYellow),
            cyan: fg_marker(Hue::Cyan),
            green: fg_marker(Hue::Green),
            blue: fg_marker(Hue::Blue),
            dark_red: fg_marker(Hue::DarkRed),
            reset: reset_marker(),
        }
    }
}

/// The ASCII bytes of the decimal digits of `n`.
pub open spec fn digits(n: nat) -> Seq<u8>
    decreases n,
{
    if n < 10 {
        seq![(48 + n) as u8]
    } else {
        digits(n / 10) + seq![(48 + n % 10) as u8]
    }
}

/// The decimal text of an integer, with a leading `-` when negative.
pub open spec fn decimal(v: int) -> Seq<u8> {
    if v < 0 {
        seq![45u8] + digits((-v) as nat)
    } else {
        digits(v as nat)
    }
}

fn push_digits(out: &mut Vec<u8>, n: u64)
    ensures
        final(out)@ == old(out)@ + digits(n as nat),
    decreases n,
{
    if n >= 10 {
        push_digits(out, n / 10);
    }
    out.push((48 + n % 10) as u8);
    assert(final(out)@ =~= old(out)@ + digits(n as nat));
}

/// Appends the decimal text of `v`.
pub fn push_decimal(out: &mut Vec<u8>, v: i64)
    ensures
        final(out)@ == old(out)@ + decimal(v as int),
{
    if v < 0 {
        out.push(45u8);
        let m: u64 = (-(v as i128)) as u64;
        push_digits(out, m);
        assert(final(out)@ =~= old(out)@ + decimal(v as int));
    } else {
        push_digits(out, v as u64);
    }
}

/// Appends every byte of `b`.
pub fn push_bytes(out: &mut Vec<u8>, b: &[u8])
    ensures
        final(out)@ == old(out)@ + b@,
{
    let ghost start = out@;
    let mut i: usize = 0;
    while i < b.len()
        invariant
            i <= b@.len(),
            out@ == start + b@.subrange(0, i as int),
        decreases b@.len() - i,
    {
        out.push(b[i]);
        i = i + 1;
        assert(out@ =~= start + b@.subrange(0, i as int));
    }
    assert(b@.subrange(0, i as int) =~= b@);
}

/// The level keywords of a log line, in the order they are looked for.
pub open spec fn keyword(k: int) -> Seq<u8> {
    if k == 0 {
        seq![84u8, 82, 65, 67, 69]  // TRACE
    } else if k == 1 {
        seq![73u8, 78, 70, 79]  // INFO
    } else if k == 2 {
        seq![68u8, 69, 66, 85, 71]  // DEBUG
    } else if k == 3 {
        seq![87u8, 65, 82, 78]  // WARN
    } else {
        seq![69u8, 82, 82, 79, 82]  // ERROR
    }
}

/// The colour that marks each level keyword.
pub open spec fn keyword_marker(pal: PaletteModel, k: int) -> Seq<u8> {
    if k == 0 {
        pal.cyan
    } else if k == 1 {
        pal.green
    } else if k == 2 {
        pal.blue
    } else if k == 3 {
        pal.dark_yellow
    } else {
        pal.dark_red
    }
}

/// Whether `w` occurs in `t` at `i`.
pub open spec fn occurs_at(t: Seq<u8>, i: int, w: Seq<u8>) -> bool {
    i + w.len() <= t.len() && t.subrange(i, i + w.len() as int) == w
}

/// The first level keyword, in the order they are looked for, that occurs at `i`.
pub open spec fn keyword_at(t: Seq<u8>, i: int) -> Option<int> {
    if occurs_at(t, i, keyword(0)) {
        Some(0)
    } else if occurs_at(t, i, keyword(1)) {
        Some(1)
    } else if occurs_at(t, i, keyword(2)) {
        Some(2)
    } else if occurs_at(t, i, keyword(3)) {
        Some(3)
    } else if occurs_at(t, i, keyword(4)) {
        Some(4)
    } else {
        None
    }
}

/// The text from `i` on, scanned left to right, with each level keyword
/// wrapped in its colour and a reset; all other bytes stay as they are.
pub open spec fn colorize_from(pal: PaletteModel, t: Seq<u8>, i: int) -> Seq<u8>
    decreases t.len() - i,
{
    if i < 0 || i >= t.len() {
        Seq::empty()
    } else {
        match keyword_at(t, i) {
            Some(k) => keyword_marker(pal, k) + keyword(k) + pal.reset + colorize_from(
                pal,
                t,
                i + keyword(k).len(),
            ),
            None => seq![t[i]] + colorize_from(pal, t, i + 1),
        }
    }
}

fn keyword_bytes(k: usize) -> (r: Vec<u8>)
    requires
        k < 5,
    ensures
        r@ == keyword(k as int),
{
    let r = if k == 0 {
        vec![84u8, 82, 65, 67, 69]
    } else if k == 1 {
        vec![73u8, 78, 70, 79]
    } else if k == 2 {
        vec![68u8, 69, 66, 85, 71]
    } else if k == 3 {
        vec![87u8, 65, 82, 78]
    } else {
        vec![69u8, 82, 82, 79, 82]
    };
    assert(r@ =~= keyword(k as int));
    r
}

fn marker_of<'a>(pal: &'a Palette, k: usize) -> (r: &'a Vec<u8>)
    ensures
        r@ == keyword_marker(pal@, k as int),
{
    if k == 0 {
        &pal.cyan
    } else if k == 1 {
        &pal.green
    } else if k == 2 {
        &pal.blue
    } else if k == 3 {
        &pal.dark_yellow
    } else {
        &pal.dark_red
    }
}

fn occurs_at_exec(t: &[u8], i: usize, w: &[u8]) -> (r: bool)
    ensures
        r == occurs_at(t@, i as int, w@),
{
    if i > t.len() || w.len() > t.len() - i {
        return false;
    }
    let n = t.len();
    let mut j: usize = 0;
    while j < w.len()
        invariant
            j <= w@.len(),
            n == t@.len(),
            i + w@.len() <= t@.len(),
            forall|m: int| 0 <= m < j ==> t@[i + m] == w@[m],
        decreases w@.len() - j,
    {
        if t[i + j] != w[j] {
            assert(t@.subrange(i as int, i + w@.len())[j as int] != w@[j as int]);
            return false;
        }
        j = j + 1;
    }
    assert(t@.subrange(i as int, i + w@.len()) =~= w@);
    true
}

fn keyword_at_exec(t: &[u8], i: usize) -> (r: Option<usize>)
    ensures
        match keyword_at(t@, i as int) {
            Some(k) => r == Some(k as usize),
            None => r is None,
        },
{
    let mut k: usize = 0;
    while k < 5
        invariant
            k <= 5,
            forall|m: int| 0 <= m < k ==> !occurs_at(t@, i as int, #[trigger] keyword(m)),
        decreases 5 - k,
    {
        let w = keyword_bytes(k);
        if occurs_at_exec(t, i, w.as_slice()) {
            return Some(k);
        }
        k = k + 1;
    }
    None
}

/// Appends `t` with each level keyword wrapped in its colour.
pub fn push_colorized(out: &mut Vec<u8>, pal: &Palette, t: &[u8])
    ensures
        final(out)@ == old(out)@ + colorize_from(pal@, t@, 0),
{
    let ghost start = out@;
    let mut i: usize = 0;
    while i < t.len()
        invariant
            i <= t@.len(),
            out@ + colorize_from(pal@, t@, i as int) == start + colorize_from(pal@, t@, 0),
        decreases t@.len() - i,
    {
        let ghost before = out@;
        match keyword_at_exec(t, i) {
            Some(k) => {
                push_bytes(out, marker_of(pal, k).as_slice());
                let w = keyword_bytes(k);
                push_bytes(out, w.as_slice());
                push_bytes(out, pal.reset.as_slice());
                i = i + w.len();
                assert(out@ + colorize_from(pal@, t@, i as int) =~= before + colorize_from(
                    pal@,
                    t@,
                    i - w@.len(),
                ));
            },
            None => {
                out.push(t[i]);
                i = i + 1;
                assert(out@ + colorize_from(pal@, t@, i as int) =~= before + colorize_from(
                    pal@,
                    t@,
                    i - 1,
                ));
            },
        }
    }
    assert(colorize_from(pal@, t@, i as int) =~= Seq::<u8>::empty());
    assert(out@ =~= start + colorize_from(pal@, t@, 0));
}

/// `ERROR ` and `WARNING `.
pub open spec fn severity_label(is_error: bool) -> Seq<u8> {
    if is_error {
        seq![69u8, 82, 82, 79, 82, 32]
    } else {
        seq![87u8, 65, 82, 78, 73, 78, 71, 32]
    }
}

/// `(<n>x)` for an event seen more than once, else nothing.
pub open spec fn occurrence_suffix(n: int) -> Seq<u8> {
    if n > 1 {
        seq![40u8] + decimal(n) + seq![120u8, 41]
    } else {
        Seq::empty()
    }
}

/// Whether an event's flag byte marks it as an error.
pub open spec fn flags_error(flags: u8) -> bool {
    flags & 1 != 0
}

/// The colour that opens a diagnostic event's first line.
pub open spec fn severity_marker(pal: PaletteModel, is_error: bool) -> Seq<u8> {
    if is_error { pal.red } else { pal.dark_yellow }
}

/// The start of a diagnostic event's coloured first line:
/// `ERROR <code> ` or `WARNING <code> `.
pub open spec fn severity_head(pal: PaletteModel, d: DiagnosticModel) -> Seq<u8> {
    severity_marker(pal, flags_error(d.flags)) + severity_label(flags_error(d.flags)) + decimal(
        d.error_code as int,
    ) + seq![32u8]
}

/// The end of a diagnostic event: `:`, a line break, then in the default
/// colour `<details> at <location>`, a line break and the call stack.
pub open spec fn diagnostic_tail(pal: PaletteModel, d: DiagnosticModel) -> Seq<u8> {
    seq![58u8, 10] + pal.reset + d.details + seq![32u8, 97, 116, 32] + d.location + seq![10u8]
        + d.callstack
}

/// A diagnostic event as text: a coloured line `ERROR <code> <suffix>:` or
/// `WARNING <code> <suffix>:`, then `<details> at <location>` and the
/// call stack in the default colour.
pub open spec fn diagnostic_text(pal: PaletteModel, d: DiagnosticModel) -> Seq<u8> {
    severity_head(pal, d) + occurrence_suffix(d.occurrences as int) + diagnostic_tail(pal, d)
}

/// The dimmed timestamp that leads every rendered message.
pub open spec fn stamp_prefix(pal: PaletteModel, stamp: Seq<u8>) -> Seq<u8> {
    pal.dark_grey + stamp + seq![32u8, 45, 32] + pal.reset
}

/// The terminal text of a message whose timestamp reads `stamp`; nothing for
/// an unknown tag.
pub open spec fn rendered(pal: PaletteModel, stamp: Seq<u8>, m: MessageModel) -> Seq<u8> {
    match m {
        MessageModel::Diagnostic(d) => stamp_prefix(pal, stamp) + diagnostic_text(pal, d),
        MessageModel::LogLine(t) => stamp_prefix(pal, stamp) + colorize_from(pal, t, 0) + seq![10u8],
        MessageModel::Unknown(_) => Seq::empty(),
    }
}

fn push_literal(out: &mut Vec<u8>, lit: Vec<u8>)
    ensures
        final(out)@ == old(out)@ + lit@,
{
    push_bytes(out, lit.as_slice());
}

fn push_diagnostic(out: &mut Vec<u8>, pal: &Palette, d: &DiagnosticEvent)
    ensures
        final(out)@ == old(out)@ + diagnostic_text(pal@, d@),
{
    let ghost start = out@;
    let is_error = d.is_error();
    if is_error {
        push_bytes(out, pal.red.as_slice());
        push_literal(out, vec![69u8, 82, 82, 79, 82, 32]);
    } else {
        push_bytes(out, pal.dark_yellow.as_slice());
        push_literal(out, vec![87u8, 65, 82, 78, 73, 78, 71, 32]);
    }
    let ghost head = out@;
    assert(head =~= start + severity_marker(pal@, flags_error(d.flags)) + severity_label(
        flags_error(d.flags),
    ));
    push_decimal(out, d.error_code as i64);
    out.push(32u8);
    let ghost mid = out@;
    assert(mid =~= start + severity_head(pal@, d@));
    if d.occurrences > 1 {
        out.push(40u8);
        push_decimal(out, d.occurrences as i64);
        push_literal(out, vec![120u8, 41]);
    }
    assert(out@ =~= mid + occurrence_suffix(d.occurrences as int));
    let ghost tail_start = out@;
    push_literal(out, vec![58u8, 10]);
    push_bytes(out, pal.reset.as_slice());
    push_bytes(out, d.details.as_slice());
    push_literal(out, vec![32u8, 97, 116, 32]);
    push_bytes(out, d.location.as_slice());
    out.push(10u8);
    push_bytes(out, d.callstack.as_slice());
    assert(out@ =~= tail_start + diagnostic_tail(pal@, d@));
    assert(out@ =~= start + diagnostic_text(pal@, d@));
}

/// The terminal text of a message whose timestamp has been formatted as
/// `stamp`: empty for an unknown tag.
pub fn render(pal: &Palette, stamp: &[u8], m: &Message) -> (r: Vec<u8>)
    ensures
        r@ == rendered(pal@, stamp@, m@),
{
    let mut out: Vec<u8> = Vec::new();
    match m {
        Message::Unknown(_) => {
            assert(out@ =~= rendered(pal@, stamp@, m@));
            return out;
        },
        _ => {},
    }
    push_bytes(&mut out, pal.dark_grey.as_slice());
    push_bytes(&mut out, stamp);
    push_literal(&mut out, vec![32u8, 45, 32]);
    push_bytes(&mut out, pal.reset.as_slice());
    let ghost head = out@;
    assert(head =~= stamp_prefix(pal@, stamp@));
    match m {
        Message::Diagnostic(d) => {
            push_diagnostic(&mut out, pal, d);
        },
        Message::LogLine(t) => {
            push_colorized(&mut out, pal, t.as_slice());
            out.push(10u8);
        },
        Message::Unknown(_) => {},
    }
    assert(out@ =~= rendered(pal@, stamp@, m@));
    out
}

} // verus!
