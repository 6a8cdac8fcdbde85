//! Outbound messages and their wire encoding.
//!
//! The status path carries tagged text notes (plain status vs. an
//! upstream-reported error); the multiplexer wraps them, and binary
//! audio, into outbound messages; the single writer encodes each
//! message as one wire frame.  Text frames are JSON objects with
//! exactly one of the keys `status` or `error`; binary frames carry the
//! audio bytes verbatim.

use vstd::prelude::*;

verus! {

/// One note on the status path, tagged so the outbound multiplexer can
/// tell a plain status from an upstream-reported error.
pub enum StatusNote {
    Info(String),
    Fault(String),
}

/// One outbound message: status text, error text, or binary audio.
/// Consumed exactly once by the outbound writer.
pub enum OutboundMessage {
    Status(String),
    Error(String),
    Audio(Vec<u8>),
}

/// One frame on the client connection: text or binary.
pub enum WireFrame {
    Text(String),
    Binary(Vec<u8>),
}

/// The hexadecimal digit character for a value below 16.
pub open spec fn hex_digit(n: nat) -> char {
    if n == 0 {
        '0'
    } else if n == 1 {
        '1'
    } else if n == 2 {
        '2'
    } else if n == 3 {
        '3'
    } else if n == 4 {
        '4'
    } else if n == 5 {
        '5'
    } else if n == 6 {
        '6'
    } else if n == 7 {
        '7'
    } else if n == 8 {
        '8'
    } else if n == 9 {
        '9'
    } else if n == 10 {
        'a'
    } else if n == 11 {
        'b'
    } else if n == 12 {
        'c'
    } else if n == 13 {
        'd'
    } else if n == 14 {
        'e'
    } else {
        'f'
    }
}

/// How one character is written inside a JSON string literal: the quote
/// and the backslash get a two-character escape, the named control
/// characters get their short escapes, every other control character is
/// written as a `\u00XX` escape, and everything else stands verbatim.
pub open spec fn escaped_char(c: char) -> Seq<char> {
    if c == '"' {
        seq!['\\', '"']
    } else if c == '\\' {
        seq!['\\', '\\']
    } else if c == '\u{8}' {
        seq!['\\', 'b']
    } else if c == '\t' {
        seq!['\\', 't']
    } else if c == '\n' {
        seq!['\\', 'n']
    } else if c == '\u{c}' {
        seq!['\\', 'f']
    } else if c == '\r' {
        seq!['\\', 'r']
    } else if (c as u32) < 0x20 {
        seq!['\\', 'u', '0', '0', hex_digit((c as u32 / 16) as nat), hex_digit(
            (c as u32 % 16) as nat,
        )]
    } else {
        seq![c]
    }
}

/// The body of a JSON string literal holding the given text: each
/// character escaped in order.
pub open spec fn json_escaped(s: Seq<char>) -> Seq<char>
    decreases s.len(),
{
    if s.len() == 0 {
        Seq::empty()
    } else {
        escaped_char(s[0]) + json_escaped(s.skip(1))
    }
}

/// Escaping distributes over appending one character at the end.
pub proof fn lemma_json_escaped_push(s: Seq<char>, c: char)
    ensures
        json_escaped(s.push(c)) == json_escaped(s) + escaped_char(c),
    decreases s.len(),
{
    if s.len() == 0 {
        reveal_with_fuel(json_escaped, 2);
        assert(s.push(c).skip(1) =~= Seq::<char>::empty());
        assert(json_escaped(s.push(c)) =~= json_escaped(s) + escaped_char(c));
    } else {
        assert(s.push(c).skip(1) =~= s.skip(1).push(c));
        lemma_json_escaped_push(s.skip(1), c);
        assert(s.push(c).len() != 0);
        assert(s.push(c)[0] == s[0]);
        assert(json_escaped(s.push(c)) == escaped_char(s[0]) + json_escaped(s.skip(1).push(c)));
        assert(json_escaped(s.skip(1).push(c)) == json_escaped(s.skip(1)) + escaped_char(c));
        assert(json_escaped(s) == escaped_char(s[0]) + json_escaped(s.skip(1)));
        assert(json_escaped(s.push(c)) =~= json_escaped(s) + escaped_char(c));
    }
}

/// The full text of a `{"status":"..."}` frame.
pub open spec fn status_frame_text(s: Seq<char>) -> Seq<char> {
    "{\"status\":\""@ + json_escaped(s) + "\"}"@
}

/// The full text of an `{"error":"..."}` frame.
pub open spec fn error_frame_text(s: Seq<char>) -> Seq<char> {
    "{\"error\":\""@ + json_escaped(s) + "\"}"@
}

fn hex_digit_char(n: u32) -> (r: char)
    requires
        n < 16,
    ensures
        r == hex_digit(n as nat),
{
    if n == 0 {
        '0'
    } else if n == 1 {
        '1'
    } else if n == 2 {
        '2'
    } else if n == 3 {
        '3'
    } else if n == 4 {
        '4'
    } else if n == 5 {
        '5'
    } else if n == 6 {
        '6'
    } else if n == 7 {
        '7'
    } else if n == 8 {
        '8'
    } else if n == 9 {
        '9'
    } else if n == 10 {
        'a'
    } else if n == 11 {
        'b'
    } else if n == 12 {
        'c'
    } else if n == 13 {
        'd'
    } else if n == 14 {
        'e'
    } else {
        'f'
    }
}

fn push_escaped(out: &mut Vec<char>, c: char)
    ensures
        final(out)@ == old(out)@ + escaped_char(c),
{
    if c == '"' {
        out.push('\\');
        out.push('"');
    } else if c == '\\' {
        out.push('\\');
        out.push('\\');
    } else if c == '\u{8}' {
        out.push('\\');
        out.push('b');
    } else if c == '\t' {
        out.push('\\');
        out.push('t');
    } else if c == '\n' {
        out.push('\\');
        out.push('n');
    } else if c == '\u{c}' {
        out.push('\\');
        out.push('f');
    } else if c == '\r' {
        out.push('\\');
        out.push('r');
    } else if (c as u32) < 0x20 {
        out.push('\\');
        out.push('u');
        out.push('0');
        out.push('0');
        out.push(hex_digit_char((c as u32) / 16));
        out.push(hex_digit_char((c as u32) % 16));
    } else {
        out.push(c);
    }
    assert(final(out)@ =~= old(out)@ + escaped_char(c));
}

/// Escapes a text for inclusion in a JSON string literal.
pub fn escape_json(s: &str) -> (r: Vec<char>)
    ensures
        r@ == json_escaped(s@),
{
    let n = s.unicode_len();
    let mut out: Vec<char> = Vec::new();
    let mut i: usize = 0;
    while i < n
        invariant
            n == s@.len(),
            0 <= i <= n,
            out@ == json_escaped(s@.subrange(0, i as int)),
        decreases n - i,
    {
        let c = s.get_char(i);
        proof {
            lemma_json_escaped_push(s@.subrange(0, i as int), s@[i as int]);
            assert(s@.subrange(0, i as int).push(s@[i as int]) =~= s@.subrange(0, i as int + 1));
        }
        push_escaped(&mut out, c);
        i += 1;
    }
    proof {
        assert(s@.subrange(0, n as int) =~= s@);
    }
    out
}

/// Relies on `core::iter::Iterator::collect` for `String`: collecting
/// characters yields the string made of exactly those characters in
/// order.
#[verifier::external_body]
fn chars_to_string(v: &Vec<char>) -> (r: String)
    ensures
        r@ == v@,
{
    v.iter().collect()
}

/// Encodes a status text as its wire frame text `{"status":"..."}`.
pub fn encode_status_text(s: &str) -> (r: String)
    ensures
        r@ == status_frame_text(s@),
{
    let mut out = String::from_str("{\"status\":\"");
    let esc = chars_to_string(&escape_json(s));
    out.append(esc.as_str());
    out.append("\"}");
    out
}

/// Encodes an error text as its wire frame text `{"error":"..."}`.
pub fn encode_error_text(s: &str) -> (r: String)
    ensures
        r@ == error_frame_text(s@),
{
    let mut out = String::from_str("{\"error\":\"");
    let esc = chars_to_string(&escape_json(s));
    out.append(esc.as_str());
    out.append("\"}");
    out
}

/// Wraps a status-path note into an outbound message: a plain note
/// becomes a status message, a fault note becomes an error message.
pub fn wrap_status_note(n: StatusNote) -> (r: OutboundMessage)
    ensures
        n matches StatusNote::Info(s) ==> r matches OutboundMessage::Status(t) && t@ == s@,
        n matches StatusNote::Fault(s) ==> r matches OutboundMessage::Error(t) && t@ == s@,
{
    match n {
        StatusNote::Info(s) => OutboundMessage::Status(s),
        StatusNote::Fault(s) => OutboundMessage::Error(s),
    }
}

/// Wraps one audio payload from the audio path into an outbound
/// message, bytes verbatim.
pub fn wrap_audio(data: Vec<u8>) -> (r: OutboundMessage)
    ensures
        r matches OutboundMessage::Audio(d) && d@ == data@,
{
    OutboundMessage::Audio(data)
}

/// Encodes one outbound message as the single wire frame the writer
/// sends: status and error messages become JSON text frames with
/// exactly one key, audio becomes a binary frame with the bytes
/// verbatim.
pub fn encode_outbound(m: OutboundMessage) -> (r: WireFrame)
    ensures
        m matches OutboundMessage::Status(s) ==> r matches WireFrame::Text(t) && t@
            == status_frame_text(s@),
        m matches OutboundMessage::Error(s) ==> r matches WireFrame::Text(t) && t@
            == error_frame_text(s@),
        m matches OutboundMessage::Audio(d) ==> r matches WireFrame::Binary(b) && b@ == d@,
{
    match m {
        OutboundMessage::Status(s) => WireFrame::Text(encode_status_text(s.as_str())),
        OutboundMessage::Error(s) => WireFrame::Text(encode_error_text(s.as_str())),
        OutboundMessage::Audio(d) => WireFrame::Binary(d),
    }
}

} // verus!
