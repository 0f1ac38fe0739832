//! `Content-Length` framing of JSON-RPC messages, as in the Language Server
//! Protocol: a block of header lines, a blank line, then exactly the number of
//! body bytes that the `Content-Length` header announced.

use vstd::prelude::*;
use vstd::utf8::*;
use crate::text::{
    all_digits, bytes_to_vec, chars_of, digit_value, digits_value, end_non_ws, find_char, first_index_of,
    first_non_ws, is_digit, is_ws, lemma_trim_unchanged, parse_usize, parse_usize_chars,
    string_from_chars, string_from_utf8, sub_chars, trim, trim_chars, trim_end, trim_start,
};

verus! {

/// Errors surfaced by the frame reader.
pub enum FrameError {
    /// The stream ended cleanly before a message started.
    Eof,
    /// A header line was malformed, or no `Content-Length` was given.
    Header(String),
    /// Reading failed: a header line was not UTF-8 or the body was cut short.
    Io(String),
}

/// What a frame error says, as mathematical text.
pub enum FrameFault {
    Eof,
    Header(Seq<char>),
    Io(Seq<char>),
}

impl View for FrameError {
    type V = FrameFault;

    open spec fn view(&self) -> FrameFault {
        match self {
            FrameError::Eof => FrameFault::Eof,
            FrameError::Header(m) => FrameFault::Header(m@),
            FrameError::Io(m) => FrameFault::Io(m@),
        }
    }
}

impl FrameError {
    /// The human-readable text of the error.
    pub fn message(&self) -> (r: String)
        ensures
            self matches FrameError::Header(m) ==> r@ == "malformed header: "@ + m@,
            self matches FrameError::Io(m) ==> r@ == "io error: "@ + m@,
            self matches FrameError::Eof ==> r@ == "end of stream"@,
    {
        match self {
            FrameError::Eof => String::from_str("end of stream"),
            FrameError::Header(m) => String::from_str("malformed header: ").concat(m.as_str()),
            FrameError::Io(m) => String::from_str("io error: ").concat(m.as_str()),
        }
    }
}

/// Message of a header line that is not UTF-8 (as `BufRead::read_line` reports it).
pub open spec fn not_utf8_message() -> Seq<char> {
    "stream did not contain valid UTF-8"@
}

/// Message of a body shorter than announced (as `Read::read_exact` reports it).
pub open spec fn short_body_message() -> Seq<char> {
    "failed to fill whole buffer"@
}

pub open spec fn missing_length_message() -> Seq<char> {
    "missing Content-Length"@
}

pub open spec fn invalid_length_message(value: Seq<char>) -> Seq<char> {
    "invalid Content-Length: "@ + value
}

/// End of `s[..to]` once trailing `\r` and `\n` are removed.
pub open spec fn end_non_newline(s: Seq<char>, to: int) -> int
    decreases to,
{
    if 0 < to <= s.len() && (s[to - 1] == '\r' || s[to - 1] == '\n') {
        end_non_newline(s, to - 1)
    } else {
        to
    }
}

/// `str::trim_end_matches(['\r', '\n'])`.
pub open spec fn trim_newlines(s: Seq<char>) -> Seq<char> {
    s.subrange(0, end_non_newline(s, s.len() as int))
}

/// `u8::to_ascii_lowercase` on a character's code.
pub open spec fn ascii_lower(c: char) -> u32 {
    let u = c as u32;
    if 65 <= u <= 90 {
        (u + 32) as u32
    } else {
        u
    }
}

/// `str::eq_ignore_ascii_case`.
pub open spec fn eq_ignore_ascii_case(a: Seq<char>, b: Seq<char>) -> bool {
    a.len() == b.len() && forall|i: int| 0 <= i < a.len() ==> ascii_lower(a[i]) == ascii_lower(b[i])
}

/// What one header line does to the reader.
pub enum LineEffect {
    /// The blank line that ends the headers.
    End,
    /// A `Content-Length` header with this value.
    Length(nat),
    /// Any other well-formed header.
    Skip,
    /// The line stops the reader with this error.
    Fault(FrameFault),
}

/// The effect of one header line (its bytes, with the line end if any).
pub open spec fn line_effect(line: Seq<u8>) -> LineEffect {
    if !valid_utf8(line) {
        LineEffect::Fault(FrameFault::Io(not_utf8_message()))
    } else {
        let t = trim_newlines(decode_utf8(line));
        if t.len() == 0 {
            LineEffect::End
        } else {
            match first_index_of(t, ':') {
                None => LineEffect::Fault(FrameFault::Header(t)),
                Some(k) => {
                    let name = t.subrange(0, k);
                    let value = t.subrange(k + 1, t.len() as int);
                    if eq_ignore_ascii_case(trim(name), "content-length"@) {
                        match parse_usize(trim(value)) {
                            Some(n) => LineEffect::Length(n),
                            None => LineEffect::Fault(
                                FrameFault::Header(invalid_length_message(value)),
                            ),
                        }
                    } else {
                        LineEffect::Skip
                    }
                },
            }
        }
    }
}

/// Index just past the line that starts at `pos`: past its `\n`, or the end
/// of the input.
pub open spec fn line_end(input: Seq<u8>, pos: int) -> int
    decreases input.len() - pos,
{
    if pos >= input.len() {
        input.len() as int
    } else if input[pos] == 10 {
        pos + 1
    } else {
        line_end(input, pos + 1)
    }
}

/// Where reading the headers stops.
pub enum HeaderScan {
    /// The blank line ends at this index; the last `Content-Length` seen.
    Done(int, Option<nat>),
    Stopped(FrameFault),
}

/// Message of a stream that ends inside a message's header block.
pub open spec fn truncated_message() -> Seq<char> {
    "unexpected end of stream"@
}

/// What the end of the input means: a clean end of stream between messages,
/// before any header line of the next one; a truncated message once one of
/// its header lines was read.
pub open spec fn end_fault(inside_headers: bool) -> FrameFault {
    if inside_headers {
        FrameFault::Io(truncated_message())
    } else {
        FrameFault::Eof
    }
}

/// Reads header lines from `pos`, remembering the last `Content-Length`.
pub open spec fn scan_headers(input: Seq<u8>, pos: int, length: Option<nat>) -> HeaderScan
    decreases input.len() - pos,
{
    if pos < 0 || pos >= input.len() {
        HeaderScan::Stopped(end_fault(pos > 0))
    } else {
        let e = line_end(input, pos);
        if e <= pos || e > input.len() {
            HeaderScan::Stopped(end_fault(pos > 0))
        } else {
            match line_effect(input.subrange(pos, e)) {
                LineEffect::End => HeaderScan::Done(e, length),
                LineEffect::Length(n) => scan_headers(input, e, Some(n)),
                LineEffect::Skip => scan_headers(input, e, length),
                LineEffect::Fault(f) => HeaderScan::Stopped(f),
            }
        }
    }
}

/// The first message framed in `input`: its body and the number of bytes it
/// takes, or the error that reading it meets.
pub open spec fn read_frame(input: Seq<u8>) -> Result<(Seq<u8>, nat), FrameFault> {
    match scan_headers(input, 0, None) {
        HeaderScan::Stopped(f) => Err(f),
        HeaderScan::Done(p, None) => Err(FrameFault::Header(missing_length_message())),
        HeaderScan::Done(p, Some(n)) => if p + n <= input.len() {
            Ok((input.subrange(p, p + n), (p + n) as nat))
        } else {
            Err(FrameFault::Io(short_body_message()))
        },
    }
}

/// The decimal digit character for `d < 10`.
pub open spec fn digit_char(d: nat) -> char {
    ((48 + d) as u8) as char
}

/// The decimal representation of `n`, as `usize`'s `Display` writes it.
pub open spec fn decimal(n: nat) -> Seq<char>
    decreases n,
{
    if n < 10 {
        seq![digit_char(n)]
    } else {
        decimal(n / 10).push(digit_char(n % 10))
    }
}

/// The header block written before a body of `n` bytes.
pub open spec fn header_text(n: nat) -> Seq<char> {
    "Content-Length: "@ + decimal(n) + "\r\n\r\n"@
}

/// A framed message: the header block, then the body.
pub open spec fn frame(body: Seq<u8>) -> Seq<u8> {
    encode_utf8(header_text(body.len())) + body
}

/// The digits of `n`, most significant first.
pub fn decimal_chars(n: u64) -> (r: Vec<char>)
    ensures
        r@ == decimal(n as nat),
    decreases n,
{
    let d = (n % 10) as u8;
    let c = (48u8 + d) as char;
    if n < 10 {
        let mut v: Vec<char> = Vec::new();
        v.push(c);
        assert(v@ =~= seq![digit_char(n as nat)]);
        v
    } else {
        let mut v = decimal_chars(n / 10);
        v.push(c);
        v
    }
}

/// Appends `body` to `writer`, framed with its `Content-Length` header.
pub fn write_message(writer: &mut Vec<u8>, body: &[u8])
    ensures
        final(writer)@ == old(writer)@ + frame(body@),
{
    let mut header = String::from_str("Content-Length: ");
    let digits = decimal_chars(body.len() as u64);
    let digits_text = string_from_chars(&digits);
    header.append(digits_text.as_str());
    header.append("\r\n\r\n");
    let hb = header.as_str().as_bytes();
    assert(hb@ == encode_utf8(header_text(body@.len())));
    let ghost start = writer@;
    let mut i: usize = 0;
    while i < hb.len()
        invariant
            i <= hb@.len(),
            writer@ == start + hb@.subrange(0, i as int),
        decreases hb.len() - i,
    {
        writer.push(hb[i]);
        i = i + 1;
        assert(writer@ =~= start + hb@.subrange(0, i as int));
    }
    let mut j: usize = 0;
    while j < body.len()
        invariant
            i == hb@.len(),
            j <= body@.len(),
            writer@ == start + hb@ + body@.subrange(0, j as int),
        decreases body.len() - j,
    {
        writer.push(body[j]);
        j = j + 1;
        assert(writer@ =~= start + hb@ + body@.subrange(0, j as int));
    }
    assert(hb@.subrange(0, i as int) =~= hb@);
    assert(writer@ =~= start + (hb@ + body@));
}

/// The effect of a header line, as computed.
pub enum HeaderLine {
    End,
    Length(usize),
    Skip,
    Fault(FrameError),
}

impl HeaderLine {
    pub open spec fn effect(&self) -> LineEffect {
        match self {
            HeaderLine::End => LineEffect::End,
            HeaderLine::Length(n) => LineEffect::Length(*n as nat),
            HeaderLine::Skip => LineEffect::Skip,
            HeaderLine::Fault(e) => LineEffect::Fault(e@),
        }
    }
}

/// `str::eq_ignore_ascii_case` on character vectors.
pub fn eq_ignore_ascii_case_chars(a: &Vec<char>, b: &Vec<char>) -> (r: bool)
    ensures
        r == eq_ignore_ascii_case(a@, b@),
{
    if a.len() != b.len() {
        return false;
    }
    let mut i: usize = 0;
    while i < a.len()
        invariant
            a@.len() == b@.len(),
            i <= a@.len(),
            forall|j: int| 0 <= j < i ==> ascii_lower(a@[j]) == ascii_lower(b@[j]),
        decreases a.len() - i,
    {
        let x = a[i] as u32;
        let y = b[i] as u32;
        let lx = if 65 <= x && x <= 90 {
            x + 32
        } else {
            x
        };
        let ly = if 65 <= y && y <= 90 {
            y + 32
        } else {
            y
        };
        if lx != ly {
            assert(ascii_lower(a@[i as int]) != ascii_lower(b@[i as int]));
            return false;
        }
        i = i + 1;
    }
    true
}

/// Interprets one header line: its bytes as read, with the line end if any.
pub fn header_line(line: &[u8]) -> (r: HeaderLine)
    ensures
        r.effect() == line_effect(line@),
{
    let text = match string_from_utf8(bytes_to_vec(line)) {
        Ok(s) => s,
        Err(_) => {
            return HeaderLine::Fault(
                FrameError::Io(String::from_str("stream did not contain valid UTF-8")),
            );
        },
    };
    let chars = chars_of(text.as_str());
    let ghost d = decode_utf8(line@);
    let mut end = chars.len();
    while end > 0 && (chars[end - 1] == '\r' || chars[end - 1] == '\n')
        invariant
            chars@ == d,
            end <= chars@.len(),
            end_non_newline(d, end as int) == end_non_newline(d, d.len() as int),
        decreases end,
    {
        end = end - 1;
    }
    let t = sub_chars(&chars, 0, end);
    assert(t@ == trim_newlines(d));
    if t.len() == 0 {
        return HeaderLine::End;
    }
    match find_char(&t, ':') {
        None => HeaderLine::Fault(FrameError::Header(string_from_chars(&t))),
        Some(k) => {
            let name = trim_chars(&sub_chars(&t, 0, k));
            let value = sub_chars(&t, k + 1, t.len());
            let target = chars_of("content-length");
            if eq_ignore_ascii_case_chars(&name, &target) {
                match parse_usize_chars(&trim_chars(&value)) {
                    Some(n) => HeaderLine::Length(n),
                    None => {
                        let v = string_from_chars(&value);
                        HeaderLine::Fault(
                            FrameError::Header(
                                String::from_str("invalid Content-Length: ").concat(v.as_str()),
                            ),
                        )
                    },
                }
            } else {
                HeaderLine::Skip
            }
        },
    }
}

pub open spec fn opt_nat(o: Option<usize>) -> Option<nat> {
    match o {
        Some(n) => Some(n as nat),
        None => None,
    }
}

/// Incremental reader of one frame's header block: it is fed the header
/// lines one at a time and says when the body is due.
pub struct FrameDecoder {
    /// The last `Content-Length` seen so far.
    pub content_length: Option<usize>,
    /// Whether a header line of this frame was read.
    pub started: bool,
}

/// What the reader needs next.
pub enum FrameStep {
    /// Another header line.
    NeedLine,
    /// The headers are over: read exactly this many body bytes.
    ReadBody(usize),
    /// Reading stops with this error.
    Failed(FrameError),
}

impl FrameDecoder {
    pub fn new() -> (r: FrameDecoder)
        ensures
            r.content_length is None,
            !r.started,
    {
        FrameDecoder { content_length: None, started: false }
    }

    /// The error when the input ends now: a clean end of stream before the
    /// first header line, a truncated message after it.
    pub fn end_of_input(&self) -> (e: FrameError)
        ensures
            e@ == end_fault(self.started),
    {
        if self.started {
            FrameError::Io(String::from_str("unexpected end of stream"))
        } else {
            FrameError::Eof
        }
    }

    /// Feeds one header line (as `BufRead::read_line` returns it, never empty).
    pub fn feed_line(&mut self, line: &[u8]) -> (step: FrameStep)
        ensures
            final(self).started,
            match line_effect(line@) {
                LineEffect::End => {
                    &&& final(self).content_length == old(self).content_length
                    &&& match old(self).content_length {
                        Some(n) => step == FrameStep::ReadBody(n),
                        None => step matches FrameStep::Failed(e) && e@ == FrameFault::Header(
                            missing_length_message(),
                        ),
                    }
                },
                LineEffect::Length(n) => {
                    &&& step is NeedLine
                    &&& n <= usize::MAX
                    &&& final(self).content_length == Some(n as usize)
                },
                LineEffect::Skip => {
                    &&& step is NeedLine
                    &&& final(self).content_length == old(self).content_length
                },
                LineEffect::Fault(f) => {
                    &&& step matches FrameStep::Failed(e) && e@ == f
                    &&& final(self).content_length == old(self).content_length
                },
            },
    {
        self.started = true;
        match header_line(line) {
            HeaderLine::End => match self.content_length {
                Some(n) => FrameStep::ReadBody(n),
                None => FrameStep::Failed(
                    FrameError::Header(String::from_str("missing Content-Length")),
                ),
            },
            HeaderLine::Length(n) => {
                self.content_length = Some(n);
                FrameStep::NeedLine
            },
            HeaderLine::Skip => FrameStep::NeedLine,
            HeaderLine::Fault(e) => FrameStep::Failed(e),
        }
    }
}

pub proof fn lemma_line_end_bounds(input: Seq<u8>, pos: int)
    requires
        0 <= pos < input.len(),
    ensures
        pos < line_end(input, pos) <= input.len(),
        forall|k: int| pos <= k < line_end(input, pos) - 1 ==> input[k] != 10,
        line_end(input, pos) < input.len() ==> input[line_end(input, pos) - 1] == 10,
    decreases input.len() - pos,
{
    if input[pos] != 10 {
        if pos + 1 < input.len() {
            lemma_line_end_bounds(input, pos + 1);
        } else {
            assert(line_end(input, pos + 1) == input.len());
        }
    }
}

/// Index just past the line that starts at `pos`.
pub fn next_line_end(input: &[u8], pos: usize) -> (e: usize)
    requires
        pos < input.len(),
    ensures
        e as int == line_end(input@, pos as int),
        pos < e <= input.len(),
{
    proof {
        lemma_line_end_bounds(input@, pos as int);
    }
    let mut i = pos;
    while i < input.len() && input[i] != 10
        invariant
            pos <= i <= input.len(),
            line_end(input@, i as int) == line_end(input@, pos as int),
        decreases input.len() - i,
    {
        i = i + 1;
    }
    if i < input.len() {
        i + 1
    } else {
        i
    }
}

/// Copies `b[from..to]`.
pub fn sub_bytes(b: &[u8], from: usize, to: usize) -> (r: Vec<u8>)
    requires
        from <= to <= b.len(),
    ensures
        r@ == b@.subrange(from as int, to as int),
{
    let mut r: Vec<u8> = Vec::new();
    let mut i = from;
    while i < to
        invariant
            from <= i <= to <= b.len(),
            r@ == b@.subrange(from as int, i as int),
        decreases to - i,
    {
        r.push(b[i]);
        i = i + 1;
        assert(r@ =~= b@.subrange(from as int, i as int));
    }
    r
}

/// Reads the first framed message in `input`: returns its body and the number
/// of bytes it took, so that the next message starts right after.
pub fn read_message(input: &[u8]) -> (r: Result<(Vec<u8>, usize), FrameError>)
    ensures
        match r {
            Ok((body, used)) => read_frame(input@) == Ok::<(Seq<u8>, nat), FrameFault>(
                (body@, used as nat),
            ),
            Err(e) => read_frame(input@) == Err::<(Seq<u8>, nat), FrameFault>(e@),
        },
{
    let mut decoder = FrameDecoder::new();
    let mut pos: usize = 0;
    while pos < input.len()
        invariant
            pos <= input.len(),
            scan_headers(input@, 0, None) == scan_headers(
                input@,
                pos as int,
                opt_nat(decoder.content_length),
            ),
            decoder.started == (pos > 0),
        decreases input.len() - pos,
    {
        let e = next_line_end(input, pos);
        let line = sub_bytes(input, pos, e);
        match decoder.feed_line(line.as_slice()) {
            FrameStep::NeedLine => {
                pos = e;
            },
            FrameStep::ReadBody(n) => {
                if n <= input.len() - e {
                    let body = sub_bytes(input, e, e + n);
                    return Ok((body, e + n));
                } else {
                    return Err(FrameError::Io(String::from_str("failed to fill whole buffer")));
                }
            },
            FrameStep::Failed(err) => {
                return Err(err);
            },
        }
    }
    Err(decoder.end_of_input())
}

proof fn lemma_digit_char(d: nat)
    requires
        d < 10,
    ensures
        is_digit(digit_char(d)),
        digit_value(digit_char(d)) == d,
{
    assert((48 + d) as u8 == 48 + d);
    let c = digit_char(d);
    assert(c as u32 == 48 + d);
}

pub proof fn lemma_decimal(n: nat)
    ensures
        decimal(n).len() >= 1,
        all_digits(decimal(n)),
        digits_value(decimal(n)) == n,
    decreases n,
{
    lemma_digit_char(n % 10);
    if n < 10 {
        assert(is_digit(decimal(n)[0]));
        assert(decimal(n).drop_last() =~= Seq::<char>::empty());
        assert(decimal(n).last() == digit_char(n));
        assert(digits_value(decimal(n)) == digits_value(Seq::<char>::empty()) * 10 + digit_value(
            digit_char(n),
        ));
    } else {
        lemma_decimal(n / 10);
        assert(decimal(n).drop_last() =~= decimal(n / 10));
        assert(decimal(n).last() == digit_char(n % 10));
        assert(digits_value(decimal(n)) == digits_value(decimal(n / 10)) * 10 + digit_value(
            digit_char(n % 10),
        ));
        assert(n == (n / 10) * 10 + n % 10);
        assert forall|i: int| 0 <= i < decimal(n).len() implies is_digit(#[trigger] decimal(n)[i]) by {
            if i < decimal(n / 10).len() {
                assert(decimal(n)[i] == decimal(n / 10)[i]);
            }
        }
    }
}

proof fn lemma_line_end_at(input: Seq<u8>, pos: int, j: int)
    requires
        0 <= pos <= j < input.len(),
        input[j] == 10,
        forall|k: int| pos <= k < j ==> input[k] != 10,
    ensures
        line_end(input, pos) == j + 1,
    decreases j - pos,
{
    if pos < j {
        lemma_line_end_at(input, pos + 1, j);
    }
}

/// The header block is ASCII: the literal prefix, the digits, then CRLF CRLF.
proof fn lemma_header_text(n: nat)
    ensures
        header_text(n) =~= "Content-Length: "@ + decimal(n) + "\r\n\r\n"@,
        header_text(n).len() == 20 + decimal(n).len(),
        is_ascii_chars(header_text(n)),
        forall|k: int| 0 <= k < 17 + decimal(n).len() ==> header_text(n)[k] != '\n',
        header_text(n)[16 + decimal(n).len() as int] == '\r',
        header_text(n)[17 + decimal(n).len() as int] == '\n',
        header_text(n)[18 + decimal(n).len() as int] == '\r',
        header_text(n)[19 + decimal(n).len() as int] == '\n',
{
    lemma_decimal(n);
    reveal_strlit("Content-Length: ");
    reveal_strlit("\r\n\r\n");
    let p = "Content-Length: "@;
    let q = "\r\n\r\n"@;
    let d = decimal(n);
    let h = header_text(n);
    let dl = d.len() as int;
    assert(h =~= p + d + q);
    assert forall|i: int| 0 <= i < h.len() implies '\0' <= #[trigger] h[i] <= '\u{7f}' && (i < 17
        + dl ==> h[i] != '\n') by {
        if i < 16 {
            assert(h[i] == p[i]);
        } else if i < 16 + dl {
            assert(h[i] == d[i - 16]);
            assert(is_digit(d[i - 16]));
        } else {
            assert(h[i] == q[i - 16 - dl]);
        }
    }
}

/// The text `Content-Length: <n>` names the length header, with value `n`.
proof fn lemma_length_text(n: nat)
    requires
        n <= usize::MAX,
    ensures
        ("Content-Length: "@ + decimal(n)).len() > 15,
        first_index_of("Content-Length: "@ + decimal(n), ':') == Some(14int),
        eq_ignore_ascii_case(
            trim(("Content-Length: "@ + decimal(n)).subrange(0, 14)),
            "content-length"@,
        ),
        parse_usize(
            trim(
                ("Content-Length: "@ + decimal(n)).subrange(
                    15,
                    ("Content-Length: "@ + decimal(n)).len() as int,
                ),
            ),
        ) == Some(n),
{
    lemma_decimal(n);
    reveal_strlit("Content-Length: ");
    reveal_strlit("content-length");
    let p = "Content-Length: "@;
    let d = decimal(n);
    let dl = d.len() as int;
    let t = p + d;
    assert(t[14] == p[14]);
    assert(t[14] == ':');
    assert forall|k: int| 0 <= k < 14 implies t[k] != ':' by {
        assert(t[k] == p[k]);
    }
    let k = choose|i: int| 0 <= i < t.len() && t[i] == ':' && forall|j: int| 0 <= j < i ==> t[j] != ':';
    assert(0 <= 14 < t.len() && t[14] == ':' && forall|j: int| 0 <= j < 14 ==> t[j] != ':');
    assert(k == 14) by {
        if k < 14 {
            assert(t[k] != ':');
        } else if k > 14 {
            assert(t[14] != ':');
        }
    }
    assert(first_index_of(t, ':') == Some(14int));
    let name = t.subrange(0, 14);
    assert(name =~= p.subrange(0, 14));
    assert(!is_ws(name[0]) && !is_ws(name[13]));
    lemma_trim_unchanged(name);
    let target = "content-length"@;
    assert forall|i: int| 0 <= i < 14 implies ascii_lower(name[i]) == ascii_lower(target[i]) by {
        assert(name[i] == p[i]);
    }
    assert(eq_ignore_ascii_case(trim(name), target));
    let value = t.subrange(15, t.len() as int);
    assert(value =~= seq![' '] + d);
    assert(is_digit(d[0]));
    assert(first_non_ws(value, 1) == 1);
    assert(first_non_ws(value, 0) == 1);
    assert(trim_start(value) =~= d);
    assert(is_digit(d[dl - 1]));
    assert(end_non_ws(d, dl) == dl);
    assert(trim_end(d) =~= d);
    assert(trim(value) =~= d);
    assert(parse_usize(d) == Some(n));
}

/// The header line `Content-Length: <n>` sets the length to `n`.
#[verifier::spinoff_prover]
proof fn lemma_length_line(n: nat)
    requires
        n <= usize::MAX,
    ensures
        line_effect(encode_utf8(header_text(n).subrange(0, 18 + decimal(n).len() as int)))
            == LineEffect::Length(n),
{
    lemma_header_text(n);
    lemma_decimal(n);
    lemma_length_text(n);
    reveal_strlit("Content-Length: ");
    let p = "Content-Length: "@;
    let d = decimal(n);
    let dl = d.len() as int;
    let h = header_text(n);
    let e1 = 18 + dl;
    let h1 = h.subrange(0, e1);
    encode_utf8_valid_utf8(h1);
    encode_utf8_decode_utf8(h1);
    assert(h1[e1 - 1] == '\n' && h1[e1 - 2] == '\r');
    assert(end_non_newline(h1, e1) == end_non_newline(h1, e1 - 1));
    assert(end_non_newline(h1, e1 - 1) == end_non_newline(h1, 16 + dl));
    assert(is_digit(d[dl - 1]));
    assert(h1[16 + dl - 1] == d[dl - 1]);
    assert(end_non_newline(h1, 16 + dl) == 16 + dl);
    assert(trim_newlines(h1) =~= p + d);
}

/// The line `\r\n` ends the headers.
proof fn lemma_blank_line()
    ensures
        line_effect(encode_utf8(seq!['\r', '\n'])) == LineEffect::End,
{
    let h2 = seq!['\r', '\n'];
    encode_utf8_valid_utf8(h2);
    encode_utf8_decode_utf8(h2);
    assert(h2[0] == '\r' && h2[1] == '\n');
    assert(end_non_newline(h2, 0) == 0);
    assert(end_non_newline(h2, 1) == end_non_newline(h2, 0));
    assert(end_non_newline(h2, 2) == end_non_newline(h2, 1));
}

/// Reading a frame back gives the body that was framed, and the frame's
/// length, whatever bytes follow it.
#[verifier::spinoff_prover]
pub proof fn lemma_frame_round_trip(body: Seq<u8>, rest: Seq<u8>)
    requires
        body.len() <= usize::MAX,
    ensures
        read_frame(frame(body) + rest) == Ok::<(Seq<u8>, nat), FrameFault>(
            (body, frame(body).len()),
        ),
{
    let n = body.len();
    lemma_header_text(n);
    lemma_decimal(n);
    lemma_length_line(n);
    lemma_blank_line();
    let h = header_text(n);
    let dl = decimal(n).len() as int;
    let e = encode_utf8(h);
    is_ascii_chars_encode_utf8(h);
    let input = frame(body) + rest;
    assert(input =~= e + body + rest);
    let j1 = 17 + dl;
    assert forall|k: int| 0 <= k < j1 implies input[k] != 10 by {
        assert(input[k] == e[k]);
        assert(h[k] != '\n');
    }
    assert(input[j1] == e[j1]);
    lemma_line_end_at(input, 0, j1);
    let e1 = j1 + 1;
    let h1 = h.subrange(0, e1);
    is_ascii_chars_encode_utf8(h1);
    assert(input.subrange(0, e1) =~= encode_utf8(h1)) by {
        assert forall|i: int| 0 <= i < e1 implies input.subrange(0, e1)[i] == encode_utf8(h1)[i] by {
            assert(input[i] == e[i]);
            assert(h1[i] == h[i]);
        }
    }
    assert(scan_headers(input, 0, None) == scan_headers(input, e1, Some(n)));
    assert(input[e1] == e[e1]);
    assert(input[e1 + 1] == e[e1 + 1]);
    lemma_line_end_at(input, e1, e1 + 1);
    let h2 = seq!['\r', '\n'];
    is_ascii_chars_encode_utf8(h2);
    assert(input.subrange(e1, e1 + 2) =~= encode_utf8(h2)) by {
        assert(input[e1] == h[e1] as u8);
        assert(input[e1 + 1] == h[e1 + 1] as u8);
    }
    assert(scan_headers(input, e1, Some(n)) == HeaderScan::Done(e1 + 2, Some(n)));
    assert(e1 + 2 == e.len());
    assert(input.subrange(e1 + 2, e1 + 2 + n) =~= body);
}

/// Messages written back to back are read back one after the other: the
/// first read gives the first body, and reading on from where it stopped
/// gives the second.
pub proof fn lemma_back_to_back(first: Seq<u8>, second: Seq<u8>, rest: Seq<u8>)
    requires
        first.len() <= usize::MAX,
        second.len() <= usize::MAX,
    ensures
        read_frame(frame(first) + frame(second) + rest) == Ok::<(Seq<u8>, nat), FrameFault>(
            (first, frame(first).len()),
        ),
        read_frame(
            (frame(first) + frame(second) + rest).subrange(
                frame(first).len() as int,
                (frame(first) + frame(second) + rest).len() as int,
            ),
        ) == Ok::<(Seq<u8>, nat), FrameFault>((second, frame(second).len())),
{
    let all = frame(first) + frame(second) + rest;
    assert(all =~= frame(first) + (frame(second) + rest));
    lemma_frame_round_trip(first, frame(second) + rest);
    assert(all.subrange(frame(first).len() as int, all.len() as int) =~= frame(second) + rest);
    lemma_frame_round_trip(second, rest);
}

/// An input that ends before any header line is a clean end of stream.
pub proof fn lemma_empty_input_is_eof()
    ensures
        read_frame(Seq::<u8>::empty()) == Err::<(Seq<u8>, nat), FrameFault>(FrameFault::Eof),
{
}

} // verus!
