//! Content-Length framing: one JSON payload per frame, announced by a header
//! line `Content-Length: N` and a blank line, then exactly N bytes.
use vstd::prelude::*;
use vstd::slice::slice_subrange;

use crate::text::{
    all_digits, decimal, is_digit, lemma_decimal_digits, trim_end, trim_start, digits_value, parse_count, parse_u64, push_decimal, trim, trim_bounds,
    unsigned_body,
};

verus! {

/// Why no frame could be read.
#[derive(Debug, Clone, Copy, PartialEq, Eq, Structural)]
pub enum FrameError {
    /// The stream ended before the blank line that closes the headers.
    Eof,
    /// A `Content-Length` header held no valid byte count.
    BadLength,
    /// The headers ended without a `Content-Length` header.
    MissingLength,
    /// Fewer payload bytes remained than the header announced.
    Truncated,
}

/// What one header line says.
#[derive(Debug, Clone, Copy, PartialEq, Eq, Structural)]
pub enum HeaderLine {
    /// The blank line that closes the headers.
    End,
    /// A `Content-Length` header with its byte count.
    Length(usize),
    /// Any other header, which is ignored.
    Other,
}

/// The bytes `Content-Length:`.
pub open spec fn length_key() -> Seq<u8> {
    seq![67u8, 111, 110, 116, 101, 110, 116, 45, 76, 101, 110, 103, 116, 104, 58]
}

/// `s` without its trailing carriage returns and line feeds.
pub open spec fn trim_newlines(s: Seq<u8>) -> Seq<u8>
    decreases s.len(),
{
    if s.len() > 0 && (s.last() == 10 || s.last() == 13) {
        trim_newlines(s.drop_last())
    } else {
        s
    }
}

/// How a raw header line, with or without its line break, is read.
pub open spec fn header_line_spec(raw: Seq<u8>) -> Result<HeaderLine, FrameError> {
    let l = trim_newlines(raw);
    if l.len() == 0 {
        Ok(HeaderLine::End)
    } else if l.len() >= 15 && l.subrange(0, 15) == length_key() {
        match parse_count(trim(l.subrange(15, l.len() as int)), usize::MAX as nat) {
            Some(n) => Ok(HeaderLine::Length(n as usize)),
            None => Err(FrameError::BadLength),
        }
    } else {
        Ok(HeaderLine::Other)
    }
}

/// The index just past the line that starts at `i`: past its line feed, or the
/// end of `buf` where no line feed follows.
pub open spec fn line_end(buf: Seq<u8>, i: int) -> int
    decreases buf.len() - i,
{
    if i >= buf.len() {
        buf.len() as int
    } else if buf[i] == 10 {
        i + 1
    } else {
        line_end(buf, i + 1)
    }
}

pub proof fn lemma_line_end(buf: Seq<u8>, i: int)
    requires
        0 <= i < buf.len(),
    ensures
        i < line_end(buf, i) <= buf.len(),
    decreases buf.len() - i,
{
    if buf[i] != 10 {
        if i + 1 < buf.len() {
            lemma_line_end(buf, i + 1);
        } else {
            assert(line_end(buf, i + 1) == buf.len());
        }
    }
}

/// Reads the header lines from `pos` on, with `len` the last byte count seen:
/// the final byte count and the index where the payload starts.
pub open spec fn scan_headers(buf: Seq<u8>, pos: int, len: Option<usize>) -> Result<
    (Option<usize>, int),
    FrameError,
>
    decreases buf.len() - pos,
    via scan_headers_decreases
{
    if pos < 0 || pos >= buf.len() {
        Err(FrameError::Eof)
    } else {
        let e = line_end(buf, pos);
        match header_line_spec(buf.subrange(pos, e)) {
            Err(x) => Err(x),
            Ok(HeaderLine::End) => Ok((len, e)),
            Ok(HeaderLine::Length(n)) => scan_headers(buf, e, Some(n)),
            Ok(HeaderLine::Other) => scan_headers(buf, e, len),
        }
    }
}

#[via_fn]
proof fn scan_headers_decreases(buf: Seq<u8>, pos: int, len: Option<usize>) {
    if 0 <= pos < buf.len() {
        lemma_line_end(buf, pos);
    }
}

/// The frame at the start of `buf`: its payload and the number of bytes it spans.
pub open spec fn decode_spec(buf: Seq<u8>) -> Result<(Seq<u8>, int), FrameError> {
    match scan_headers(buf, 0, None) {
        Err(e) => Err(e),
        Ok((None, _)) => Err(FrameError::MissingLength),
        Ok((Some(n), s)) => if s + n > buf.len() {
            Err(FrameError::Truncated)
        } else {
            Ok((buf.subrange(s, s + n), s + n))
        },
    }
}

/// The header block that announces a payload of `n` bytes.
pub open spec fn frame_header(n: nat) -> Seq<u8> {
    seq![67u8, 111, 110, 116, 101, 110, 116, 45, 76, 101, 110, 103, 116, 104, 58, 32] + decimal(
        n,
    ) + seq![13u8, 10, 13, 10]
}

/// The frame that carries `payload`.
pub open spec fn frame_of(payload: Seq<u8>) -> Seq<u8> {
    frame_header(payload.len()) + payload
}

/// The index just past the line of `buf` that starts at `start`.
fn find_line_end(buf: &[u8], start: usize) -> (e: usize)
    requires
        start < buf@.len(),
    ensures
        e as int == line_end(buf@, start as int),
{
    let mut i: usize = start;
    while i < buf.len() && buf[i] != 10
        invariant
            start <= i <= buf@.len(),
            line_end(buf@, start as int) == line_end(buf@, i as int),
        decreases buf.len() - i,
    {
        i = i + 1;
    }
    if i < buf.len() {
        i + 1
    } else {
        i
    }
}

/// Reads one raw header line, with or without its line break.
pub fn header_line(raw: &[u8]) -> (r: Result<HeaderLine, FrameError>)
    ensures
        r == header_line_spec(raw@),
{
    let mut e: usize = raw.len();
    assert(raw@.subrange(0, e as int) =~= raw@);
    while e > 0 && (raw[e - 1] == 10 || raw[e - 1] == 13)
        invariant
            e <= raw@.len(),
            trim_newlines(raw@) == trim_newlines(raw@.subrange(0, e as int)),
        decreases e,
    {
        assert(raw@.subrange(0, e as int).drop_last() =~= raw@.subrange(0, e - 1));
        e = e - 1;
    }
    let ghost l = raw@.subrange(0, e as int);
    if e == 0 {
        return Ok(HeaderLine::End);
    }
    if e < 15 || raw[0] != 67 || raw[1] != 111 || raw[2] != 110 || raw[3] != 116 || raw[4] != 101
        || raw[5] != 110 || raw[6] != 116 || raw[7] != 45 || raw[8] != 76 || raw[9] != 101
        || raw[10] != 110 || raw[11] != 103 || raw[12] != 116 || raw[13] != 104 || raw[14] != 58 {
        proof {
            if l.len() >= 15 && l.subrange(0, 15) == length_key() {
                assert(l.subrange(0, 15)[0] == raw@[0]);
                assert(length_key()[0] == 67);
                assert(forall|k: int| 0 <= k < 15 ==> l.subrange(0, 15)[k] == raw@[k]);
            }
        }
        return Ok(HeaderLine::Other);
    }
    assert(l.subrange(0, 15) =~= length_key());
    let value = slice_subrange(raw, 15, e);
    assert(value@ =~= l.subrange(15, l.len() as int));
    let (a, b) = trim_bounds(value);
    let digits = slice_subrange(value, a, b);
    match parse_u64(digits) {
        Some(n) => {
            if n <= usize::MAX as u64 {
                Ok(HeaderLine::Length(n as usize))
            } else {
                Err(FrameError::BadLength)
            }
        },
        None => {
            proof {
                let d = unsigned_body(digits@);
                if d.len() > 0 && all_digits(d) && digits_value(d) <= usize::MAX as nat {
                    assert(digits_value(d) <= u64::MAX);
                }
            }
            Err(FrameError::BadLength)
        },
    }
}

fn take_payload(buf: &[u8], len: Option<usize>, start: usize) -> (r: Result<(Vec<u8>, usize), FrameError>)
    requires
        start <= buf@.len(),
    ensures
        r matches Ok((p, k)) ==> len matches Some(n) && start + n <= buf@.len() && p@ == buf@.subrange(
            start as int,
            start + n,
        ) && k == start + n,
        r matches Err(e) ==> (len is None && e == FrameError::MissingLength) || (len matches Some(
            n,
        ) && start + n > buf@.len() && e == FrameError::Truncated),
{
    match len {
        None => Err(FrameError::MissingLength),
        Some(n) => {
            if n > buf.len() - start {
                Err(FrameError::Truncated)
            } else {
                let payload = vstd::slice::slice_to_vec(slice_subrange(buf, start, start + n));
                Ok((payload, start + n))
            }
        },
    }
}

/// Reads the frame at the start of `buf`: its payload, and how many bytes of
/// `buf` the frame spans.
pub fn read_frame(buf: &[u8]) -> (r: Result<(Vec<u8>, usize), FrameError>)
    ensures
        r matches Ok((p, k)) ==> decode_spec(buf@) == Ok::<(Seq<u8>, int), FrameError>(
            (p@, k as int),
        ),
        r matches Err(e) ==> decode_spec(buf@) == Err::<(Seq<u8>, int), FrameError>(e),
{
    let mut pos: usize = 0;
    let mut len: Option<usize> = None;
    loop
        invariant
            pos <= buf@.len(),
            scan_headers(buf@, 0, None) == scan_headers(buf@, pos as int, len),
        decreases buf@.len() - pos,
    {
        if pos >= buf.len() {
            return Err(FrameError::Eof);
        }
        let e = find_line_end(buf, pos);
        proof {
            lemma_line_end(buf@, pos as int);
        }
        let line = slice_subrange(buf, pos, e);
        match header_line(line) {
            Err(x) => {
                return Err(x);
            },
            Ok(HeaderLine::End) => {
                return take_payload(buf, len, e);
            },
            Ok(HeaderLine::Length(n)) => {
                len = Some(n);
                pos = e;
            },
            Ok(HeaderLine::Other) => {
                pos = e;
            },
        }
    }
}

/// The frame that carries `payload`: a `Content-Length` header, a blank line,
/// then the payload bytes.
pub fn write_frame(payload: &[u8]) -> (r: Vec<u8>)
    ensures
        r@ == frame_of(payload@),
{
    let mut out: Vec<u8> = vec![67u8, 111, 110, 116, 101, 110, 116, 45, 76, 101, 110, 103, 116, 104, 58, 32];
    push_decimal(&mut out, payload.len() as u64);
    out.push(13);
    out.push(10);
    out.push(13);
    out.push(10);
    assert(out@ =~= frame_header(payload@.len()));
    let ghost head = out@;
    let mut i: usize = 0;
    while i < payload.len()
        invariant
            i <= payload@.len(),
            out@ == head + payload@.subrange(0, i as int),
        decreases payload.len() - i,
    {
        out.push(payload[i]);
        assert(out@ =~= head + payload@.subrange(0, i + 1));
        i = i + 1;
    }
    assert(payload@.subrange(0, i as int) =~= payload@);
    out
}

proof fn lemma_line_end_at(buf: Seq<u8>, i: int, j: int)
    requires
        0 <= i <= j < buf.len(),
        buf[j] == 10,
        forall|k: int| i <= k < j ==> buf[k] != 10,
    ensures
        line_end(buf, i) == j + 1,
    decreases j - i,
{
    if i < j {
        lemma_line_end_at(buf, i + 1, j);
    }
}

proof fn lemma_trim_digits(d: Seq<u8>)
    requires
        d.len() > 0,
        all_digits(d),
    ensures
        trim(seq![32u8] + d) == d,
        trim_newlines(d + seq![13u8, 10]) == d,
{
    let s = seq![32u8] + d;
    assert(s.drop_first() =~= d);
    assert(trim_start(s) == trim_start(d));
    assert(is_digit(d[0]));
    assert(trim_start(d) == d);
    assert(is_digit(d.last()));
    assert(trim_end(d) == d);
    lemma_trim_crlf(d);
}

proof fn lemma_trim_crlf(x: Seq<u8>)
    requires
        x.len() > 0,
        is_digit(x.last()),
    ensures
        trim_newlines(x + seq![13u8, 10]) == x,
{
    let t = x + seq![13u8, 10];
    assert(t.drop_last() =~= x + seq![13u8]);
    assert((x + seq![13u8]).drop_last() =~= x);
    assert(trim_newlines(x) == x);
    assert(trim_newlines(x + seq![13u8]) == trim_newlines(x));
    assert(trim_newlines(t) == trim_newlines(x + seq![13u8]));
}

proof fn lemma_first_line(n: nat, buf: Seq<u8>)
    requires
        n <= usize::MAX,
        buf.len() >= frame_header(n).len() - 2,
        forall|k: int| 0 <= k < frame_header(n).len() - 2 ==> buf[k] == frame_header(n)[k],
    ensures
        scan_headers(buf, 0, None) == scan_headers(
            buf,
            frame_header(n).len() - 2,
            Some(n as usize),
        ),
{
    let d = decimal(n);
    lemma_decimal_digits(n);
    let key = seq![67u8, 111, 110, 116, 101, 110, 116, 45, 76, 101, 110, 103, 116, 104, 58];
    let h1: int = 16 + d.len() as int + 2;
    assert(frame_header(n).len() == h1 + 2);
    assert forall|k: int| 0 <= k < h1 - 1 implies buf[k] != 10 by {
        assert(buf[k] == frame_header(n)[k]);
        if 16 <= k < 16 + d.len() {
            assert(frame_header(n)[k] == d[k - 16]);
            assert(is_digit(d[k - 16]));
        }
    }
    assert(buf[h1 - 1] == frame_header(n)[h1 - 1]);
    assert(buf[h1 - 1] == 10);
    lemma_line_end_at(buf, 0, h1 - 1);
    let line1 = buf.subrange(0, h1);
    assert(line1 =~= (key + seq![32u8] + d) + seq![13u8, 10]);
    lemma_trim_digits(d);
    let l = key + seq![32u8] + d;
    assert(line1 =~= l + seq![13u8, 10]);
    assert(is_digit(l.last()));
    lemma_trim_crlf(l);
    assert(l.subrange(0, 15) =~= length_key());
    assert(l.subrange(15, l.len() as int) =~= seq![32u8] + d);
    assert(unsigned_body(d) == d) by {
        assert(is_digit(d[0]));
    }
    assert(header_line_spec(line1) == Ok::<HeaderLine, FrameError>(HeaderLine::Length(n as usize)));
}

/// The header block of a frame reads as announcing its byte count, whatever
/// follows it.
pub proof fn lemma_header_scan(n: nat, rest: Seq<u8>)
    requires
        n <= usize::MAX,
    ensures
        scan_headers(frame_header(n) + rest, 0, None) == Ok::<(Option<usize>, int), FrameError>(
            (Some(n as usize), frame_header(n).len() as int),
        ),
{
    let buf = frame_header(n) + rest;
    let hlen: int = frame_header(n).len() as int;
    let h1: int = hlen - 2;
    lemma_first_line(n, buf);
    assert(buf[h1] == 13 && buf[h1 + 1] == 10);
    lemma_line_end_at(buf, h1, h1 + 1);
    let line2 = buf.subrange(h1, hlen);
    assert(line2 =~= seq![13u8, 10]);
    assert(line2.drop_last() =~= seq![13u8]);
    assert(seq![13u8].drop_last() =~= Seq::<u8>::empty());
    assert(trim_newlines(Seq::<u8>::empty()).len() == 0);
    assert(trim_newlines(seq![13u8]) == trim_newlines(Seq::<u8>::empty()));
    assert(trim_newlines(line2) == trim_newlines(seq![13u8]));
    assert(scan_headers(buf, h1, Some(n as usize)) == Ok::<(Option<usize>, int), FrameError>(
        (Some(n as usize), hlen),
    ));
}

/// Reading back a written frame gives its payload, whatever follows it in the
/// stream, and consumes exactly the frame.
pub proof fn lemma_frame_round_trip(payload: Seq<u8>, rest: Seq<u8>)
    requires
        payload.len() <= usize::MAX,
    ensures
        decode_spec(frame_of(payload) + rest) == Ok::<(Seq<u8>, int), FrameError>(
            (payload, frame_of(payload).len() as int),
        ),
{
    let n = payload.len();
    lemma_header_scan(n, payload + rest);
    assert(frame_of(payload) + rest =~= frame_header(n) + (payload + rest));
    let h = frame_header(n).len() as int;
    assert((frame_of(payload) + rest).subrange(h, h + n) =~= payload);
}

/// A stream that ends before all the announced payload bytes have come gives
/// `Truncated`.
pub proof fn lemma_short_payload(n: nat, available: Seq<u8>)
    requires
        n <= usize::MAX,
        available.len() < n,
    ensures
        decode_spec(frame_header(n) + available) == Err::<(Seq<u8>, int), FrameError>(
            FrameError::Truncated,
        ),
{
    lemma_header_scan(n, available);
}

proof fn lemma_no_line_feed(buf: Seq<u8>, i: int)
    requires
        0 <= i <= buf.len(),
        forall|k: int| i <= k < buf.len() ==> buf[k] != 10,
    ensures
        line_end(buf, i) == buf.len(),
    decreases buf.len() - i,
{
    if i < buf.len() {
        lemma_no_line_feed(buf, i + 1);
    }
}

proof fn lemma_trim_newlines_nonempty(s: Seq<u8>)
    requires
        s.len() > 0,
        s[0] != 10 && s[0] != 13,
    ensures
        trim_newlines(s).len() > 0,
    decreases s.len(),
{
    if s.len() > 1 {
        lemma_trim_newlines_nonempty(s.drop_last());
    }
}

/// Every strict prefix of a frame with a non-empty payload fails to decode:
/// a stream that closes before the length header, before the blank line, or
/// before the last payload byte gives an error, never a frame.
pub proof fn lemma_truncated_frame(payload: Seq<u8>, k: int)
    requires
        0 < payload.len() <= usize::MAX,
        0 <= k < frame_of(payload).len(),
    ensures
        decode_spec(frame_of(payload).subrange(0, k)) is Err,
{
    let n = payload.len();
    let f = frame_of(payload);
    let buf = f.subrange(0, k);
    let hlen: int = frame_header(n).len() as int;
    let h1: int = hlen - 2;
    lemma_decimal_digits(n);
    assert(hlen == 16 + decimal(n).len() + 4);
    assert forall|j: int| 0 <= j < k && j < hlen implies buf[j] == #[trigger] frame_header(n)[j] by {}
    if k >= hlen {
        let avail = payload.subrange(0, k - hlen);
        assert(buf =~= frame_header(n) + avail);
        lemma_short_payload(n, avail);
    } else if k >= h1 {
        lemma_first_line(n, buf);
        if k == h1 + 1 {
            assert(buf[h1] == frame_header(n)[h1]);
            assert(buf[h1] == 13);
            lemma_no_line_feed(buf, h1);
            assert(buf.subrange(h1, k) =~= seq![13u8]);
            assert(seq![13u8].drop_last() =~= Seq::<u8>::empty());
            assert(trim_newlines(seq![13u8]) == trim_newlines(Seq::<u8>::empty()));
            assert(header_line_spec(buf.subrange(h1, k)) == Ok::<HeaderLine, FrameError>(
                HeaderLine::End,
            ));
            assert(scan_headers(buf, h1, Some(n as usize)) == Ok::<(Option<usize>, int), FrameError>(
                (Some(n as usize), k),
            ));
        } else {
            assert(scan_headers(buf, h1, Some(n as usize)) is Err);
        }
    } else if k > 0 {
        let d = decimal(n);
        assert forall|j: int| 0 <= j < k implies buf[j] != 10 by {
            assert(buf[j] == frame_header(n)[j]);
            if 16 <= j < 16 + d.len() {
                assert(frame_header(n)[j] == d[j - 16]);
                assert(is_digit(d[j - 16]));
            }
        }
        lemma_no_line_feed(buf, 0);
        assert(buf[0] == frame_header(n)[0]);
        assert(buf.subrange(0, k) =~= buf);
        lemma_trim_newlines_nonempty(buf);
        assert(header_line_spec(buf) != Ok::<HeaderLine, FrameError>(HeaderLine::End));
        assert(line_end(buf, 0) == k);
        match header_line_spec(buf) {
            Ok(HeaderLine::Length(m)) => {
                assert(scan_headers(buf, k, Some(m)) is Err);
            },
            Ok(_) => {
                assert(scan_headers(buf, k, None) is Err);
            },
            Err(_) => {},
        }
        assert(scan_headers(buf, 0, None) is Err);
    }
}

} // verus!
