//! Demultiplexer for the daemon's combined log stream.
//!
//! The daemon interleaves standard output and standard error in one byte
//! stream. Each frame is an 8-byte header followed by a payload:
//!
//! ```text
//! [ STREAM_TYPE, 0, 0, 0, SIZE1, SIZE2, SIZE3, SIZE4 ] payload...
//! ```
//!
//! `STREAM_TYPE` is 0 for stdin, 1 for stdout and 2 for stderr; `SIZE1..4`
//! give the payload length as a big-endian `u32`.

use byteorder::{BigEndian, ByteOrder};
use vstd::prelude::*;
use vstd::slice::slice_subrange;
use vstd::utf8::{decode_utf8, valid_utf8};

verus! {

/// Length of a frame header in bytes.
pub const HEADER_LEN: usize = 8;

/// Stream-type tag of a frame that carries standard input.
pub const TAG_STDIN: u8 = 0;

/// Stream-type tag of a frame that carries standard output.
pub const TAG_STDOUT: u8 = 1;

/// Stream-type tag of a frame that carries standard error.
pub const TAG_STDERR: u8 = 2;

/// One line of log output, tagged with the stream it was written to.
#[derive(Debug, Clone, PartialEq, Eq)]
pub enum TtyLine {
    StdOut(String),
    StdErr(String),
}

/// The mathematical value of a [`TtyLine`]: its origin and its characters.
pub ghost enum Line {
    StdOut(Seq<char>),
    StdErr(Seq<char>),
}

impl View for TtyLine {
    type V = Line;

    open spec fn view(&self) -> Line {
        match self {
            TtyLine::StdOut(s) => Line::StdOut(s@),
            TtyLine::StdErr(s) => Line::StdErr(s@),
        }
    }
}

impl TtyLine {
    /// The text of the line, whichever stream it came from.
    pub open spec fn text(self) -> Seq<char> {
        match self {
            TtyLine::StdOut(s) => s@,
            TtyLine::StdErr(s) => s@,
        }
    }

    /// The text of the line as an owned string.
    pub fn to_string(&self) -> (s: String)
        ensures
            s@ == self.text(),
    {
        match self {
            TtyLine::StdOut(s) => s.clone(),
            TtyLine::StdErr(s) => s.clone(),
        }
    }
}

/// The decoded log: lines of stdout and stderr, interlaced in the order in
/// which their frames arrived.
#[derive(Debug, Clone, PartialEq, Eq)]
pub struct Tty {
    pub lines: Vec<TtyLine>,
}

impl View for Tty {
    type V = Seq<Line>;

    open spec fn view(&self) -> Seq<Line> {
        self.lines@.map_values(|l: TtyLine| l@)
    }
}

/// The number that four bytes spell in big-endian order.
pub open spec fn be_u32(b: Seq<u8>) -> nat
    recommends
        b.len() >= 4,
{
    (b[0] as nat) * 0x100_0000 + (b[1] as nat) * 0x1_0000 + (b[2] as nat) * 0x100 + (b[3] as nat)
}

/// Whether `c` has the Unicode property White_Space.
pub open spec fn is_whitespace(c: char) -> bool {
    let u = c as u32;
    ||| 0x09 <= u <= 0x0D
    ||| u == 0x20
    ||| u == 0x85
    ||| u == 0xA0
    ||| u == 0x1680
    ||| 0x2000 <= u <= 0x200A
    ||| u == 0x2028
    ||| u == 0x2029
    ||| u == 0x202F
    ||| u == 0x205F
    ||| u == 0x3000
}

/// `s` without its trailing whitespace.
pub open spec fn trim_end(s: Seq<char>) -> Seq<char>
    decreases s.len(),
{
    if s.len() > 0 && is_whitespace(s.last()) {
        trim_end(s.drop_last())
    } else {
        s
    }
}

/// What lossy UTF-8 decoding makes of `bytes`: the text they encode, with
/// U+FFFD in place of each malformed sequence.
pub uninterp spec fn utf8_lossy(bytes: Seq<u8>) -> Seq<char>;

/// The text that a payload is decoded to: the text that it encodes, if it
/// is well-formed UTF-8, and else what lossy decoding makes of it.
pub open spec fn decoded(payload: Seq<u8>) -> Seq<char> {
    if valid_utf8(payload) {
        decode_utf8(payload)
    } else {
        utf8_lossy(payload)
    }
}

/// The line that a payload is shown as: its text without trailing
/// whitespace.
pub open spec fn line_text(payload: Seq<u8>) -> Seq<char> {
    trim_end(decoded(payload))
}

/// The payload length that the header at the start of `stream` declares.
pub open spec fn payload_len(stream: Seq<u8>) -> nat
    recommends
        stream.len() >= HEADER_LEN,
{
    be_u32(stream.subrange(4, 8))
}

/// Whether `stream` starts with a complete frame: a full header and all the
/// payload bytes that the header declares.
pub open spec fn starts_with_frame(stream: Seq<u8>) -> bool {
    stream.len() >= HEADER_LEN && stream.len() - HEADER_LEN >= payload_len(stream)
}

/// The payload of the frame at the start of `stream`.
pub open spec fn first_payload(stream: Seq<u8>) -> Seq<u8>
    recommends
        starts_with_frame(stream),
{
    stream.subrange(HEADER_LEN as int, HEADER_LEN + payload_len(stream))
}

/// What follows the frame at the start of `stream`.
pub open spec fn after_first_frame(stream: Seq<u8>) -> Seq<u8>
    recommends
        starts_with_frame(stream),
{
    stream.skip(HEADER_LEN + payload_len(stream))
}

/// The lines that a multiplexed stream decodes to.
///
/// Decoding takes one complete frame after the other. It ends without an
/// error at the first place where no complete frame is left, and at the first
/// frame that is neither stdout nor stderr.
pub open spec fn demux(stream: Seq<u8>) -> Seq<Line>
    decreases stream.len(),
{
    if !starts_with_frame(stream) {
        Seq::empty()
    } else if stream[0] == TAG_STDOUT {
        seq![Line::StdOut(line_text(first_payload(stream)))] + demux(after_first_frame(stream))
    } else if stream[0] == TAG_STDERR {
        seq![Line::StdErr(line_text(first_payload(stream)))] + demux(after_first_frame(stream))
    } else {
        Seq::empty()
    }
}

/// Calls `byteorder::BigEndian::read_u32`, which reads the first four bytes of
/// `buf` as a big-endian number and panics on a shorter slice.
#[verifier::external_body]
fn read_be_u32(buf: &[u8]) -> (n: u32)
    requires
        buf@.len() >= 4,
    ensures
        n == be_u32(buf@),
{
    BigEndian::read_u32(buf)
}

/// Calls `String::from_utf8_lossy`. The result is a function of the bytes
/// alone; on well-formed UTF-8 it is the text that the bytes encode.
#[verifier::external_body]
fn from_utf8_lossy(bytes: &[u8]) -> (text: String)
    ensures
        text@ == utf8_lossy(bytes@),
        valid_utf8(bytes@) ==> text@ == decode_utf8(bytes@),
{
    String::from_utf8_lossy(bytes).into_owned()
}

/// Calls `str::trim_end`, which cuts off the longest suffix that is made of
/// White_Space characters only.
#[verifier::external_body]
fn str_trim_end(s: &str) -> (t: &str)
    ensures
        t@ == trim_end(s@),
{
    s.trim_end()
}

/// The line that a decoded payload is shown as: the text without its
/// trailing whitespace.
pub fn finish_line(decoded: &str) -> (text: String)
    ensures
        text@ == trim_end(decoded@),
{
    String::from_str(str_trim_end(decoded))
}

/// Decodes a payload to the line it is shown as. Bytes that are no UTF-8
/// come out as U+FFFD.
pub fn decode_line(payload: &[u8]) -> (text: String)
    ensures
        text@ == line_text(payload@),
{
    let text = from_utf8_lossy(payload);
    finish_line(text.as_str())
}

impl Tty {
    /// Demultiplexes what the daemon's log endpoint sent.
    ///
    /// Lines come out in the order of their frames. A truncated or malformed
    /// stream is no error: the result holds what was decoded up to there.
    pub fn new(stream: &[u8]) -> (tty: Tty)
        ensures
            tty@ == demux(stream@),
    {
        let mut lines: Vec<TtyLine> = Vec::new();
        let mut pos: usize = 0;
        let ghost so_far: Seq<Line> = Seq::empty();
        assert(stream@.skip(0) == stream@);
        loop
            invariant
                pos <= stream@.len(),
                so_far == lines@.map_values(|l: TtyLine| l@),
                so_far + demux(stream@.skip(pos as int)) == demux(stream@),
            ensures
                lines@.map_values(|l: TtyLine| l@) == demux(stream@),
            decreases stream@.len() - pos,
        {
            let ghost rest = stream@.skip(pos as int);
            if stream.len() - pos < HEADER_LEN {
                break ;
            }
            let header = slice_subrange(stream, pos, pos + HEADER_LEN);
            assert(header@ == rest.subrange(0, 8));
            assert(header@.subrange(4, 8) == rest.subrange(4, 8));
            let size = read_be_u32(slice_subrange(header, 4, 8)) as usize;
            if stream.len() - pos - HEADER_LEN < size {
                break ;
            }
            let start = pos + HEADER_LEN;
            let payload = slice_subrange(stream, start, start + size);
            assert(payload@ == first_payload(rest));
            assert(stream@.skip(start + size) == after_first_frame(rest));
            let tag = header[0];
            assert(tag == rest[0]);
            if tag == TAG_STDOUT {
                let text = decode_line(payload);
                lines.push(TtyLine::StdOut(text));
                proof {
                    so_far = so_far.push(Line::StdOut(text@));
                }
            } else if tag == TAG_STDERR {
                let text = decode_line(payload);
                lines.push(TtyLine::StdErr(text));
                proof {
                    so_far = so_far.push(Line::StdErr(text@));
                }
            } else {
                break ;
            }
            pos = start + size;
        }
        Tty { lines }
    }
}

/// A frame as the daemon puts it on the wire.
pub ghost struct Frame {
    /// The stream-type tag.
    pub tag: u8,
    /// The three bytes of the header that carry nothing.
    pub unused: (u8, u8, u8),
    /// The bytes that were written to the stream.
    pub payload: Seq<u8>,
}

/// The four bytes that spell `n` in big-endian order.
pub open spec fn be_bytes(n: nat) -> Seq<u8>
    recommends
        n <= u32::MAX,
{
    seq![
        (n / 0x100_0000) as u8,
        (n / 0x1_0000 % 0x100) as u8,
        (n / 0x100 % 0x100) as u8,
        (n % 0x100) as u8,
    ]
}

impl Frame {
    /// The payload is short enough for its length to be written into a
    /// header.
    pub open spec fn fits(self) -> bool {
        self.payload.len() <= u32::MAX
    }

    /// The frame carries standard output or standard error.
    pub open spec fn is_text(self) -> bool {
        self.tag == TAG_STDOUT || self.tag == TAG_STDERR
    }

    /// The header of the frame: the tag, the unused bytes, and the length
    /// of the payload.
    pub open spec fn header(self) -> Seq<u8> {
        seq![self.tag, self.unused.0, self.unused.1, self.unused.2] + be_bytes(self.payload.len())
    }

    /// The bytes of the frame: header, then payload.
    pub open spec fn bytes(self) -> Seq<u8> {
        self.header() + self.payload
    }

    /// The line that a frame of standard output or standard error is
    /// decoded to.
    pub open spec fn line(self) -> Line
        recommends
            self.is_text(),
    {
        if self.tag == TAG_STDOUT {
            Line::StdOut(line_text(self.payload))
        } else {
            Line::StdErr(line_text(self.payload))
        }
    }
}

/// Puts a payload into a frame: the header with its tag, zeros in its
/// unused bytes and its length, then the payload. The length has to fit
/// into the four bytes that the header has for it.
pub fn encode_frame(tag: u8, payload: &[u8]) -> (bytes: Vec<u8>)
    requires
        payload@.len() <= u32::MAX,
    ensures
        bytes@ == (Frame { tag, unused: (0, 0, 0), payload: payload@ }).bytes(),
{
    let len = payload.len();
    let mut bytes: Vec<u8> = Vec::new();
    bytes.push(tag);
    bytes.push(0);
    bytes.push(0);
    bytes.push(0);
    bytes.push((len / 0x100_0000) as u8);
    bytes.push((len / 0x1_0000 % 0x100) as u8);
    bytes.push((len / 0x100 % 0x100) as u8);
    bytes.push((len % 0x100) as u8);
    bytes.extend_from_slice(payload);
    assert(bytes@ =~= (Frame { tag, unused: (0, 0, 0), payload: payload@ }).bytes());
    bytes
}

/// The stream that is made of `frames`, one after the other.
pub open spec fn encode(frames: Seq<Frame>) -> Seq<u8>
    decreases frames.len(),
{
    if frames.len() == 0 {
        Seq::empty()
    } else {
        frames[0].bytes() + encode(frames.drop_first())
    }
}

/// Every frame fits, and carries standard output or standard error.
pub open spec fn all_text(frames: Seq<Frame>) -> bool {
    forall|i: int| 0 <= i < frames.len() ==> (#[trigger] frames[i]).fits() && frames[i].is_text()
}

/// The lines of `frames`, in the order of the frames.
pub open spec fn lines_of(frames: Seq<Frame>) -> Seq<Line> {
    frames.map_values(|frame: Frame| frame.line())
}

/// Reading back the bytes that spell a number gives the number.
pub proof fn lemma_be_u32_of_be_bytes(n: nat)
    requires
        n <= u32::MAX,
    ensures
        be_bytes(n).len() == 4,
        be_u32(be_bytes(n)) == n,
{
}

/// A stream that starts with a frame decodes to the frame's line, followed
/// by what the rest of the stream decodes to; if the frame is neither
/// standard output nor standard error, it decodes to nothing at all.
pub proof fn lemma_demux_frame(frame: Frame, rest: Seq<u8>)
    requires
        frame.fits(),
    ensures
        demux(frame.bytes() + rest) == if frame.is_text() {
            seq![frame.line()] + demux(rest)
        } else {
            Seq::empty()
        },
{
    let stream = frame.bytes() + rest;
    let n = frame.payload.len();
    lemma_be_u32_of_be_bytes(n);
    assert(stream.subrange(4, 8) =~= be_bytes(n));
    assert(payload_len(stream) == n);
    assert(starts_with_frame(stream));
    assert(first_payload(stream) =~= frame.payload);
    assert(after_first_frame(stream) =~= rest);
    assert(stream[0] == frame.tag);
}

/// Frames of standard output and standard error decode to their lines, in
/// the order of the frames, and decoding goes on behind them.
pub proof fn lemma_demux_frames(frames: Seq<Frame>, rest: Seq<u8>)
    requires
        all_text(frames),
    ensures
        demux(encode(frames) + rest) == lines_of(frames) + demux(rest),
    decreases frames.len(),
{
    if frames.len() == 0 {
        assert(encode(frames) + rest =~= rest);
        assert(lines_of(frames) + demux(rest) =~= demux(rest));
    } else {
        let first = frames[0];
        let others = frames.drop_first();
        assert(first.fits() && first.is_text());
        assert(all_text(others)) by {
            assert forall|i: int| 0 <= i < others.len() implies (#[trigger] others[i]).fits()
                && others[i].is_text() by {
                assert(others[i] == frames[i + 1]);
            }
        }
        lemma_demux_frames(others, rest);
        lemma_demux_frame(first, encode(others) + rest);
        assert(encode(frames) + rest =~= first.bytes() + (encode(others) + rest));
        assert(lines_of(frames) =~= seq![first.line()] + lines_of(others));
        assert(lines_of(frames) + demux(rest) =~= seq![first.line()] + (lines_of(others) + demux(
            rest,
        )));
    }
}

/// Decoding the stream that is made of frames of standard output and
/// standard error gives back their lines, in exactly the order of the
/// frames.
pub proof fn lemma_demux_encode(frames: Seq<Frame>)
    requires
        all_text(frames),
    ensures
        demux(encode(frames)) == lines_of(frames),
{
    lemma_demux_frames(frames, Seq::empty());
    assert(encode(frames) + Seq::<u8>::empty() =~= encode(frames));
    assert(demux(Seq::<u8>::empty()) =~= Seq::<Line>::empty());
    assert(lines_of(frames) + Seq::<Line>::empty() =~= lines_of(frames));
}

/// An empty stream decodes to no line.
pub proof fn lemma_demux_empty()
    ensures
        demux(Seq::<u8>::empty()) == Seq::<Line>::empty(),
{
}

/// A stream that breaks off in the middle of a frame, within the header or
/// within the payload, decodes to the lines of the frames that came before.
pub proof fn lemma_demux_truncated(frames: Seq<Frame>, tail: Seq<u8>)
    requires
        all_text(frames),
        !starts_with_frame(tail),
    ensures
        demux(encode(frames) + tail) == lines_of(frames),
{
    lemma_demux_frames(frames, tail);
    assert(lines_of(frames) + Seq::<Line>::empty() =~= lines_of(frames));
}

/// Fewer than eight bytes are no frame: a stream that breaks off within a
/// header is truncated.
pub proof fn lemma_short_tail_is_no_frame(tail: Seq<u8>)
    requires
        tail.len() < HEADER_LEN,
    ensures
        !starts_with_frame(tail),
{
}

/// Decoding ends at a frame that is neither standard output nor standard
/// error: the lines before it are kept, and nothing that follows it is
/// decoded.
pub proof fn lemma_demux_stops_at_other_tag(frames: Seq<Frame>, other: Frame, rest: Seq<u8>)
    requires
        all_text(frames),
        other.fits(),
        !other.is_text(),
    ensures
        demux(encode(frames) + other.bytes() + rest) == lines_of(frames),
{
    lemma_demux_frames(frames, other.bytes() + rest);
    lemma_demux_frame(other, rest);
    assert(encode(frames) + other.bytes() + rest =~= encode(frames) + (other.bytes() + rest));
    assert(lines_of(frames) + Seq::<Line>::empty() =~= lines_of(frames));
}

} // verus!
