//! Framed messages over a byte stream.
//!
//! On the wire a message is a frame: the length of its payload as a 32-bit
//! unsigned integer in little-endian order, then the payload. A payload holds
//! at most [`MAX_MESSAGE_SIZE`] bytes.

use crate::error::{IoErrorKind, IpcError, Result};
use crate::json::{
    json_decoding, json_encoding, json_error_text, json_from_slice, json_to_vec,
};
use vstd::prelude::*;
use vstd::slice::slice_subrange;

verus! {

/// The size of a frame's header: four bytes for the length.
pub const HEADER_SIZE: usize = 4;

/// The largest payload that a frame may carry: 16 MiB.
pub const MAX_MESSAGE_SIZE: usize = 16777216;

/// The bytes of a stream, as contracts speak of them.
pub type Wire = Seq<u8>;

/// A stream of bytes with blocking reads and writes.
///
/// `incoming` is what remains to be read before the stream ends; `written` is
/// everything written so far. A stream that is `reliable` never fails, and it
/// takes at least one byte of every non-empty write.
pub trait ByteStream {
    /// The bytes that remain to be read, up to the end of the stream.
    spec fn incoming(&self) -> Wire;

    /// The bytes written so far.
    spec fn written(&self) -> Wire;

    /// Whether reads and writes on this stream never fail.
    spec fn reliable(&self) -> bool;

    /// Reads at most `limit` bytes and appends them to `buf`. Returns the
    /// number of bytes read, which is zero only at the end of the stream or
    /// when `limit` is zero. After an error no byte has been read.
    fn read(&mut self, buf: &mut Vec<u8>, limit: usize) -> (r: core::result::Result<
        usize,
        IoErrorKind,
    >)
        ensures
            final(self).written() == old(self).written(),
            final(self).reliable() == old(self).reliable(),
            old(self).reliable() ==> r is Ok,
            match r {
                Ok(n) => {
                    &&& n <= limit
                    &&& n <= old(self).incoming().len()
                    &&& n == 0 ==> limit == 0 || old(self).incoming().len() == 0
                    &&& final(buf)@ == old(buf)@ + old(self).incoming().take(n as int)
                    &&& final(self).incoming() == old(self).incoming().skip(n as int)
                },
                Err(_) => {
                    &&& final(buf)@ == old(buf)@
                    &&& final(self).incoming() == old(self).incoming()
                },
            },
    ;

    /// Writes a prefix of `data` and returns its length. After an error no
    /// byte has been written.
    fn write(&mut self, data: &[u8]) -> (r: core::result::Result<usize, IoErrorKind>)
        ensures
            final(self).incoming() == old(self).incoming(),
            final(self).reliable() == old(self).reliable(),
            old(self).reliable() ==> r is Ok,
            match r {
                Ok(n) => {
                    &&& n <= data@.len()
                    &&& old(self).reliable() && data@.len() > 0 ==> n > 0
                    &&& final(self).written() == old(self).written() + data@.take(n as int)
                },
                Err(_) => final(self).written() == old(self).written(),
            },
    ;
}

/// The four bytes that stand for `n`, least significant first.
pub open spec fn le_bytes(n: nat) -> Seq<u8> {
    seq![
        (n % 256) as u8,
        ((n / 256) % 256) as u8,
        ((n / 65536) % 256) as u8,
        ((n / 16777216) % 256) as u8,
    ]
}

/// The number that the first four bytes of `b` stand for, least significant
/// first.
pub open spec fn le_value(b: Seq<u8>) -> nat {
    (b[0] + 256 * b[1] + 65536 * b[2] + 16777216 * b[3]) as nat
}

/// The frame that carries `payload`.
pub open spec fn frame(payload: Seq<u8>) -> Seq<u8> {
    le_bytes(payload.len()) + payload
}

/// What the bytes at the head of a stream hold.
pub enum Decoded {
    /// A whole frame, and the bytes that follow it.
    Frame { payload: Seq<u8>, rest: Seq<u8> },
    /// A header that declares more than the bound allows.
    TooLong { declared: nat },
    /// The stream ends inside the header or inside the payload.
    Truncated,
}

/// Reads `wire` as a frame followed by other bytes.
pub open spec fn decode(wire: Seq<u8>) -> Decoded {
    if wire.len() < 4 {
        Decoded::Truncated
    } else if le_value(wire) > MAX_MESSAGE_SIZE {
        Decoded::TooLong { declared: le_value(wire) }
    } else if wire.len() < 4 + le_value(wire) {
        Decoded::Truncated
    } else {
        Decoded::Frame {
            payload: wire.subrange(4, 4 + le_value(wire) as int),
            rest: wire.skip(4 + le_value(wire) as int),
        }
    }
}

/// The frames of `payloads`, one after the other.
pub open spec fn frames(payloads: Seq<Seq<u8>>) -> Seq<u8>
    decreases payloads.len(),
{
    if payloads.len() == 0 {
        Seq::empty()
    } else {
        frame(payloads[0]) + frames(payloads.drop_first())
    }
}

/// The payloads of the first `count` frames of `wire`, or `None` where one of
/// them is too long or cut short.
pub open spec fn decode_all(wire: Seq<u8>, count: nat) -> Option<Seq<Seq<u8>>>
    decreases count,
{
    if count == 0 {
        Some(Seq::empty())
    } else {
        match decode(wire) {
            Decoded::Frame { payload, rest } => match decode_all(rest, (count - 1) as nat) {
                Some(others) => Some(seq![payload] + others),
                None => None,
            },
            _ => None,
        }
    }
}

/// The header of a frame gives back the length it was made from.
pub proof fn lemma_header_round_trip(n: nat)
    requires
        n < 4294967296,
    ensures
        le_bytes(n).len() == 4,
        le_value(le_bytes(n)) == n,
{
}

/// Decoding inverts framing: the frame of a payload within the bound,
/// followed by any bytes, decodes to that payload and those bytes.
pub proof fn lemma_decode_frame(payload: Seq<u8>, rest: Seq<u8>)
    requires
        payload.len() <= MAX_MESSAGE_SIZE,
    ensures
        decode(frame(payload) + rest) == (Decoded::Frame { payload, rest }),
{
    let wire = frame(payload) + rest;
    lemma_header_round_trip(payload.len());
    assert(wire[0] == le_bytes(payload.len())[0]);
    assert(wire[1] == le_bytes(payload.len())[1]);
    assert(wire[2] == le_bytes(payload.len())[2]);
    assert(wire[3] == le_bytes(payload.len())[3]);
    assert(le_value(wire) == payload.len());
    assert(wire.subrange(4, 4 + payload.len() as int) =~= payload);
    assert(wire.skip(4 + payload.len() as int) =~= rest);
}

/// Frames arrive as they were sent: the payloads decoded from the frames of a
/// sequence of payloads, each within the bound, are that sequence, in order.
pub proof fn lemma_frames_round_trip(payloads: Seq<Seq<u8>>)
    requires
        forall|i: int| 0 <= i < payloads.len() ==> (#[trigger] payloads[i]).len()
            <= MAX_MESSAGE_SIZE,
    ensures
        decode_all(frames(payloads), payloads.len()) == Some(payloads),
    decreases payloads.len(),
{
    if payloads.len() > 0 {
        let others = payloads.drop_first();
        assert forall|i: int| 0 <= i < others.len() implies (#[trigger] others[i]).len()
            <= MAX_MESSAGE_SIZE by {
            assert(others[i] == payloads[i + 1]);
        }
        lemma_frames_round_trip(others);
        lemma_decode_frame(payloads[0], frames(others));
        assert(seq![payloads[0]] + others =~= payloads);
    } else {
        assert(payloads =~= Seq::<Seq<u8>>::empty());
    }
}

/// The header for a payload of `len` bytes.
pub fn encode_header(len: u32) -> (header: Vec<u8>)
    ensures
        header@ == le_bytes(len as nat),
{
    let mut header: Vec<u8> = Vec::new();
    header.push((len % 256) as u8);
    header.push(((len / 256) % 256) as u8);
    header.push(((len / 65536) % 256) as u8);
    header.push(((len / 16777216) % 256) as u8);
    assert(header@ =~= le_bytes(len as nat));
    header
}

/// The length that a header declares.
pub fn decode_header(header: &Vec<u8>) -> (len: u32)
    requires
        header@.len() == 4,
    ensures
        len == le_value(header@),
{
    let b0: u32 = header[0] as u32;
    let b1: u32 = header[1] as u32;
    let b2: u32 = header[2] as u32;
    let b3: u32 = header[3] as u32;
    b0 + 256 * b1 + 65536 * b2 + 16777216 * b3
}

/// Writes all of `data`, calling `write` until every byte is taken. Fails
/// with the stream's error, or with `WriteZero` where the stream takes no
/// byte; a prefix of `data` has been written then.
pub fn write_all<S: ByteStream>(stream: &mut S, data: &[u8]) -> (r: Result<()>)
    ensures
        final(stream).incoming() == old(stream).incoming(),
        final(stream).reliable() == old(stream).reliable(),
        old(stream).reliable() ==> r is Ok,
        match r {
            Ok(_) => final(stream).written() == old(stream).written() + data@,
            Err(e) => {
                &&& e is Io
                &&& exists|n: int|
                    0 <= n < data@.len() && final(stream).written() == old(stream).written()
                        + #[trigger] data@.take(n)
            },
        },
{
    let mut done: usize = 0;
    assert(data@.take(0) =~= Seq::<u8>::empty());
    assert(old(stream).written() + data@.take(0) =~= old(stream).written());
    while done < data.len()
        invariant
            done <= data@.len(),
            stream.incoming() == old(stream).incoming(),
            stream.reliable() == old(stream).reliable(),
            stream.written() == old(stream).written() + data@.take(done as int),
        decreases data@.len() - done,
    {
        let rest = slice_subrange(data, done, data.len());
        match stream.write(rest) {
            Ok(n) => {
                if n == 0 {
                    return Err(IpcError::Io(IoErrorKind::WriteZero));
                }
                assert(data@.take(done as int) + rest@.take(n as int) =~= data@.take(done + n));
                done = done + n;
            },
            Err(kind) => {
                return Err(IpcError::Io(kind));
            },
        }
    }
    assert(data@.take(done as int) =~= data@);
    Ok(())
}

/// Reads exactly `count` bytes, calling `read` until they are there. Fails
/// with the stream's error, or with `UnexpectedEof` where the stream ends
/// first.
pub fn read_exact<S: ByteStream>(stream: &mut S, count: usize) -> (r: Result<Vec<u8>>)
    ensures
        final(stream).written() == old(stream).written(),
        final(stream).reliable() == old(stream).reliable(),
        old(stream).reliable() ==> (r is Ok <==> count <= old(stream).incoming().len()),
        match r {
            Ok(bytes) => {
                &&& count <= old(stream).incoming().len()
                &&& bytes@ == old(stream).incoming().take(count as int)
                &&& final(stream).incoming() == old(stream).incoming().skip(count as int)
            },
            Err(e) => {
                &&& e is Io
                &&& old(stream).reliable() ==> e == IpcError::Io(IoErrorKind::UnexpectedEof)
                &&& exists|n: int|
                    0 <= n <= old(stream).incoming().len() && n < count && final(stream).incoming()
                        == #[trigger] old(stream).incoming().skip(n)
            },
        },
{
    let mut bytes: Vec<u8> = Vec::new();
    assert(old(stream).incoming().take(0) =~= Seq::<u8>::empty());
    assert(old(stream).incoming().skip(0) =~= old(stream).incoming());
    while bytes.len() < count
        invariant
            bytes@.len() <= count,
            bytes@.len() <= old(stream).incoming().len(),
            stream.written() == old(stream).written(),
            stream.reliable() == old(stream).reliable(),
            bytes@ == old(stream).incoming().take(bytes@.len() as int),
            stream.incoming() == old(stream).incoming().skip(bytes@.len() as int),
        decreases count - bytes@.len(),
    {
        let ghost before = bytes@;
        let want: usize = count - bytes.len();
        match stream.read(&mut bytes, want) {
            Ok(n) => {
                if n == 0 {
                    return Err(IpcError::Io(IoErrorKind::UnexpectedEof));
                }
                assert(bytes@ =~= old(stream).incoming().take(before.len() + n));
                assert(stream.incoming() =~= old(stream).incoming().skip(before.len() + n));
            },
            Err(kind) => {
                return Err(IpcError::Io(kind));
            },
        }
    }
    Ok(bytes)
}

/// Whether `r` and what the stream holds written `after` are what sending
/// `data` as one frame owes, for a stream that held `before`: a payload over
/// the bound is refused with `BufferTooSmall` and nothing is written;
/// otherwise the frame is written whole, or a stream that may fail breaks
/// off inside it with its error.
pub open spec fn frame_sent(
    data: Seq<u8>,
    reliable: bool,
    before: Seq<u8>,
    after: Seq<u8>,
    r: Result<()>,
) -> bool {
    if data.len() > MAX_MESSAGE_SIZE {
        &&& after == before
        &&& r matches Err(IpcError::BufferTooSmall { needed, got })
        &&& needed == data.len()
        &&& got == MAX_MESSAGE_SIZE
    } else {
        match r {
            Ok(_) => after == before + frame(data),
            Err(e) => {
                &&& e is Io
                &&& !reliable
                &&& exists|n: int|
                    0 <= n < frame(data).len() && after == before + #[trigger] frame(data).take(n)
            },
        }
    }
}

/// Whether `r` and what remains to be read, `rest`, are what receiving one
/// frame owes, for a stream that had `wire` to read. On a stream that does
/// not fail the result is the one that `decode` gives.
pub open spec fn frame_received(wire: Seq<u8>, reliable: bool, rest: Seq<u8>, r: Result<Vec<u8>>) -> bool {
    &&& rest.len() <= wire.len()
    &&& match r {
        Ok(bytes) => decode(wire) == (Decoded::Frame { payload: bytes@, rest }),
        Err(IpcError::BufferTooSmall { needed, got }) => {
            &&& decode(wire) == (Decoded::TooLong { declared: needed as nat })
            &&& got == MAX_MESSAGE_SIZE
            &&& rest == wire.skip(4)
        },
        Err(e) => e is Io && (reliable ==> decode(wire) is Truncated && e == IpcError::Io(
            IoErrorKind::UnexpectedEof,
        )),
    }
}

/// Sends `data` as one frame. A payload over the bound is refused before any
/// byte is written.
pub fn send_frame<S: ByteStream>(stream: &mut S, data: &[u8]) -> (r: Result<()>)
    ensures
        frame_sent(
            data@,
            old(stream).reliable(),
            old(stream).written(),
            final(stream).written(),
            r,
        ),
        final(stream).incoming() == old(stream).incoming(),
        final(stream).reliable() == old(stream).reliable(),
{
    if data.len() > MAX_MESSAGE_SIZE {
        assert(old(stream).written() + frame(data@).take(0) =~= old(stream).written());
        return Err(IpcError::BufferTooSmall { needed: data.len(), got: MAX_MESSAGE_SIZE });
    }
    let header = encode_header(data.len() as u32);
    match write_all(stream, header.as_slice()) {
        Ok(_) => {},
        Err(e) => {
            proof {
                let n = choose|n: int|
                    0 <= n < header@.len() && stream.written() == old(stream).written()
                        + #[trigger] header@.take(n);
                assert(frame(data@).take(n) =~= header@.take(n));
            }
            return Err(e);
        },
    }
    let ghost after_header = stream.written();
    match write_all(stream, data) {
        Ok(_) => {},
        Err(e) => {
            proof {
                let n = choose|n: int|
                    0 <= n < data@.len() && stream.written() == after_header
                        + #[trigger] data@.take(n);
                assert(frame(data@).take(4 + n) =~= header@ + data@.take(n));
                assert(old(stream).written() + header@
                    + data@.take(n) =~= old(stream).written() + frame(data@).take(4 + n));
            }
            return Err(e);
        },
    }
    assert(old(stream).written() + header@ + data@ =~= old(stream).written() + frame(data@));
    Ok(())
}

/// Receives one frame and returns its payload. Reads the header, refuses a
/// declared length over the bound before reading further, then reads the
/// payload and not one byte more.
pub fn recv_frame<S: ByteStream>(stream: &mut S) -> (r: Result<Vec<u8>>)
    ensures
        frame_received(
            old(stream).incoming(),
            old(stream).reliable(),
            final(stream).incoming(),
            r,
        ),
        final(stream).written() == old(stream).written(),
        final(stream).reliable() == old(stream).reliable(),
{
    let ghost wire = old(stream).incoming();
    let header = match read_exact(stream, HEADER_SIZE) {
        Ok(header) => header,
        Err(e) => {
            return Err(e);
        },
    };
    let ghost after_header = stream.incoming();
    assert(after_header.len() == wire.len() - 4);
    assert(le_value(header@) == le_value(wire));
    let len = decode_header(&header) as usize;
    if len > MAX_MESSAGE_SIZE {
        return Err(IpcError::BufferTooSmall { needed: len, got: MAX_MESSAGE_SIZE });
    }
    match read_exact(stream, len) {
        Ok(bytes) => {
            assert(bytes@ =~= wire.subrange(4, 4 + len));
            assert(stream.incoming() =~= wire.skip(4 + len));
            Ok(bytes)
        },
        Err(e) => Err(e),
    }
}

/// A byte stream held in memory: a fixed supply of bytes to read, and a
/// record of the bytes written. Each call moves at most `chunk` bytes, so
/// that partial reads and writes occur as they do on a pipe.
#[derive(Debug)]
pub struct MemoryStream {
    input: Vec<u8>,
    pos: usize,
    output: Vec<u8>,
    chunk: usize,
}

impl MemoryStream {
    /// The most bytes that one call moves.
    pub closed spec fn chunk_size(&self) -> nat {
        if self.chunk == 0 {
            1
        } else {
            self.chunk as nat
        }
    }

    /// A stream with nothing to read, which moves any number of bytes at once.
    pub fn new() -> (s: Self)
        ensures
            s.incoming() == Seq::<u8>::empty(),
            s.written() == Seq::<u8>::empty(),
            s.reliable(),
            s.chunk_size() == usize::MAX,
    {
        MemoryStream { input: Vec::new(), pos: 0, output: Vec::new(), chunk: usize::MAX }
    }

    /// A stream that offers `input` to read and moves at most `chunk` bytes
    /// per call. A `chunk` of zero counts as one.
    pub fn with_input(input: Vec<u8>, chunk: usize) -> (s: Self)
        ensures
            s.incoming() == input@,
            s.written() == Seq::<u8>::empty(),
            s.reliable(),
            s.chunk_size() == if chunk == 0 {
                1nat
            } else {
                chunk as nat
            },
    {
        assert(input@.skip(0) =~= input@);
        MemoryStream { input, pos: 0, output: Vec::new(), chunk }
    }

    /// The bytes written so far.
    pub fn output(&self) -> (out: &Vec<u8>)
        ensures
            out@ == self.written(),
    {
        &self.output
    }

    /// The number of bytes that remain to be read.
    pub fn remaining(&self) -> (n: usize)
        ensures
            n == self.incoming().len(),
    {
        if self.pos <= self.input.len() {
            self.input.len() - self.pos
        } else {
            0
        }
    }

    /// The most bytes that one call moves, as the calls count them.
    fn step(&self) -> (n: usize)
        ensures
            n == self.chunk_size(),
    {
        if self.chunk == 0 {
            1
        } else {
            self.chunk
        }
    }
}

/// The number of bytes that one call moves on a stream in memory: as many
/// as are asked for, as are there, and as the stream moves at once.
pub open spec fn moved(asked: nat, chunk: nat, there: nat) -> nat {
    if asked <= chunk && asked <= there {
        asked
    } else if chunk <= there {
        chunk
    } else {
        there
    }
}

impl ByteStream for MemoryStream {
    closed spec fn incoming(&self) -> Wire {
        if self.pos <= self.input@.len() {
            self.input@.skip(self.pos as int)
        } else {
            Seq::empty()
        }
    }

    closed spec fn written(&self) -> Wire {
        self.output@
    }

    open spec fn reliable(&self) -> bool {
        true
    }

    /// Reads as many bytes as `moved` says.
    fn read(&mut self, buf: &mut Vec<u8>, limit: usize) -> (r: core::result::Result<
        usize,
        IoErrorKind,
    >)
        ensures
            final(self).chunk_size() == old(self).chunk_size(),
            r matches Ok(n) && n == moved(
                limit as nat,
                old(self).chunk_size(),
                old(self).incoming().len(),
            ),
    {
        let available: usize = self.remaining();
        let step: usize = self.step();
        let mut count: usize = if limit < available {
            limit
        } else {
            available
        };
        if step < count {
            count = step;
        }
        if count == 0 {
            assert(old(self).incoming().take(0) =~= Seq::<u8>::empty());
            assert(old(self).incoming().skip(0) =~= old(self).incoming());
            assert(old(buf)@ + Seq::<u8>::empty() =~= old(buf)@);
            return Ok(0);
        }
        let start: usize = self.pos;
        assert(start <= self.input@.len() && available == self.input@.len() - start) by {
            if start > self.input@.len() {
                assert(self.incoming().len() == 0);
            }
        }
        let mut i: usize = 0;
        while i < count
            invariant
                i <= count,
                start + count <= self.input.len(),
                start == self.pos,
                *self == *old(self),
                buf@ == old(buf)@ + self.input@.subrange(start as int, start + i),
            decreases count - i,
        {
            buf.push(self.input[start + i]);
            assert(self.input@.subrange(start as int, start + i).push(self.input@[start + i])
                =~= self.input@.subrange(start as int, start + i + 1));
            i += 1;
        }
        assert(start + count <= self.input.len());
        self.pos = start + count;
        assert(self.input@.subrange(start as int, start + count) =~= self.input@.skip(
            start as int,
        ).take(count as int));
        assert(self.input@.skip(start + count) =~= self.input@.skip(start as int).skip(
            count as int,
        ));
        Ok(count)
    }

    /// Writes as many bytes as `moved` says: there is room for all.
    fn write(&mut self, data: &[u8]) -> (r: core::result::Result<usize, IoErrorKind>)
        ensures
            final(self).chunk_size() == old(self).chunk_size(),
            r matches Ok(n) && n == moved(data@.len(), old(self).chunk_size(), data@.len()),
    {
        let step: usize = self.step();
        let count: usize = if step < data.len() {
            step
        } else {
            data.len()
        };
        let mut i: usize = 0;
        while i < count
            invariant
                i <= count <= data@.len(),
                self.input == old(self).input,
                self.pos == old(self).pos,
                self.chunk == old(self).chunk,
                self.output@ == old(self).output@ + data@.take(i as int),
            decreases count - i,
        {
            self.output.push(data[i]);
            assert(data@.take(i as int).push(data@[i as int]) =~= data@.take(i + 1));
            i += 1;
        }
        Ok(count)
    }
}

/// The two directions of a framed conversation over one byte stream.
#[derive(Debug)]
pub struct IpcChannel<S> {
    stream: S,
}

impl<S: ByteStream> IpcChannel<S> {
    /// The stream under the channel.
    pub closed spec fn transport(&self) -> S {
        self.stream
    }

    /// A channel over `stream`.
    pub fn new(stream: S) -> (c: Self)
        ensures
            c.transport() == stream,
    {
        IpcChannel { stream }
    }

    /// The stream under the channel.
    pub fn stream(&self) -> (s: &S)
        ensures
            *s == self.transport(),
    {
        &self.stream
    }

    /// Takes the channel apart and returns its stream.
    pub fn into_inner(self) -> (s: S)
        ensures
            s == self.transport(),
    {
        self.stream
    }

    /// Sends raw bytes as one frame. More than [`MAX_MESSAGE_SIZE`] bytes are
    /// refused with `BufferTooSmall` before any byte is written.
    pub fn send_bytes(&mut self, data: &[u8]) -> (r: Result<()>)
        ensures
            final(self).transport().incoming() == old(self).transport().incoming(),
            final(self).transport().reliable() == old(self).transport().reliable(),
            frame_sent(
                data@,
                old(self).transport().reliable(),
                old(self).transport().written(),
                final(self).transport().written(),
                r,
            ),
    {
        send_frame(&mut self.stream, data)
    }

    /// Receives the payload of the next frame. A declared length over
    /// [`MAX_MESSAGE_SIZE`] is refused with `BufferTooSmall` once the header
    /// is read; a stream that ends inside a frame gives `UnexpectedEof`.
    pub fn recv_bytes(&mut self) -> (r: Result<Vec<u8>>)
        ensures
            final(self).transport().written() == old(self).transport().written(),
            final(self).transport().reliable() == old(self).transport().reliable(),
            frame_received(
                old(self).transport().incoming(),
                old(self).transport().reliable(),
                final(self).transport().incoming(),
                r,
            ),
    {
        recv_frame(&mut self.stream)
    }
}

/// What the head of a stream holds for a channel of JSON values.
pub enum DecodedValue {
    /// A frame whose payload encodes `value`, and the bytes after it.
    Value { value: serde_json::Value, rest: Seq<u8> },
    /// A frame whose payload is not JSON, and the bytes after it.
    Garbage { rest: Seq<u8> },
    /// A header that declares more than the bound allows.
    TooLong { declared: nat },
    /// The stream ends inside a frame.
    Truncated,
}

/// Reads the head of `wire` as a frame that encodes a JSON value.
pub open spec fn decode_value(wire: Seq<u8>) -> DecodedValue {
    match decode(wire) {
        Decoded::Frame { payload, rest } => match json_decoding(payload) {
            Some(value) => DecodedValue::Value { value, rest },
            None => DecodedValue::Garbage { rest },
        },
        Decoded::TooLong { declared } => DecodedValue::TooLong { declared },
        Decoded::Truncated => DecodedValue::Truncated,
    }
}

/// Whether `r` and what remains to be read, `rest`, are what receiving one
/// JSON value owes, for a stream that had `wire` to read: a frame whose
/// payload is not JSON is consumed and refused with `Deserialization`. On a
/// stream that does not fail the result is the one that `decode_value` gives.
pub open spec fn value_received(
    wire: Seq<u8>,
    reliable: bool,
    rest: Seq<u8>,
    r: Result<serde_json::Value>,
) -> bool {
    &&& rest.len() <= wire.len()
    &&& match r {
        Ok(value) => decode_value(wire) == (DecodedValue::Value { value, rest }),
        Err(IpcError::Deserialization(_)) => decode_value(wire) == (DecodedValue::Garbage {
            rest,
        }),
        Err(IpcError::BufferTooSmall { needed, got }) => {
            &&& decode_value(wire) == (DecodedValue::TooLong { declared: needed as nat })
            &&& got == MAX_MESSAGE_SIZE
            &&& rest == wire.skip(4)
        },
        Err(e) => e is Io && (reliable ==> decode_value(wire) is Truncated && e == IpcError::Io(
            IoErrorKind::UnexpectedEof,
        )),
    }
}

/// Sends a JSON value as one frame: the frame of its encoding. Nothing is
/// written where the encoding is over the bound (`BufferTooSmall`).
pub fn send_value<S: ByteStream>(stream: &mut S, value: &serde_json::Value) -> (r: Result<()>)
    ensures
        final(stream).incoming() == old(stream).incoming(),
        final(stream).reliable() == old(stream).reliable(),
        frame_sent(
            json_encoding(*value),
            old(stream).reliable(),
            old(stream).written(),
            final(stream).written(),
            r,
        ),
{
    let bytes = match json_to_vec(value) {
        Ok(bytes) => bytes,
        Err(e) => {
            return Err(IpcError::Serialization(json_error_text(&e)));
        },
    };
    send_frame(stream, bytes.as_slice())
}

/// Receives one frame and decodes its payload as a JSON value. A frame whose
/// payload is not JSON is consumed and refused with `Deserialization`.
pub fn recv_value<S: ByteStream>(stream: &mut S) -> (r: Result<serde_json::Value>)
    ensures
        final(stream).written() == old(stream).written(),
        final(stream).reliable() == old(stream).reliable(),
        value_received(
            old(stream).incoming(),
            old(stream).reliable(),
            final(stream).incoming(),
            r,
        ),
{
    let payload = match recv_frame(stream) {
        Ok(payload) => payload,
        Err(e) => {
            return Err(e);
        },
    };
    match json_from_slice(payload.as_slice()) {
        Ok(value) => Ok(value),
        Err(e) => Err(IpcError::Deserialization(json_error_text(&e))),
    }
}

/// With an encoding that loses nothing, receiving inverts sending: the frame
/// of a value's encoding, followed by any bytes, decodes to that value and
/// those bytes.
pub proof fn lemma_value_round_trip(value: serde_json::Value, rest: Seq<u8>)
    requires
        json_encoding(value).len() <= MAX_MESSAGE_SIZE,
        json_decoding(json_encoding(value)) == Some(value),
    ensures
        decode_value(frame(json_encoding(value)) + rest) == (DecodedValue::Value { value, rest }),
{
    lemma_decode_frame(json_encoding(value), rest);
}

impl<S: ByteStream> IpcChannel<S> {
    /// Sends a JSON value as one frame.
    pub fn send(&mut self, msg: &serde_json::Value) -> (r: Result<()>)
        ensures
            final(self).transport().incoming() == old(self).transport().incoming(),
            final(self).transport().reliable() == old(self).transport().reliable(),
            frame_sent(
                json_encoding(*msg),
                old(self).transport().reliable(),
                old(self).transport().written(),
                final(self).transport().written(),
                r,
            ),
    {
        send_value(&mut self.stream, msg)
    }

    /// Receives a JSON value from the next frame.
    pub fn recv(&mut self) -> (r: Result<serde_json::Value>)
        ensures
            final(self).transport().written() == old(self).transport().written(),
            final(self).transport().reliable() == old(self).transport().reliable(),
            value_received(
                old(self).transport().incoming(),
                old(self).transport().reliable(),
                final(self).transport().incoming(),
                r,
            ),
    {
        recv_value(&mut self.stream)
    }
}

/// The sending end of a framed channel.
#[derive(Debug)]
pub struct IpcSender<S> {
    stream: S,
}

/// The receiving end of a framed channel.
#[derive(Debug)]
pub struct IpcReceiver<S> {
    stream: S,
}

impl<S: ByteStream> IpcSender<S> {
    /// The stream under the sender.
    pub closed spec fn transport(&self) -> S {
        self.stream
    }

    /// A sender over `stream`.
    pub fn new(stream: S) -> (sender: Self)
        ensures
            sender.transport() == stream,
    {
        IpcSender { stream }
    }

    /// Takes the sender apart and returns its stream.
    pub fn into_inner(self) -> (s: S)
        ensures
            s == self.transport(),
    {
        self.stream
    }

    /// Sends raw bytes as one frame. More than [`MAX_MESSAGE_SIZE`] bytes are
    /// refused with `BufferTooSmall` before any byte is written.
    pub fn send_bytes(&mut self, data: &[u8]) -> (r: Result<()>)
        ensures
            final(self).transport().incoming() == old(self).transport().incoming(),
            final(self).transport().reliable() == old(self).transport().reliable(),
            frame_sent(
                data@,
                old(self).transport().reliable(),
                old(self).transport().written(),
                final(self).transport().written(),
                r,
            ),
    {
        send_frame(&mut self.stream, data)
    }

    /// Sends a JSON value as one frame.
    pub fn send(&mut self, msg: &serde_json::Value) -> (r: Result<()>)
        ensures
            final(self).transport().incoming() == old(self).transport().incoming(),
            final(self).transport().reliable() == old(self).transport().reliable(),
            frame_sent(
                json_encoding(*msg),
                old(self).transport().reliable(),
                old(self).transport().written(),
                final(self).transport().written(),
                r,
            ),
    {
        send_value(&mut self.stream, msg)
    }
}

impl<S: ByteStream> IpcReceiver<S> {
    /// The stream under the receiver.
    pub closed spec fn transport(&self) -> S {
        self.stream
    }

    /// A receiver over `stream`.
    pub fn new(stream: S) -> (receiver: Self)
        ensures
            receiver.transport() == stream,
    {
        IpcReceiver { stream }
    }

    /// Takes the receiver apart and returns its stream.
    pub fn into_inner(self) -> (s: S)
        ensures
            s == self.transport(),
    {
        self.stream
    }

    /// Receives the payload of the next frame.
    pub fn recv_bytes(&mut self) -> (r: Result<Vec<u8>>)
        ensures
            final(self).transport().written() == old(self).transport().written(),
            final(self).transport().reliable() == old(self).transport().reliable(),
            frame_received(
                old(self).transport().incoming(),
                old(self).transport().reliable(),
                final(self).transport().incoming(),
                r,
            ),
    {
        recv_frame(&mut self.stream)
    }

    /// Receives a JSON value from the next frame.
    pub fn recv(&mut self) -> (r: Result<serde_json::Value>)
        ensures
            final(self).transport().written() == old(self).transport().written(),
            final(self).transport().reliable() == old(self).transport().reliable(),
            value_received(
                old(self).transport().incoming(),
                old(self).transport().reliable(),
                final(self).transport().incoming(),
                r,
            ),
    {
        recv_value(&mut self.stream)
    }
}

} // verus!
