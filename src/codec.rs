//! Framing of protocol messages on a byte stream: each frame is a signed varint length
//! followed by that many message bytes.
use crate::varint::{
    decode_varint, encode_varint, leb128, leb_value, lemma_leb128_shape, lemma_leb128_short,
    lemma_minimal_varint, lemma_short_varint_value, lemma_unzigzag_zigzag, lemma_varint_end_unique,
    lemma_zigzag_unzigzag, u64_modulus, unzigzag, varint_ends_at, zigzag,
};
use bytes::{Buf, BytesMut};
use vstd::prelude::*;

verus! {

/// Largest payload that a frame may announce: 64 MiB.
pub const MAX_FRAME_LEN: usize = 67108864;

/// Why bytes are not a frame, or a payload cannot be framed.
#[derive(Debug, Clone, Copy, PartialEq, Eq, Structural)]
pub enum CodecError {
    /// No byte below 128 among the first ten: the length is no varint
    MalformedLength,
    /// The length is negative
    NegativeLength,
    /// The length is above [`MAX_FRAME_LEN`]
    FrameTooLarge,
    /// The payload is too long for its length to be written
    LengthOverflow,
}

/// What the start of a byte buffer holds.
#[derive(Debug, Clone, PartialEq, Eq)]
pub enum Decoded {
    /// Not a whole frame yet: more bytes are needed
    Incomplete,
    /// A frame of length zero, `consumed` bytes long: no message
    Empty { consumed: usize },
    /// A frame `consumed` bytes long carrying `payload`
    Frame { consumed: usize, payload: Vec<u8> },
}

/// Mathematical model of [`Decoded`].
pub enum DecodedModel {
    Incomplete,
    Empty { consumed: nat },
    Frame { consumed: nat, payload: Seq<u8> },
}

impl View for Decoded {
    type V = DecodedModel;

    open spec fn view(&self) -> DecodedModel {
        match self {
            Decoded::Incomplete => DecodedModel::Incomplete,
            Decoded::Empty { consumed } => DecodedModel::Empty { consumed: *consumed as nat },
            Decoded::Frame { consumed, payload } => DecodedModel::Frame {
                consumed: *consumed as nat,
                payload: payload@,
            },
        }
    }
}

/// Index of the last byte of the varint at the start of `b`, if one ends within its first
/// ten bytes.
pub open spec fn varint_end(b: Seq<u8>) -> Option<int> {
    if exists|k: int| varint_ends_at(b, k) {
        Some(choose|k: int| varint_ends_at(b, k))
    } else {
        None
    }
}

/// The frame length that a varint of `n` bytes at the start of `b` announces.
pub open spec fn announced_len(b: Seq<u8>, n: int) -> int {
    unzigzag(leb_value(b.take(n)) % u64_modulus())
}

/// What the start of `b` holds, or why it is no frame.
pub open spec fn frame_parse(b: Seq<u8>) -> Result<DecodedModel, CodecError> {
    match varint_end(b) {
        None => if b.len() < 10 {
            Ok(DecodedModel::Incomplete)
        } else {
            Err(CodecError::MalformedLength)
        },
        Some(k) => {
            let n = k + 1;
            let len = announced_len(b, n);
            if len < 0 {
                Err(CodecError::NegativeLength)
            } else if len == 0 {
                Ok(DecodedModel::Empty { consumed: n as nat })
            } else if len > MAX_FRAME_LEN {
                Err(CodecError::FrameTooLarge)
            } else if b.len() < n + len {
                Ok(DecodedModel::Incomplete)
            } else {
                Ok(DecodedModel::Frame { consumed: (n + len) as nat, payload: b.subrange(n, n + len) })
            }
        },
    }
}

/// The frame of `payload`: its length as a varint, then its bytes.
pub open spec fn frame_bytes(payload: Seq<u8>) -> Seq<u8> {
    leb128(zigzag(payload.len() as int)) + payload
}

/// Whether a decoding result is the one that `frame_parse` gives.
pub open spec fn decodes_as(r: Result<Decoded, CodecError>, expected: Result<DecodedModel, CodecError>) -> bool {
    match r {
        Ok(d) => expected == Ok::<DecodedModel, CodecError>(d@),
        Err(e) => expected == Err::<DecodedModel, CodecError>(e),
    }
}

fn copy_range(b: &[u8], from: usize, to: usize) -> (r: Vec<u8>)
    requires
        from <= to <= b.len(),
    ensures
        r@ == b@.subrange(from as int, to as int),
{
    let mut r: Vec<u8> = Vec::new();
    let mut i: usize = from;
    while i < to
        invariant
            from <= i <= to <= b.len(),
            r@ == b@.subrange(from as int, i as int),
        decreases to - i,
    {
        r.push(b[i]);
        i = i + 1;
        assert(r@ =~= b@.subrange(from as int, i as int));
    }
    r
}

/// Reads the frame at the start of `buf`: a whole frame, an empty frame, or word that more
/// bytes are needed; an error where the length is malformed, negative or too large.
pub fn decode(buf: &[u8]) -> (r: Result<Decoded, CodecError>)
    ensures
        decodes_as(r, frame_parse(buf@)),
{
    let limit: usize = if buf.len() < 10 {
        buf.len()
    } else {
        10
    };
    let mut k: usize = 0;
    while k < limit && buf[k] >= 128
        invariant
            k <= limit,
            limit <= buf.len(),
            limit == buf.len() || limit == 10,
            forall|j: int| 0 <= j < k ==> buf@[j] >= 128,
        decreases limit - k,
    {
        k = k + 1;
    }
    if k == limit {
        assert forall|j: int| !varint_ends_at(buf@, j) by {
            if varint_ends_at(buf@, j) {
                assert(buf@[j] >= 128);
            }
        }
        if buf.len() < 10 {
            return Ok(Decoded::Incomplete);
        } else {
            return Err(CodecError::MalformedLength);
        }
    }
    assert(varint_ends_at(buf@, k as int));
    match decode_varint(buf) {
        None => Err(CodecError::MalformedLength),
        Some((len, n)) => {
            proof {
                lemma_varint_end_unique(buf@, k as int, n - 1);
                let c = choose|j: int| varint_ends_at(buf@, j);
                lemma_varint_end_unique(buf@, k as int, c);
            }
            if len < 0 {
                Err(CodecError::NegativeLength)
            } else if len == 0 {
                Ok(Decoded::Empty { consumed: n })
            } else if len > MAX_FRAME_LEN as i64 {
                Err(CodecError::FrameTooLarge)
            } else {
                let len = len as usize;
                if buf.len() - n < len {
                    Ok(Decoded::Incomplete)
                } else {
                    let payload = copy_range(buf, n, n + len);
                    Ok(Decoded::Frame { consumed: n + len, payload })
                }
            }
        },
    }
}

/// Writes the frame of `payload`: its length as a signed varint, then its bytes. Fails
/// only where the length does not fit in an `i64`.
pub fn encode(payload: &[u8]) -> (r: Result<Vec<u8>, CodecError>)
    ensures
        payload.len() <= i64::MAX ==> (r matches Ok(bytes) && bytes@ == frame_bytes(payload@)),
        payload.len() > i64::MAX ==> r == Err::<Vec<u8>, CodecError>(CodecError::LengthOverflow),
{
    if payload.len() as u64 > i64::MAX as u64 {
        return Err(CodecError::LengthOverflow);
    }
    let mut bytes = encode_varint(payload.len() as i64);
    let ghost prefix = bytes@;
    let mut i: usize = 0;
    while i < payload.len()
        invariant
            i <= payload.len(),
            bytes@ == prefix + payload@.subrange(0, i as int),
        decreases payload.len() - i,
    {
        bytes.push(payload[i]);
        i = i + 1;
        assert(bytes@ =~= prefix + payload@.subrange(0, i as int));
    }
    assert(payload@.subrange(0, i as int) =~= payload@);
    Ok(bytes)
}

/// Decoding the frame of a nonempty payload within the size limit gives back that payload
/// and consumes the frame exactly, whatever bytes follow it.
pub proof fn lemma_decode_encode(payload: Seq<u8>, rest: Seq<u8>)
    requires
        0 < payload.len() <= MAX_FRAME_LEN,
    ensures
        frame_parse(frame_bytes(payload) + rest) == Ok::<DecodedModel, CodecError>(
            DecodedModel::Frame { consumed: frame_bytes(payload).len(), payload },
        ),
{
    let len = payload.len() as int;
    let prefix = leb128(zigzag(len));
    let b = frame_bytes(payload) + rest;
    lemma_leb128_shape(zigzag(len));
    lemma_leb128_short(zigzag(len));
    let k = prefix.len() - 1;
    assert(b =~= prefix + (payload + rest));
    assert forall|j: int| 0 <= j < k implies b[j] >= 128 by {
        assert(b[j] == prefix[j]);
    }
    assert(b[k] == prefix[k]);
    assert(varint_ends_at(b, k));
    let c = choose|j: int| varint_ends_at(b, j);
    lemma_varint_end_unique(b, k, c);
    assert(b.take(k + 1) =~= prefix);
    lemma_unzigzag_zigzag(len);
    assert(announced_len(b, k + 1) == len);
    assert(b.subrange(k + 1, k + 1 + len) =~= payload);
}

/// The frame of an empty payload is the one byte `0`, read as an empty frame.
pub proof fn lemma_empty_frame(rest: Seq<u8>)
    ensures
        frame_bytes(Seq::empty()) == seq![0u8],
        frame_parse(frame_bytes(Seq::empty()) + rest) == Ok::<DecodedModel, CodecError>(
            DecodedModel::Empty { consumed: 1 },
        ),
{
    let b = frame_bytes(Seq::empty()) + rest;
    assert(frame_bytes(Seq::empty()) =~= seq![0u8]);
    assert(varint_ends_at(b, 0));
    let c = choose|j: int| varint_ends_at(b, j);
    lemma_varint_end_unique(b, 0, c);
    assert(b.take(1) =~= seq![0u8]);
    assert(b.take(1).drop_first() =~= Seq::<u8>::empty());
    assert(leb_value(b.take(1).drop_first()) == 0);
    assert(leb_value(b.take(1)) == 0);
}

/// Whether the length of the frame at the start of `b` is written in the fewest bytes:
/// its last byte is nonzero, unless it is the only one, and it has fewer than ten bytes.
pub open spec fn minimal_length_prefix(b: Seq<u8>) -> bool {
    match varint_end(b) {
        Some(k) => k < 9 && (k == 0 || b[k] != 0),
        None => false,
    }
}

/// Encoding the payload of a decoded frame whose length is written in the fewest bytes
/// gives back the bytes of that frame.
pub proof fn lemma_encode_decode(b: Seq<u8>)
    requires
        frame_parse(b) is Ok,
        frame_parse(b)->Ok_0 is Frame,
        minimal_length_prefix(b),
    ensures
        frame_bytes(frame_parse(b)->Ok_0->Frame_payload) == b.take(
            frame_parse(b)->Ok_0->Frame_consumed as int,
        ),
{
    let k = varint_end(b)->Some_0;
    assert(varint_ends_at(b, k));
    let n = k + 1;
    let s = b.take(n);
    assert(s.last() == b[k]);
    assert forall|j: int| 0 <= j < s.len() - 1 implies s[j] >= 128 by {
        assert(s[j] == b[j]);
    }
    lemma_minimal_varint(s);
    lemma_short_varint_value(s);
    let v = leb_value(s);
    assert(v % u64_modulus() == v);
    let len = announced_len(b, n);
    assert(len == unzigzag(v));
    lemma_zigzag_unzigzag(v);
    let payload = b.subrange(n, n + len);
    assert(zigzag(payload.len() as int) == v);
    assert(frame_bytes(payload) =~= b.take(n + len));
}

#[verifier::external_type_specification]
#[verifier::external_body]
pub struct ExBytesMut(BytesMut);

/// The bytes that a `BytesMut` holds, first to last.
pub uninterp spec fn buffered(b: BytesMut) -> Seq<u8>;

/// Relies on `BytesMut::new` of the bytes crate: an empty buffer.
#[verifier::external_body]
fn bytes_new() -> (r: BytesMut)
    ensures
        buffered(r) == Seq::<u8>::empty(),
{
    BytesMut::new()
}

/// Relies on `BytesMut::extend_from_slice` of the bytes crate: the bytes of `data` are added
/// at the end. It panics only where the buffer's capacity would pass `isize::MAX`.
#[verifier::external_body]
fn bytes_extend(b: &mut BytesMut, data: &[u8])
    requires
        buffered(*old(b)).len() + data@.len() <= isize::MAX,
    ensures
        buffered(*final(b)) == buffered(*old(b)) + data@,
{
    b.extend_from_slice(data)
}

/// Relies on `Buf::chunk` of the bytes crate for `BytesMut`: all the bytes it holds, as one
/// slice.
#[verifier::external_body]
fn bytes_chunk(b: &BytesMut) -> (r: &[u8])
    ensures
        r@ == buffered(*b),
{
    b.chunk()
}

/// Relies on `Buf::advance` of the bytes crate for `BytesMut`: the first `n` bytes are
/// dropped. It panics where `n` is above the number of bytes held.
#[verifier::external_body]
fn bytes_advance(b: &mut BytesMut, n: usize)
    requires
        n <= buffered(*old(b)).len(),
    ensures
        buffered(*final(b)) == buffered(*old(b)).skip(n as int),
{
    b.advance(n)
}

/// Bytes received from a stream and not yet decoded into frames. Frames may be split
/// anywhere across the chunks that are added.
pub struct FrameBuffer {
    bytes: BytesMut,
}

impl View for FrameBuffer {
    type V = Seq<u8>;

    closed spec fn view(&self) -> Seq<u8> {
        buffered(self.bytes)
    }
}

impl FrameBuffer {
    /// An empty buffer.
    pub fn new() -> (r: Self)
        ensures
            r@ == Seq::<u8>::empty(),
    {
        FrameBuffer { bytes: bytes_new() }
    }

    /// Number of bytes held.
    pub fn len(&self) -> (r: usize)
        ensures
            r == self@.len(),
    {
        bytes_chunk(&self.bytes).len()
    }

    /// Adds bytes received from the stream; the buffer may hold at most `isize::MAX` bytes.
    pub fn extend(&mut self, data: &[u8])
        requires
            old(self)@.len() + data@.len() <= isize::MAX,
        ensures
            final(self)@ == old(self)@ + data@,
    {
        bytes_extend(&mut self.bytes, data);
    }

    /// Takes the next frame off the front of the buffer. A whole or empty frame is removed;
    /// where more bytes are needed, or on an error, the buffer stays as it was.
    pub fn next_frame(&mut self) -> (r: Result<Decoded, CodecError>)
        ensures
            decodes_as(r, frame_parse(old(self)@)),
            match r {
                Ok(Decoded::Empty { consumed }) => final(self)@ == old(self)@.skip(consumed as int),
                Ok(Decoded::Frame { consumed, .. }) => final(self)@ == old(self)@.skip(consumed as int),
                _ => final(self)@ == old(self)@,
            },
    {
        let r = decode(bytes_chunk(&self.bytes));
        let consumed = match &r {
            Ok(Decoded::Empty { consumed }) => *consumed,
            Ok(Decoded::Frame { consumed, .. }) => *consumed,
            _ => 0,
        };
        if consumed > 0 {
            bytes_advance(&mut self.bytes, consumed);
        }
        r
    }
}

} // verus!
