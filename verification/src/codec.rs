//! Binary framing for the duplex channel. A frame is a fixed 13-byte header
//! (1 byte kind tag, 8 bytes little-endian correlation identifier, 4 bytes
//! little-endian payload length) followed by exactly that many payload bytes.
//! Encoding and decoding are pure functions on bytes; the transport layer
//! moves the bytes and feeds partial reads into [`BodyReader`].

use vstd::prelude::*;
use vstd::bytes::*;

use crate::error::{UnicomError, UnicomErrorKind};

verus! {

/// Number of bytes in a frame header.
pub const HEADER_LEN: usize = 13;

/// Upper bound on the bytes moved by one transport read or write.
pub const CHUNK_LEN: usize = 1024;

/// Kind tag of the one-time handshake frame carrying the node configuration.
pub const HANDSHAKE_TAG: u8 = 0x42;

/// The kinds of steady-state frames on the wire.
#[derive(Debug, Clone, Copy, PartialEq, Eq, Structural)]
pub enum FrameKind {
    Error,
    Request,
    Response,
    Quit,
}

/// The wire tag of each frame kind. Tag 3 is reserved and never produced.
pub open spec fn spec_tag_of_kind(k: FrameKind) -> u8 {
    match k {
        FrameKind::Error => 0,
        FrameKind::Request => 1,
        FrameKind::Response => 2,
        FrameKind::Quit => 4,
    }
}

/// The frame kind a wire tag decodes to; reserved and unknown tags (3, the
/// handshake tag, and everything else) decode to nothing.
pub open spec fn spec_kind_of_tag(t: u8) -> Option<FrameKind> {
    if t == 0 {
        Some(FrameKind::Error)
    } else if t == 1 {
        Some(FrameKind::Request)
    } else if t == 2 {
        Some(FrameKind::Response)
    } else if t == 4 {
        Some(FrameKind::Quit)
    } else {
        None
    }
}

/// One discrete message on the wire: kind, correlation identifier, payload.
#[derive(Debug, Clone)]
pub struct Frame {
    pub kind: FrameKind,
    pub id: u64,
    pub payload: Vec<u8>,
}

impl Frame {
    /// A frame fit for the wire: the payload length fits the 4-byte length
    /// field, and a quit frame carries identifier 0 and no payload.
    pub open spec fn wf(self) -> bool {
        &&& self.payload@.len() <= u32::MAX
        &&& (self.kind == FrameKind::Quit ==> self.id == 0 && self.payload@.len() == 0)
    }
}

/// The 13 header bytes for a given tag, identifier and payload length.
pub open spec fn spec_header_bytes(tag: u8, id: u64, len: u32) -> Seq<u8> {
    seq![tag] + spec_u64_to_le_bytes(id) + spec_u32_to_le_bytes(len)
}

/// The full byte image of a frame: header then payload.
pub open spec fn spec_encode_frame(f: Frame) -> Seq<u8> {
    spec_header_bytes(spec_tag_of_kind(f.kind), f.id, f.payload@.len() as u32) + f.payload@
}

/// What a complete byte image decodes to — kind, identifier and payload — or
/// nothing when the tag is unknown or the length field disagrees with the
/// actual byte count.
pub open spec fn spec_decode_frame(bytes: Seq<u8>) -> Option<(FrameKind, u64, Seq<u8>)> {
    if bytes.len() < HEADER_LEN {
        None
    } else {
        let tag = bytes[0];
        let id = spec_u64_from_le_bytes(bytes.subrange(1, 9));
        let len = spec_u32_from_le_bytes(bytes.subrange(9, 13));
        if bytes.len() != HEADER_LEN + len {
            None
        } else {
            match spec_kind_of_tag(tag) {
                Some(k) => Some((k, id, bytes.subrange(13, bytes.len() as int))),
                None => None,
            }
        }
    }
}

/// The wire tag of a frame kind.
pub fn tag_of_kind(k: FrameKind) -> (t: u8)
    ensures
        t == spec_tag_of_kind(k),
{
    match k {
        FrameKind::Error => 0,
        FrameKind::Request => 1,
        FrameKind::Response => 2,
        FrameKind::Quit => 4,
    }
}

/// The frame kind of a wire tag, if the tag is a valid steady-state tag.
pub fn kind_of_tag(t: u8) -> (k: Option<FrameKind>)
    ensures
        k == spec_kind_of_tag(t),
{
    if t == 0 {
        Some(FrameKind::Error)
    } else if t == 1 {
        Some(FrameKind::Request)
    } else if t == 2 {
        Some(FrameKind::Response)
    } else if t == 4 {
        Some(FrameKind::Quit)
    } else {
        None
    }
}

/// Build the 13 header bytes for one frame.
pub fn encode_header(tag: u8, id: u64, len: u32) -> (out: Vec<u8>)
    ensures
        out@ == spec_header_bytes(tag, id, len),
        out@.len() == HEADER_LEN,
{
    proof {
        lemma_auto_spec_u64_to_from_le_bytes();
        lemma_auto_spec_u32_to_from_le_bytes();
    }
    let mut out: Vec<u8> = Vec::new();
    out.push(tag);
    let id_bytes = u64_to_le_bytes(id);
    out.extend_from_slice(id_bytes.as_slice());
    let len_bytes = u32_to_le_bytes(len);
    out.extend_from_slice(len_bytes.as_slice());
    assert(out@ =~= spec_header_bytes(tag, id, len));
    out
}

/// Encode one well-formed frame into its full byte image.
pub fn encode_frame(f: &Frame) -> (out: Vec<u8>)
    requires
        f.wf(),
    ensures
        out@ == spec_encode_frame(*f),
        out@.len() == HEADER_LEN + f.payload@.len(),
{
    let len = f.payload.len() as u32;
    let mut out = encode_header(tag_of_kind(f.kind), f.id, len);
    out.extend_from_slice(f.payload.as_slice());
    assert(out@ =~= spec_encode_frame(*f));
    out
}

/// Encode the one-time handshake frame: handshake tag, identifier 0, and the
/// JSON image of the node configuration as payload.
pub fn encode_handshake(payload: &Vec<u8>) -> (out: Vec<u8>)
    requires
        payload@.len() <= u32::MAX,
    ensures
        out@ == spec_header_bytes(HANDSHAKE_TAG as u8, 0, payload@.len() as u32) + payload@,
        out@.len() == HEADER_LEN + payload@.len(),
{
    let mut out = encode_header(HANDSHAKE_TAG, 0, payload.len() as u32);
    out.extend_from_slice(payload.as_slice());
    assert(out@ =~= spec_header_bytes(HANDSHAKE_TAG as u8, 0, payload@.len() as u32) + payload@);
    out
}

/// The three header fields read back from 13 header bytes.
pub fn decode_header(h: &[u8]) -> (r: (u8, u64, u32))
    requires
        h@.len() == HEADER_LEN,
    ensures
        r.0 == h@[0],
        r.1 == spec_u64_from_le_bytes(h@.subrange(1, 9)),
        r.2 == spec_u32_from_le_bytes(h@.subrange(9, 13)),
{
    let tag = *vstd::slice::slice_index_get(h, 0);
    let id = u64_from_le_bytes(vstd::slice::slice_subrange(h, 1, 9));
    let len = u32_from_le_bytes(vstd::slice::slice_subrange(h, 9, 13));
    (tag, id, len)
}

/// Assemble a frame from its decoded header fields and its payload bytes.
/// Fails with a data-invalid error on the reserved tag 3 and on every other
/// tag outside the steady-state enumeration, the handshake tag among them.
pub fn frame_from_parts(tag: u8, id: u64, payload: Vec<u8>) -> (r: Result<Frame, UnicomError>)
    ensures
        match r {
            Ok(f) => {
                &&& spec_kind_of_tag(tag) == Some(f.kind)
                &&& f.id == id
                &&& f.payload@ == payload@
            },
            Err(e) => {
                &&& spec_kind_of_tag(tag) is None
                &&& e.kind == UnicomErrorKind::DataInvalid
            },
        },
{
    match kind_of_tag(tag) {
        Some(kind) => Ok(Frame { kind, id, payload }),
        None => Err(UnicomError::new(UnicomErrorKind::DataInvalid, "kind message unknown")),
    }
}

/// Decode one complete byte image back into a frame. The image must hold the
/// whole frame and nothing more; the transport guarantees that by reading
/// exactly the declared payload length after each header.
pub fn decode_frame(bytes: &Vec<u8>) -> (r: Result<Frame, UnicomError>)
    requires
        bytes@.len() >= HEADER_LEN,
        bytes@.len() == HEADER_LEN + spec_u32_from_le_bytes(bytes@.subrange(9, 13)),
    ensures
        match r {
            Ok(f) => spec_decode_frame(bytes@) == Some((f.kind, f.id, f.payload@)),
            Err(e) => {
                &&& spec_decode_frame(bytes@) is None
                &&& e.kind == UnicomErrorKind::DataInvalid
            },
        },
{
    let header = vstd::slice::slice_subrange(bytes.as_slice(), 0, HEADER_LEN);
    let (tag, id, len) = decode_header(header);
    assert(header@.subrange(1, 9) =~= bytes@.subrange(1, 9));
    assert(header@.subrange(9, 13) =~= bytes@.subrange(9, 13));
    let body = vstd::slice::slice_subrange(bytes.as_slice(), HEADER_LEN, bytes.len());
    let payload = vstd::slice::slice_to_vec(body);
    frame_from_parts(tag, id, payload)
}

/// Round trip: a well-formed frame decodes from its own encoding unchanged,
/// whatever its kind, identifier and payload.
pub proof fn lemma_frame_round_trip(f: Frame)
    requires
        f.wf(),
    ensures
        spec_decode_frame(spec_encode_frame(f)) == Some((f.kind, f.id, f.payload@)),
{
    lemma_auto_spec_u64_to_from_le_bytes();
    lemma_auto_spec_u32_to_from_le_bytes();
    let bytes = spec_encode_frame(f);
    assert(bytes.subrange(1, 9) =~= spec_u64_to_le_bytes(f.id));
    assert(bytes.subrange(9, 13) =~= spec_u32_to_le_bytes(f.payload@.len() as u32));
    assert(bytes[0] == spec_tag_of_kind(f.kind));
    assert(spec_kind_of_tag(spec_tag_of_kind(f.kind)) == Some(f.kind));
    assert(bytes.subrange(13, bytes.len() as int) =~= f.payload@);
}

/// Accumulates the payload of one frame from the transport's partial reads,
/// never exposing an incomplete payload and treating a zero-length read
/// before the declared length as a lost connection.
pub struct BodyReader {
    /// The payload length the frame header declared.
    pub expected: usize,
    /// The payload bytes received so far.
    pub data: Vec<u8>,
}

impl BodyReader {
    /// How many payload bytes are still owed.
    pub open spec fn spec_remaining(self) -> int {
        self.expected - self.data@.len()
    }

    pub open spec fn wf(self) -> bool {
        self.data@.len() <= self.expected
    }

    /// Start collecting a payload of the given declared length.
    pub fn new(expected: usize) -> (r: BodyReader)
        ensures
            r.wf(),
            r.expected == expected,
            r.data@.len() == 0,
    {
        BodyReader { expected, data: Vec::new() }
    }

    /// Whether the whole declared payload has arrived.
    pub fn complete(&self) -> (b: bool)
        requires
            self.wf(),
        ensures
            b == (self.spec_remaining() == 0),
    {
        self.data.len() >= self.expected
    }

    /// How many bytes the transport should read next: the rest of the
    /// payload, capped at the chunk bound.
    pub fn request_len(&self) -> (n: usize)
        requires
            self.wf(),
        ensures
            n == if self.spec_remaining() > CHUNK_LEN {
                CHUNK_LEN as int
            } else {
                self.spec_remaining()
            },
    {
        let rest = self.expected - self.data.len();
        if rest > CHUNK_LEN {
            CHUNK_LEN
        } else {
            rest
        }
    }

    /// Take one partial read from the transport. An empty read before the
    /// declared length is a lost connection; otherwise the bytes are
    /// appended and the result says whether the payload is now complete.
    pub fn push_chunk(&mut self, chunk: &[u8]) -> (r: Result<bool, UnicomError>)
        requires
            old(self).wf(),
            old(self).spec_remaining() > 0,
            chunk@.len() <= old(self).spec_remaining(),
        ensures
            final(self).wf(),
            final(self).expected == old(self).expected,
            match r {
                Ok(done) => {
                    &&& chunk@.len() > 0
                    &&& final(self).data@ == old(self).data@ + chunk@
                    &&& done == (final(self).spec_remaining() == 0)
                },
                Err(e) => {
                    &&& chunk@.len() == 0
                    &&& *final(self) == *old(self)
                    &&& e.kind == UnicomErrorKind::LostConnection
                },
            },
    {
        if chunk.is_empty() {
            Err(UnicomError::new(UnicomErrorKind::LostConnection, "lost connection"))
        } else {
            self.data.extend_from_slice(chunk);
            Ok(self.data.len() >= self.expected)
        }
    }
}

/// The verdict on one header read of `n` bytes: a full header may be
/// decoded, a clean zero-byte read is a lost connection, and any other short
/// read is a fatal data-invalid condition, never a partial header to resume.
pub fn classify_head_read(n: usize) -> (r: Result<(), UnicomError>)
    ensures
        r is Ok <==> n == HEADER_LEN,
        r is Err ==> r->Err_0.kind == (if n == 0 {
            UnicomErrorKind::LostConnection
        } else {
            UnicomErrorKind::DataInvalid
        }),
{
    if n == HEADER_LEN {
        Ok(())
    } else if n == 0 {
        Err(UnicomError::new(UnicomErrorKind::LostConnection, "lost connection"))
    } else {
        Err(UnicomError::new(UnicomErrorKind::DataInvalid, "message head length error"))
    }
}

/// The hub-side check on the first frame of a connection: anything but the
/// handshake tag is a fatal protocol violation.
pub fn check_handshake_tag(tag: u8) -> (r: Result<(), UnicomError>)
    ensures
        r is Ok <==> tag == HANDSHAKE_TAG,
        r is Err ==> r->Err_0.kind == UnicomErrorKind::ParseError,
{
    if tag == HANDSHAKE_TAG {
        Ok(())
    } else {
        Err(UnicomError::new(UnicomErrorKind::ParseError, "leading frame is not a handshake"))
    }
}

/// End of the next chunk a frame writer puts on the wire: at most the chunk
/// bound past the current position, never past the end of the image.
pub fn write_chunk_end(total: usize, current: usize) -> (end: usize)
    requires
        current < total,
    ensures
        current < end <= total,
        end - current <= CHUNK_LEN,
        end == if current + CHUNK_LEN > total {
            total as int
        } else {
            current + CHUNK_LEN
        },
{
    if total - current > CHUNK_LEN {
        current + CHUNK_LEN
    } else {
        total
    }
}

} // verus!
