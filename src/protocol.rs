//! Binary framing: every message is `[opcode][4-byte big-endian length][payload]`.
use vstd::prelude::*;
use vstd::slice::slice_subrange;
use vstd::slice::slice_to_vec;

verus! {

/// Size of the fixed frame header: one opcode byte and a 4-byte length.
pub const HEADER_SIZE: usize = 5;

/// The fixed set of message kinds carried on the wire.
#[derive(Debug, PartialEq, Eq, Structural, Copy, Clone)]
pub enum OpCode {
    /// Worker to coordinator: ready, payload is a free-text identity.
    Hello,
    /// Coordinator to worker: compile the path in the payload.
    TaskDef,
    /// Worker to coordinator: success flag and diagnostic text.
    TaskResult,
    /// Client to server: a source file to compile.
    SubmitFile,
    /// Server to client: the compiled object or an error text.
    FileResult,
    /// Coordinator to worker: leave the worker loop.
    Shutdown,
}

/// Why a byte sequence is not a frame.
#[derive(Debug, PartialEq, Eq, Structural, Copy, Clone)]
pub enum FrameError {
    /// The bytes end before the header or the announced payload does.
    Truncated,
    /// The first header byte names no opcode.
    InvalidOpcode,
}

impl OpCode {
    pub open spec fn spec_byte(self) -> u8 {
        match self {
            OpCode::Hello => 0x01,
            OpCode::TaskDef => 0x02,
            OpCode::TaskResult => 0x03,
            OpCode::SubmitFile => 0x04,
            OpCode::FileResult => 0x05,
            OpCode::Shutdown => 0xFF,
        }
    }

    pub open spec fn spec_from_byte(b: u8) -> Option<OpCode> {
        if b == 0x01 {
            Some(OpCode::Hello)
        } else if b == 0x02 {
            Some(OpCode::TaskDef)
        } else if b == 0x03 {
            Some(OpCode::TaskResult)
        } else if b == 0x04 {
            Some(OpCode::SubmitFile)
        } else if b == 0x05 {
            Some(OpCode::FileResult)
        } else if b == 0xFF {
            Some(OpCode::Shutdown)
        } else {
            None
        }
    }

    /// The byte that stands for this opcode on the wire.
    pub fn to_byte(self) -> (r: u8)
        ensures
            r == self.spec_byte(),
    {
        match self {
            OpCode::Hello => 0x01,
            OpCode::TaskDef => 0x02,
            OpCode::TaskResult => 0x03,
            OpCode::SubmitFile => 0x04,
            OpCode::FileResult => 0x05,
            OpCode::Shutdown => 0xFF,
        }
    }

    /// The opcode a wire byte stands for, if any.
    pub fn from_byte(b: u8) -> (r: Option<OpCode>)
        ensures
            r == OpCode::spec_from_byte(b),
    {
        if b == 0x01 {
            Some(OpCode::Hello)
        } else if b == 0x02 {
            Some(OpCode::TaskDef)
        } else if b == 0x03 {
            Some(OpCode::TaskResult)
        } else if b == 0x04 {
            Some(OpCode::SubmitFile)
        } else if b == 0x05 {
            Some(OpCode::FileResult)
        } else if b == 0xFF {
            Some(OpCode::Shutdown)
        } else {
            None
        }
    }
}

/// The big-endian bytes of `n`.
pub open spec fn be32(n: u32) -> Seq<u8> {
    seq![
        (n >> 24u32) as u8,
        ((n >> 16u32) & 0xffu32) as u8,
        ((n >> 8u32) & 0xffu32) as u8,
        (n & 0xffu32) as u8,
    ]
}

/// The number that four big-endian bytes stand for.
pub open spec fn be32_value(b0: u8, b1: u8, b2: u8, b3: u8) -> u32 {
    ((b0 as u32) << 24u32) | ((b1 as u32) << 16u32) | ((b2 as u32) << 8u32) | (b3 as u32)
}

/// The number held by the four bytes of `b` that start at `at`.
pub open spec fn be32_at(b: Seq<u8>, at: int) -> u32 {
    be32_value(b[at], b[at + 1], b[at + 2], b[at + 3])
}

/// The frame that carries `payload` under `op`.
pub open spec fn frame(op: OpCode, payload: Seq<u8>) -> Seq<u8> {
    seq![op.spec_byte()] + be32(payload.len() as u32) + payload
}

/// What reading one frame from the front of `b` yields: the opcode and the payload.
pub open spec fn decode_frame(b: Seq<u8>) -> Result<(OpCode, Seq<u8>), FrameError> {
    if b.len() < HEADER_SIZE {
        Err(FrameError::Truncated)
    } else {
        match OpCode::spec_from_byte(b[0]) {
            None => Err(FrameError::InvalidOpcode),
            Some(op) => {
                let len = be32_at(b, 1) as int;
                if b.len() < HEADER_SIZE + len {
                    Err(FrameError::Truncated)
                } else {
                    Ok((op, b.subrange(HEADER_SIZE as int, HEADER_SIZE + len)))
                }
            },
        }
    }
}

pub proof fn lemma_be32_round_trip(n: u32)
    ensures
        be32_value(be32(n)[0], be32(n)[1], be32(n)[2], be32(n)[3]) == n,
{
    let b = be32(n);
    assert(be32_value(
        (n >> 24u32) as u8,
        ((n >> 16u32) & 0xffu32) as u8,
        ((n >> 8u32) & 0xffu32) as u8,
        (n & 0xffu32) as u8,
    ) == n) by (bit_vector);
}

/// Reading a serialized message gives back its opcode and its payload, and reads
/// nothing of what follows the frame.
pub proof fn lemma_read_serialize(op: OpCode, payload: Seq<u8>, rest: Seq<u8>)
    requires
        payload.len() <= u32::MAX,
    ensures
        decode_frame(frame(op, payload) + rest) == Ok::<(OpCode, Seq<u8>), FrameError>(
            (op, payload),
        ),
{
    let b = frame(op, payload) + rest;
    let n = payload.len() as u32;
    lemma_be32_round_trip(n);
    assert(b[0] == op.spec_byte());
    assert(b[1] == be32(n)[0] && b[2] == be32(n)[1] && b[3] == be32(n)[2] && b[4] == be32(n)[3]);
    assert(OpCode::spec_from_byte(op.spec_byte()) == Some(op));
    assert(b.subrange(5, 5 + payload.len() as int) =~= payload);
}

/// The length field of a frame equals its payload's byte count, and the frame is
/// exactly the header followed by the payload.
pub proof fn lemma_length_field(op: OpCode, payload: Seq<u8>)
    requires
        payload.len() <= u32::MAX,
    ensures
        frame(op, payload).len() == HEADER_SIZE + payload.len(),
        be32_at(frame(op, payload), 1) == payload.len(),
        frame(op, payload).subrange(HEADER_SIZE as int, frame(op, payload).len() as int)
            == payload,
{
    let f = frame(op, payload);
    let n = payload.len() as u32;
    lemma_be32_round_trip(n);
    assert(f[1] == be32(n)[0] && f[2] == be32(n)[1] && f[3] == be32(n)[2] && f[4] == be32(n)[3]);
    assert(f.subrange(5, f.len() as int) =~= payload);
}

/// Appends the bytes of `src` to `buf`.
pub fn append_bytes(buf: &mut Vec<u8>, src: &[u8])
    ensures
        final(buf)@ == old(buf)@ + src@,
{
    let mut i: usize = 0;
    while i < src.len()
        invariant
            i <= src@.len(),
            buf@ == old(buf)@ + src@.subrange(0, i as int),
        decreases src@.len() - i,
    {
        buf.push(src[i]);
        i = i + 1;
        assert(src@.subrange(0, i as int) =~= src@.subrange(0, i - 1) + seq![src@[i - 1]]);
    }
    assert(src@.subrange(0, src@.len() as int) =~= src@);
}

/// Appends the big-endian bytes of `n` to `buf`.
pub fn append_be32(buf: &mut Vec<u8>, n: u32)
    ensures
        final(buf)@ == old(buf)@ + be32(n),
{
    buf.push((n >> 24u32) as u8);
    buf.push(((n >> 16u32) & 0xffu32) as u8);
    buf.push(((n >> 8u32) & 0xffu32) as u8);
    buf.push((n & 0xffu32) as u8);
    assert(buf@ =~= old(buf)@ + be32(n));
}

/// The number held by the four bytes of `b` that start at `at`.
pub fn read_be32(b: &[u8], at: usize) -> (r: u32)
    requires
        at + 4 <= b@.len(),
    ensures
        r == be32_at(b@, at as int),
{
    ((b[at] as u32) << 24u32) | ((b[at + 1] as u32) << 16u32) | ((b[at + 2] as u32) << 8u32) | (
    b[at + 3] as u32)
}

/// Decodes a frame header: the opcode and the payload length it announces.
/// Only the first `HEADER_SIZE` bytes of `header` are read.
pub fn decode_header(header: &[u8]) -> (r: Result<(OpCode, u32), FrameError>)
    ensures
        match r {
            Ok((op, len)) => header@.len() >= HEADER_SIZE && OpCode::spec_from_byte(header@[0])
                == Some(op) && len == be32_at(header@, 1),
            Err(e) => (e == FrameError::Truncated && header@.len() < HEADER_SIZE) || (e
                == FrameError::InvalidOpcode && header@.len() >= HEADER_SIZE
                && OpCode::spec_from_byte(header@[0]).is_none()),
        },
{
    if header.len() < HEADER_SIZE {
        return Err(FrameError::Truncated);
    }
    match OpCode::from_byte(header[0]) {
        None => Err(FrameError::InvalidOpcode),
        Some(op) => Ok((op, read_be32(header, 1))),
    }
}

/// One unit of wire communication.
pub struct Message {
    pub op: OpCode,
    pub payload: Vec<u8>,
}

impl Message {
    pub fn new(op: OpCode, payload: Vec<u8>) -> (r: Self)
        ensures
            r.op == op,
            r.payload@ == payload@,
    {
        Self { op, payload }
    }

    /// The frame of this message: opcode, big-endian payload length, payload.
    pub fn serialize(&self) -> (r: Vec<u8>)
        requires
            self.payload@.len() <= u32::MAX,
        ensures
            r@ == frame(self.op, self.payload@),
    {
        let mut buf: Vec<u8> = Vec::new();
        buf.push(self.op.to_byte());
        append_be32(&mut buf, self.payload.len() as u32);
        append_bytes(&mut buf, self.payload.as_slice());
        buf
    }

    /// Reads one frame from the front of `bytes`: the message and the number of
    /// bytes it took, which is the header and exactly the announced payload.
    pub fn read(bytes: &[u8]) -> (r: Result<(Message, usize), FrameError>)
        ensures
            match r {
                Ok((m, n)) => decode_frame(bytes@) == Ok::<(OpCode, Seq<u8>), FrameError>(
                    (m.op, m.payload@),
                ) && n == HEADER_SIZE + m.payload@.len(),
                Err(e) => decode_frame(bytes@) == Err::<(OpCode, Seq<u8>), FrameError>(e),
            },
    {
        let (op, len) = match decode_header(bytes) {
            Ok(h) => h,
            Err(e) => return Err(e),
        };
        let len = len as usize;
        if bytes.len() - HEADER_SIZE < len {
            return Err(FrameError::Truncated);
        }
        let payload = slice_to_vec(slice_subrange(bytes, HEADER_SIZE, HEADER_SIZE + len));
        Ok((Message { op, payload }, HEADER_SIZE + len))
    }
}

} // verus!
