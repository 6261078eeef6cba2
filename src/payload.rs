//! Payload layouts of the messages that carry more than one field.
use vstd::prelude::*;
use vstd::slice::slice_subrange;
use vstd::slice::slice_to_vec;
use vstd::utf8::encode_utf8;
use crate::protocol::append_be32;
use crate::protocol::append_bytes;
use crate::protocol::be32;
use crate::protocol::be32_at;
use crate::protocol::read_be32;
use crate::protocol::Message;
use crate::protocol::OpCode;
use crate::text::lossy_text;
use crate::text::utf8_lossy;

verus! {

/// Why a message's payload does not have the layout its opcode calls for.
#[derive(Debug, PartialEq, Eq, Structural, Copy, Clone)]
pub enum ProtocolError {
    /// The message has another opcode than the exchange expects.
    UnexpectedOpcode,
    /// The payload is empty where a status byte is expected.
    EmptyPayload,
    /// The payload ends before the 4-byte filename length.
    MissingLength,
    /// The payload ends before the filename its length prefix announces.
    ShortFilename,
}

/// The status byte for a success flag.
pub open spec fn flag_byte(success: bool) -> u8 {
    if success {
        1
    } else {
        0
    }
}

/// A `TaskResult` payload: status byte, then the diagnostic text.
pub open spec fn task_result_payload(success: bool, log: Seq<u8>) -> Seq<u8> {
    seq![flag_byte(success)] + log
}

/// A length-prefixed name followed by free bytes.
pub open spec fn named_payload(name: Seq<u8>, rest: Seq<u8>) -> Seq<u8> {
    be32(name.len() as u32) + name + rest
}

/// A `FileResult` payload: status byte, length-prefixed filename, then the object
/// bytes or the error text.
pub open spec fn file_result_payload(success: bool, name: Seq<u8>, body: Seq<u8>) -> Seq<u8> {
    seq![flag_byte(success)] + named_payload(name, body)
}

/// The name and the remaining bytes of a length-prefixed payload.
pub open spec fn named_parts(p: Seq<u8>) -> Result<(Seq<u8>, Seq<u8>), ProtocolError> {
    if p.len() < 4 {
        Err(ProtocolError::MissingLength)
    } else if p.len() < 4 + be32_at(p, 0) {
        Err(ProtocolError::ShortFilename)
    } else {
        let end = 4 + be32_at(p, 0);
        Ok((p.subrange(4, end), p.subrange(end, p.len() as int)))
    }
}

/// What a `SubmitFile` message carries: the filename as text and the file bytes.
pub open spec fn submission_of(op: OpCode, p: Seq<u8>) -> Result<(Seq<char>, Seq<u8>), ProtocolError> {
    if op != OpCode::SubmitFile {
        Err(ProtocolError::UnexpectedOpcode)
    } else {
        match named_parts(p) {
            Ok((name, contents)) => Ok((utf8_lossy(name), contents)),
            Err(e) => Err(e),
        }
    }
}

/// What a `FileResult` message carries: the flag, the filename and the data.
pub open spec fn file_reply_of(op: OpCode, p: Seq<u8>) -> Result<(bool, Seq<char>, Seq<u8>), ProtocolError> {
    if op != OpCode::FileResult {
        Err(ProtocolError::UnexpectedOpcode)
    } else if p.len() == 0 {
        Err(ProtocolError::EmptyPayload)
    } else {
        match named_parts(p.subrange(1, p.len() as int)) {
            Ok((name, data)) => Ok((p[0] == 1, utf8_lossy(name), data)),
            Err(e) => Err(e),
        }
    }
}

/// The `Hello` identity of the worker with ordinal `id`: `Worker-<id>`.
pub open spec fn hello_payload_of(id: Seq<char>) -> Seq<u8> {
    encode_utf8("Worker-"@) + encode_utf8(id)
}

/// A file submitted by a client.
pub struct Submission {
    pub filename: String,
    pub contents: Vec<u8>,
}

/// A server's answer to a submission, as the client reads it.
pub struct FileReply {
    pub success: bool,
    pub filename: String,
    pub data: Vec<u8>,
}

/// The payload of a `Hello` message for the worker with ordinal `id`.
pub fn hello_payload(id: &str) -> (r: Vec<u8>)
    ensures
        r@ == hello_payload_of(id@),
{
    let mut buf: Vec<u8> = Vec::new();
    append_bytes(&mut buf, "Worker-".as_bytes());
    append_bytes(&mut buf, id.as_bytes());
    buf
}

/// The payload of a `TaskResult` message.
pub fn encode_task_result(success: bool, log: &str) -> (r: Vec<u8>)
    ensures
        r@ == task_result_payload(success, encode_utf8(log@)),
{
    let mut buf: Vec<u8> = Vec::new();
    buf.push(if success { 1u8 } else { 0u8 });
    append_bytes(&mut buf, log.as_bytes());
    buf
}

/// The flag and the diagnostic text of a `TaskResult` payload; nothing when the
/// payload is empty. The flag is set only by the byte 1.
pub fn decode_task_result(payload: &[u8]) -> (r: Option<(bool, String)>)
    ensures
        match r {
            None => payload@.len() == 0,
            Some((success, log)) => payload@.len() > 0 && success == (payload@[0] == 1) && log@
                == utf8_lossy(payload@.subrange(1, payload@.len() as int)),
        },
{
    if payload.len() == 0 {
        return None;
    }
    let log = lossy_text(slice_subrange(payload, 1, payload.len()));
    Some((payload[0] == 1, log))
}

/// Appends a 4-byte length prefix, `name`, and `rest` to `buf`.
fn append_named(buf: &mut Vec<u8>, name: &[u8], rest: &[u8])
    requires
        name@.len() <= u32::MAX,
    ensures
        final(buf)@ == old(buf)@ + named_payload(name@, rest@),
{
    append_be32(buf, name.len() as u32);
    append_bytes(buf, name);
    append_bytes(buf, rest);
    assert(buf@ =~= old(buf)@ + named_payload(name@, rest@));
}

/// Splits a length-prefixed payload into the name and what follows it.
pub fn split_named(p: &[u8]) -> (r: Result<(Vec<u8>, Vec<u8>), ProtocolError>)
    ensures
        match r {
            Ok((name, rest)) => named_parts(p@) == Ok::<(Seq<u8>, Seq<u8>), ProtocolError>(
                (name@, rest@),
            ),
            Err(e) => named_parts(p@) == Err::<(Seq<u8>, Seq<u8>), ProtocolError>(e),
        },
{
    if p.len() < 4 {
        return Err(ProtocolError::MissingLength);
    }
    let n = read_be32(p, 0) as usize;
    if p.len() - 4 < n {
        return Err(ProtocolError::ShortFilename);
    }
    let name = slice_to_vec(slice_subrange(p, 4, 4 + n));
    let rest = slice_to_vec(slice_subrange(p, 4 + n, p.len()));
    Ok((name, rest))
}

/// The payload of a `SubmitFile` message.
pub fn encode_submission(filename: &str, contents: &[u8]) -> (r: Vec<u8>)
    requires
        encode_utf8(filename@).len() <= u32::MAX,
    ensures
        r@ == named_payload(encode_utf8(filename@), contents@),
{
    let mut buf: Vec<u8> = Vec::new();
    append_named(&mut buf, filename.as_bytes(), contents);
    buf
}

/// Reads the one `SubmitFile` message a client sends.
pub fn parse_submission(msg: &Message) -> (r: Result<Submission, ProtocolError>)
    ensures
        match r {
            Ok(s) => submission_of(msg.op, msg.payload@) == Ok::<
                (Seq<char>, Seq<u8>),
                ProtocolError,
            >((s.filename@, s.contents@)),
            Err(e) => submission_of(msg.op, msg.payload@) == Err::<
                (Seq<char>, Seq<u8>),
                ProtocolError,
            >(e),
        },
{
    if msg.op != OpCode::SubmitFile {
        return Err(ProtocolError::UnexpectedOpcode);
    }
    match split_named(msg.payload.as_slice()) {
        Ok((name, contents)) => Ok(Submission { filename: lossy_text(name.as_slice()), contents }),
        Err(e) => Err(e),
    }
}

/// The payload of a `FileResult` message.
pub fn encode_file_result(success: bool, filename: &str, body: &[u8]) -> (r: Vec<u8>)
    requires
        encode_utf8(filename@).len() <= u32::MAX,
    ensures
        r@ == file_result_payload(success, encode_utf8(filename@), body@),
{
    let mut buf: Vec<u8> = Vec::new();
    buf.push(if success { 1u8 } else { 0u8 });
    append_named(&mut buf, filename.as_bytes(), body);
    buf
}

/// Reads the server's `FileResult` answer.
pub fn parse_file_reply(msg: &Message) -> (r: Result<FileReply, ProtocolError>)
    ensures
        match r {
            Ok(f) => file_reply_of(msg.op, msg.payload@) == Ok::<
                (bool, Seq<char>, Seq<u8>),
                ProtocolError,
            >((f.success, f.filename@, f.data@)),
            Err(e) => file_reply_of(msg.op, msg.payload@) == Err::<
                (bool, Seq<char>, Seq<u8>),
                ProtocolError,
            >(e),
        },
{
    if msg.op != OpCode::FileResult {
        return Err(ProtocolError::UnexpectedOpcode);
    }
    if msg.payload.len() == 0 {
        return Err(ProtocolError::EmptyPayload);
    }
    let body = slice_subrange(msg.payload.as_slice(), 1, msg.payload.len());
    match split_named(body) {
        Ok((name, data)) => Ok(
            FileReply { success: msg.payload[0] == 1, filename: lossy_text(name.as_slice()), data },
        ),
        Err(e) => Err(e),
    }
}

} // verus!
