//! File submissions: the server waiting on a job's result and answering the
//! client, and the client reading that answer.
use vstd::prelude::*;
use vstd::utf8::encode_utf8;
use crate::payload::encode_file_result;
use crate::payload::file_result_payload;
use crate::payload::FileReply;
use crate::protocol::append_bytes;
use crate::protocol::Message;
use crate::protocol::OpCode;
use crate::results::find_in;
use crate::results::ResultTable;
use crate::text::lossy_text;
use crate::text::object_path_of;
use crate::text::replace_c_with_o;
use crate::text::utf8_lossy;

verus! {

/// How many times the result table is searched before the wait times out; with
/// a pause of `POLL_INTERVAL_MS` before each search this is ten seconds.
pub const MAX_POLLS: u32 = 100;

/// The text put before the error of an unreadable compiled object.
pub open spec fn artifact_error_prefix() -> Seq<char> {
    "Failed to read .o file: "@
}

/// What one look at the result table found.
pub enum PollOutcome {
    /// No result yet; look again after a pause.
    Waiting,
    /// The allowed number of looks is used up.
    TimedOut,
    /// The job compiled; its object can be read.
    Compiled,
    /// The job failed, with this diagnostic text.
    Failed(String),
}

/// A client's wait for the result of the job `path`.
pub struct ResultWait {
    pub path: String,
    pub attempts: u32,
}

impl ResultWait {
    pub fn new(path: String) -> (r: Self)
        ensures
            r.path@ == path@,
            r.attempts == 0,
    {
        ResultWait { path, attempts: 0 }
    }

    /// One look at `results` for the first outcome of this job; after `MAX_POLLS`
    /// looks every further call times out.
    pub fn poll(&mut self, results: &ResultTable) -> (r: PollOutcome)
        ensures
            final(self).path@ == old(self).path@,
            if old(self).attempts >= MAX_POLLS {
                r is TimedOut && final(self).attempts == old(self).attempts
            } else {
                final(self).attempts == old(self).attempts + 1 && match find_in(
                    results@,
                    old(self).path@,
                ) {
                    None => r is Waiting,
                    Some(e) => if e.1 {
                        r is Compiled
                    } else {
                        match r {
                            PollOutcome::Failed(log) => log@ == e.2,
                            _ => false,
                        }
                    },
                }
            },
    {
        if self.attempts >= MAX_POLLS {
            return PollOutcome::TimedOut;
        }
        self.attempts = self.attempts + 1;
        match results.find(self.path.as_str()) {
            None => PollOutcome::Waiting,
            Some(e) => if e.success {
                PollOutcome::Compiled
            } else {
                PollOutcome::Failed(e.log.clone())
            },
        }
    }
}

/// Whether `s`'s UTF-8 bytes fit a 4-byte length prefix.
fn fits_frame(s: &str) -> (r: bool)
    ensures
        r == (encode_utf8(s@).len() <= u32::MAX),
{
    s.as_bytes().len() <= 0xffff_ffffusize
}

/// The answer to a client whose job compiled, given what reading the object gave:
/// the object under the object's name, or the read error under the source's name.
/// Nothing when the name is too long for its length prefix.
pub fn compiled_reply(filename: &str, artifact: Result<Vec<u8>, String>) -> (r: Option<Message>)
    ensures
        match artifact {
            Ok(obj) => match r {
                Some(m) => m.op == OpCode::FileResult && m.payload@ == file_result_payload(
                    true,
                    encode_utf8(object_path_of(filename@)),
                    obj@,
                ),
                None => encode_utf8(object_path_of(filename@)).len() > u32::MAX,
            },
            Err(e) => match r {
                Some(m) => m.op == OpCode::FileResult && m.payload@ == file_result_payload(
                    false,
                    encode_utf8(filename@),
                    encode_utf8(artifact_error_prefix()) + encode_utf8(e@),
                ),
                None => encode_utf8(filename@).len() > u32::MAX,
            },
        },
{
    match artifact {
        Ok(obj) => {
            let name = replace_c_with_o(filename);
            if !fits_frame(name.as_str()) {
                return None;
            }
            Some(
                Message::new(
                    OpCode::FileResult,
                    encode_file_result(true, name.as_str(), obj.as_slice()),
                ),
            )
        },
        Err(e) => {
            if !fits_frame(filename) {
                return None;
            }
            let mut body: Vec<u8> = Vec::new();
            append_bytes(&mut body, "Failed to read .o file: ".as_bytes());
            append_bytes(&mut body, e.as_str().as_bytes());
            Some(
                Message::new(
                    OpCode::FileResult,
                    encode_file_result(false, filename, body.as_slice()),
                ),
            )
        },
    }
}

/// The answer to a client whose job failed to compile: the diagnostic text under
/// the source's name. Nothing when the name is too long for its length prefix.
pub fn failed_reply(filename: &str, log: &str) -> (r: Option<Message>)
    ensures
        match r {
            Some(m) => m.op == OpCode::FileResult && m.payload@ == file_result_payload(
                false,
                encode_utf8(filename@),
                encode_utf8(log@),
            ),
            None => encode_utf8(filename@).len() > u32::MAX,
        },
{
    if !fits_frame(filename) {
        return None;
    }
    Some(Message::new(OpCode::FileResult, encode_file_result(false, filename, log.as_bytes())))
}

/// What a client does with the server's answer for the source `file_path`.
pub enum ClientOutcome {
    /// Write the object bytes to this path.
    Save { path: String, data: Vec<u8> },
    /// The compilation failed with this text.
    Failed(String),
}

/// Whether `path` names a C source: its bytes end in `.c`.
pub fn is_c_source(path: &str) -> (r: bool)
    ensures
        r == (encode_utf8(path@).len() >= 2 && encode_utf8(path@)[encode_utf8(path@).len() - 2]
            == 0x2E && encode_utf8(path@)[encode_utf8(path@).len() - 1] == 0x63),
{
    let b = path.as_bytes();
    let n = b.len();
    n >= 2 && b[n - 2] == 0x2Eu8 && b[n - 1] == 0x63u8
}

/// The client's decision on an answer: on success the object goes next to the
/// source under the object's name; on failure the data is the error text.
pub fn client_outcome(file_path: &str, reply: FileReply) -> (r: ClientOutcome)
    ensures
        if reply.success {
            match r {
                ClientOutcome::Save { path, data } => path@ == object_path_of(file_path@) && data@
                    == reply.data@,
                _ => false,
            }
        } else {
            match r {
                ClientOutcome::Failed(text) => text@ == utf8_lossy(reply.data@),
                _ => false,
            }
        },
{
    if reply.success {
        ClientOutcome::Save { path: replace_c_with_o(file_path), data: reply.data }
    } else {
        ClientOutcome::Failed(lossy_text(reply.data.as_slice()))
    }
}

} // verus!
