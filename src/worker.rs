//! Decisions of a worker process: what to do with each message from the
//! coordinator, and what to report after a compilation.
use vstd::prelude::*;
use vstd::utf8::encode_utf8;
use crate::payload::encode_task_result;
use crate::payload::task_result_payload;
use crate::protocol::Message;
use crate::protocol::OpCode;
use crate::text::lossy_text;
use crate::text::object_path_of;
use crate::text::replace_c_with_o;
use crate::text::utf8_lossy;

verus! {

/// What a worker does with the next message, or with a failed read.
pub enum WorkerAction {
    /// Compile `source` into `object`, then report with `task_report`.
    Compile { source: String, object: String },
    /// Read the next message.
    Ignore,
    /// Leave the loop.
    Exit,
}

/// How running the compiler went.
pub enum CompileOutcome {
    /// The compiler ran; whether it succeeded, and what it wrote to stderr.
    Finished { success: bool, stderr: Vec<u8> },
    /// The compiler could not be started; the launch error's text.
    LaunchFailed(String),
}

/// What a worker does on the message `m`; `None` stands for a failed read.
pub fn worker_on_message(m: Option<Message>) -> (r: WorkerAction)
    ensures
        match m {
            None => r is Exit,
            Some(msg) => match msg.op {
                OpCode::TaskDef => match r {
                    WorkerAction::Compile { source, object } => source@ == utf8_lossy(msg.payload@)
                        && object@ == object_path_of(source@),
                    _ => false,
                },
                OpCode::Shutdown => r is Exit,
                _ => r is Ignore,
            },
        },
{
    match m {
        None => WorkerAction::Exit,
        Some(msg) => match msg.op {
            OpCode::TaskDef => {
                let source = lossy_text(msg.payload.as_slice());
                let object = replace_c_with_o(source.as_str());
                WorkerAction::Compile { source, object }
            },
            OpCode::Shutdown => WorkerAction::Exit,
            _ => WorkerAction::Ignore,
        },
    }
}

/// The `TaskResult` a worker sends back after a compilation: success with the
/// text `OK`; a failed compile with its stderr as text; a failed launch with the
/// launch error's text.
pub fn task_report(outcome: CompileOutcome) -> (r: Message)
    ensures
        r.op == OpCode::TaskResult,
        match outcome {
            CompileOutcome::Finished { success, stderr } => r.payload@ == if success {
                task_result_payload(true, encode_utf8("OK"@))
            } else {
                task_result_payload(false, encode_utf8(utf8_lossy(stderr@)))
            },
            CompileOutcome::LaunchFailed(e) => r.payload@ == task_result_payload(
                false,
                encode_utf8(e@),
            ),
        },
{
    match outcome {
        CompileOutcome::Finished { success, stderr } => {
            if success {
                Message::new(OpCode::TaskResult, encode_task_result(true, "OK"))
            } else {
                let log = lossy_text(stderr.as_slice());
                Message::new(OpCode::TaskResult, encode_task_result(false, log.as_str()))
            }
        },
        CompileOutcome::LaunchFailed(e) => {
            Message::new(OpCode::TaskResult, encode_task_result(false, e.as_str()))
        },
    }
}

} // verus!
