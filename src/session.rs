//! The coordinator's side of one worker connection, as a state machine: the
//! caller performs each returned action and reports back what happened.
use vstd::prelude::*;
use vstd::slice::slice_to_vec;
use vstd::utf8::encode_utf8;
use crate::payload::decode_task_result;
use crate::protocol::frame;
use crate::protocol::Message;
use crate::protocol::OpCode;
use crate::queue::pop_of;
use crate::queue::TaskQueue;
use crate::results::ResultTable;
use crate::results::OutcomeView;
use crate::text::utf8_lossy;

verus! {

/// Milliseconds to wait before looking at an empty queue again.
pub const POLL_INTERVAL_MS: u64 = 100;

/// Where a worker session stands.
pub enum SessionState {
    /// The worker has not announced itself yet.
    AwaitingHello,
    /// Looking for a task to hand out.
    Dispatching,
    /// The task for this path is being written to the worker.
    Sending(String),
    /// The worker is compiling this path.
    AwaitingResult(String),
    /// The session is over.
    Terminated,
}

/// What happened since the last action.
pub enum SessionEvent {
    /// The session has just begun.
    Started,
    /// A whole message arrived from the worker.
    Received(Message),
    /// Reading from the worker failed or the peer is gone.
    ReadFailed,
    /// The last `Send` was written completely.
    Sent,
    /// The last `Send` could not be written.
    SendFailed,
    /// The last `Sleep` is over.
    Slept,
}

/// What the caller is to do next.
pub enum SessionAction {
    /// Read one message from the worker.
    ReadMessage,
    /// Write these bytes to the worker.
    Send(Vec<u8>),
    /// Wait this many milliseconds.
    Sleep(u64),
    /// Close the session.
    Stop,
}

pub open spec fn is_sending(st: SessionState, p: Seq<char>) -> bool {
    match st {
        SessionState::Sending(q) => q@ == p,
        _ => false,
    }
}

pub open spec fn is_awaiting(st: SessionState, p: Seq<char>) -> bool {
    match st {
        SessionState::AwaitingResult(q) => q@ == p,
        _ => false,
    }
}

pub open spec fn sends(a: SessionAction, bytes: Seq<u8>) -> bool {
    match a {
        SessionAction::Send(v) => v@ == bytes,
        _ => false,
    }
}

/// The session ends and leaves the queue and the table alone.
pub open spec fn stops(st: SessionState, a: SessionAction) -> bool {
    st is Terminated && a is Stop
}

/// One attempt to hand out a task: the newest pending path is taken and sent as a
/// `TaskDef`; with none pending the session waits. A path too long for a frame is
/// dropped and ends the session.
pub open spec fn dispatched(
    q: Seq<Seq<char>>,
    q2: Seq<Seq<char>>,
    st: SessionState,
    a: SessionAction,
) -> bool {
    match pop_of(q).0 {
        None => q2 == q && st is Dispatching && a == SessionAction::Sleep(POLL_INTERVAL_MS),
        Some(p) => q2 == pop_of(q).1 && if encode_utf8(p).len() <= u32::MAX {
            is_sending(st, p) && sends(a, frame(OpCode::TaskDef, encode_utf8(p)))
        } else {
            stops(st, a)
        },
    }
}

/// The table after a `TaskResult` for `p` with `payload`: an empty payload is
/// ignored, otherwise its flag and text are recorded.
pub open spec fn recorded(t: Seq<OutcomeView>, p: Seq<char>, payload: Seq<u8>) -> Seq<OutcomeView> {
    if payload.len() == 0 {
        t
    } else {
        t.push((p, payload[0] == 1, utf8_lossy(payload.subrange(1, payload.len() as int))))
    }
}

/// Takes the newest pending task and plans its hand-out.
fn dispatch(queue: &mut TaskQueue) -> (r: (SessionState, SessionAction))
    ensures
        dispatched(old(queue)@, final(queue)@, r.0, r.1),
{
    match queue.pop() {
        None => (SessionState::Dispatching, SessionAction::Sleep(POLL_INTERVAL_MS)),
        Some(path) => {
            let bytes = slice_to_vec(path.as_str().as_bytes());
            if bytes.len() <= 0xffff_ffffusize {
                let req = Message::new(OpCode::TaskDef, bytes);
                let out = req.serialize();
                (SessionState::Sending(path), SessionAction::Send(out))
            } else {
                (SessionState::Terminated, SessionAction::Stop)
            }
        },
    }
}

/// Advances a worker session by one event: the next state and the action to
/// perform. Tasks are taken from `queue` and outcomes written to `results`;
/// neither is held across the action.
pub fn session_step(
    state: SessionState,
    event: SessionEvent,
    queue: &mut TaskQueue,
    results: &mut ResultTable,
) -> (r: (SessionState, SessionAction))
    ensures
        match (state, event) {
            (SessionState::AwaitingHello, SessionEvent::Started) => r.0 is AwaitingHello
                && r.1 is ReadMessage && final(queue)@ == old(queue)@ && final(results)@ == old(results)@,
            (SessionState::AwaitingHello, SessionEvent::Received(m)) => final(results)@ == old(results)@
                && if m.op == OpCode::Hello {
                dispatched(old(queue)@, final(queue)@, r.0, r.1)
            } else {
                stops(r.0, r.1) && final(queue)@ == old(queue)@
            },
            (SessionState::Dispatching, SessionEvent::Slept) => final(results)@ == old(results)@
                && dispatched(old(queue)@, final(queue)@, r.0, r.1),
            (SessionState::Sending(p), SessionEvent::Sent) => is_awaiting(r.0, p@)
                && r.1 is ReadMessage && final(queue)@ == old(queue)@ && final(results)@ == old(results)@,
            (SessionState::AwaitingResult(p), SessionEvent::Received(m)) => if m.op == OpCode::TaskResult {
                final(results)@ == recorded(old(results)@, p@, m.payload@)
                    && dispatched(old(queue)@, final(queue)@, r.0, r.1)
            } else {
                stops(r.0, r.1) && final(queue)@ == old(queue)@ && final(results)@ == old(results)@
            },
            _ => stops(r.0, r.1) && final(queue)@ == old(queue)@ && final(results)@ == old(results)@,
        },
{
    match (state, event) {
        (SessionState::AwaitingHello, SessionEvent::Started) => {
            (SessionState::AwaitingHello, SessionAction::ReadMessage)
        },
        (SessionState::AwaitingHello, SessionEvent::Received(m)) => {
            if m.op == OpCode::Hello {
                dispatch(queue)
            } else {
                (SessionState::Terminated, SessionAction::Stop)
            }
        },
        (SessionState::Dispatching, SessionEvent::Slept) => dispatch(queue),
        (SessionState::Sending(p), SessionEvent::Sent) => {
            (SessionState::AwaitingResult(p), SessionAction::ReadMessage)
        },
        (SessionState::AwaitingResult(p), SessionEvent::Received(m)) => {
            if m.op == OpCode::TaskResult {
                match decode_task_result(m.payload.as_slice()) {
                    Some((success, log)) => {
                        results.record(p, success, log);
                    },
                    None => {},
                }
                dispatch(queue)
            } else {
                (SessionState::Terminated, SessionAction::Stop)
            }
        },
        _ => (SessionState::Terminated, SessionAction::Stop),
    }
}

} // verus!
