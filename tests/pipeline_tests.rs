use dbs::controller::build_report;
use dbs::payload::encode_submission;
use dbs::payload::parse_file_reply;
use dbs::payload::parse_submission;
use dbs::protocol::Message;
use dbs::protocol::OpCode;
use dbs::queue::TaskQueue;
use dbs::results::ResultTable;
use dbs::session::session_step;
use dbs::session::SessionAction;
use dbs::session::SessionEvent;
use dbs::session::SessionState;
use dbs::session::POLL_INTERVAL_MS;
use dbs::submission::client_outcome;
use dbs::submission::compiled_reply;
use dbs::submission::ClientOutcome;
use dbs::submission::PollOutcome;
use dbs::submission::ResultWait;
use dbs::submission::MAX_POLLS;
use dbs::worker::task_report;
use dbs::worker::worker_on_message;
use dbs::worker::CompileOutcome;
use dbs::worker::WorkerAction;

fn hello(id: &str) -> Message {
    Message::new(OpCode::Hello, dbs::payload::hello_payload(id))
}

/// Starts a session and delivers the worker's hello; returns the first action.
fn connect(id: &str, q: &mut TaskQueue, r: &mut ResultTable) -> (SessionState, SessionAction) {
    let (st, a) = session_step(SessionState::AwaitingHello, SessionEvent::Started, q, r);
    assert!(matches!(a, SessionAction::ReadMessage));
    session_step(st, SessionEvent::Received(hello(id)), q, r)
}

/// Plays the worker for one `Send`: the task goes over the wire, the worker
/// compiles with `compile`, and its report comes back to the session.
fn serve_task(
    st: SessionState,
    a: SessionAction,
    q: &mut TaskQueue,
    r: &mut ResultTable,
    compile: &dyn Fn(&str, &str) -> CompileOutcome,
) -> (String, SessionState, SessionAction) {
    let bytes = match a {
        SessionAction::Send(b) => b,
        _ => panic!("expected a task to be sent"),
    };
    let (task, n) = Message::read(&bytes).ok().unwrap();
    assert_eq!(n, bytes.len());
    assert_eq!(task.op, OpCode::TaskDef);
    let (st, a) = session_step(st, SessionEvent::Sent, q, r);
    assert!(matches!(a, SessionAction::ReadMessage));
    let (source, report) = match worker_on_message(Some(task)) {
        WorkerAction::Compile { source, object } => {
            let out = compile(&source, &object);
            (source, task_report(out))
        }
        _ => panic!("expected a compile"),
    };
    let wire = report.serialize();
    let (reply, _) = Message::read(&wire).ok().unwrap();
    let (st, a) = session_step(st, SessionEvent::Received(reply), q, r);
    (source, st, a)
}

fn always_ok(_: &str, _: &str) -> CompileOutcome {
    CompileOutcome::Finished { success: true, stderr: Vec::new() }
}

#[test]
fn controller_two_files_two_workers() {
    let mut q = TaskQueue::from_paths(vec!["a.c".to_string(), "b.c".to_string()]);
    let mut r = ResultTable::new();
    let (s1, a1) = connect("0", &mut q, &mut r);
    let (s2, a2) = connect("1", &mut q, &mut r);
    let (p1, s1, a1) = serve_task(s1, a1, &mut q, &mut r, &always_ok);
    let (p2, s2, a2) = serve_task(s2, a2, &mut q, &mut r, &always_ok);
    assert_eq!(p1, "b.c");
    assert_eq!(p2, "a.c");
    assert!(q.is_empty());
    assert!(matches!(s1, SessionState::Dispatching));
    assert!(matches!(s2, SessionState::Dispatching));
    assert!(matches!(a1, SessionAction::Sleep(POLL_INTERVAL_MS)));
    assert!(matches!(a2, SessionAction::Sleep(100)));
    let report = build_report(2, &r);
    assert_eq!((report.succeeded, report.total), (2, 2));
    assert!(report.all_succeeded());
    assert_eq!(r.find("a.c").unwrap().log, "OK");
}

#[test]
fn controller_single_failing_file() {
    let mut q = TaskQueue::from_paths(vec!["bad.c".to_string()]);
    let mut r = ResultTable::new();
    let fail = |_: &str, _: &str| CompileOutcome::Finished {
        success: false,
        stderr: b"syntax error".to_vec(),
    };
    let (s, a) = connect("0", &mut q, &mut r);
    let (p, _, a) = serve_task(s, a, &mut q, &mut r, &fail);
    assert_eq!(p, "bad.c");
    assert!(matches!(a, SessionAction::Sleep(_)));
    let report = build_report(1, &r);
    assert_eq!((report.succeeded, report.total), (0, 1));
    assert!(!report.all_succeeded());
    let e = r.find("bad.c").unwrap();
    assert!(!e.success);
    assert_eq!(e.log, "syntax error");
}

#[test]
fn server_submission_round_trip() {
    let mut q = TaskQueue::new();
    let mut r = ResultTable::new();
    // a worker is connected and idle
    let (s, a) = connect("0", &mut q, &mut r);
    assert!(matches!(a, SessionAction::Sleep(_)));

    // the client submits x.c
    let submit = Message::new(OpCode::SubmitFile, encode_submission("x.c", b"int x;")).serialize();
    let (msg, _) = Message::read(&submit).ok().unwrap();
    let sub = parse_submission(&msg).ok().unwrap();
    assert_eq!(sub.filename, "x.c");
    assert_eq!(sub.contents, b"int x;".to_vec());
    let staged = format!("temp_builds/{}", sub.filename);
    q.push(staged.clone());
    let mut wait = ResultWait::new(staged.clone());
    assert!(matches!(wait.poll(&r), PollOutcome::Waiting));

    // the worker claims it after its pause
    let (s, a) = session_step(s, SessionEvent::Slept, &mut q, &mut r);
    let compile = |src: &str, obj: &str| {
        assert_eq!(src, "temp_builds/x.c");
        assert_eq!(obj, "temp_builds/x.o");
        CompileOutcome::Finished { success: true, stderr: Vec::new() }
    };
    let (p, _, _) = serve_task(s, a, &mut q, &mut r, &compile);
    assert_eq!(p, staged);

    assert!(matches!(wait.poll(&r), PollOutcome::Compiled));
    let reply = compiled_reply(&sub.filename, Ok(vec![0xDE, 0xAD])).unwrap();
    let wire = reply.serialize();
    let (back, _) = Message::read(&wire).ok().unwrap();
    let fr = parse_file_reply(&back).ok().unwrap();
    assert!(fr.success);
    assert_eq!(fr.filename, "x.o");
    assert_eq!(fr.data, vec![0xDE, 0xAD]);
    match client_outcome("src/x.c", fr) {
        ClientOutcome::Save { path, data } => {
            assert_eq!(path, "src/x.o");
            assert_eq!(data, vec![0xDE, 0xAD]);
        }
        ClientOutcome::Failed(_) => panic!("expected the object"),
    }
}

#[test]
fn server_wait_times_out_without_workers() {
    let mut q = TaskQueue::new();
    let r = ResultTable::new();
    q.push("temp_builds/y.c".to_string());
    let mut wait = ResultWait::new("temp_builds/y.c".to_string());
    for _ in 0..MAX_POLLS {
        assert!(matches!(wait.poll(&r), PollOutcome::Waiting));
    }
    assert_eq!(wait.attempts, 100);
    assert!(matches!(wait.poll(&r), PollOutcome::TimedOut));
    assert!(matches!(wait.poll(&r), PollOutcome::TimedOut));
    assert_eq!(q.len(), 1);
    assert_eq!(q.pop(), Some("temp_builds/y.c".to_string()));
}
