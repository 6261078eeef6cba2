use dbs::payload::decode_task_result;
use dbs::payload::encode_file_result;
use dbs::payload::encode_submission;
use dbs::payload::encode_task_result;
use dbs::payload::hello_payload;
use dbs::payload::parse_file_reply;
use dbs::payload::parse_submission;
use dbs::payload::split_named;
use dbs::payload::ProtocolError;
use dbs::protocol::decode_header;
use dbs::protocol::FrameError;
use dbs::protocol::Message;
use dbs::protocol::OpCode;

const ALL_OPS: [OpCode; 6] = [
    OpCode::Hello,
    OpCode::TaskDef,
    OpCode::TaskResult,
    OpCode::SubmitFile,
    OpCode::FileResult,
    OpCode::Shutdown,
];

#[test]
fn serialize_layout() {
    let m = Message::new(OpCode::Hello, b"hi".to_vec());
    assert_eq!(m.serialize(), vec![0x01, 0, 0, 0, 2, b'h', b'i']);
}

#[test]
fn serialize_shutdown_empty() {
    let m = Message::new(OpCode::Shutdown, Vec::new());
    assert_eq!(m.serialize(), vec![0xFF, 0, 0, 0, 0]);
}

#[test]
fn length_is_big_endian() {
    let payload = vec![7u8; 0x0102];
    let bytes = Message::new(OpCode::TaskDef, payload).serialize();
    assert_eq!(&bytes[0..5], &[0x02, 0x00, 0x00, 0x01, 0x02]);
    assert_eq!(bytes.len(), 5 + 0x0102);
}

#[test]
fn round_trip_every_opcode() {
    for op in ALL_OPS {
        for payload in [Vec::new(), vec![0u8], b"some payload bytes".to_vec(), vec![0xFF; 300]] {
            let bytes = Message::new(op, payload.clone()).serialize();
            let (m, n) = match Message::read(&bytes) {
                Ok(r) => r,
                Err(e) => panic!("read failed: {:?}", e),
            };
            assert_eq!(m.op, op);
            assert_eq!(m.payload, payload);
            assert_eq!(n, bytes.len());
        }
    }
}

#[test]
fn read_consumes_exactly_one_frame() {
    let mut bytes = Message::new(OpCode::TaskResult, vec![1, b'O', b'K']).serialize();
    let second = Message::new(OpCode::Shutdown, Vec::new()).serialize();
    bytes.extend_from_slice(&second);
    let (m, n) = Message::read(&bytes).ok().unwrap();
    assert_eq!(m.op, OpCode::TaskResult);
    assert_eq!(m.payload, vec![1, b'O', b'K']);
    assert_eq!(n, 8);
    let (m2, n2) = Message::read(&bytes[n..]).ok().unwrap();
    assert_eq!(m2.op, OpCode::Shutdown);
    assert!(m2.payload.is_empty());
    assert_eq!(n2, 5);
}

#[test]
fn read_short_header_is_truncated() {
    assert_eq!(Message::read(&[0x01, 0, 0]).err(), Some(FrameError::Truncated));
    assert_eq!(Message::read(&[]).err(), Some(FrameError::Truncated));
    // a bad opcode in a short header is still a short header
    assert_eq!(Message::read(&[0x09, 0]).err(), Some(FrameError::Truncated));
}

#[test]
fn read_invalid_opcode() {
    assert_eq!(Message::read(&[0x00, 0, 0, 0, 0]).err(), Some(FrameError::InvalidOpcode));
    assert_eq!(Message::read(&[0x06, 0, 0, 0, 1, 9]).err(), Some(FrameError::InvalidOpcode));
}

#[test]
fn read_short_payload_is_truncated() {
    assert_eq!(Message::read(&[0x02, 0, 0, 0, 3, b'a', b'b']).err(), Some(FrameError::Truncated));
}

#[test]
fn header_decoding() {
    assert_eq!(decode_header(&[0x05, 0x01, 0x02, 0x03, 0x04]), Ok((OpCode::FileResult, 0x01020304)));
    assert_eq!(decode_header(&[0x05, 0x01]), Err(FrameError::Truncated));
    assert_eq!(decode_header(&[0x42, 0, 0, 0, 0]), Err(FrameError::InvalidOpcode));
}

#[test]
fn opcode_bytes() {
    let bytes = [0x01u8, 0x02, 0x03, 0x04, 0x05, 0xFF];
    for (op, b) in ALL_OPS.iter().zip(bytes.iter()) {
        assert_eq!(op.to_byte(), *b);
        assert_eq!(OpCode::from_byte(*b), Some(*op));
    }
    assert_eq!(OpCode::from_byte(0x00), None);
    assert_eq!(OpCode::from_byte(0x06), None);
    assert_eq!(OpCode::from_byte(0xFE), None);
}

#[test]
fn hello_identity() {
    assert_eq!(hello_payload("3"), b"Worker-3".to_vec());
    assert_eq!(hello_payload(""), b"Worker-".to_vec());
}

#[test]
fn task_result_codec() {
    assert_eq!(encode_task_result(true, "OK"), vec![1, b'O', b'K']);
    assert_eq!(encode_task_result(false, "syntax error"), b"\x00syntax error".to_vec());
    assert_eq!(decode_task_result(&[1, b'O', b'K']), Some((true, "OK".to_string())));
    assert_eq!(decode_task_result(&[0, b'e']), Some((false, "e".to_string())));
    // only the byte 1 means success
    assert_eq!(decode_task_result(&[2]), Some((false, String::new())));
    assert_eq!(decode_task_result(&[]), None);
}

#[test]
fn task_result_text_is_decoded_lossily() {
    let (ok, text) = decode_task_result(&[0, b'a', 0xFF, b'b']).unwrap();
    assert!(!ok);
    assert_eq!(text, "a\u{FFFD}b");
}

#[test]
fn submission_codec() {
    let p = encode_submission("x.c", &[9, 8]);
    assert_eq!(p, vec![0, 0, 0, 3, b'x', b'.', b'c', 9, 8]);
    let s = parse_submission(&Message::new(OpCode::SubmitFile, p)).ok().unwrap();
    assert_eq!(s.filename, "x.c");
    assert_eq!(s.contents, vec![9, 8]);
}

#[test]
fn submission_errors() {
    let wrong = Message::new(OpCode::Hello, encode_submission("x.c", &[]));
    assert_eq!(parse_submission(&wrong).err(), Some(ProtocolError::UnexpectedOpcode));
    let short = Message::new(OpCode::SubmitFile, vec![0, 0, 0]);
    assert_eq!(parse_submission(&short).err(), Some(ProtocolError::MissingLength));
    let cut = Message::new(OpCode::SubmitFile, vec![0, 0, 0, 5, b'a', b'b']);
    assert_eq!(parse_submission(&cut).err(), Some(ProtocolError::ShortFilename));
    let empty_name = Message::new(OpCode::SubmitFile, vec![0, 0, 0, 0, 1, 2]);
    let s = parse_submission(&empty_name).ok().unwrap();
    assert_eq!(s.filename, "");
    assert_eq!(s.contents, vec![1, 2]);
}

#[test]
fn split_named_parts() {
    assert_eq!(split_named(&[0, 0, 0, 1, b'n', b'r']), Ok((vec![b'n'], vec![b'r'])));
    assert_eq!(split_named(&[0, 0, 1]), Err(ProtocolError::MissingLength));
    assert_eq!(split_named(&[0, 0, 0, 2, b'n']), Err(ProtocolError::ShortFilename));
}

#[test]
fn file_result_codec() {
    let p = encode_file_result(true, "x.o", &[0xDE, 0xAD]);
    assert_eq!(p, vec![1, 0, 0, 0, 3, b'x', b'.', b'o', 0xDE, 0xAD]);
    let r = parse_file_reply(&Message::new(OpCode::FileResult, p)).ok().unwrap();
    assert!(r.success);
    assert_eq!(r.filename, "x.o");
    assert_eq!(r.data, vec![0xDE, 0xAD]);
}

#[test]
fn file_reply_errors() {
    let wrong = Message::new(OpCode::TaskResult, vec![1, 0, 0, 0, 0]);
    assert_eq!(parse_file_reply(&wrong).err(), Some(ProtocolError::UnexpectedOpcode));
    let empty = Message::new(OpCode::FileResult, Vec::new());
    assert_eq!(parse_file_reply(&empty).err(), Some(ProtocolError::EmptyPayload));
    let short = Message::new(OpCode::FileResult, vec![1, 0, 0]);
    assert_eq!(parse_file_reply(&short).err(), Some(ProtocolError::MissingLength));
    let cut = Message::new(OpCode::FileResult, vec![0, 0, 0, 0, 4, b'a']);
    assert_eq!(parse_file_reply(&cut).err(), Some(ProtocolError::ShortFilename));
}
