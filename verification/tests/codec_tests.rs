//! Round trips and exact wire bytes for the frame codec and the messages.

use raphy::codec::encode_frame;
use raphy::codec::frame_body_len;
use raphy::config::Arguments;
use raphy::config::Config;
use raphy::config::JavaPath;
use raphy::config::User;
use raphy::error::SerdeError;
use raphy::messages::ClientToServerMessage;
use raphy::messages::ExitStatus;
use raphy::messages::Operation;
use raphy::messages::ServerState;
use raphy::messages::ServerToClientMessage;
use raphy::stream::decode_c2s_stream;
use raphy::stream::decode_s2c_stream;
use raphy::stream::decode_c2s_exact;
use raphy::stream::decode_s2c_exact;
use raphy::stream::encode_c2s_frame;
use raphy::stream::encode_s2c_frame;
use raphy::wire::encode_c2s;
use raphy::wire::encode_s2c;
use raphy::OperationId;
use raphy::TaskId;

fn sample_config() -> Config {
    Config {
        java_path: JavaPath::Custom("/usr/bin/java".to_string()),
        server_jar_path: "/srv/mc/server.jar".to_string(),
        java_arguments: Arguments::Parsed("-Xmx2G -Xms1G".to_string()),
        server_arguments: Arguments::Manual(vec!["nogui".to_string(), "--port 25565".to_string()]),
        user: User::Specific("minecraft".to_string()),
    }
}

fn sample_error() -> SerdeError {
    SerdeError {
        display: "outer".to_string(),
        alt_display: "outer: inner".to_string(),
        debug: "Outer".to_string(),
        alt_debug: "Outer {\n}".to_string(),
        source: Some(Box::new(SerdeError {
            display: "inner ☃".to_string(),
            alt_display: "inner".to_string(),
            debug: "Inner".to_string(),
            alt_debug: "Inner {}".to_string(),
            source: None,
        })),
    }
}

#[test]
fn ping_exact_bytes() {
    let m = ClientToServerMessage::Ping(TaskId::from_raw(0xAAAA));
    let body = encode_c2s(&m);
    assert_eq!(body, vec![0, 0xAA, 0xAA, 0, 0, 0, 0, 0, 0]);
    let frame = encode_frame(&body).unwrap();
    assert_eq!(frame[..4], [9, 0, 0, 0]);
    assert_eq!(&frame[4..], &body[..]);
}

#[test]
fn c2s_round_trip_each_variant() {
    let msgs = vec![
        ClientToServerMessage::Ping(TaskId::from_raw(1)),
        ClientToServerMessage::GetConfig(TaskId::from_raw(2)),
        ClientToServerMessage::GetServerState(TaskId::from_raw(3)),
        ClientToServerMessage::UpdateConfig(TaskId::from_raw(4), sample_config()),
        ClientToServerMessage::PerformOperation(TaskId::from_raw(5), Operation::Restart),
        ClientToServerMessage::Input(vec![0, 1, 2, 255]),
        ClientToServerMessage::Shutdown,
    ];
    for m in msgs {
        let body = encode_c2s(&m);
        let back = decode_c2s_exact(&body).expect("message should decode");
        assert_eq!(back, m);
    }
}

#[test]
fn s2c_round_trip_each_variant() {
    let msgs = vec![
        ServerToClientMessage::Pong(TaskId::from_raw(10)),
        ServerToClientMessage::CurrentConfig(Some(sample_config()), TaskId::from_raw(11)),
        ServerToClientMessage::CurrentConfig(None, TaskId::from_raw(12)),
        ServerToClientMessage::CurrentServerState(ServerState::Started, TaskId::from_raw(13)),
        ServerToClientMessage::ConfigUpdated(sample_config(), Some(TaskId::from_raw(14))),
        ServerToClientMessage::ConfigUpdated(sample_config(), None),
        ServerToClientMessage::OperationRequested(Operation::Start, OperationId::from_raw(15)),
        ServerToClientMessage::OperationPerformed(
            Operation::Stop,
            OperationId::from_raw(16),
            Some(TaskId::from_raw(17)),
        ),
        ServerToClientMessage::OperationFailed(
            Operation::Restart,
            OperationId::from_raw(18),
            sample_error(),
            None,
        ),
        ServerToClientMessage::ServerStateUpdated(ServerState::Stopped(Some(ExitStatus::Failure))),
        ServerToClientMessage::ServerStateUpdated(ServerState::Stopped(None)),
        ServerToClientMessage::Stdout(vec![104, 105]),
        ServerToClientMessage::Stderr(vec![]),
        ServerToClientMessage::FatalError(sample_error()),
        ServerToClientMessage::Error(sample_error(), Some(TaskId::from_raw(19))),
        ServerToClientMessage::ShuttingDown,
    ];
    for m in msgs {
        let body = encode_s2c(&m);
        let back = decode_s2c_exact(&body).expect("message should decode");
        assert_eq!(back, m);
    }
}

#[test]
fn stream_decodes_in_order_with_no_residue() {
    let msgs = vec![
        ClientToServerMessage::Ping(TaskId::from_raw(1)),
        ClientToServerMessage::Input(vec![42; 1000]),
        ClientToServerMessage::Shutdown,
    ];
    let mut stream: Vec<u8> = Vec::new();
    for m in &msgs {
        stream.extend(encode_c2s_frame(m).unwrap());
    }
    let back = decode_c2s_stream(&stream).expect("stream should decode");
    assert_eq!(back, msgs);
}

#[test]
fn s2c_stream_decodes_in_order() {
    let msgs = vec![
        ServerToClientMessage::Pong(TaskId::from_raw(7)),
        ServerToClientMessage::ServerStateUpdated(ServerState::Started),
    ];
    let mut stream: Vec<u8> = Vec::new();
    for m in &msgs {
        stream.extend(encode_s2c_frame(m).unwrap());
    }
    let back = decode_s2c_stream(&stream).expect("stream should decode");
    assert_eq!(back, msgs);
}

#[test]
fn short_read_mid_frame_is_an_error() {
    let m = ClientToServerMessage::Ping(TaskId::from_raw(1));
    let frame = encode_c2s_frame(&m).unwrap();
    let truncated = &frame[..frame.len() - 1];
    assert!(decode_c2s_stream(truncated).is_none());
    // an empty stream is a clean end, not an error
    assert_eq!(decode_c2s_stream(&[]), Some(vec![]));
}

#[test]
fn residual_bytes_inside_a_frame_are_rejected() {
    let m = ClientToServerMessage::Shutdown;
    let mut body = encode_c2s(&m);
    body.push(0);
    assert!(decode_c2s_exact(&body).is_none());
}

#[test]
fn unknown_tag_is_rejected() {
    assert!(decode_c2s_exact(&[200]).is_none());
    assert!(decode_s2c_exact(&[200]).is_none());
}

#[test]
fn invalid_utf8_in_a_string_is_rejected() {
    // tag 3 = UpdateConfig, task id, then a custom java path whose string
    // holds an invalid UTF-8 byte
    let m = ClientToServerMessage::UpdateConfig(TaskId::from_raw(1), sample_config());
    let mut body = encode_c2s(&m);
    // the first string is the custom java path; its bytes start after
    // tag (1) + task id (8) + java tag (1) + length (8)
    body[18] = 0xFF;
    assert!(decode_c2s_exact(&body).is_none());
}

#[test]
fn oversize_frame_is_rejected() {
    // a header announcing more than the 16 MiB cap
    let header = [0xFF, 0xFF, 0xFF, 0x7F];
    assert_eq!(frame_body_len(&header), None);
    let mut stream = header.to_vec();
    stream.extend(vec![0u8; 16]);
    assert!(decode_c2s_stream(&stream).is_none());
}

#[test]
fn frame_body_len_reads_the_prefix() {
    assert_eq!(frame_body_len(&[9, 0, 0, 0]), Some(9));
    assert_eq!(frame_body_len(&[0, 0, 0, 1]), Some(0x01000000));
}

#[test]
fn unicode_strings_survive_the_wire() {
    let m = ClientToServerMessage::UpdateConfig(
        TaskId::from_raw(9),
        Config {
            java_path: JavaPath::Custom("/опт/järva/☕".to_string()),
            server_jar_path: "/srv/日本語.jar".to_string(),
            java_arguments: Arguments::Manual(vec![]),
            server_arguments: Arguments::Parsed(String::new()),
            user: User::Current,
        },
    );
    let body = encode_c2s(&m);
    assert_eq!(decode_c2s_exact(&body), Some(m));
}

#[test]
fn a_body_over_the_cap_fails_to_encode() {
    let m = ClientToServerMessage::Input(vec![0u8; 16 * 1024 * 1024]);
    assert!(encode_c2s_frame(&m).is_none());
    let small = ClientToServerMessage::Input(vec![0u8; 16]);
    assert!(encode_c2s_frame(&small).is_some());
}
