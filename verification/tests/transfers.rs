use rsl_tunnel::api::{TStatus, TransferBody};
use rsl_tunnel::config::{Config, CoreConfig, HttpConfig};
use rsl_tunnel::connection::{eof_bytes, is_eof, Connection, SocketOp, XData};
use rsl_tunnel::error::ErrorKind;
use rsl_tunnel::server::RSLServer;
use rsl_tunnel::transfer::{ConnState, Drain, TransferAction, TransferSession};

fn server_with(ids: &[&str]) -> RSLServer<u8, u32> {
    let cfg = Config {
        core: CoreConfig {
            auth_method: "token".to_string(),
            bind_addr: "127.0.0.1:7000".to_string(),
            allow_ports: "9000-9002".to_string(),
        },
        http: HttpConfig {
            bind_addr: "127.0.0.1:8080".to_string(),
            default_domain: "example.com".to_string(),
        },
        tokens: Vec::new(),
    };
    let mut s = RSLServer::new(cfg, 1, 2);
    for (i, id) in ids.iter().enumerate() {
        s.register_connection(Connection { id: id.to_string(), tx: 100 + i as u32 });
    }
    s
}

fn frame(conn_id: &str, status: TStatus, resp_data: &[u8]) -> TransferBody {
    TransferBody { conn_id: conn_id.to_string(), status: status.as_i32(), resp_data: resp_data.to_vec() }
}

fn written(socket: &mut Vec<u8>, closed: &mut bool, data: XData<u32>) {
    if *closed {
        return;
    }
    match data.socket_op() {
        SocketOp::Install(_) => {}
        SocketOp::Write(bytes) => socket.extend_from_slice(&bytes),
        SocketOp::Close => *closed = true,
    }
}

#[test]
fn status_numbers() {
    assert_eq!(TStatus::from_i32(0), Some(TStatus::Ready));
    assert_eq!(TStatus::from_i32(1), Some(TStatus::Working));
    assert_eq!(TStatus::from_i32(2), Some(TStatus::Done));
    assert_eq!(TStatus::from_i32(3), None);
    assert_eq!(TStatus::from_i32(-1), None);
    assert_eq!(TStatus::Ready.as_i32(), 0);
    assert_eq!(TStatus::Working.as_i32(), 1);
    assert_eq!(TStatus::Done.as_i32(), 2);
}

#[test]
fn eof_marker_is_three_bytes() {
    assert_eq!(eof_bytes(), b"EOF".to_vec());
    assert!(is_eof(&b"EOF".to_vec()));
    assert!(!is_eof(&b"EOF\n".to_vec()));
    assert!(!is_eof(&b"eof".to_vec()));
    assert!(!is_eof(&b"EO".to_vec()));
    assert!(!is_eof(&Vec::new()));
}

#[test]
fn socket_op_of_each_message() {
    assert!(matches!(XData::TX(5u32).socket_op(), SocketOp::Install(5)));
    match XData::<u32>::Data(b"WORLD".to_vec()).socket_op() {
        SocketOp::Write(bytes) => assert_eq!(bytes, b"WORLD".to_vec()),
        other => panic!("unexpected {:?}", other),
    }
    assert!(matches!(XData::<u32>::Data(b"EOF".to_vec()).socket_op(), SocketOp::Close));
    match XData::<u32>::Data(Vec::new()).socket_op() {
        SocketOp::Write(bytes) => assert!(bytes.is_empty()),
        other => panic!("unexpected {:?}", other),
    }
}

#[test]
fn byte_forwarding() {
    let mut s = server_with(&["id-1"]);
    let mut session = TransferSession::new();
    let mut drain = match s.transfer(&mut session, frame("id-1", TStatus::Ready, b"")).unwrap() {
        TransferAction::Install { conn_id } => {
            assert_eq!(conn_id, "id-1");
            assert_eq!(s.connection(&conn_id).unwrap().tx, 100);
            Drain::new(conn_id)
        }
        other => panic!("unexpected {:?}", other),
    };
    let reply = drain.feed(Some(b"HELLO".to_vec())).unwrap();
    assert_eq!(reply.conn_id, "id-1");
    assert_eq!(reply.req_data, b"HELLO".to_vec());
    assert!(!drain.done());
    let last = drain.feed(None).unwrap();
    assert_eq!(last.conn_id, "id-1");
    assert!(last.req_data.is_empty());
    assert!(drain.done());

    let mut socket = Vec::new();
    let mut closed = false;
    match s.transfer(&mut session, frame("id-1", TStatus::Working, b"WORLD")).unwrap() {
        TransferAction::Forward { conn_id, data } => {
            assert_eq!(conn_id, "id-1");
            assert_eq!(data, b"WORLD".to_vec());
            written(&mut socket, &mut closed, XData::Data(data));
        }
        other => panic!("unexpected {:?}", other),
    }
    match s.transfer(&mut session, frame("id-1", TStatus::Done, b"")).unwrap() {
        TransferAction::Close { conn, data } => {
            assert_eq!(conn.id, "id-1");
            assert_eq!(conn.tx, 100);
            assert_eq!(data, b"EOF".to_vec());
            written(&mut socket, &mut closed, XData::Data(data));
        }
        other => panic!("unexpected {:?}", other),
    }
    assert_eq!(socket, b"WORLD".to_vec());
    assert!(closed);
    assert!(!s.has_connection(&"id-1".to_string()));
    assert_eq!(session.state("id-1"), ConnState::Terminal);
}

#[test]
fn response_in_many_frames_arrives_in_order() {
    let mut s = server_with(&["c"]);
    let mut session = TransferSession::new();
    let parts: [&[u8]; 5] = [b"HTTP/1.1 200 OK\r\n", b"", b"\r\n", b"EOF!", b"body"];
    let mut socket = Vec::new();
    let mut closed = false;
    assert!(matches!(
        s.transfer(&mut session, frame("c", TStatus::Ready, b"")),
        Ok(TransferAction::Install { .. })
    ));
    for part in parts {
        match s.transfer(&mut session, frame("c", TStatus::Working, part)).unwrap() {
            TransferAction::Forward { data, .. } => written(&mut socket, &mut closed, XData::Data(data)),
            other => panic!("unexpected {:?}", other),
        }
    }
    match s.transfer(&mut session, frame("c", TStatus::Done, b"ignored")).unwrap() {
        TransferAction::Close { data, .. } => written(&mut socket, &mut closed, XData::Data(data)),
        other => panic!("unexpected {:?}", other),
    }
    assert_eq!(socket, parts.concat());
    assert!(closed);
}

#[test]
fn frame_that_is_the_marker_closes_early() {
    let mut s = server_with(&["c"]);
    let mut session = TransferSession::new();
    let mut socket = Vec::new();
    let mut closed = false;
    s.transfer(&mut session, frame("c", TStatus::Ready, b"")).unwrap();
    for part in [&b"one"[..], &b"EOF"[..], &b"two"[..]] {
        match s.transfer(&mut session, frame("c", TStatus::Working, part)).unwrap() {
            TransferAction::Forward { data, .. } => written(&mut socket, &mut closed, XData::Data(data)),
            other => panic!("unexpected {:?}", other),
        }
    }
    assert_eq!(socket, b"one".to_vec());
    assert!(closed);
}

#[test]
fn frames_before_ready_violate_the_protocol() {
    let mut s = server_with(&["c"]);
    let mut session = TransferSession::new();
    for status in [TStatus::Working, TStatus::Done] {
        let bad = s.transfer(&mut session, frame("c", status, b"x")).unwrap_err();
        assert_eq!(bad.kind, ErrorKind::ProtocolViolation);
        assert_eq!(bad.message, "transfer status out of order");
    }
    assert_eq!(session.state("c"), ConnState::Initial);
    assert!(s.has_connection(&"c".to_string()));
    assert!(matches!(
        s.transfer(&mut session, frame("c", TStatus::Ready, b"")),
        Ok(TransferAction::Install { .. })
    ));
    assert_eq!(session.state("c"), ConnState::Working);
}

#[test]
fn unknown_connection_violates_the_protocol() {
    let mut s = server_with(&["c"]);
    let mut session = TransferSession::new();
    for status in [TStatus::Ready, TStatus::Working, TStatus::Done] {
        let bad = s.transfer(&mut session, frame("nobody", status, b"")).unwrap_err();
        assert_eq!(bad.kind, ErrorKind::ProtocolViolation);
        assert_eq!(bad.message, "unknown connection");
    }
    assert_eq!(session.state("nobody"), ConnState::Initial);
}

#[test]
fn unknown_status_violates_the_protocol() {
    let mut s = server_with(&["c"]);
    let mut session = TransferSession::new();
    for status in [3, -1, 99] {
        let body = TransferBody { conn_id: "c".to_string(), status, resp_data: Vec::new() };
        let bad = s.transfer(&mut session, body).unwrap_err();
        assert_eq!(bad.kind, ErrorKind::ProtocolViolation);
        assert_eq!(bad.message, "unknown transfer status");
    }
    assert_eq!(session.state("c"), ConnState::Initial);
}

#[test]
fn ready_twice_installs_again() {
    let mut s = server_with(&["c"]);
    let mut session = TransferSession::new();
    for _ in 0..2 {
        match s.transfer(&mut session, frame("c", TStatus::Ready, b"")).unwrap() {
            TransferAction::Install { conn_id } => assert_eq!(conn_id, "c"),
            other => panic!("unexpected {:?}", other),
        }
        assert_eq!(session.state("c"), ConnState::Working);
    }
    assert!(s.has_connection(&"c".to_string()));
}

#[test]
fn frames_after_done_are_ignored() {
    let mut s = server_with(&["c"]);
    let mut session = TransferSession::new();
    s.transfer(&mut session, frame("c", TStatus::Ready, b"")).unwrap();
    s.transfer(&mut session, frame("c", TStatus::Done, b"")).unwrap();
    for status in [TStatus::Ready, TStatus::Working, TStatus::Done] {
        assert!(matches!(
            s.transfer(&mut session, frame("c", status, b"late")),
            Ok(TransferAction::Ignore)
        ));
        assert_eq!(session.state("c"), ConnState::Terminal);
    }
}

#[test]
fn interleaved_connections_do_not_affect_each_other() {
    let mut s = server_with(&["a", "b"]);
    let mut session = TransferSession::new();
    s.transfer(&mut session, frame("a", TStatus::Ready, b"")).unwrap();
    assert_eq!(session.state("a"), ConnState::Working);
    assert_eq!(session.state("b"), ConnState::Initial);
    let bad = s.transfer(&mut session, frame("b", TStatus::Working, b"x")).unwrap_err();
    assert_eq!(bad.message, "transfer status out of order");
    s.transfer(&mut session, frame("b", TStatus::Ready, b"")).unwrap();
    match s.transfer(&mut session, frame("a", TStatus::Done, b"")).unwrap() {
        TransferAction::Close { conn, .. } => assert_eq!((conn.id.as_str(), conn.tx), ("a", 100)),
        other => panic!("unexpected {:?}", other),
    }
    assert_eq!(session.state("a"), ConnState::Terminal);
    assert_eq!(session.state("b"), ConnState::Working);
    assert!(s.has_connection(&"b".to_string()));
    match s.transfer(&mut session, frame("b", TStatus::Working, b"still here")).unwrap() {
        TransferAction::Forward { conn_id, data } => {
            assert_eq!(conn_id, "b");
            assert_eq!(data, b"still here".to_vec());
            assert_eq!(s.connection(&conn_id).unwrap().tx, 101);
        }
        other => panic!("unexpected {:?}", other),
    }
}

#[test]
fn each_stream_has_its_own_states() {
    let mut s = server_with(&["c"]);
    let mut first = TransferSession::new();
    let mut second = TransferSession::new();
    s.transfer(&mut first, frame("c", TStatus::Ready, b"")).unwrap();
    assert_eq!(first.state("c"), ConnState::Working);
    assert_eq!(second.state("c"), ConnState::Initial);
    assert!(s.transfer(&mut second, frame("c", TStatus::Working, b"")).is_err());
}

#[test]
fn drain_passes_chunks_on_and_ends_with_an_empty_reply() {
    let mut drain = Drain::new("c".to_string());
    let chunks: [&[u8]; 3] = [b"HE", b"L", b"LO"];
    let mut received = Vec::new();
    let mut replies = 0;
    for chunk in chunks {
        let reply = drain.feed(Some(chunk.to_vec())).unwrap();
        assert_eq!(reply.conn_id, "c");
        assert_eq!(reply.req_data, chunk.to_vec());
        received.extend_from_slice(&reply.req_data);
        replies += 1;
    }
    let last = drain.feed(None).unwrap();
    assert!(last.req_data.is_empty());
    assert_eq!(received, b"HELLO".to_vec());
    assert_eq!(replies, 3);
    assert!(drain.done());
}

#[test]
fn drain_ends_on_an_empty_chunk_and_then_stays_silent() {
    let mut drain = Drain::new("c".to_string());
    assert_eq!(drain.feed(Some(b"x".to_vec())).unwrap().req_data, b"x".to_vec());
    let last = drain.feed(Some(Vec::new())).unwrap();
    assert_eq!(last.conn_id, "c");
    assert!(last.req_data.is_empty());
    assert!(drain.done());
    assert!(drain.feed(Some(b"late".to_vec())).is_none());
    assert!(drain.feed(None).is_none());
    assert!(drain.feed(Some(Vec::new())).is_none());
}

#[test]
fn drain_of_a_silent_connection_sends_one_empty_reply() {
    let mut drain = Drain::new("c".to_string());
    assert!(!drain.done());
    let only = drain.feed(None).unwrap();
    assert!(only.req_data.is_empty());
    assert!(drain.feed(None).is_none());
}
