use soulseek_server::{
    Action, BufferWriter, ConnectedUsers, Db, Event, PeerAddr, PeerConnection, Phase,
};

const PEER: PeerAddr = PeerAddr { ip: 0x0A00_0002, port: 4000 };

fn store() -> Db {
    let mut db = Db::open_in_memory().unwrap();
    db.create_table().unwrap();
    db
}

fn header(n: u32) -> Event {
    Event::Received(n.to_le_bytes().to_vec())
}

fn login(conn: &mut PeerConnection, db: &mut Db, users: &mut ConnectedUsers) {
    let mut w = BufferWriter::new();
    w.write_u32(1)
        .write_string("alice")
        .write_string("pw1")
        .write_u32(160)
        .write_string("x")
        .write_u32(1);
    let body = w.to_vec();
    assert!(matches!(conn.step(header(body.len() as u32), db, users), Action::Read(n) if n == body.len()));
    assert!(matches!(conn.step(Event::Received(body), db, users), Action::Send(_)));
}

#[test]
fn unknown_opcode_frame_keeps_stream_aligned() {
    let mut db = store();
    let mut users = ConnectedUsers::new();
    let mut conn = PeerConnection::new(PEER);
    let mut body = 9999u32.to_le_bytes().to_vec();
    body.extend_from_slice(&[1, 2, 3, 4, 5, 6, 7, 8, 9, 10]);
    assert!(matches!(conn.step(header(14), &mut db, &mut users), Action::Read(14)));
    assert!(matches!(conn.step(Event::Received(body), &mut db, &mut users), Action::Ignore(9999)));
    assert_eq!(conn.phase, Phase::Header);
    assert!(matches!(conn.step(header(4), &mut db, &mut users), Action::Read(4)));
    match conn.step(Event::Received(vec![92, 0, 0, 0]), &mut db, &mut users) {
        Action::Send(bytes) => {
            assert_eq!(bytes, vec![8, 0, 0, 0, 92, 0, 0, 0, 0xFF, 0xFF, 0xFF, 0xFF])
        }
        other => panic!("expected a reply, got {:?}", other),
    }
}

#[test]
fn truncated_frame_closes_and_removes_session() {
    let mut db = store();
    let mut users = ConnectedUsers::new();
    let mut conn = PeerConnection::new(PEER);
    login(&mut conn, &mut db, &mut users);
    assert_eq!(users.len(), 1);
    assert!(matches!(conn.step(header(100), &mut db, &mut users), Action::Read(100)));
    assert!(matches!(conn.step(Event::Received(vec![0; 10]), &mut db, &mut users), Action::Close));
    assert_eq!(users.len(), 0);
    assert_eq!(users.status_of(PEER), None);
}

#[test]
fn socket_failure_closes_and_removes_session() {
    let mut db = store();
    let mut users = ConnectedUsers::new();
    let mut conn = PeerConnection::new(PEER);
    login(&mut conn, &mut db, &mut users);
    assert!(matches!(conn.step(Event::Failed, &mut db, &mut users), Action::Close));
    assert_eq!(users.len(), 0);
}

#[test]
fn bad_message_is_rejected_and_connection_continues() {
    let mut db = store();
    let mut users = ConnectedUsers::new();
    let mut conn = PeerConnection::new(PEER);
    assert!(matches!(conn.step(header(2), &mut db, &mut users), Action::Read(2)));
    assert!(matches!(conn.step(Event::Received(vec![1, 0]), &mut db, &mut users), Action::Reject(_)));
    assert_eq!(conn.phase, Phase::Header);
    assert!(matches!(conn.step(header(4), &mut db, &mut users), Action::Read(4)));
    assert!(matches!(conn.step(Event::Received(vec![64, 0, 0, 0]), &mut db, &mut users), Action::Send(_)));
}

#[test]
fn no_reply_request_asks_for_next_header() {
    let mut db = store();
    let mut users = ConnectedUsers::new();
    let mut conn = PeerConnection::new(PEER);
    assert!(matches!(conn.step(header(8), &mut db, &mut users), Action::Read(8)));
    let body = vec![126, 0, 0, 0, 3, 0, 0, 0];
    assert!(matches!(conn.step(Event::Received(body), &mut db, &mut users), Action::Read(4)));
}
