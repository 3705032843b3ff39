use soulseek_server::{
    frame, parse_message, BufferWriter, ConnectedUsers, Db, Dispatch, PeerAddr, ServerError,
    ServerMessage, UserStatus,
};

const PEER: PeerAddr = PeerAddr { ip: 0x7F00_0001, port: 50000 };

fn store() -> Db {
    let mut db = Db::open_in_memory().unwrap();
    db.create_table().unwrap();
    db
}

fn login_body(user: &str, password: &str) -> Vec<u8> {
    let mut w = BufferWriter::new();
    w.write_u32(1)
        .write_string(user)
        .write_string(password)
        .write_u32(160)
        .write_string("d41d8cd98f00b204e9800998ecf8427e")
        .write_u32(3);
    w.to_vec()
}

fn expected_login_reply() -> Vec<u8> {
    let mut w = BufferWriter::new();
    w.write_u32(1)
        .write_bool(true)
        .write_string("Hello")
        .write_u32(0x7F00_0001)
        .write_string("6e6fdf956d04289354dcf1619e28fe77")
        .write_bool(true);
    w.to_vec()
}

fn reply_of(r: Result<Dispatch, ServerError>) -> Vec<u8> {
    match r {
        Ok(Dispatch::Reply(bytes)) => bytes,
        other => panic!("expected a reply, got {:?}", other),
    }
}

#[test]
fn fresh_login_creates_privileged_account_and_session() {
    let mut db = store();
    let mut users = ConnectedUsers::new();
    assert_eq!(db.user_exists("alice"), Ok(false));
    let reply = reply_of(parse_message(PEER, &login_body("alice", "pw1"), &mut db, &mut users));
    assert_eq!(reply, expected_login_reply());
    assert_eq!(db.user_exists("alice"), Ok(true));
    assert_eq!(db.is_user_privileged("alice"), Ok(true));
    assert_eq!(users.status_of(PEER), Some(UserStatus::Online));
    assert_eq!(users.name_of(PEER), Some("alice".to_string()));
    assert_eq!(users.len(), 1);
}

#[test]
fn repeat_login_gives_same_reply() {
    let mut db = store();
    let mut users = ConnectedUsers::new();
    let first = reply_of(parse_message(PEER, &login_body("alice", "pw1"), &mut db, &mut users));
    let second = reply_of(parse_message(PEER, &login_body("alice", "pw1"), &mut db, &mut users));
    assert_eq!(first, second);
    assert_eq!(users.len(), 1);
    assert_eq!(db.user_exists("alice"), Ok(true));
}

#[test]
fn login_does_not_check_password_of_existing_account() {
    let mut db = store();
    let mut users = ConnectedUsers::new();
    parse_message(PEER, &login_body("alice", "pw1"), &mut db, &mut users).unwrap();
    let reply = reply_of(parse_message(PEER, &login_body("alice", "other"), &mut db, &mut users));
    // success flag right after the opcode
    assert_eq!(reply[4], 1);
}

#[test]
fn set_status_away_then_get_user_status_still_online() {
    let mut db = store();
    let mut users = ConnectedUsers::new();
    parse_message(PEER, &login_body("alice", "pw1"), &mut db, &mut users).unwrap();

    let mut w = BufferWriter::new();
    w.write_u32(28).write_i32(1);
    let r = parse_message(PEER, &w.to_vec(), &mut db, &mut users);
    assert!(matches!(r, Ok(Dispatch::NoReply)));
    assert_eq!(users.status_of(PEER), Some(UserStatus::Away));

    let mut w = BufferWriter::new();
    w.write_u32(7).write_string("alice");
    let reply = reply_of(parse_message(PEER, &w.to_vec(), &mut db, &mut users));
    let mut expected = BufferWriter::new();
    expected.write_u32(7).write_string("alice").write_u32(2).write_bool(true);
    assert_eq!(reply, expected.to_vec());
}

#[test]
fn set_status_without_session_changes_nothing() {
    let mut db = store();
    let mut users = ConnectedUsers::new();
    let mut w = BufferWriter::new();
    w.write_u32(28).write_i32(2);
    let r = parse_message(PEER, &w.to_vec(), &mut db, &mut users);
    assert!(matches!(r, Ok(Dispatch::NoReply)));
    assert_eq!(users.len(), 0);
}

#[test]
fn set_status_with_unknown_value_is_rejected() {
    let mut db = store();
    let mut users = ConnectedUsers::new();
    parse_message(PEER, &login_body("alice", "pw1"), &mut db, &mut users).unwrap();
    let mut w = BufferWriter::new();
    w.write_u32(28).write_i32(3);
    let r = parse_message(PEER, &w.to_vec(), &mut db, &mut users);
    assert!(matches!(r, Err(ServerError::InvalidEnumValue)));
    assert_eq!(users.status_of(PEER), Some(UserStatus::Online));
}

#[test]
fn get_user_status_of_unknown_user_is_a_storage_failure() {
    let mut db = store();
    let mut users = ConnectedUsers::new();
    let mut w = BufferWriter::new();
    w.write_u32(7).write_string("nobody");
    let r = parse_message(PEER, &w.to_vec(), &mut db, &mut users);
    assert!(matches!(r, Err(ServerError::StorageFailure)));
}

#[test]
fn login_without_table_is_a_storage_failure() {
    let mut db = Db::open_in_memory().unwrap();
    let mut users = ConnectedUsers::new();
    let r = parse_message(PEER, &login_body("alice", "pw1"), &mut db, &mut users);
    assert!(matches!(r, Err(ServerError::StorageFailure)));
    assert_eq!(users.len(), 0);
}

#[test]
fn check_privileges_and_room_list_are_constant() {
    let mut db = store();
    let mut users = ConnectedUsers::new();
    for _ in 0..3 {
        let reply = reply_of(parse_message(PEER, &[92, 0, 0, 0], &mut db, &mut users));
        assert_eq!(reply, vec![92, 0, 0, 0, 0xFF, 0xFF, 0xFF, 0xFF]);
        let reply = reply_of(parse_message(PEER, &[64, 0, 0, 0], &mut db, &mut users));
        assert_eq!(reply, vec![64, 0, 0, 0, 0, 0, 0, 0]);
    }
}

#[test]
fn trailing_bytes_are_a_consumption_violation() {
    let mut db = store();
    let mut users = ConnectedUsers::new();
    let r = parse_message(PEER, &[92, 0, 0, 0, 1], &mut db, &mut users);
    assert!(matches!(r, Err(ServerError::PayloadNotFullyConsumed)));
    let r = parse_message(PEER, &[71, 0, 0, 0, 1, 9], &mut db, &mut users);
    assert!(matches!(r, Err(ServerError::PayloadNotFullyConsumed)));
}

#[test]
fn unknown_opcode_gives_no_reply() {
    let mut db = store();
    let mut users = ConnectedUsers::new();
    let mut w = BufferWriter::new();
    w.write_u32(9999).write_byte_array(&[1, 2, 3, 4, 5, 6]);
    let r = parse_message(PEER, &w.to_vec(), &mut db, &mut users);
    assert!(matches!(r, Ok(Dispatch::UnknownOpcode(9999))));
}

#[test]
fn short_body_is_end_of_data() {
    let mut db = store();
    let mut users = ConnectedUsers::new();
    let r = parse_message(PEER, &[1, 0], &mut db, &mut users);
    assert!(matches!(r, Err(ServerError::EndOfData)));
    let r = parse_message(PEER, &[126, 0, 0, 0, 1], &mut db, &mut users);
    assert!(matches!(r, Err(ServerError::EndOfData)));
}

#[test]
fn set_wait_port_with_and_without_obfuscation() {
    let mut db = store();
    let mut users = ConnectedUsers::new();
    let mut w = BufferWriter::new();
    w.write_u32(2).write_u32(2234);
    assert!(matches!(parse_message(PEER, &w.to_vec(), &mut db, &mut users), Ok(Dispatch::NoReply)));
    w.write_u32(1).write_u32(2235);
    assert!(matches!(parse_message(PEER, &w.to_vec(), &mut db, &mut users), Ok(Dispatch::NoReply)));
    w.write_u8(0);
    let r = parse_message(PEER, &w.to_vec(), &mut db, &mut users);
    assert!(matches!(r, Err(ServerError::PayloadNotFullyConsumed)));
}

#[test]
fn fieldonly_requests_give_no_reply() {
    let mut db = store();
    let mut users = ConnectedUsers::new();
    let mut w = BufferWriter::new();
    w.write_u32(35).write_u32(4).write_u32(100);
    assert!(matches!(parse_message(PEER, &w.to_vec(), &mut db, &mut users), Ok(Dispatch::NoReply)));
    let mut w = BufferWriter::new();
    w.write_u32(100).write_bool(true);
    assert!(matches!(parse_message(PEER, &w.to_vec(), &mut db, &mut users), Ok(Dispatch::NoReply)));
    let mut w = BufferWriter::new();
    w.write_u32(127).write_string("root");
    assert!(matches!(parse_message(PEER, &w.to_vec(), &mut db, &mut users), Ok(Dispatch::NoReply)));
}

#[test]
fn private_room_toggle_echoes_flag() {
    let mut db = store();
    let mut users = ConnectedUsers::new();
    let reply = reply_of(parse_message(PEER, &[141, 0, 0, 0, 1], &mut db, &mut users));
    assert_eq!(reply, vec![141, 0, 0, 0, 1]);
    let reply = reply_of(parse_message(PEER, &[141, 0, 0, 0, 0], &mut db, &mut users));
    assert_eq!(reply, vec![141, 0, 0, 0, 0]);
}

#[test]
fn frame_prefixes_exact_length() {
    assert_eq!(frame(&[92, 0, 0, 0, 1]), vec![5, 0, 0, 0, 92, 0, 0, 0, 1]);
    assert_eq!(frame(&[]), vec![0, 0, 0, 0]);
}

#[test]
fn opcodes_map_to_messages() {
    assert_eq!(ServerMessage::from_code(1), Some(ServerMessage::Login));
    assert_eq!(ServerMessage::from_code(141), Some(ServerMessage::PrivateRoomToggle));
    assert_eq!(ServerMessage::from_code(9999), None);
    assert_eq!(ServerMessage::CheckPrivileges.code(), 92);
    assert_eq!(UserStatus::try_from_i32(1), Some(UserStatus::Away));
    assert_eq!(UserStatus::try_from_i32(-1), None);
}

#[test]
fn ensure_table_creates_once() {
    let mut db = Db::open_in_memory().unwrap();
    assert_eq!(db.table_exists(), Ok(false));
    assert_eq!(db.ensure_table(), Ok(()));
    assert_eq!(db.table_exists(), Ok(true));
    assert_eq!(db.ensure_table(), Ok(()));
    assert_eq!(db.user_exists("alice"), Ok(false));
    assert_eq!(db.insert_user("alice", "pw1"), Ok(1));
    assert_eq!(db.is_user_privileged("alice"), Ok(true));
}
