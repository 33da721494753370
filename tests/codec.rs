use chatroom_client::codec::{
    decode_join_response, encode_create_request, encode_join_request, encode_room_list_request,
    parse_room_directory, split_bytes, JoinRejection,
};
use chatroom_client::util::{clear_buf, read_buf};

#[test]
fn create_request_with_room_name_and_password() {
    let r = encode_create_request("alice", Some("lobby"), Some("pw1234"));
    assert_eq!(r, "create\r\nalice\r\nlobby\r\npw1234");
}

#[test]
fn create_request_without_password() {
    let r = encode_create_request("alice", Some("lobby"), None);
    assert_eq!(r, "create\r\nalice\r\nlobby");
}

#[test]
fn create_request_minimal() {
    let r = encode_create_request("bob", None, None);
    assert_eq!(r, "create\r\nbob");
}

#[test]
fn join_request_with_and_without_password() {
    assert_eq!(encode_join_request("bob", "ABCD1234", None), "join\r\nbob\r\nABCD1234");
    assert_eq!(
        encode_join_request("bob", "ABCD1234", Some("secret")),
        "join\r\nbob\r\nABCD1234\r\nsecret"
    );
}

#[test]
fn room_list_request_is_the_bare_token() {
    assert_eq!(encode_room_list_request(), "room_list");
}

#[test]
fn read_buf_stops_at_nul() {
    let mut buf = b"ROOM0001".to_vec();
    buf.push(0);
    buf.extend_from_slice(b"garbage");
    assert_eq!(read_buf(&buf), "ROOM0001");
}

#[test]
fn read_buf_without_nul_takes_everything() {
    assert_eq!(read_buf(b"ROOM0001"), "ROOM0001");
    assert_eq!(read_buf(b""), "");
}

#[test]
fn read_buf_replaces_invalid_utf8() {
    assert_eq!(read_buf(&[b'a', 0xff, b'b']), "a\u{fffd}b");
}

#[test]
fn room_id_round_trip_through_create_response() {
    let room_id = "Zimmer-ä1";
    let req = encode_create_request("alice", Some("lobby"), None);
    assert!(req.starts_with("create\r\n"));
    let mut body = room_id.as_bytes().to_vec();
    assert_eq!(read_buf(&body), room_id);
    body.push(0);
    body.extend_from_slice(&[0, 0, 7]);
    assert_eq!(read_buf(&body), room_id);
}

#[test]
fn clear_buf_zeroes_every_byte() {
    let mut buf = [1u8, 2, 3, 255];
    clear_buf(&mut buf);
    assert_eq!(buf, [0u8; 4]);
}

#[test]
fn join_refusals_are_exact_matches() {
    assert_eq!(decode_join_response(b"@#$failed").unwrap_err(), JoinRejection::RoomNotFound);
    assert_eq!(decode_join_response(b"@#$wrong").unwrap_err(), JoinRejection::WrongPassword);
    let near = decode_join_response(b"@#$failed2").unwrap();
    assert_eq!(near.room_id, "@#$failed2");
    assert!(near.members.is_empty());
    assert!(decode_join_response(b"@#$wrong\r\n").is_ok());
}

#[test]
fn join_acceptance_lists_members() {
    let a = decode_join_response(b"ROOM0001\r\nalice\r\nbob").unwrap();
    assert_eq!(a.room_id, "ROOM0001");
    assert_eq!(a.members, vec!["alice".to_string(), "bob".to_string()]);
}

#[test]
fn join_acceptance_without_members() {
    let a = decode_join_response(b"ROOM0001").unwrap();
    assert_eq!(a.room_id, "ROOM0001");
    assert!(a.members.is_empty());
}

#[test]
fn split_keeps_empty_pieces() {
    let pieces = split_bytes(b"a\r\n\r\nb\r\n", b"\r\n");
    assert_eq!(pieces, vec![b"a".to_vec(), vec![], b"b".to_vec(), vec![]]);
    assert_eq!(split_bytes(b"", b"\r\n"), vec![Vec::<u8>::new()]);
}

#[test]
fn directory_parses_rooms_in_order() {
    let rooms = parse_room_directory(b"R1$#$#Lobby$#$#0\r\nR2$#$#Secret$#$#1");
    assert_eq!(rooms.len(), 2);
    assert_eq!(rooms[0].room_id, "R1");
    assert_eq!(rooms[0].room_name, "Lobby");
    assert!(!rooms[0].has_password);
    assert_eq!(rooms[1].room_id, "R2");
    assert_eq!(rooms[1].room_name, "Secret");
    assert!(rooms[1].has_password);
}

#[test]
fn directory_drops_short_lines() {
    let rooms = parse_room_directory(b"R1$#$#Lobby\r\n\r\nR2$#$#Two$#$#0$#$#extra\r\njunk");
    assert_eq!(rooms.len(), 1);
    assert_eq!(rooms[0].room_id, "R2");
    assert_eq!(rooms[0].room_name, "Two");
    assert!(!rooms[0].has_password);
    assert!(parse_room_directory(b"").is_empty());
}

#[test]
fn directory_password_flag_is_trimmed_one_only() {
    let rooms = parse_room_directory(b"A$#$#a$#$# 1 \r\nB$#$#b$#$#11\r\nC$#$#c$#$#2\r\nD$#$#d$#$#");
    assert_eq!(rooms.len(), 4);
    assert!(rooms[0].has_password);
    assert!(!rooms[1].has_password);
    assert!(!rooms[2].has_password);
    assert!(!rooms[3].has_password);
}
