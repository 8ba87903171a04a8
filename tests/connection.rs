use rethinkdb::query::table;
use rethinkdb::wire::read_response_header;
use rethinkdb::{ConnState, Connection, Error, ErrorKind};

fn ready() -> Connection {
    let mut conn = Connection::new();
    conn.read_handshake_reply(b"SUCCESS\0").unwrap();
    conn
}

#[test]
fn handshake_bytes() {
    let conn = Connection::new();
    assert_eq!(
        conn.write_handshake(),
        vec![0x3e, 0xe8, 0x75, 0x5f, 0, 0, 0, 0, 0xc7, 0x70, 0x69, 0x7e]
    );
}

#[test]
fn handshake_success() {
    let conn = ready();
    assert_eq!(conn.state(), ConnState::Ready);
    assert_eq!(conn.next_token(), 0);
}

#[test]
fn handshake_failure_carries_the_reply() {
    let mut conn = Connection::new();
    match conn.read_handshake_reply(b"ERROR: bad version\0") {
        Err(Error::ProtocolError(m)) => assert_eq!(m, "ERROR: bad version"),
        other => panic!("unexpected {:?}", other),
    }
    assert_eq!(conn.state(), ConnState::Disconnected);
}

#[test]
fn read_to_null_stops_at_zero() {
    assert_eq!(Connection::read_to_null(b"ab\0cd"), Some(b"ab".to_vec()));
    assert_eq!(Connection::read_to_null(b"abc"), None);
}

#[test]
fn query_before_handshake_is_refused() {
    let mut conn = Connection::new();
    let e = conn.start_query(&table("t").into_query()).unwrap_err();
    assert_eq!(e.kind(), ErrorKind::Driver);
}

#[test]
fn start_query_frames_with_token_and_length() {
    let mut conn = ready();
    let (token, frame) = conn.start_query(&table("foo").into_query()).unwrap();
    assert_eq!(token, 0);
    let payload = br#"[1,[15,["foo"]],{}]"#;
    let mut expected = vec![0u8; 8];
    expected.extend_from_slice(&(payload.len() as u32).to_le_bytes());
    expected.extend_from_slice(payload);
    assert_eq!(frame, expected);
    assert_eq!(conn.next_token(), 1);
}

#[test]
fn default_database_goes_into_global_options() {
    let mut conn = ready();
    conn.use_db("test");
    conn.start_query(&table("a").into_query()).unwrap();
    let (token, frame) = conn.start_query(&table("foo").into_query()).unwrap();
    assert_eq!(token, 1);
    assert_eq!(&frame[0..8], &[1, 0, 0, 0, 0, 0, 0, 0]);
    assert_eq!(&frame[12..], br#"[1,[15,["foo"]],{"db":[14,["test"]]}]"#);
}

#[test]
fn execute_raw_frames_bytes() {
    let mut conn = ready();
    let frame = conn.execute_raw(b"xyz").unwrap();
    assert_eq!(frame, vec![0, 0, 0, 0, 0, 0, 0, 0, 3, 0, 0, 0, b'x', b'y', b'z']);
    let frame = conn.execute_raw(b"").unwrap();
    assert_eq!(frame, vec![1, 0, 0, 0, 0, 0, 0, 0, 0, 0, 0, 0]);
}

#[test]
fn continue_frame_reuses_the_token() {
    let conn = ready();
    let frame = conn.continue_query(5).unwrap();
    assert_eq!(frame, vec![5, 0, 0, 0, 0, 0, 0, 0, 3, 0, 0, 0, b'[', b'2', b']']);
    assert_eq!(conn.next_token(), 0);
}

#[test]
fn response_header_checks_the_token() {
    let header = [9, 0, 0, 0, 0, 0, 0, 0, 0x10, 0x01, 0, 0];
    assert_eq!(read_response_header(&header, 9).unwrap(), 0x110);
    assert_eq!(read_response_header(&header, 8).unwrap_err().kind(), ErrorKind::Protocol);
    assert_eq!(read_response_header(&header[..11], 9).unwrap_err().kind(), ErrorKind::Protocol);
}

#[test]
fn disconnect_is_terminal() {
    let mut conn = ready();
    conn.disconnect();
    assert_eq!(conn.state(), ConnState::Disconnected);
    assert_eq!(conn.execute_raw(b"x").unwrap_err().kind(), ErrorKind::Driver);
}
