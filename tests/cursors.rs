use rethinkdb::{decode_response, Cursor, CursorState, Datum, ErrorKind, Response, ResponseKind, Step};

fn person(name: &str, age: i64) -> Datum {
    Datum::Object(vec![
        ("name".to_string(), Datum::Str(name.to_string())),
        ("age".to_string(), Datum::Int(age)),
    ])
}

fn fixture_data() -> Vec<Datum> {
    vec![person("bob", 23), person("sally", 25)]
}

fn fixture() -> Cursor {
    let res = Response { kind: ResponseKind::Sequence, values: Datum::Array(fixture_data()) };
    Cursor::from_response(res, 0).unwrap()
}

#[test]
fn test_iter() {
    let cursor = fixture();
    assert_eq!(fixture_data(), cursor.iter());
}

#[test]
fn test_into_iter() {
    let cursor = fixture();
    assert_eq!(fixture_data(), cursor.into_iter());
}

#[test]
fn sequence_never_continues() {
    let mut cursor = fixture();
    assert_eq!(cursor.next(), Step::Item(person("bob", 23)));
    assert_eq!(cursor.next(), Step::Item(person("sally", 25)));
    assert_eq!(cursor.next(), Step::Done);
    assert_eq!(cursor.next(), Step::Done);
    assert_eq!(cursor.state(), CursorState::Exhausted);
}

#[test]
fn partial_continues_once() {
    let res = decode_response(br#"{"t":3,"r":[1,2]}"#).unwrap();
    let mut cursor = Cursor::from_response(res, 7).unwrap();
    assert_eq!(cursor.next(), Step::Item(Datum::UInt(1)));
    assert_eq!(cursor.next(), Step::Item(Datum::UInt(2)));
    assert_eq!(cursor.next(), Step::Continue(7));
    assert_eq!(cursor.next(), Step::Waiting);
    assert_eq!(cursor.state(), CursorState::AwaitingContinuation);
    let more = decode_response(br#"{"t":2,"r":[3]}"#).unwrap();
    cursor.receive(more).unwrap();
    assert_eq!(cursor.next(), Step::Item(Datum::UInt(3)));
    assert_eq!(cursor.next(), Step::Done);
}

#[test]
fn partial_after_partial_continues_again() {
    let res = decode_response(br#"{"t":3,"r":[]}"#).unwrap();
    let mut cursor = Cursor::from_response(res, 1).unwrap();
    assert_eq!(cursor.next(), Step::Continue(1));
    cursor.receive(decode_response(br#"{"t":3,"r":["a"]}"#).unwrap()).unwrap();
    assert_eq!(cursor.next(), Step::Item(Datum::Str("a".to_string())));
    assert_eq!(cursor.next(), Step::Continue(1));
}

#[test]
fn receive_without_a_request_is_a_driver_error() {
    let mut cursor = fixture();
    let more = decode_response(br#"{"t":2,"r":[3]}"#).unwrap();
    assert_eq!(cursor.receive(more).unwrap_err().kind(), ErrorKind::Driver);
}

#[test]
fn atom_is_not_a_cursor() {
    let res = decode_response(br#"{"t":1,"r":[[1]]}"#).unwrap();
    assert_eq!(Cursor::from_response(res, 0).unwrap_err().kind(), ErrorKind::Driver);
}
