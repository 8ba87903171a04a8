use rethinkdb::from_response::{from_response, QueryResult};
use rethinkdb::{decode_response, Datum, Error, ErrorKind, ResponseKind, ResultShape, Writes};

fn s(x: &str) -> Datum {
    Datum::Str(x.to_string())
}

fn tables() -> Datum {
    Datum::Array(vec![s("bar"), s("foo")])
}

#[test]
fn response_test_raw_response_from_json() {
    let res = decode_response(br#"{"t": 1, "r": [["bar","foo"]]}"#).unwrap();
    assert_eq!(res.kind, ResponseKind::Atom);
    assert_eq!(res.values, Datum::Array(vec![tables()]));
}

#[test]
fn response_test_success_from_json() {
    let res = decode_response(br#"{"t": 1, "r": [["bar","foo"]]}"#).unwrap();
    let rethinkdb::Response { kind, values } = res;
    assert_eq!(kind, ResponseKind::Atom);
    assert_eq!(values, Datum::Array(vec![tables()]));
}

#[test]
fn string_list_of_an_atom() {
    let res = decode_response(br#"{"t":1,"r":[["bar","foo"]]}"#).unwrap();
    assert_eq!(res.into_strings().unwrap(), vec!["bar".to_string(), "foo".to_string()]);
}

#[test]
fn string_list_of_a_sequence_is_a_driver_error() {
    let res = decode_response(br#"{"t":2,"r":["bar","foo"]}"#).unwrap();
    assert_eq!(res.into_strings().unwrap_err().kind(), ErrorKind::Driver);
}

#[test]
fn string_list_with_a_number_is_a_driver_error() {
    let res = decode_response(br#"{"t":1,"r":[["bar",3]]}"#).unwrap();
    assert_eq!(res.into_strings().unwrap_err().kind(), ErrorKind::Driver);
}

#[test]
fn client_error_carries_the_message() {
    match decode_response(br#"{"t":16,"r":["bad query"]}"#) {
        Err(Error::ClientError(m)) => assert_eq!(m, "bad query"),
        other => panic!("unexpected {:?}", other),
    }
}

#[test]
fn compile_and_runtime_errors() {
    match decode_response(br#"{"t":17,"r":["no such table"]}"#) {
        Err(Error::CompileError(m)) => assert_eq!(m, "no such table"),
        other => panic!("unexpected {:?}", other),
    }
    match decode_response(br#"{"t":18,"r":["division by zero"]}"#) {
        Err(Error::RuntimeError(m)) => assert_eq!(m, "division by zero"),
        other => panic!("unexpected {:?}", other),
    }
}

#[test]
fn unknown_response_type_is_a_protocol_error() {
    let e = decode_response(br#"{"t":99,"r":["x"]}"#).unwrap_err();
    assert_eq!(e.kind(), ErrorKind::Protocol);
}

#[test]
fn error_without_a_single_message_is_a_protocol_error() {
    let e = decode_response(br#"{"t":16,"r":["a","b"]}"#).unwrap_err();
    assert_eq!(e.kind(), ErrorKind::Protocol);
    let e = decode_response(br#"{"t":18,"r":[7]}"#).unwrap_err();
    assert_eq!(e.kind(), ErrorKind::Protocol);
}

#[test]
fn missing_fields_are_a_protocol_error() {
    assert_eq!(decode_response(br#"{"r":[1]}"#).unwrap_err().kind(), ErrorKind::Protocol);
    assert_eq!(decode_response(br#"{"t":1}"#).unwrap_err().kind(), ErrorKind::Protocol);
    assert_eq!(decode_response(br#"[1,2]"#).unwrap_err().kind(), ErrorKind::Protocol);
}

#[test]
fn bad_json_is_a_parse_error() {
    assert_eq!(decode_response(b"{\"t\":").unwrap_err().kind(), ErrorKind::JsonParse);
}

#[test]
fn writes_default_absent_fields() {
    let res = decode_response(br#"{"t":1,"r":[{"inserted":1,"errors":0}]}"#).unwrap();
    let w = res.into_writes().unwrap();
    assert_eq!(w.inserted, 1);
    assert_eq!(w.unchanged, 0);
    assert_eq!(w.deleted, 0);
    assert!(w.generated_keys.is_empty());
    assert_eq!(w.first_error, None);
}

#[test]
fn writes_full_summary() {
    let res = decode_response(
        br#"{"t":1,"r":[{"deleted":2,"errors":1,"inserted":3,"replaced":4,"skipped":5,"unchanged":6,"generated_keys":["k1","k2"],"first_error":"oops"}]}"#,
    )
    .unwrap();
    let w = res.into_writes().unwrap();
    assert_eq!(
        w,
        Writes {
            deleted: 2,
            errors: 1,
            inserted: 3,
            replaced: 4,
            skipped: 5,
            unchanged: 6,
            generated_keys: vec!["k1".to_string(), "k2".to_string()],
            first_error: Some("oops".to_string()),
        }
    );
}

#[test]
fn writes_with_a_bad_counter_is_a_driver_error() {
    let res = decode_response(br#"{"t":1,"r":[{"inserted":"one"}]}"#).unwrap();
    assert_eq!(res.into_writes().unwrap_err().kind(), ErrorKind::Driver);
    let res = decode_response(br#"{"t":1,"r":[{"inserted":-1}]}"#).unwrap();
    assert_eq!(res.into_writes().unwrap_err().kind(), ErrorKind::Driver);
}

#[test]
fn typed_results_by_shape() {
    let res = decode_response(br#"{"t":1,"r":[{"id":"x"}]}"#).unwrap();
    match from_response(ResultShape::Value, res, 0).unwrap() {
        QueryResult::Value(d) => {
            assert_eq!(d, Datum::Array(vec![Datum::Object(vec![("id".to_string(), s("x"))])]))
        },
        other => panic!("unexpected {:?}", other),
    }
    let res = decode_response(br#"{"t":1,"r":[{"created":1}]}"#).unwrap();
    assert!(matches!(from_response(ResultShape::Nothing, res, 0).unwrap(), QueryResult::Nothing));
    let res = decode_response(br#"{"t":1,"r":[["a"]]}"#).unwrap();
    match from_response(ResultShape::Strings, res, 0).unwrap() {
        QueryResult::Strings(v) => assert_eq!(v, vec!["a".to_string()]),
        other => panic!("unexpected {:?}", other),
    }
    let res = decode_response(br#"{"t":1,"r":[1]}"#).unwrap();
    assert_eq!(from_response(ResultShape::Documents, res, 0).unwrap_err().kind(), ErrorKind::Driver);
}

#[test]
fn float_numbers_keep_their_text() {
    let res = decode_response(br#"{"t":1,"r":[1.5]}"#).unwrap();
    assert_eq!(res.values, Datum::Array(vec![Datum::Float("1.5".to_string())]));
    let q = rethinkdb::query::table("t").insert(res.values);
    assert_eq!(q.serialize(), r#"[56,[[15,["t"]],[1.5]]]"#);
}

#[test]
fn unknown_response_type_names_the_code() {
    match decode_response(br#"{"t":99,"r":["x"]}"#) {
        Err(Error::ProtocolError(m)) => assert_eq!(m, "unrecognized error number: 99"),
        other => panic!("unexpected {:?}", other),
    }
    match decode_response(br#"{"t":-4,"r":[]}"#) {
        Err(Error::ProtocolError(m)) => assert_eq!(m, "unrecognized error number: -4"),
        other => panic!("unexpected {:?}", other),
    }
}

#[test]
fn from_code_res_maps_codes() {
    let res = Datum::Array(vec![s("bad query")]);
    match Error::from_code_res(16, &res) {
        Error::ClientError(m) => assert_eq!(m, "bad query"),
        other => panic!("unexpected {:?}", other),
    }
    match Error::from_code_res(42, &res) {
        Error::ProtocolError(m) => assert_eq!(m, "unrecognized error number: 42"),
        other => panic!("unexpected {:?}", other),
    }
}

#[test]
fn string_list_errors_name_the_shape() {
    let res = decode_response(br#"{"t":2,"r":["bar"]}"#).unwrap();
    match res.into_strings() {
        Err(Error::DriverError(m)) => {
            assert_eq!(m, "a Sequence response is not supported as a list of names")
        },
        other => panic!("unexpected {:?}", other),
    }
    let res = decode_response(br#"{"t":3,"r":["bar"]}"#).unwrap();
    match res.into_strings() {
        Err(Error::DriverError(m)) => {
            assert_eq!(m, "a Partial response is not supported as a list of names")
        },
        other => panic!("unexpected {:?}", other),
    }
}

#[test]
fn over_long_nested_keys_are_refused() {
    let key = "a".repeat(65535);
    let text = format!(r#"{{"t":1,"r":[{{"{}":{{"b":1}}}}]}}"#, key);
    assert_eq!(decode_response(text.as_bytes()).unwrap_err().kind(), ErrorKind::JsonParse);
}

#[test]
fn long_exponents_are_refused() {
    let text = br#"{"t":1,"r":[1e12345678901234567890]}"#;
    assert_eq!(decode_response(text).unwrap_err().kind(), ErrorKind::JsonParse);
    let res = decode_response(br#"{"t":1,"r":[1e2]}"#).unwrap();
    assert_eq!(res.values, Datum::Array(vec![Datum::Float("100".to_string())]));
}

#[test]
fn long_string_values_are_read() {
    let value = "v".repeat(100_000);
    let text = format!(r#"{{"t":1,"r":[{{"k":"{}"}}]}}"#, value);
    let res = decode_response(text.as_bytes()).unwrap();
    assert_eq!(
        res.values,
        Datum::Array(vec![Datum::Object(vec![("k".to_string(), Datum::Str(value))])])
    );
}

#[test]
fn object_ending_in_a_comma_is_refused() {
    let text = br#"{"t":1,"r":[{"y":{"a":1,},5]}}"#;
    assert_eq!(decode_response(text).unwrap_err().kind(), ErrorKind::JsonParse);
    let text = br#"{"t":1,"r":[{"a":1 ,
 }]}"#;
    assert_eq!(decode_response(text).unwrap_err().kind(), ErrorKind::JsonParse);
}

#[test]
fn nesting_is_bounded() {
    let deep = format!(r#"{{"t":1,"r":[{}{}]}}"#, "[".repeat(126), "]".repeat(126));
    assert!(decode_response(deep.as_bytes()).is_ok());
    let deeper = format!(r#"{{"t":1,"r":[{}{}]}}"#, "[".repeat(127), "]".repeat(127));
    assert_eq!(decode_response(deeper.as_bytes()).unwrap_err().kind(), ErrorKind::JsonParse);
    let huge = "[".repeat(300_000);
    assert_eq!(decode_response(huge.as_bytes()).unwrap_err().kind(), ErrorKind::JsonParse);
}

#[test]
fn long_negative_mantissas_are_read() {
    let res = decode_response(br#"{"t":1,"r":[-12345678901234567890.5]}"#).unwrap();
    match &res.values {
        Datum::Array(items) => assert!(matches!(items[0], Datum::Float(_))),
        other => panic!("unexpected {:?}", other),
    }
}

#[test]
fn error_without_a_message_names_the_result() {
    match decode_response(br#"{"t":16,"r":[7]}"#) {
        Err(Error::ProtocolError(m)) => assert_eq!(m, "couldn't find error message in [7]"),
        other => panic!("unexpected {:?}", other),
    }
}
