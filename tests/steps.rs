use io_steps::error::StepError;
use io_steps::files::{combine_contents, greeting};
use io_steps::json::{find_member, parse_json, JsonValue};
use io_steps::pipeline::{decode_records, fetch_records, fetch_text};
use io_steps::record::{record_from_json, records_from_json, records_to_json, Record};
use io_steps::status::validate_status;
use io_steps::text::decode_text;

fn rec(name: &str, description: Option<&str>, fork: bool) -> Record {
    Record { name: name.to_string(), description: description.map(|d| d.to_string()), fork }
}

fn same(a: &Record, b: &Record) -> bool {
    a.name == b.name && a.description == b.description && a.fork == b.fork
}

#[test]
fn client_errors_halt() {
    assert_eq!(validate_status(400), Err(StepError::ClientError { status_code: 400 }));
    assert_eq!(validate_status(404), Err(StepError::ClientError { status_code: 404 }));
    assert_eq!(validate_status(499), Err(StepError::ClientError { status_code: 499 }));
}

#[test]
fn server_errors_halt() {
    assert_eq!(validate_status(500), Err(StepError::ServerError { status_code: 500 }));
    assert_eq!(validate_status(503), Err(StepError::ServerError { status_code: 503 }));
    assert_eq!(validate_status(599), Err(StepError::ServerError { status_code: 599 }));
}

#[test]
fn other_statuses_continue() {
    for code in [200u16, 204, 299, 100, 301, 399, 600, 0, 65535] {
        assert_eq!(validate_status(code), Ok(()));
    }
}

#[test]
fn invalid_utf8_is_an_encoding_error() {
    assert_eq!(decode_text(&[0xff]), Err(StepError::EncodingError));
    assert_eq!(decode_text(&[b'a', 0xc3]), Err(StepError::EncodingError));
    assert_eq!(decode_text(&[0xed, 0xa0, 0x80]), Err(StepError::EncodingError));
}

#[test]
fn valid_utf8_decodes() {
    assert_eq!(decode_text("h\u{e9}llo".as_bytes()), Ok("h\u{e9}llo".to_string()));
    assert_eq!(decode_text(&[]), Ok(String::new()));
}

#[test]
fn record_with_description_decodes() {
    let body = br#"[{"name":"a","description":"d","fork":false}]"#;
    let out = decode_records(body).unwrap();
    assert_eq!(out.len(), 1);
    assert!(same(&out[0], &rec("a", Some("d"), false)));
}

#[test]
fn record_without_description_decodes() {
    let body = br#"[{"name":"a","fork":true}]"#;
    let out = decode_records(body).unwrap();
    assert_eq!(out.len(), 1);
    assert!(same(&out[0], &rec("a", None, true)));
}

#[test]
fn null_description_is_absent() {
    let body = br#"[{"name":"b","description":null,"fork":false,"stars":3}]"#;
    let out = decode_records(body).unwrap();
    assert_eq!(out.len(), 1);
    assert!(same(&out[0], &rec("b", None, false)));
}

#[test]
fn empty_array_gives_no_records() {
    assert_eq!(decode_records(b"[]").unwrap().len(), 0);
}

#[test]
fn several_records_keep_their_order() {
    let body = br#"[{"name":"x","fork":true},{"name":"y","description":"z","fork":false}]"#;
    let out = decode_records(body).unwrap();
    assert_eq!(out.len(), 2);
    assert!(same(&out[0], &rec("x", None, true)));
    assert!(same(&out[1], &rec("y", Some("z"), false)));
}

#[test]
fn schema_errors_fail_the_whole_listing() {
    let missing_name = br#"[{"name":"a","fork":true},{"fork":true}]"#;
    assert_eq!(decode_records(missing_name).unwrap_err(), StepError::SchemaError);
    let fork_not_bool = br#"[{"name":"a","fork":"yes"}]"#;
    assert_eq!(decode_records(fork_not_bool).unwrap_err(), StepError::SchemaError);
    let description_number = br#"[{"name":"a","description":5,"fork":true}]"#;
    assert_eq!(decode_records(description_number).unwrap_err(), StepError::SchemaError);
    let not_an_array = br#"{"name":"a","fork":true}"#;
    assert_eq!(decode_records(not_an_array).unwrap_err(), StepError::SchemaError);
    let not_json = b"[{\"name\":";
    assert_eq!(decode_records(not_json).unwrap_err(), StepError::SchemaError);
}

#[test]
fn invalid_utf8_body_is_an_encoding_error() {
    assert_eq!(decode_records(&[b'[', 0xff, b']']).unwrap_err(), StepError::EncodingError);
}

#[test]
fn encode_then_decode_gives_the_same_records() {
    let recs = vec![rec("a", Some("d"), false), rec("b", None, true)];
    let back = records_from_json(&records_to_json(&recs)).unwrap();
    assert_eq!(back.len(), 2);
    assert!(same(&back[0], &recs[0]));
    assert!(same(&back[1], &recs[1]));
}

#[test]
fn decode_then_encode_gives_the_same_records() {
    let body = br#"[{"name":"a","description":"d","fork":false,"id":1},{"name":"c","fork":true}]"#;
    let first = decode_records(body).unwrap();
    let again = records_from_json(&records_to_json(&first)).unwrap();
    assert_eq!(again.len(), first.len());
    for (x, y) in first.iter().zip(again.iter()) {
        assert!(same(x, y));
    }
}

#[test]
fn parse_json_reads_documents() {
    match parse_json("[true, null, \"s\", 12]") {
        Some(JsonValue::Array(items)) => {
            assert_eq!(items.len(), 4);
            assert!(matches!(items[0], JsonValue::Bool(true)));
            assert!(matches!(items[1], JsonValue::Null));
            assert!(matches!(&items[2], JsonValue::Str(s) if s == "s"));
            assert!(matches!(&items[3], JsonValue::Number(n) if n == "12"));
        }
        other => panic!("unexpected {:?}", other),
    }
    assert!(parse_json("[1,").is_none());
}

#[test]
fn last_member_of_a_key_counts() {
    let members = vec![
        ("k".to_string(), JsonValue::Bool(false)),
        ("other".to_string(), JsonValue::Null),
        ("k".to_string(), JsonValue::Bool(true)),
    ];
    assert!(matches!(find_member(&members, &"k".to_string()), Some(JsonValue::Bool(true))));
    assert!(find_member(&members, &"missing".to_string()).is_none());
}

#[test]
fn record_from_non_object_is_none() {
    assert!(record_from_json(&JsonValue::Null).is_none());
    assert!(records_from_json(&JsonValue::Bool(true)).is_err());
}

#[test]
fn hello_world_greeting() {
    assert_eq!(combine_contents(b"Hello", b"World"), Ok("Hello World!".to_string()));
    assert_eq!(greeting("", ""), " !".to_string());
}

#[test]
fn greeting_stops_on_invalid_file_content() {
    assert_eq!(combine_contents(&[0xff], b"World"), Err(StepError::EncodingError));
    assert_eq!(combine_contents(b"Hello", &[0xc0, 0x80]), Err(StepError::EncodingError));
}

#[test]
fn not_found_aborts_before_decode() {
    let err = fetch_records(404, &[0xff, 0xfe]).unwrap_err();
    assert_eq!(err, StepError::ClientError { status_code: 404 });
    let err = fetch_records(503, b"not json").unwrap_err();
    assert_eq!(err, StepError::ServerError { status_code: 503 });
}

#[test]
fn success_status_decodes_the_body() {
    let out = fetch_records(200, br#"[{"name":"a","fork":true}]"#).unwrap();
    assert_eq!(out.len(), 1);
    assert!(same(&out[0], &rec("a", None, true)));
    assert_eq!(fetch_records(200, b"[1]").unwrap_err(), StepError::SchemaError);
}

#[test]
fn fetched_text_is_validated_then_decoded() {
    assert_eq!(fetch_text(200, b"hi"), Ok("hi".to_string()));
    assert_eq!(fetch_text(200, &[0xff]), Err(StepError::EncodingError));
    assert_eq!(fetch_text(404, &[0xff]), Err(StepError::ClientError { status_code: 404 }));
}
