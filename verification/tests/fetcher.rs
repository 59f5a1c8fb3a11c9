use pblm_launcher::error::Failure;
use pblm_launcher::fetcher::{fetch_bytes, fetch_json, fetch_text, is_success, Reply};

fn answered(status: u16, body: &[u8]) -> Reply {
    Reply::Answered { status, body: Some(body.to_vec()) }
}

#[test]
fn success_is_any_status_from_200_to_299() {
    assert!(!is_success(199));
    assert!(is_success(200));
    assert!(is_success(204));
    assert!(is_success(299));
    assert!(!is_success(300));
    assert!(!is_success(404));
    assert!(!is_success(0));
}

#[test]
fn bytes_come_back_unchanged() {
    assert_eq!(fetch_bytes(answered(200, &[0, 159, 255, 10])), Ok(vec![0, 159, 255, 10]));
    assert_eq!(fetch_bytes(answered(206, b"")), Ok(vec![]));
}

#[test]
fn status_failure_is_apart_from_transport_failure() {
    assert_eq!(fetch_bytes(answered(404, b"not found")), Err(Failure::Status(404)));
    assert_eq!(fetch_bytes(answered(500, b"")), Err(Failure::Status(500)));
    assert_eq!(fetch_bytes(answered(301, b"")), Err(Failure::Status(301)));
    assert_eq!(fetch_bytes(Reply::Answered { status: 503, body: None }), Err(Failure::Status(503)));
    assert_eq!(fetch_bytes(Reply::Unreachable), Err(Failure::Network));
}

#[test]
fn broken_body_is_a_network_failure() {
    assert_eq!(fetch_bytes(Reply::Answered { status: 200, body: None }), Err(Failure::Network));
    assert_eq!(fetch_text(Reply::Answered { status: 200, body: None }), Err(Failure::Network));
    assert!(matches!(
        fetch_json(Reply::Answered { status: 200, body: None }),
        Err(Failure::Network)
    ));
}

#[test]
fn text_is_decoded_from_utf8() {
    assert_eq!(fetch_text(answered(200, "héllo ✓".as_bytes())), Ok("héllo ✓".to_string()));
    assert_eq!(fetch_text(answered(200, b"")), Ok(String::new()));
}

#[test]
fn malformed_text_is_a_decode_failure() {
    assert_eq!(fetch_text(answered(200, &[0xff, 0xfe, 0x41])), Err(Failure::Decode));
    assert_eq!(fetch_text(answered(200, &[0xc3])), Err(Failure::Decode));
    assert_eq!(fetch_text(Reply::Unreachable), Err(Failure::Network));
}

#[test]
fn json_is_parsed() {
    let value = fetch_json(answered(200, br#"{"id": "1.19.2", "n": [1, 2, 3]}"#)).unwrap();
    assert_eq!(value["id"].as_str(), Some("1.19.2"));
    assert_eq!(value["n"].as_array().map(|a| a.len()), Some(3));
}

#[test]
fn malformed_json_is_a_decode_failure() {
    assert!(matches!(fetch_json(answered(200, b"{\"id\": ")), Err(Failure::Decode)));
    assert!(matches!(fetch_json(answered(200, b"")), Err(Failure::Decode)));
    assert!(matches!(fetch_json(answered(200, b"<html></html>")), Err(Failure::Decode)));
    assert!(matches!(fetch_json(answered(200, &[0xff, 0xfe])), Err(Failure::Decode)));
    assert!(matches!(fetch_json(Reply::Unreachable), Err(Failure::Network)));
}

#[test]
fn json_document_is_the_one_in_the_body() {
    let mut object = serde_json::Map::new();
    object.insert("a".to_string(), serde_json::Value::from(1));
    let expected = serde_json::Value::Object(object);
    assert_eq!(fetch_json(answered(200, br#"{"a":1}"#)), Ok(expected.clone()));
    assert_eq!(fetch_json(answered(200, b" { \"a\" : 1 } \n")), Ok(expected.clone()));
    assert_ne!(fetch_json(answered(200, br#"{"a":2}"#)), Ok(expected));
    assert_eq!(fetch_json(answered(200, b"0")), Ok(serde_json::Value::from(0)));
    assert_eq!(
        fetch_json(answered(200, br#"["x", null, true]"#)),
        Ok(serde_json::Value::Array(vec![
            serde_json::Value::from("x"),
            serde_json::Value::Null,
            serde_json::Value::Bool(true),
        ]))
    );
}

#[test]
fn json_is_read_whatever_the_status() {
    assert_eq!(fetch_json(answered(404, b"[]")), Ok(serde_json::Value::Array(vec![])));
    assert_eq!(fetch_text(answered(500, b"down")), Ok("down".to_string()));
}
