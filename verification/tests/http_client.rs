use inth_oauth2_async::client::http_client::{basic_auth, decode_json};
use inth_oauth2_async::client::ClientError;
use serde_json::Value;

#[test]
fn basic_auth_encodes_the_credentials() {
    assert_eq!(Some(b"Basic Zm9vOmJhcg==".to_vec()), basic_auth("foo", "bar"));
    assert_eq!(Some(b"Basic Og==".to_vec()), basic_auth("", ""));
    assert_eq!(
        Some(b"Basic QWxhZGRpbjpvcGVuIHNlc2FtZQ==".to_vec()),
        basic_auth("Aladdin", "open sesame")
    );
    assert_eq!(Some(b"Basic dXNlcjpww6Rzcw==".to_vec()), basic_auth("user", "päss"));
    assert_eq!(Some(b"Basic YTpiOmM=".to_vec()), basic_auth("a", "b:c"));
}

#[test]
fn decode_json_reads_a_body() {
    let json = decode_json(br#"{"token_type":"bearer","expires_in":3600}"#).unwrap();
    assert_eq!(Some("bearer"), json.get("token_type").and_then(Value::as_str));
    assert_eq!(Some(3600), json.get("expires_in").and_then(Value::as_i64));
    assert_eq!(Value::Null, decode_json(b" null ").unwrap());
}

#[test]
fn decode_json_refuses_what_is_no_json() {
    for body in [&b""[..], b"{", b"{\"a\":}", b"<html></html>", b"{} {}", b"\xff"] {
        assert!(matches!(decode_json(body), Err(ClientError::Json(_))));
    }
}
