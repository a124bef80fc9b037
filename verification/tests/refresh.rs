use inth_oauth2_async::client::response::{Fields, FromResponse, ParseError};
use inth_oauth2_async::time::Timestamp;
use inth_oauth2_async::token::{Lifetime, Refresh};
use serde_json::Value;
use std::time::{Duration, SystemTime, UNIX_EPOCH};

fn system_time(t: Timestamp) -> SystemTime {
    UNIX_EPOCH + Duration::from_nanos(u64::try_from(t.nanos).unwrap())
}

fn parse(text: &str) -> Value {
    text.parse().unwrap()
}

#[test]
fn refresh_from_response() {
    let json: Value = r#"{"refresh_token":"aaaaaaaa","expires_in":3600}"#.parse().unwrap();
    let refresh = Refresh::from_response(&json).unwrap();
    assert_eq!("aaaaaaaa", refresh.refresh_token());
    assert!(system_time(refresh.expires()) > SystemTime::now());
    assert!(system_time(refresh.expires()) <= SystemTime::now() + Duration::from_secs(3600));
}

#[test]
fn from_response_inherit() {
    let json: Value = r#"{"expires_in":3600}"#.parse().unwrap();
    let prev = Refresh::new(String::from("aaaaaaaa"), Timestamp::now());
    let refresh = Refresh::from_response_inherit(&json, &prev).unwrap();
    assert_eq!("aaaaaaaa", refresh.refresh_token());
    assert!(system_time(refresh.expires()) > SystemTime::now());
    assert!(system_time(refresh.expires()) <= SystemTime::now() + Duration::from_secs(3600));
}

#[test]
fn refresh_needs_a_refresh_token() {
    for text in [
        r#"{"expires_in":3600}"#,
        r#"{"expires_in":3600,"refresh_token":null}"#,
        r#"{"expires_in":3600,"refresh_token":7}"#,
        r#"{}"#,
    ] {
        assert_eq!(
            Err(ParseError::ExpectedFieldType("refresh_token", "string")),
            Refresh::from_response(&parse(text))
        );
    }
}

#[test]
fn refresh_needs_an_integer_expires_in() {
    for text in [
        r#"{"refresh_token":"aaaaaaaa"}"#,
        r#"{"refresh_token":"aaaaaaaa","expires_in":"3600"}"#,
        r#"{"refresh_token":"aaaaaaaa","expires_in":1.5}"#,
    ] {
        assert_eq!(
            Err(ParseError::ExpectedFieldType("expires_in", "i64")),
            Refresh::from_response(&parse(text))
        );
        let prev = Refresh::new(String::from("bbbbbbbb"), Timestamp { nanos: 0 });
        assert_eq!(
            Err(ParseError::ExpectedFieldType("expires_in", "i64")),
            Refresh::from_response_inherit(&parse(text), &prev)
        );
    }
    assert_eq!(Err(ParseError::ExpectedType("object")), Refresh::from_response(&parse("[]")));
    let prev = Refresh::new(String::from("bbbbbbbb"), Timestamp { nanos: 0 });
    assert_eq!(
        Err(ParseError::ExpectedType("object")),
        Refresh::from_response_inherit(&parse("[]"), &prev)
    );
}

#[test]
fn refresh_inherits_where_the_response_has_no_refresh_token() {
    let prev = Refresh::new(String::from("aaaaaaaa"), Timestamp { nanos: 9 });
    let now = Timestamp { nanos: 500 };
    assert_eq!(
        Ok(Refresh::new(String::from("aaaaaaaa"), Timestamp { nanos: 10_000_000_500 })),
        Refresh::from_fields_inherit(&Fields::read(&parse(r#"{"expires_in":10}"#)), &prev, now)
    );
    assert_eq!(
        Ok(Refresh::new(String::from("cccccccc"), Timestamp { nanos: 10_000_000_500 })),
        Refresh::from_fields_inherit(
            &Fields::read(&parse(r#"{"expires_in":10,"refresh_token":"cccccccc"}"#)),
            &prev,
            now
        )
    );
    assert_eq!(
        Ok(Refresh::new(String::new(), Timestamp { nanos: 500 })),
        Refresh::from_fields(&Fields::read(&parse(r#"{"expires_in":-4,"refresh_token":""}"#)), now)
    );
}

#[test]
fn refresh_does_not_inherit_over_a_refresh_token_of_another_type() {
    let prev = Refresh::new(String::from("aaaaaaaa"), Timestamp { nanos: 9 });
    for text in [
        r#"{"refresh_token":42,"expires_in":3600}"#,
        r#"{"expires_in":10,"refresh_token":null}"#,
        r#"{"expires_in":10,"refresh_token":["aaaaaaaa"]}"#,
        r#"{"refresh_token":false}"#,
    ] {
        assert_eq!(
            Err(ParseError::ExpectedFieldType("refresh_token", "string")),
            Refresh::from_response_inherit(&parse(text), &prev)
        );
    }
}

#[test]
fn refresh_clamps_to_now() {
    let now = Timestamp { nanos: 1_700_000_000_123_456_789 };
    let at = |text: &str| Refresh::from_fields(&Fields::read(&parse(text)), now).unwrap().expires();
    assert_eq!(now, at(r#"{"refresh_token":"a","expires_in":-1}"#));
    assert_eq!(now, at(r#"{"refresh_token":"a","expires_in":9223372036854775807}"#));
    assert_eq!(
        Timestamp { nanos: 1_700_003_600_123_456_789 },
        at(r#"{"refresh_token":"a","expires_in":3600}"#)
    );
}

#[test]
fn refresh_is_expired_strictly_after_its_time() {
    let refresh = Refresh::new(String::from("aaaaaaaa"), Timestamp { nanos: 1_000 });
    assert_eq!("aaaaaaaa", refresh.refresh_token());
    assert_eq!(Timestamp { nanos: 1_000 }, refresh.expires());
    assert!(!refresh.expired_at(Timestamp { nanos: 0 }));
    assert!(!refresh.expired_at(Timestamp { nanos: 1_000 }));
    assert!(refresh.expired_at(Timestamp { nanos: 1_001 }));
    assert!(refresh.expired());
    let fresh =
        Refresh::from_response(&parse(r#"{"refresh_token":"a","expires_in":3600}"#)).unwrap();
    assert!(!fresh.expired());
}
