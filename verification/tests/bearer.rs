use inth_oauth2_async::client::response::{FromResponse, ParseError};
use inth_oauth2_async::time::Timestamp;
use inth_oauth2_async::token::{Bearer, Expiring, Lifetime, Refresh, Static};
use serde_json::Value;
use std::time::{Duration, SystemTime, UNIX_EPOCH};

fn system_time(t: Timestamp) -> SystemTime {
    UNIX_EPOCH + Duration::from_nanos(u64::try_from(t.nanos).unwrap())
}

#[test]
fn from_response_with_invalid_token_type() {
    let json: Value = r#"{"token_type":"MAC","access_token":"aaaaaaaa"}"#.parse().unwrap();
    assert_eq!(
        ParseError::ExpectedFieldValue("token_type", "Bearer"),
        Bearer::<Static>::from_response(&json).unwrap_err()
    );
}

#[test]
fn from_response_capital_b() {
    let json: Value = r#"{"token_type":"Bearer","access_token":"aaaaaaaa"}"#.parse().unwrap();
    assert_eq!(
        Bearer::new(String::from("aaaaaaaa"), None, None, Static).unwrap(),
        Bearer::<Static>::from_response(&json).unwrap()
    );
}

#[test]
fn from_response_little_b() {
    let json: Value = r#"{"token_type":"bearer","access_token":"aaaaaaaa"}"#.parse().unwrap();
    assert_eq!(
        Bearer::new(String::from("aaaaaaaa"), None, None, Static).unwrap(),
        Bearer::<Static>::from_response(&json).unwrap()
    );
}

#[test]
fn from_response_with_scope() {
    let json: Value = r#"{"token_type":"Bearer","access_token":"aaaaaaaa","scope":"foo"}"#
        .parse()
        .unwrap();
    assert_eq!(
        Bearer::new(String::from("aaaaaaaa"), Some(String::from("foo")), None, Static).unwrap(),
        Bearer::<Static>::from_response(&json).unwrap()
    );
}

#[test]
fn from_response_refresh() {
    let json: Value = r#"
        {
            "token_type":"Bearer",
            "access_token":"aaaaaaaa",
            "expires_in":3600,
            "refresh_token":"bbbbbbbb"
        }
    "#
    .parse()
    .unwrap();
    let bearer = Bearer::<Refresh>::from_response(&json).unwrap();
    assert_eq!("aaaaaaaa", bearer.access_token());
    assert_eq!(None, bearer.scope());
    let refresh = bearer.lifetime();
    assert_eq!("bbbbbbbb", refresh.refresh_token());
    assert!(system_time(refresh.expires()) > SystemTime::now());
    assert!(system_time(refresh.expires()) <= SystemTime::now() + Duration::from_secs(3600));
}

#[test]
fn from_response_refresh_idtoken() {
    let json: Value = r#"
        {
            "token_type":"Bearer",
            "access_token":"aaaaaaaa",
            "expires_in":3600,
            "refresh_token":"bbbbbbbb",
            "id_token":"zzzzzzzzz"
        }
    "#
    .parse()
    .unwrap();
    let bearer = Bearer::<Refresh>::from_response(&json).unwrap();
    assert_eq!("aaaaaaaa", bearer.access_token());
    assert_eq!(None, bearer.scope());
    let refresh = bearer.lifetime();
    assert_eq!("bbbbbbbb", refresh.refresh_token());
    assert!(system_time(refresh.expires()) > SystemTime::now());
    assert!(system_time(refresh.expires()) <= SystemTime::now() + Duration::from_secs(3600));
    assert_eq!(Some("zzzzzzzzz".to_owned()), bearer.id_token().map(str::to_owned));
}

#[test]
fn from_response_inherit_refresh() {
    let json: Value = r#"
        {
            "token_type":"Bearer",
            "access_token":"aaaaaaaa",
            "expires_in":3600,
            "refresh_token":"bbbbbbbb"
        }
    "#
    .parse()
    .unwrap();
    let prev = Bearer::<Refresh>::from_response(&json).unwrap();

    let json: Value = r#"
        {
            "token_type":"Bearer",
            "access_token":"cccccccc",
            "expires_in":3600
        }
    "#
    .parse()
    .unwrap();
    let bearer = Bearer::<Refresh>::from_response_inherit(&json, &prev).unwrap();
    assert_eq!("cccccccc", bearer.access_token());
    assert_eq!(None, bearer.scope());
    let refresh = bearer.lifetime();
    assert_eq!("bbbbbbbb", refresh.refresh_token());
    assert!(system_time(refresh.expires()) > SystemTime::now());
    assert!(system_time(refresh.expires()) <= SystemTime::now() + Duration::from_secs(3600));
}

fn parse(text: &str) -> Value {
    text.parse().unwrap()
}

#[test]
fn token_type_in_any_ascii_case() {
    for token_type in ["bearer", "Bearer", "BEARER", "bEaReR"] {
        let json = parse(&format!(
            r#"{{"token_type":"{}","access_token":"aaaaaaaa"}}"#,
            token_type
        ));
        let bearer = Bearer::<Static>::from_response(&json).unwrap();
        assert_eq!("aaaaaaaa", bearer.access_token());
    }
}

#[test]
fn token_type_near_misses() {
    // The Kelvin sign is no ASCII letter, and folds onto no ASCII letter.
    for token_type in ["", "bearer ", " bearer", "bearers", "beare", "b\u{212A}arer", "MAC"] {
        let json = parse(&format!(
            r#"{{"token_type":"{}","access_token":"aaaaaaaa"}}"#,
            token_type
        ));
        assert_eq!(
            ParseError::ExpectedFieldValue("token_type", "Bearer"),
            Bearer::<Static>::from_response(&json).unwrap_err()
        );
    }
}

#[test]
fn access_token_round_trips() {
    for access_token in ["a", "aaaaaaaa", "with space", "ünïcödé", "a+b/c=="] {
        let json = parse(&format!(
            r#"{{"token_type":"bearer","access_token":"{}"}}"#,
            access_token
        ));
        let bearer = Bearer::<Static>::from_response(&json).unwrap();
        assert_eq!(access_token, bearer.access_token());
    }
}

#[test]
fn response_must_be_an_object() {
    for text in ["null", "true", "17", r#""bearer""#, r#"["token_type","bearer"]"#] {
        let json = parse(text);
        assert_eq!(
            ParseError::ExpectedType("object"),
            Bearer::<Static>::from_response(&json).unwrap_err()
        );
        assert_eq!(
            ParseError::ExpectedType("object"),
            Bearer::<Expiring>::from_response(&json).unwrap_err()
        );
        assert_eq!(
            ParseError::ExpectedType("object"),
            Bearer::<Refresh>::from_response(&json).unwrap_err()
        );
    }
}

#[test]
fn token_type_must_be_a_string() {
    for text in [
        r#"{"access_token":"aaaaaaaa"}"#,
        r#"{"token_type":7,"access_token":"aaaaaaaa"}"#,
        r#"{"token_type":null,"access_token":"aaaaaaaa"}"#,
        r#"{"token_type":["bearer"],"access_token":"aaaaaaaa"}"#,
    ] {
        assert_eq!(
            ParseError::ExpectedFieldType("token_type", "string"),
            Bearer::<Static>::from_response(&parse(text)).unwrap_err()
        );
    }
}

#[test]
fn access_token_must_be_a_string() {
    for text in [
        r#"{"token_type":"bearer"}"#,
        r#"{"token_type":"bearer","access_token":7}"#,
        r#"{"token_type":"bearer","access_token":{"a":"b"}}"#,
    ] {
        assert_eq!(
            ParseError::ExpectedFieldType("access_token", "string"),
            Bearer::<Static>::from_response(&parse(text)).unwrap_err()
        );
    }
}

#[test]
fn access_token_must_not_be_empty() {
    let json = parse(r#"{"token_type":"bearer","access_token":""}"#);
    assert_eq!(
        ParseError::ExpectedFieldValue("access_token", "non-empty string"),
        Bearer::<Static>::from_response(&json).unwrap_err()
    );
    assert_eq!(None, Bearer::new(String::new(), None, None, Static));
}

#[test]
fn optional_fields_must_be_strings_where_they_are_there() {
    let json = parse(r#"{"token_type":"Bearer","access_token":"aaaaaaaa","scope":42}"#);
    assert_eq!(
        ParseError::ExpectedFieldType("scope", "string"),
        Bearer::<Static>::from_response(&json).unwrap_err()
    );
    for text in [
        r#"{"token_type":"bearer","access_token":"aaaaaaaa","id_token":null}"#,
        r#"{"token_type":"bearer","access_token":"aaaaaaaa","scope":"foo","id_token":["z"]}"#,
    ] {
        assert_eq!(
            ParseError::ExpectedFieldType("id_token", "string"),
            Bearer::<Static>::from_response(&parse(text)).unwrap_err()
        );
    }
    // The scope is judged before the ID token, and both before the lifetime.
    let json = parse(r#"{"token_type":"bearer","access_token":"aaaaaaaa","scope":7,"id_token":null}"#);
    assert_eq!(
        ParseError::ExpectedFieldType("scope", "string"),
        Bearer::<Refresh>::from_response(&json).unwrap_err()
    );
    let json = parse(r#"{"token_type":"bearer","access_token":"aaaaaaaa","id_token":7}"#);
    assert_eq!(
        ParseError::ExpectedFieldType("id_token", "string"),
        Bearer::<Expiring>::from_response(&json).unwrap_err()
    );
    // The access token is judged before either.
    let json = parse(r#"{"token_type":"bearer","access_token":"","scope":7}"#);
    assert_eq!(
        ParseError::ExpectedFieldValue("access_token", "non-empty string"),
        Bearer::<Static>::from_response(&json).unwrap_err()
    );
}

#[test]
fn optional_fields_may_be_left_out() {
    let json = parse(r#"{"token_type":"bearer","access_token":"aaaaaaaa"}"#);
    let bearer = Bearer::<Static>::from_response(&json).unwrap();
    assert_eq!(None, bearer.scope());
    assert_eq!(None, bearer.id_token());
    let json = parse(r#"{"token_type":"bearer","access_token":"aaaaaaaa","scope":"","id_token":"z"}"#);
    let bearer = Bearer::<Static>::from_response(&json).unwrap();
    assert_eq!(Some(""), bearer.scope());
    assert_eq!(Some("z"), bearer.id_token());
}

#[test]
fn token_fields_are_judged_before_the_lifetime() {
    // Both the token type and the lifetime are wrong: the token type decides.
    let json = parse(r#"{"token_type":"MAC","access_token":"aaaaaaaa","refresh_token":"bbbbbbbb"}"#);
    assert_eq!(
        ParseError::ExpectedFieldValue("token_type", "Bearer"),
        Bearer::<Expiring>::from_response(&json).unwrap_err()
    );
    let json = parse(r#"{"token_type":"bearer","expires_in":3600}"#);
    assert_eq!(
        ParseError::ExpectedFieldType("access_token", "string"),
        Bearer::<Refresh>::from_response(&json).unwrap_err()
    );
    // The token fields are right: the lifetime decides.
    let json = parse(r#"{"token_type":"bearer","access_token":"aaaaaaaa","expires_in":3600}"#);
    assert_eq!(
        ParseError::ExpectedFieldType("refresh_token", "string"),
        Bearer::<Refresh>::from_response(&json).unwrap_err()
    );
    let json = parse(
        r#"{"token_type":"bearer","access_token":"aaaaaaaa","expires_in":3600,"refresh_token":"b"}"#,
    );
    assert_eq!(
        ParseError::UnexpectedField("refresh_token"),
        Bearer::<Expiring>::from_response(&json).unwrap_err()
    );
}

#[test]
fn static_lifetime_consults_no_field() {
    let json = parse(
        r#"{"token_type":"bearer","access_token":"aaaaaaaa","expires_in":3600,"refresh_token":"b"}"#,
    );
    let bearer = Bearer::<Static>::from_response(&json).unwrap();
    assert_eq!(&Static, bearer.lifetime());
    assert!(!bearer.lifetime().expired());
    assert!(!bearer.lifetime().expired_at(Timestamp { nanos: u128::MAX }));
    assert_eq!(Ok(Static), Static::from_response(&parse("null")));
    assert_eq!(Ok(Static), Static::from_response_inherit(&parse("[]"), &Static));
}

#[test]
fn refresh_takes_token_fields_from_the_new_response() {
    let prev = Bearer::new(
        String::from("aaaaaaaa"),
        Some(String::from("old scope")),
        Some(String::from("old id")),
        Refresh::new(String::from("bbbbbbbb"), Timestamp { nanos: 5 }),
    )
    .unwrap();
    let json = parse(r#"{"token_type":"Bearer","access_token":"cccccccc","expires_in":3600}"#);
    let fields = inth_oauth2_async::client::response::Fields::read(&json);
    let bearer =
        Bearer::<Refresh>::from_fields_inherit(&fields, &prev, Timestamp { nanos: 1_000 }).unwrap();
    assert_eq!("cccccccc", bearer.access_token());
    assert_eq!(None, bearer.scope());
    assert_eq!(None, bearer.id_token());
    assert_eq!("bbbbbbbb", bearer.lifetime().refresh_token());
    assert_eq!(Timestamp { nanos: 3_600_000_001_000 }, bearer.lifetime().expires());

    let json = parse(
        r#"{"token_type":"Bearer","access_token":"cccccccc","expires_in":60,"refresh_token":"dddddddd","scope":"new"}"#,
    );
    let fields = inth_oauth2_async::client::response::Fields::read(&json);
    let bearer =
        Bearer::<Refresh>::from_fields_inherit(&fields, &prev, Timestamp { nanos: 0 }).unwrap();
    assert_eq!(Some("new"), bearer.scope());
    assert_eq!("dddddddd", bearer.lifetime().refresh_token());
    assert_eq!(Timestamp { nanos: 60_000_000_000 }, bearer.lifetime().expires());
}

#[test]
fn clone_keeps_every_part() {
    let token = Bearer::new(
        String::from("aaaaaaaa"),
        Some(String::from("foo")),
        Some(String::from("zzzzzzzzz")),
        Refresh::new(String::from("bbbbbbbb"), Timestamp { nanos: 5 }),
    )
    .unwrap();
    assert_eq!(token, token.clone());
}
