use serde_json::{Number, Value};
use user_service::http::{Body, Method, Payload, Request};
use user_service::json::{Json, Member};
use user_service::service::dispatch;

fn read(text: &str) -> Payload {
    match serde_json::from_str::<Value>(text) {
        Ok(value) => Payload::Document(from_value(value)),
        Err(_) => Payload::Unreadable,
    }
}

fn from_value(value: Value) -> Json {
    match value {
        Value::Null => Json::Null,
        Value::Bool(b) => Json::Bool(b),
        Value::Number(n) => match n.as_i128() {
            Some(i) => Json::Integer(i),
            None => Json::Decimal(n.to_string()),
        },
        Value::String(s) => Json::String(s),
        Value::Array(items) => Json::Array(items.into_iter().map(from_value).collect()),
        Value::Object(members) => Json::Object(
            members
                .into_iter()
                .map(|(name, value)| Member { name, value: from_value(value) })
                .collect(),
        ),
    }
}

fn to_value(doc: Json) -> Value {
    match doc {
        Json::Null => Value::Null,
        Json::Bool(b) => Value::Bool(b),
        Json::Integer(i) => Number::from_i128(i).map(Value::Number).unwrap_or(Value::Null),
        Json::Decimal(text) => serde_json::from_str::<Value>(&text).unwrap_or(Value::Null),
        Json::String(s) => Value::String(s),
        Json::Array(items) => Value::Array(items.into_iter().map(to_value).collect()),
        Json::Object(members) => Value::Object(
            members.into_iter().map(|m| (m.name, to_value(m.value))).collect(),
        ),
    }
}

fn post_users_text(text: &str) -> (u16, Option<String>) {
    let request = Request { method: Method::Post, path: "/users".to_string(), payload: read(text) };
    let response = dispatch(&request);
    let sent = match response.body {
        Body::User(user) => Some(to_value(user.to_json()).to_string()),
        _ => None,
    };
    (response.status.as_u16(), sent)
}

#[test]
fn alice_as_text() {
    assert_eq!(
        post_users_text(r#"{"username":"alice"}"#),
        (201, Some(r#"{"id":1337,"username":"alice"}"#.to_string()))
    );
}

#[test]
fn empty_name_as_text() {
    assert_eq!(
        post_users_text(r#"{ "username" : "" }"#),
        (201, Some(r#"{"id":1337,"username":""}"#.to_string()))
    );
}

#[test]
fn escaped_name_as_text() {
    assert_eq!(
        post_users_text(r#"{"username":"a\"bé"}"#),
        (201, Some("{\"id\":1337,\"username\":\"a\\\"bé\"}".to_string()))
    );
}

#[test]
fn empty_object_as_text() {
    assert_eq!(post_users_text("{}"), (422, None));
}

#[test]
fn wrong_types_as_text() {
    for text in [
        r#"{"username":42}"#,
        r#"{"username":null}"#,
        r#"{"username":["alice"]}"#,
        r#"{"username":{"username":"alice"}}"#,
        r#"{"username":1.5}"#,
    ] {
        assert_eq!(post_users_text(text), (422, None));
    }
}

#[test]
fn non_objects_as_text() {
    for text in ["null", "true", "1337", "1.5e3", r#""alice""#, r#"["alice"]"#, "[]"] {
        assert_eq!(post_users_text(text), (422, None));
    }
}

#[test]
fn broken_text() {
    for text in ["", "{", r#"{"username":"alice""#, r#"{"username":}"#, "alice", r#"{'username':'alice'}"#] {
        assert_eq!(post_users_text(text), (400, None));
    }
}
