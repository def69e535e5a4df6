use user_service::handlers::{create_user, root};
use user_service::http::{Payload, StatusCode};
use user_service::json::{locate, Json, Member};
use user_service::schema::{Field, FieldKind, Schema};
use user_service::user::{CreateUser, MalformedBody, User, PLACEHOLDER_ID};

fn owned(s: &str) -> String {
    s.to_string()
}

fn members_of(members: Vec<(&str, Json)>) -> Vec<Member> {
    members.into_iter().map(|(name, value)| Member { name: owned(name), value }).collect()
}

fn object_of(members: Vec<(&str, Json)>) -> Json {
    Json::Object(members_of(members))
}

#[test]
fn root_handler_returns_the_greeting() {
    assert_eq!(root(), "Hello, World!");
}

#[test]
fn create_user_handler_assigns_the_placeholder_id() {
    let (status, user) = create_user(CreateUser { username: owned("alice") });
    assert_eq!(status, StatusCode::CREATED);
    assert_eq!(user, User { id: 1337, username: owned("alice") });
    assert_eq!(PLACEHOLDER_ID, 1337);
}

#[test]
fn create_user_handler_takes_the_default_request() {
    let (status, user) = create_user(CreateUser::default());
    assert_eq!(status.as_u16(), 201);
    assert_eq!(user, User { id: 1337, username: String::new() });
}

#[test]
fn create_user_handler_does_not_trim() {
    let (_, user) = create_user(CreateUser { username: owned("  alice \t") });
    assert_eq!(user.username, "  alice \t");
}

#[test]
fn from_json_reads_the_username() {
    let doc = object_of(vec![("username", Json::String(owned("alice")))]);
    assert_eq!(CreateUser::from_json(&doc), Ok(CreateUser { username: owned("alice") }));
    let empty = object_of(vec![("username", Json::String(owned("")))]);
    assert_eq!(CreateUser::from_json(&empty), Ok(CreateUser { username: owned("") }));
}

#[test]
fn from_json_names_each_failure() {
    assert_eq!(CreateUser::from_json(&Json::Null), Err(MalformedBody::NotAnObject));
    assert_eq!(
        CreateUser::from_json(&Json::Array(vec![Json::String(owned("alice"))])),
        Err(MalformedBody::NotAnObject)
    );
    assert_eq!(CreateUser::from_json(&object_of(vec![])), Err(MalformedBody::MissingField));
    assert_eq!(
        CreateUser::from_json(&object_of(vec![("Username", Json::String(owned("alice")))])),
        Err(MalformedBody::MissingField)
    );
    assert_eq!(
        CreateUser::from_json(&object_of(vec![("username", Json::Integer(1))])),
        Err(MalformedBody::WrongType)
    );
    assert_eq!(
        CreateUser::from_json(&object_of(vec![
            ("username", Json::String(owned("a"))),
            ("username", Json::String(owned("b"))),
        ])),
        Err(MalformedBody::DuplicateField)
    );
    assert_eq!(
        CreateUser::from_json(&object_of(vec![
            ("username", Json::String(owned("a"))),
            ("username", Json::Integer(2)),
        ])),
        Err(MalformedBody::DuplicateField)
    );
    assert_eq!(
        CreateUser::from_json(&object_of(vec![
            ("username", Json::Integer(1)),
            ("username", Json::String(owned("b"))),
        ])),
        Err(MalformedBody::WrongType)
    );
}

#[test]
fn from_payload_names_each_failure() {
    assert_eq!(
        CreateUser::from_payload(&Payload::Undeclared),
        Err(MalformedBody::UnsupportedMediaType)
    );
    assert_eq!(CreateUser::from_payload(&Payload::Unreadable), Err(MalformedBody::Syntax));
    assert_eq!(
        CreateUser::from_payload(&Payload::Document(Json::Bool(true))),
        Err(MalformedBody::NotAnObject)
    );
    assert_eq!(
        CreateUser::from_payload(&Payload::Document(object_of(vec![(
            "username",
            Json::String(owned("alice"))
        )]))),
        Ok(CreateUser { username: owned("alice") })
    );
}

#[test]
fn malformed_body_statuses() {
    assert_eq!(MalformedBody::UnsupportedMediaType.status().as_u16(), 415);
    assert_eq!(MalformedBody::Syntax.status().as_u16(), 400);
    assert_eq!(MalformedBody::NotAnObject.status().as_u16(), 422);
    assert_eq!(MalformedBody::MissingField.status().as_u16(), 422);
    assert_eq!(MalformedBody::DuplicateField.status().as_u16(), 422);
    assert_eq!(MalformedBody::WrongType.status().as_u16(), 422);
    for why in [
        MalformedBody::UnsupportedMediaType,
        MalformedBody::Syntax,
        MalformedBody::NotAnObject,
        MalformedBody::MissingField,
        MalformedBody::DuplicateField,
        MalformedBody::WrongType,
    ] {
        assert!(why.status().is_client_error());
    }
}

#[test]
fn status_numbers_and_classes() {
    let all = [
        (StatusCode::OK, 200, false),
        (StatusCode::CREATED, 201, false),
        (StatusCode::BAD_REQUEST, 400, true),
        (StatusCode::NOT_FOUND, 404, true),
        (StatusCode::UNSUPPORTED_MEDIA_TYPE, 415, true),
        (StatusCode::UNPROCESSABLE_ENTITY, 422, true),
    ];
    for (status, number, client_error) in all {
        assert_eq!(status.as_u16(), number);
        assert_eq!(status.is_client_error(), client_error);
    }
}

#[test]
fn user_to_json_lists_id_then_username() {
    let user = User { id: 1337, username: owned("alice") };
    assert_eq!(
        user.to_json(),
        object_of(vec![("id", Json::Integer(1337)), ("username", Json::String(owned("alice")))])
    );
    let largest = User { id: u64::MAX, username: owned("") };
    assert_eq!(
        largest.to_json(),
        object_of(vec![
            ("id", Json::Integer(18446744073709551615)),
            ("username", Json::String(owned("")))
        ])
    );
}

#[test]
fn schemas_list_the_fields() {
    assert_eq!(
        CreateUser::schema(),
        Schema {
            name: "CreateUser",
            fields: vec![Field { name: "username", kind: FieldKind::String }]
        }
    );
    assert_eq!(
        User::schema(),
        Schema {
            name: "User",
            fields: vec![
                Field { name: "id", kind: FieldKind::UnsignedInteger },
                Field { name: "username", kind: FieldKind::String },
            ]
        }
    );
}

#[test]
fn request_schema_accepts_what_decodes() {
    let docs = vec![
        Json::Null,
        Json::String(owned("alice")),
        Json::Array(vec![]),
        object_of(vec![]),
        object_of(vec![("username", Json::String(owned("alice")))]),
        object_of(vec![("username", Json::Integer(3))]),
        object_of(vec![("name", Json::String(owned("alice")))]),
        object_of(vec![("username", Json::String(owned("a"))), ("extra", Json::Null)]),
        object_of(vec![
            ("username", Json::String(owned("a"))),
            ("username", Json::String(owned("b"))),
        ]),
    ];
    let expected = [false, false, false, false, true, false, false, true, false];
    let schema = CreateUser::schema();
    for (doc, expect) in docs.iter().zip(expected) {
        assert_eq!(schema.accepts(doc), expect);
        assert_eq!(CreateUser::from_json(doc).is_ok(), expect);
    }
}

#[test]
fn response_schema_accepts_every_user_document() {
    let schema = User::schema();
    for (id, name) in [(0, ""), (1337, "alice"), (u64::MAX, "ÿ")] {
        assert!(schema.accepts(&User { id, username: owned(name) }.to_json()));
    }
    assert!(!schema.accepts(&object_of(vec![("username", Json::String(owned("alice")))])));
    assert!(!schema.accepts(&object_of(vec![
        ("id", Json::Integer(-1)),
        ("username", Json::String(owned("alice")))
    ])));
    assert!(!schema.accepts(&object_of(vec![
        ("id", Json::Integer(18446744073709551616)),
        ("username", Json::String(owned("alice")))
    ])));
    assert!(!schema.accepts(&object_of(vec![
        ("id", Json::String(owned("1337"))),
        ("username", Json::String(owned("alice")))
    ])));
}

#[test]
fn field_kinds_admit_their_values() {
    assert!(FieldKind::String.admits(&Json::String(owned(""))));
    assert!(!FieldKind::String.admits(&Json::Integer(0)));
    assert!(!FieldKind::String.admits(&Json::Null));
    assert!(FieldKind::UnsignedInteger.admits(&Json::Integer(0)));
    assert!(FieldKind::UnsignedInteger.admits(&Json::Integer(18446744073709551615)));
    assert!(!FieldKind::UnsignedInteger.admits(&Json::Integer(-1)));
    assert!(!FieldKind::UnsignedInteger.admits(&Json::Integer(18446744073709551616)));
    assert!(!FieldKind::UnsignedInteger.admits(&Json::Decimal(owned("1.0"))));
    assert!(!FieldKind::UnsignedInteger.admits(&Json::String(owned("1"))));
}

#[test]
fn field_is_carried_once() {
    let field = Field { name: "id", kind: FieldKind::UnsignedInteger };
    assert!(field.carried_by(&members_of(vec![("id", Json::Integer(1))])));
    assert!(!field.carried_by(&members_of(vec![])));
    assert!(!field.carried_by(&members_of(vec![("id", Json::Integer(1)), ("id", Json::Integer(1))])));
    assert!(!field.carried_by(&members_of(vec![("id", Json::Null)])));
}

#[test]
fn locate_finds_the_first_and_tells_of_more() {
    let members = members_of(vec![
        ("a", Json::Null),
        ("b", Json::Bool(true)),
        ("a", Json::Integer(1)),
        ("c", Json::Null),
    ]);
    assert_eq!(locate(&members, "a"), (Some(0), true));
    assert_eq!(locate(&members, "b"), (Some(1), false));
    assert_eq!(locate(&members, "c"), (Some(3), false));
    assert_eq!(locate(&members, "d"), (None, false));
    assert_eq!(locate(&members, ""), (None, false));
    assert_eq!(locate(&Vec::new(), "a"), (None, false));
}
