//! The two records of the service: the body of a user-creation request and
//! the user that answers it, with their JSON forms.

use vstd::prelude::*;
use crate::http::{Payload, PayloadView, StatusCode};
use crate::json::{locate, pairs_of, values_named, Json, JsonDoc, Member};
use crate::schema::{conforms, Field, FieldKind, FieldView, Schema, SchemaView};

verus! {

/// The identifier every created user gets: a placeholder, there is no
/// scheme that generates identifiers.
pub const PLACEHOLDER_ID: u64 = 1337;

/// The body of a user-creation request.
#[derive(Debug, Clone, PartialEq, Eq)]
pub struct CreateUser {
    pub username: String,
}

/// The body of a user-creation response.
#[derive(Debug, PartialEq, Eq)]
pub struct User {
    pub id: u64,
    pub username: String,
}

/// The mathematical value of a [`CreateUser`].
pub struct CreateUserView {
    pub username: Seq<char>,
}

/// The mathematical value of a [`User`].
pub struct UserView {
    pub id: u64,
    pub username: Seq<char>,
}

impl View for CreateUser {
    type V = CreateUserView;

    open spec fn view(&self) -> CreateUserView {
        CreateUserView { username: self.username@ }
    }
}

impl Default for CreateUser {
    /// The request with the empty name.
    fn default() -> (record: CreateUser)
        ensures
            record@.username == Seq::<char>::empty(),
    {
        CreateUser { username: String::new() }
    }
}

impl View for User {
    type V = UserView;

    open spec fn view(&self) -> UserView {
        UserView { id: self.id, username: self.username@ }
    }
}

/// Why a request body does not decode into the record a handler takes.
#[derive(Debug, Clone, Copy, PartialEq, Eq, Structural)]
pub enum MalformedBody {
    /// The body is not declared as JSON.
    UnsupportedMediaType,
    /// The body is no JSON document.
    Syntax,
    /// The document is not an object.
    NotAnObject,
    /// The object has no member of the required name.
    MissingField,
    /// The object has the required member more than once.
    DuplicateField,
    /// The required member holds a value of another type.
    WrongType,
}

impl MalformedBody {
    /// The status that reports the failure: 415 for a body that is not
    /// declared as JSON, 400 for one that is no JSON document, 422 for a
    /// document that does not fit the record.
    pub open spec fn status_spec(self) -> StatusCode {
        match self {
            MalformedBody::UnsupportedMediaType => StatusCode::UNSUPPORTED_MEDIA_TYPE,
            MalformedBody::Syntax => StatusCode::BAD_REQUEST,
            _ => StatusCode::UNPROCESSABLE_ENTITY,
        }
    }

    /// The status that reports the failure.
    #[verifier::when_used_as_spec(status_spec)]
    pub fn status(self) -> (status: StatusCode)
        ensures
            status == self.status_spec(),
            status.client_error(),
    {
        match self {
            MalformedBody::UnsupportedMediaType => StatusCode::UNSUPPORTED_MEDIA_TYPE,
            MalformedBody::Syntax => StatusCode::BAD_REQUEST,
            _ => StatusCode::UNPROCESSABLE_ENTITY,
        }
    }
}

/// The name of the one member a user-creation request must carry.
pub open spec fn username_key() -> Seq<char> {
    "username"@
}

/// The name of the member that carries a user's identifier.
pub open spec fn id_key() -> Seq<char> {
    "id"@
}

/// What a document decodes to as a user-creation request.
///
/// It must be an object whose first `username` member is a string and whose
/// other members have other names; those are ignored.
pub open spec fn decode_create_user(doc: JsonDoc) -> Result<CreateUserView, MalformedBody> {
    match doc {
        JsonDoc::Object(members) => {
            let values = values_named(members, username_key());
            if values.len() == 0 {
                Err(MalformedBody::MissingField)
            } else {
                match values[0] {
                    JsonDoc::String(name) => if values.len() == 1 {
                        Ok(CreateUserView { username: name })
                    } else {
                        Err(MalformedBody::DuplicateField)
                    },
                    _ => Err(MalformedBody::WrongType),
                }
            }
        },
        _ => Err(MalformedBody::NotAnObject),
    }
}

/// What the body of a request decodes to as a user-creation request.
pub open spec fn decode_payload(payload: PayloadView) -> Result<CreateUserView, MalformedBody> {
    match payload {
        PayloadView::Undeclared => Err(MalformedBody::UnsupportedMediaType),
        PayloadView::Unreadable => Err(MalformedBody::Syntax),
        PayloadView::Document(doc) => decode_create_user(doc),
    }
}

/// The document that carries a user.
pub open spec fn user_doc(user: UserView) -> JsonDoc {
    JsonDoc::Object(
        seq![
            (id_key(), JsonDoc::Integer(user.id as int)),
            (username_key(), JsonDoc::String(user.username)),
        ],
    )
}

/// The shape of a user-creation request: one string, `username`.
pub open spec fn create_user_schema() -> SchemaView {
    SchemaView {
        name: "CreateUser"@,
        fields: seq![FieldView { name: username_key(), kind: FieldKind::String }],
    }
}

/// The shape of a user: an unsigned integer `id` and a string `username`.
pub open spec fn user_schema() -> SchemaView {
    SchemaView {
        name: "User"@,
        fields: seq![
            FieldView { name: id_key(), kind: FieldKind::UnsignedInteger },
            FieldView { name: username_key(), kind: FieldKind::String },
        ],
    }
}

impl CreateUser {
    /// The shape of the record, as data.
    pub fn schema() -> (schema: Schema)
        ensures
            schema@ == create_user_schema(),
    {
        let mut fields: Vec<Field> = Vec::new();
        fields.push(Field { name: "username", kind: FieldKind::String });
        let schema = Schema { name: "CreateUser", fields };
        assert(schema@.fields =~= create_user_schema().fields);
        schema
    }

    /// Decodes a document.
    pub fn from_json(doc: &Json) -> (decoded: Result<CreateUser, MalformedBody>)
        ensures
            match decoded {
                Ok(record) => decode_create_user(doc@) == Ok::<CreateUserView, MalformedBody>(record@),
                Err(why) => decode_create_user(doc@) == Err::<CreateUserView, MalformedBody>(why),
            },
    {
        match doc {
            Json::Object(members) => {
                proof {
                    Json::object_view(*members);
                }
                let (first, again) = locate(members, "username");
                match first {
                    None => Err(MalformedBody::MissingField),
                    Some(at) => match &members[at].value {
                        Json::String(name) => if again {
                            Err(MalformedBody::DuplicateField)
                        } else {
                            Ok(CreateUser { username: name.clone() })
                        },
                        _ => Err(MalformedBody::WrongType),
                    },
                }
            },
            _ => Err(MalformedBody::NotAnObject),
        }
    }

    /// Decodes the body of a request: the step that runs before the handler.
    pub fn from_payload(payload: &Payload) -> (decoded: Result<CreateUser, MalformedBody>)
        ensures
            match decoded {
                Ok(record) => decode_payload(payload@) == Ok::<CreateUserView, MalformedBody>(record@),
                Err(why) => decode_payload(payload@) == Err::<CreateUserView, MalformedBody>(why),
            },
    {
        match payload {
            Payload::Undeclared => Err(MalformedBody::UnsupportedMediaType),
            Payload::Unreadable => Err(MalformedBody::Syntax),
            Payload::Document(doc) => CreateUser::from_json(doc),
        }
    }
}

impl User {
    /// The shape of the record, as data.
    pub fn schema() -> (schema: Schema)
        ensures
            schema@ == user_schema(),
    {
        let mut fields: Vec<Field> = Vec::new();
        fields.push(Field { name: "id", kind: FieldKind::UnsignedInteger });
        fields.push(Field { name: "username", kind: FieldKind::String });
        let schema = Schema { name: "User", fields };
        assert(schema@.fields =~= user_schema().fields);
        schema
    }

    /// The document that carries this user: `id`, then `username`.
    pub fn to_json(&self) -> (doc: Json)
        ensures
            doc@ == user_doc(self@),
    {
        let mut members: Vec<Member> = Vec::new();
        members.push(Member { name: "id".to_owned(), value: Json::Integer(self.id as i128) });
        members.push(
            Member { name: "username".to_owned(), value: Json::String(self.username.clone()) },
        );
        proof {
            Json::object_view(members);
            assert(pairs_of(members@) =~= user_doc(self@)->Object_0);
        }
        Json::Object(members)
    }
}

/// A document decodes as a user-creation request exactly when it has the
/// shape that [`CreateUser::schema`] gives.
pub proof fn create_user_schema_is_exact(doc: JsonDoc)
    ensures
        decode_create_user(doc) is Ok <==> conforms(doc, create_user_schema()),
{
    let schema = create_user_schema();
    assert(schema.fields[0] == FieldView { name: username_key(), kind: FieldKind::String });
}

/// The document of every user has the shape that [`User::schema`] gives.
pub proof fn user_doc_conforms(user: UserView)
    ensures
        conforms(user_doc(user), user_schema()),
{
    names_differ();
    reveal_with_fuel(values_named, 3);
}

proof fn names_differ()
    ensures
        id_key() != username_key(),
{
    reveal_strlit("id");
    reveal_strlit("username");
    assert(id_key().len() == 2);
    assert(username_key().len() == 8);
}

} // verus!
