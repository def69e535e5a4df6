//! The service as one function from request to response: the route table
//! picks the handler, the body is decoded for the handler that takes one,
//! and the handler's result becomes the response.

use vstd::prelude::*;
use crate::doc::{api_description, description_lists_application_routes, ApiDoc, OperationView};
use crate::handlers::{create_user, created_user, greeting, root};
use crate::http::{
    Body, BodyView, Method, PayloadView, Request, RequestView, Response, ResponseView, StatusCode,
};
use crate::json::{values_named, JsonDoc};
use crate::routes::{
    lookup, paths_differ, resolve, resolve_cases, routes, Handler, OPENAPI_PATH, ROOT_PATH,
    SWAGGER_PATH, USERS_PATH,
};
use crate::schema::conforms;
use crate::user::{
    create_user_schema_is_exact, decode_payload, user_doc, user_doc_conforms, username_key,
    CreateUser, UserView,
};

verus! {

/// What a handler answers to a request that reached it.
pub open spec fn answer(handler: Handler, request: RequestView) -> ResponseView {
    match handler {
        Handler::Root => ResponseView { status: StatusCode::OK, body: BodyView::Text(greeting()) },
        Handler::CreateUser => match decode_payload(request.payload) {
            Ok(payload) => ResponseView {
                status: StatusCode::CREATED,
                body: BodyView::User(created_user(payload)),
            },
            Err(why) => ResponseView { status: why.status(), body: BodyView::Empty },
        },
        Handler::OpenApi => ResponseView {
            status: StatusCode::OK,
            body: BodyView::ApiDescription(api_description()),
        },
        Handler::SwaggerUi => ResponseView {
            status: StatusCode::OK,
            body: BodyView::SwaggerUi(OPENAPI_PATH@),
        },
    }
}

/// The response of the service to a request: the answer of the handler
/// that the route table gives it, or 404 with an empty body where the table
/// gives none.
pub open spec fn respond(request: RequestView) -> ResponseView {
    match resolve(request.method, request.path) {
        Some(handler) => answer(handler, request),
        None => ResponseView { status: StatusCode::NOT_FOUND, body: BodyView::Empty },
    }
}

/// Runs a handler on a request that the route table gave it.
pub fn handle(handler: Handler, request: &Request) -> (response: Response)
    ensures
        response@ == answer(handler, request@),
{
    match handler {
        Handler::Root => Response { status: StatusCode::OK, body: Body::Text(root().to_owned()) },
        Handler::CreateUser => match CreateUser::from_payload(&request.payload) {
            Ok(payload) => {
                let (status, user) = create_user(payload);
                Response { status, body: Body::User(user) }
            },
            Err(why) => Response { status: why.status(), body: Body::Empty },
        },
        Handler::OpenApi => Response {
            status: StatusCode::OK,
            body: Body::ApiDescription(ApiDoc::openapi()),
        },
        Handler::SwaggerUi => Response {
            status: StatusCode::OK,
            body: Body::SwaggerUi(OPENAPI_PATH.to_owned()),
        },
    }
}

/// Serves one request.
pub fn dispatch(request: &Request) -> (response: Response)
    ensures
        response@ == respond(request@),
{
    match lookup(request.method, request.path.as_str()) {
        Ok(handler) => handle(handler, request),
        Err(_) => Response { status: StatusCode::NOT_FOUND, body: Body::Empty },
    }
}

/// Every `GET /` is answered with 200 and the greeting, whatever else the
/// request holds.
pub proof fn root_always_greets(request: RequestView)
    requires
        request.method == Method::Get,
        request.path == ROOT_PATH@,
    ensures
        respond(request) == (ResponseView {
            status: StatusCode::OK,
            body: BodyView::Text("Hello, World!"@),
        }),
{
    resolve_cases(request.method, request.path);
}

/// A `POST /users` whose body is the document `{"username": name}` is
/// answered with 201 and the user whose document is
/// `{"id": 1337, "username": name}`, for every text `name`, the empty one
/// included.
pub proof fn valid_body_creates_user(request: RequestView, name: Seq<char>)
    requires
        request.method == Method::Post,
        request.path == USERS_PATH@,
        request.payload == PayloadView::Document(
            JsonDoc::Object(seq![("username"@, JsonDoc::String(name))]),
        ),
    ensures
        respond(request) == (ResponseView {
            status: StatusCode::CREATED,
            body: BodyView::User(UserView { id: 1337, username: name }),
        }),
        user_doc(UserView { id: 1337, username: name }) == JsonDoc::Object(
            seq![("id"@, JsonDoc::Integer(1337)), ("username"@, JsonDoc::String(name))],
        ),
{
    resolve_cases(request.method, request.path);
    reveal_with_fuel(values_named, 2);
}

/// The service keeps no state: requests of the same value get responses of
/// the same value, the identifier of a created user included.
pub proof fn same_request_same_response(
    first: Request,
    second: Request,
    first_response: Response,
    second_response: Response,
)
    requires
        first@ == second@,
        first_response@ == respond(first@),
        second_response@ == respond(second@),
    ensures
        first_response@ == second_response@,
{
}

/// Whether a body lacks a `username` string: it is no JSON object, or an
/// object without a member `username`, or one with a `username` that is not
/// a string.
pub open spec fn lacks_username_string(payload: PayloadView) -> bool {
    match payload {
        PayloadView::Document(JsonDoc::Object(members)) => {
            let values = values_named(members, username_key());
            values.len() == 0 || exists|i: int| 0 <= i < values.len() && !(#[trigger] values[i] is String)
        },
        _ => true,
    }
}

/// A `POST /users` whose body lacks a `username` string gets a client-error
/// status and an empty body: no user is made.
pub proof fn malformed_body_is_client_error(request: RequestView)
    requires
        request.method == Method::Post,
        request.path == USERS_PATH@,
        lacks_username_string(request.payload),
    ensures
        decode_payload(request.payload) is Err,
        respond(request).status.client_error(),
        respond(request).body == BodyView::Empty,
{
    resolve_cases(request.method, request.path);
    paths_differ();
}

/// A `POST /users` is answered with 201 exactly when its body decodes, and
/// with the status of the decoding failure and an empty body otherwise.
pub proof fn create_user_succeeds_iff_body_decodes(request: RequestView)
    requires
        request.method == Method::Post,
        request.path == USERS_PATH@,
    ensures
        respond(request).status == StatusCode::CREATED <==> decode_payload(request.payload) is Ok,
        decode_payload(request.payload) matches Err(why) ==> respond(request) == (ResponseView {
            status: why.status(),
            body: BodyView::Empty,
        }) && why.status().client_error(),
{
    resolve_cases(request.method, request.path);
    paths_differ();
}

/// A request with a verb and path that no line of the route table has is
/// answered with 404 and an empty body: it reaches no handler.
pub proof fn unmatched_request_is_not_found(request: RequestView)
    requires
        forall|i: int|
            0 <= i < routes().len() ==> !((#[trigger] routes()[i]).method == request.method
                && routes()[i].path == request.path),
    ensures
        respond(request) == (ResponseView { status: StatusCode::NOT_FOUND, body: BodyView::Empty }),
{
    resolve_cases(request.method, request.path);
}

/// The description holds of the service. A request with the verb and path
/// of a described operation reaches a handler. It is answered with the
/// operation's status exactly when the operation takes no body or the
/// request's body is a document of the described shape, and with a
/// client-error status otherwise. Where it is answered with the operation's
/// status, the response body is a user whose document has the described
/// shape, and plain text where none is described.
pub proof fn description_holds_of_service(operation: OperationView, request: RequestView)
    requires
        api_description().operations.contains(operation),
        request.method == operation.method,
        request.path == operation.path,
    ensures
        resolve(request.method, request.path) is Some,
        respond(request).status == operation.status <==> match operation.request_body {
            Some(shape) => request.payload matches PayloadView::Document(doc) && conforms(
                doc,
                shape,
            ),
            None => true,
        },
        respond(request).status != operation.status ==> respond(request).status.client_error(),
        respond(request).status == operation.status ==> match operation.response_body {
            Some(shape) => respond(request).body matches BodyView::User(user) && conforms(
                user_doc(user),
                shape,
            ),
            None => respond(request).body is Text,
        },
{
    description_lists_application_routes();
    resolve_cases(request.method, request.path);
    paths_differ();
    let listed = api_description().operations;
    let at = choose|i: int| 0 <= i < listed.len() && listed[i] == operation;
    assert(at == 0 || at == 1);
    if at == 1 {
        match request.payload {
            PayloadView::Document(doc) => {
                create_user_schema_is_exact(doc);
            },
            _ => {},
        }
        match decode_payload(request.payload) {
            Ok(payload) => {
                user_doc_conforms(created_user(payload));
            },
            Err(_) => {},
        }
    }
}

} // verus!
