//! Requests and responses as plain values: what the transport hands to the
//! service and what it gets back.

use vstd::prelude::*;
use crate::doc::{ApiDescription, ApiDescriptionView};
use crate::json::{Json, JsonDoc};
use crate::text::text_eq;
use crate::user::{User, UserView};

verus! {

/// The verb of a request.
#[derive(Debug, Clone, Copy, PartialEq, Eq, Structural)]
pub enum Method {
    Get,
    Post,
    Put,
    Delete,
    Patch,
    Head,
    Options,
    Trace,
    Connect,
    /// Any verb without a variant of its own.
    Other,
}

/// The verb that a request line's method token names. Tokens are case
/// sensitive; one that names none of the nine standard verbs is `Other`.
pub open spec fn method_named(token: Seq<char>) -> Method {
    if token == "GET"@ {
        Method::Get
    } else if token == "POST"@ {
        Method::Post
    } else if token == "PUT"@ {
        Method::Put
    } else if token == "DELETE"@ {
        Method::Delete
    } else if token == "PATCH"@ {
        Method::Patch
    } else if token == "HEAD"@ {
        Method::Head
    } else if token == "OPTIONS"@ {
        Method::Options
    } else if token == "TRACE"@ {
        Method::Trace
    } else if token == "CONNECT"@ {
        Method::Connect
    } else {
        Method::Other
    }
}

impl Method {
    /// Reads a method token.
    pub fn from_token(token: &str) -> (method: Method)
        ensures
            method == method_named(token@),
    {
        if text_eq(token, "GET") {
            Method::Get
        } else if text_eq(token, "POST") {
            Method::Post
        } else if text_eq(token, "PUT") {
            Method::Put
        } else if text_eq(token, "DELETE") {
            Method::Delete
        } else if text_eq(token, "PATCH") {
            Method::Patch
        } else if text_eq(token, "HEAD") {
            Method::Head
        } else if text_eq(token, "OPTIONS") {
            Method::Options
        } else if text_eq(token, "TRACE") {
            Method::Trace
        } else if text_eq(token, "CONNECT") {
            Method::Connect
        } else {
            Method::Other
        }
    }
}

/// The statuses this service answers with, under their usual names.
#[allow(non_camel_case_types)]
#[derive(Debug, Clone, Copy, PartialEq, Eq, Structural)]
pub enum StatusCode {
    OK,
    CREATED,
    BAD_REQUEST,
    NOT_FOUND,
    UNSUPPORTED_MEDIA_TYPE,
    UNPROCESSABLE_ENTITY,
}

impl StatusCode {
    /// The three-digit number of the status.
    pub open spec fn number(self) -> int {
        match self {
            StatusCode::OK => 200,
            StatusCode::CREATED => 201,
            StatusCode::BAD_REQUEST => 400,
            StatusCode::NOT_FOUND => 404,
            StatusCode::UNSUPPORTED_MEDIA_TYPE => 415,
            StatusCode::UNPROCESSABLE_ENTITY => 422,
        }
    }

    /// A status in the range 400 to 499 blames the request.
    pub open spec fn client_error(self) -> bool {
        400 <= self.number() <= 499
    }

    /// The number of the status, for the transport.
    pub fn as_u16(self) -> (n: u16)
        ensures
            n == self.number(),
    {
        match self {
            StatusCode::OK => 200,
            StatusCode::CREATED => 201,
            StatusCode::BAD_REQUEST => 400,
            StatusCode::NOT_FOUND => 404,
            StatusCode::UNSUPPORTED_MEDIA_TYPE => 415,
            StatusCode::UNPROCESSABLE_ENTITY => 422,
        }
    }

    /// Tests whether the status blames the request.
    pub fn is_client_error(self) -> (yes: bool)
        ensures
            yes == self.client_error(),
    {
        let n: u16 = self.as_u16();
        400 <= n && n <= 499
    }
}

/// What the transport found in the body of a request.
#[derive(Debug, PartialEq, Eq)]
pub enum Payload {
    /// The request does not declare its body as JSON.
    Undeclared,
    /// The body is declared as JSON, but its text is no JSON document.
    Unreadable,
    /// The body is this JSON document.
    Document(Json),
}

/// The mathematical value of a [`Payload`].
pub enum PayloadView {
    Undeclared,
    Unreadable,
    Document(JsonDoc),
}

impl View for Payload {
    type V = PayloadView;

    open spec fn view(&self) -> PayloadView {
        match self {
            Payload::Undeclared => PayloadView::Undeclared,
            Payload::Unreadable => PayloadView::Unreadable,
            Payload::Document(doc) => PayloadView::Document(doc@),
        }
    }
}

/// One request: verb, path and body.
#[derive(Debug, PartialEq, Eq)]
pub struct Request {
    pub method: Method,
    pub path: String,
    pub payload: Payload,
}

/// The mathematical value of a [`Request`].
pub struct RequestView {
    pub method: Method,
    pub path: Seq<char>,
    pub payload: PayloadView,
}

impl View for Request {
    type V = RequestView;

    open spec fn view(&self) -> RequestView {
        RequestView { method: self.method, path: self.path@, payload: self.payload@ }
    }
}

/// What a response carries.
#[derive(Debug, PartialEq, Eq)]
pub enum Body {
    /// Nothing.
    Empty,
    /// Plain text.
    Text(String),
    /// A user; the transport sends the document that `User::to_json` gives.
    User(User),
    /// The description of the service; the transport renders it as a
    /// document.
    ApiDescription(ApiDescription),
    /// The browsable view of the description; the transport renders it, and
    /// the view loads the description from the path given here.
    SwaggerUi(String),
}

/// The mathematical value of a [`Body`].
pub enum BodyView {
    Empty,
    Text(Seq<char>),
    User(UserView),
    ApiDescription(ApiDescriptionView),
    SwaggerUi(Seq<char>),
}

impl View for Body {
    type V = BodyView;

    open spec fn view(&self) -> BodyView {
        match self {
            Body::Empty => BodyView::Empty,
            Body::Text(text) => BodyView::Text(text@),
            Body::User(user) => BodyView::User(user@),
            Body::ApiDescription(description) => BodyView::ApiDescription(description@),
            Body::SwaggerUi(path) => BodyView::SwaggerUi(path@),
        }
    }
}

/// One response: status and body.
#[derive(Debug, PartialEq, Eq)]
pub struct Response {
    pub status: StatusCode,
    pub body: Body,
}

/// The mathematical value of a [`Response`].
pub struct ResponseView {
    pub status: StatusCode,
    pub body: BodyView,
}

impl View for Response {
    type V = ResponseView;

    open spec fn view(&self) -> ResponseView {
        ResponseView { status: self.status, body: self.body@ }
    }
}

} // verus!
