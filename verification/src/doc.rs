//! The description of the service: its application routes with the shapes
//! of their bodies, made from the route table itself.

use vstd::prelude::*;
use crate::http::{Method, StatusCode};
use crate::routes::{lines_of, route_table, routes, Handler, Route, RouteView, ROOT_PATH, USERS_PATH};
use crate::schema::{Schema, SchemaView};
use crate::user::{create_user_schema, user_schema, CreateUser, User};

verus! {

/// One described route: verb, path, the tag it is listed under, the shape
/// of the request body if it takes one, and the status and body shape of
/// its success response.
#[derive(Debug, PartialEq, Eq)]
pub struct Operation {
    pub method: Method,
    pub path: &'static str,
    pub tag: &'static str,
    pub request_body: Option<Schema>,
    pub status: StatusCode,
    pub response_body: Option<Schema>,
}

/// The mathematical value of an [`Operation`].
pub struct OperationView {
    pub method: Method,
    pub path: Seq<char>,
    pub tag: Seq<char>,
    pub request_body: Option<SchemaView>,
    pub status: StatusCode,
    pub response_body: Option<SchemaView>,
}

impl View for Operation {
    type V = OperationView;

    open spec fn view(&self) -> OperationView {
        OperationView {
            method: self.method,
            path: self.path@,
            tag: self.tag@,
            request_body: match self.request_body {
                Some(schema) => Some(schema@),
                None => None,
            },
            status: self.status,
            response_body: match self.response_body {
                Some(schema) => Some(schema@),
                None => None,
            },
        }
    }
}

/// The description of the service: one operation for each application
/// route.
#[derive(Debug, PartialEq, Eq)]
pub struct ApiDescription {
    pub operations: Vec<Operation>,
}

/// The mathematical value of an [`ApiDescription`].
pub struct ApiDescriptionView {
    pub operations: Seq<OperationView>,
}

/// The values of operations, in their order.
pub open spec fn operations_of(operations: Seq<Operation>) -> Seq<OperationView> {
    Seq::new(operations.len(), |i: int| operations[i]@)
}

impl View for ApiDescription {
    type V = ApiDescriptionView;

    open spec fn view(&self) -> ApiDescriptionView {
        ApiDescriptionView { operations: operations_of(self.operations@) }
    }
}

/// How a line of the route table is described. Verb and path are those of
/// the line; the rest goes by its handler. The routes of the documentation
/// are not described.
pub open spec fn describe(route: RouteView) -> Option<OperationView> {
    match route.handler {
        Handler::Root => Some(
            OperationView {
                method: route.method,
                path: route.path,
                tag: "Root"@,
                request_body: None,
                status: StatusCode::OK,
                response_body: None,
            },
        ),
        Handler::CreateUser => Some(
            OperationView {
                method: route.method,
                path: route.path,
                tag: "User"@,
                request_body: Some(create_user_schema()),
                status: StatusCode::CREATED,
                response_body: Some(user_schema()),
            },
        ),
        _ => None,
    }
}

/// The descriptions of the lines of a table that have one, in the order of
/// the table.
pub open spec fn describe_all(table: Seq<RouteView>) -> Seq<OperationView>
    decreases table.len(),
{
    if table.len() == 0 {
        Seq::empty()
    } else {
        let before = describe_all(table.drop_last());
        match describe(table.last()) {
            Some(operation) => before.push(operation),
            None => before,
        }
    }
}

/// The description of the service: what [`describe`] makes of the route
/// table.
pub open spec fn api_description() -> ApiDescriptionView {
    ApiDescriptionView { operations: describe_all(routes()) }
}

impl Operation {
    /// Describes a line of the route table, if it is an application route.
    pub fn of_route(route: &Route) -> (described: Option<Operation>)
        ensures
            match described {
                Some(operation) => describe(route@) == Some(operation@),
                None => describe(route@) is None,
            },
    {
        match route.handler {
            Handler::Root => Some(
                Operation {
                    method: route.method,
                    path: route.path,
                    tag: "Root",
                    request_body: None,
                    status: StatusCode::OK,
                    response_body: None,
                },
            ),
            Handler::CreateUser => Some(
                Operation {
                    method: route.method,
                    path: route.path,
                    tag: "User",
                    request_body: Some(CreateUser::schema()),
                    status: StatusCode::CREATED,
                    response_body: Some(User::schema()),
                },
            ),
            _ => None,
        }
    }
}

/// The entry point of the documentation.
#[derive(Debug, Clone, Copy, PartialEq, Eq, Structural)]
pub struct ApiDoc;

impl ApiDoc {
    /// The description of the service, made from the route table.
    pub fn openapi() -> (description: ApiDescription)
        ensures
            description@ == api_description(),
    {
        let table = route_table();
        let mut operations: Vec<Operation> = Vec::new();
        let mut i: usize = 0;
        while i < table.len()
            invariant
                i <= table@.len(),
                lines_of(table@) == routes(),
                operations_of(operations@) == describe_all(routes().take(i as int)),
            decreases table@.len() - i,
        {
            assert(routes().take(i as int + 1).drop_last() =~= routes().take(i as int));
            let ghost before = operations_of(operations@);
            match Operation::of_route(&table[i]) {
                Some(operation) => {
                    operations.push(operation);
                    assert(operations_of(operations@) =~= before.push(operation@));
                },
                None => {},
            }
            i += 1;
        }
        assert(routes().take(i as int) =~= routes());
        ApiDescription { operations }
    }
}

/// The description lists the two application routes and nothing else: the
/// greeting at `GET /` and the creation of a user at `POST /users`.
pub proof fn description_lists_application_routes()
    ensures
        api_description().operations == seq![
            OperationView {
                method: Method::Get,
                path: ROOT_PATH@,
                tag: "Root"@,
                request_body: None,
                status: StatusCode::OK,
                response_body: None,
            },
            OperationView {
                method: Method::Post,
                path: USERS_PATH@,
                tag: "User"@,
                request_body: Some(create_user_schema()),
                status: StatusCode::CREATED,
                response_body: Some(user_schema()),
            },
        ],
{
    reveal_with_fuel(describe_all, 5);
}

} // verus!
