//! The route table: which handler serves which verb and path.

use vstd::prelude::*;
use crate::http::Method;
use crate::text::text_eq;

verus! {

/// Where the greeting is served.
pub const ROOT_PATH: &'static str = "/";

/// Where users are created.
pub const USERS_PATH: &'static str = "/users";

/// Where the description of the service is served as a document.
pub const OPENAPI_PATH: &'static str = "/api-doc/openapi.json";

/// Where the browsable view of the description is served.
pub const SWAGGER_PATH: &'static str = "/swagger";

/// What serves a request.
#[derive(Debug, Clone, Copy, PartialEq, Eq, Structural)]
pub enum Handler {
    /// The greeting.
    Root,
    /// The creation of a user.
    CreateUser,
    /// The description of the service, as a document.
    OpenApi,
    /// The browsable view of that document.
    SwaggerUi,
}

/// One line of the route table.
#[derive(Debug, Clone, Copy, PartialEq, Eq)]
pub struct Route {
    pub method: Method,
    pub path: &'static str,
    pub handler: Handler,
}

/// The mathematical value of a [`Route`].
pub struct RouteView {
    pub method: Method,
    pub path: Seq<char>,
    pub handler: Handler,
}

impl View for Route {
    type V = RouteView;

    open spec fn view(&self) -> RouteView {
        RouteView { method: self.method, path: self.path@, handler: self.handler }
    }
}

/// No line of the route table has the verb and path of the request.
#[derive(Debug, Clone, Copy, PartialEq, Eq, Structural)]
pub struct NotFound;

/// The values of the lines of a table, in their order.
pub open spec fn lines_of(table: Seq<Route>) -> Seq<RouteView> {
    Seq::new(table.len(), |i: int| table[i]@)
}

/// The route table of the service.
pub open spec fn routes() -> Seq<RouteView> {
    seq![
        RouteView { method: Method::Get, path: ROOT_PATH@, handler: Handler::Root },
        RouteView { method: Method::Post, path: USERS_PATH@, handler: Handler::CreateUser },
        RouteView { method: Method::Get, path: OPENAPI_PATH@, handler: Handler::OpenApi },
        RouteView { method: Method::Get, path: SWAGGER_PATH@, handler: Handler::SwaggerUi },
    ]
}

/// The handler of the first line of `table` with this verb and this path,
/// letter for letter.
pub open spec fn resolve_in(table: Seq<RouteView>, method: Method, path: Seq<char>) -> Option<
    Handler,
>
    decreases table.len(),
{
    if table.len() == 0 {
        None
    } else if table.first().method == method && table.first().path == path {
        Some(table.first().handler)
    } else {
        resolve_in(table.drop_first(), method, path)
    }
}

/// The handler that the route table gives a verb and a path.
pub open spec fn resolve(method: Method, path: Seq<char>) -> Option<Handler> {
    resolve_in(routes(), method, path)
}

/// The route table, as data.
pub fn route_table() -> (table: Vec<Route>)
    ensures
        lines_of(table@) == routes(),
{
    let mut table: Vec<Route> = Vec::new();
    table.push(Route { method: Method::Get, path: ROOT_PATH, handler: Handler::Root });
    table.push(Route { method: Method::Post, path: USERS_PATH, handler: Handler::CreateUser });
    table.push(Route { method: Method::Get, path: OPENAPI_PATH, handler: Handler::OpenApi });
    table.push(Route { method: Method::Get, path: SWAGGER_PATH, handler: Handler::SwaggerUi });
    table
}

/// Finds the handler of a request, or reports that there is none.
pub fn lookup(method: Method, path: &str) -> (found: Result<Handler, NotFound>)
    ensures
        match found {
            Ok(handler) => resolve(method, path@) == Some(handler),
            Err(_) => resolve(method, path@) is None,
        },
{
    let table = route_table();
    let mut i: usize = 0;
    assert(routes().skip(0) =~= routes());
    while i < table.len()
        invariant
            i <= table@.len(),
            lines_of(table@) == routes(),
            resolve(method, path@) == resolve_in(routes().skip(i as int), method, path@),
        decreases table@.len() - i,
    {
        if table[i].method == method && text_eq(table[i].path, path) {
            return Ok(table[i].handler);
        }
        assert(routes().skip(i as int).drop_first() =~= routes().skip(i as int + 1));
        i += 1;
    }
    Err(NotFound)
}

/// The four paths of the table differ from each other.
pub proof fn paths_differ()
    ensures
        ROOT_PATH@ != USERS_PATH@,
        ROOT_PATH@ != OPENAPI_PATH@,
        ROOT_PATH@ != SWAGGER_PATH@,
        USERS_PATH@ != OPENAPI_PATH@,
        USERS_PATH@ != SWAGGER_PATH@,
        OPENAPI_PATH@ != SWAGGER_PATH@,
{
    reveal_strlit("/");
    reveal_strlit("/users");
    reveal_strlit("/api-doc/openapi.json");
    reveal_strlit("/swagger");
    assert(ROOT_PATH@.len() == 1);
    assert(USERS_PATH@.len() == 6);
    assert(OPENAPI_PATH@.len() == 21);
    assert(SWAGGER_PATH@.len() == 8);
}

/// No two lines of the route table have the same verb and path: a request
/// has at most one handler.
pub proof fn routes_are_unambiguous()
    ensures
        forall|i: int, j: int|
            0 <= i < j < routes().len() ==> !((#[trigger] routes()[i]).method == (
            #[trigger] routes()[j]).method && routes()[i].path == routes()[j].path),
{
    paths_differ();
}

/// A request has a handler exactly when a line of the route table has its
/// verb and its path, and the handler is that line's.
pub proof fn resolve_finds_the_line(method: Method, path: Seq<char>, handler: Handler)
    ensures
        resolve(method, path) == Some(handler) <==> routes().contains(
            RouteView { method, path, handler },
        ),
{
    resolve_cases(method, path);
    paths_differ();
    let line = RouteView { method, path, handler };
    if resolve(method, path) == Some(handler) {
        assert(routes()[0] == line || routes()[1] == line || routes()[2] == line || routes()[3]
            == line);
    }
    if routes().contains(line) {
        let at = choose|i: int| 0 <= i < routes().len() && routes()[i] == line;
        assert(0 <= at < 4);
    }
}

/// The route table, case by case: the handler of a request is the one of
/// the line that has its verb and its path, and there is none for any other
/// request.
pub proof fn resolve_cases(method: Method, path: Seq<char>)
    ensures
        resolve(method, path) == if method == Method::Get && path == ROOT_PATH@ {
            Some(Handler::Root)
        } else if method == Method::Post && path == USERS_PATH@ {
            Some(Handler::CreateUser)
        } else if method == Method::Get && path == OPENAPI_PATH@ {
            Some(Handler::OpenApi)
        } else if method == Method::Get && path == SWAGGER_PATH@ {
            Some(Handler::SwaggerUi)
        } else {
            None
        },
{
    reveal_with_fuel(resolve_in, 5);
    paths_differ();
}

} // verus!
