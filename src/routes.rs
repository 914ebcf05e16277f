use vstd::prelude::*;

verus! {

/// The text served at `/`, telling a client how to use the store.
pub open spec fn usage_text() -> Seq<char> {
    "
    USAGE

        POST /
            
            accepts raw data in body of request
            and responds with a link.
        
        GET /<id>

            retrieves content for paste with id `<id>`
    "@
}

/// The usage text served at `/`.
pub fn index() -> (r: &'static str)
    ensures
        r@ == usage_text(),
{
    "
    USAGE

        POST /
            
            accepts raw data in body of request
            and responds with a link.
        
        GET /<id>

            retrieves content for paste with id `<id>`
    "
}

/// The request methods the service answers.
#[derive(Debug, Clone, Copy, PartialEq, Eq, Structural)]
pub enum Method {
    Get,
    Post,
}

/// What a route does.
#[derive(Debug, Clone, Copy, PartialEq, Eq, Structural)]
pub enum Endpoint {
    /// Serves the usage text.
    Index,
    /// Serves the content stored under the identifier in the path.
    Retrieve,
    /// Stores the request body under the identifier in the path.
    Upload,
}

/// One route of the service: a method, a path pattern in which `<id>` stands
/// for one identifier, and what is done there.
pub struct Route {
    pub method: Method,
    pub path: &'static str,
    pub endpoint: Endpoint,
}

/// The routes the service mounts at its root, in order.
pub open spec fn route_table() -> Seq<(Method, Seq<char>, Endpoint)> {
    seq![
        (Method::Get, "/"@, Endpoint::Index),
        (Method::Get, "/<id>"@, Endpoint::Retrieve),
        (Method::Post, "/<id>"@, Endpoint::Upload),
    ]
}

/// The view of a route as a method, a pattern and an endpoint.
pub open spec fn route_view(r: Route) -> (Method, Seq<char>, Endpoint) {
    (r.method, r.path@, r.endpoint)
}

/// Builds the table of routes the service mounts.
pub fn rocket() -> (r: Vec<Route>)
    ensures
        r@.len() == route_table().len(),
        forall|i: int| 0 <= i < r@.len() ==> route_view(#[trigger] r@[i]) == route_table()[i],
{
    let mut routes: Vec<Route> = Vec::new();
    routes.push(Route { method: Method::Get, path: "/", endpoint: Endpoint::Index });
    routes.push(Route { method: Method::Get, path: "/<id>", endpoint: Endpoint::Retrieve });
    routes.push(Route { method: Method::Post, path: "/<id>", endpoint: Endpoint::Upload });
    routes
}

} // verus!
