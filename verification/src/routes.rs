use vstd::prelude::*;

verus! {

/// The HTTP methods that the document routes answer.
#[derive(Debug, Clone, Copy, PartialEq, Eq, Structural)]
pub enum Method {
    Get,
    Post,
    Put,
    Delete,
}

/// The handlers behind the document routes.
#[derive(Debug, Clone, Copy, PartialEq, Eq, Structural)]
pub enum Endpoint {
    CreateDocument,
    GetDocument,
    UpdateDocument,
    DeleteDocument,
    ListDocumentUsers,
    GrantPermission,
    RemovePermission,
    UpdatePermission,
}

/// One route: requests with `method` on `path` (relative to where the
/// document routes are mounted; `:name` marks a path parameter) go to
/// `endpoint`.
#[derive(Debug, Clone, Copy, PartialEq)]
pub struct Route {
    pub method: Method,
    pub path: &'static str,
    pub endpoint: Endpoint,
}

/// The document routes as (method, path, endpoint).
pub open spec fn route_table() -> Seq<(Method, Seq<char>, Endpoint)> {
    seq![
        (Method::Post, "/"@, Endpoint::CreateDocument),
        (Method::Get, "/:id"@, Endpoint::GetDocument),
        (Method::Put, "/:id"@, Endpoint::UpdateDocument),
        (Method::Delete, "/:id"@, Endpoint::DeleteDocument),
        (Method::Get, "/:id/permissions"@, Endpoint::ListDocumentUsers),
        (Method::Post, "/:id/permissions"@, Endpoint::GrantPermission),
        (Method::Delete, "/:id/permissions/:user_id"@, Endpoint::RemovePermission),
        (Method::Put, "/:id/permissions"@, Endpoint::UpdatePermission),
    ]
}

/// A route as (method, path, endpoint).
pub open spec fn route_entry(route: Route) -> (Method, Seq<char>, Endpoint) {
    (route.method, route.path@, route.endpoint)
}

/// The routes under which the document handlers are served.
pub fn doc_routes() -> (routes: Vec<Route>)
    ensures
        routes@.map_values(|r: Route| route_entry(r)) == route_table(),
{
    let mut routes: Vec<Route> = Vec::new();
    routes.push(Route { method: Method::Post, path: "/", endpoint: Endpoint::CreateDocument });
    routes.push(Route { method: Method::Get, path: "/:id", endpoint: Endpoint::GetDocument });
    routes.push(Route { method: Method::Put, path: "/:id", endpoint: Endpoint::UpdateDocument });
    routes.push(Route { method: Method::Delete, path: "/:id", endpoint: Endpoint::DeleteDocument });
    routes.push(
        Route {
            method: Method::Get,
            path: "/:id/permissions",
            endpoint: Endpoint::ListDocumentUsers,
        },
    );
    routes.push(
        Route {
            method: Method::Post,
            path: "/:id/permissions",
            endpoint: Endpoint::GrantPermission,
        },
    );
    routes.push(
        Route {
            method: Method::Delete,
            path: "/:id/permissions/:user_id",
            endpoint: Endpoint::RemovePermission,
        },
    );
    routes.push(
        Route {
            method: Method::Put,
            path: "/:id/permissions",
            endpoint: Endpoint::UpdatePermission,
        },
    );
    assert(routes@.map_values(|r: Route| route_entry(r)) =~= route_table());
    routes
}

/// No two document routes share both method and path, so every request
/// that reaches them has exactly one handler, and each handler is served
/// under one route.
pub proof fn lemma_routes_are_unambiguous()
    ensures
        forall|i: int, j: int|
            0 <= i < j < route_table().len() ==> (#[trigger] route_table()[i]).0 != (
            #[trigger] route_table()[j]).0 || route_table()[i].1 != route_table()[j].1,
        forall|i: int, j: int|
            0 <= i < j < route_table().len() ==> (#[trigger] route_table()[i]).2 != (
            #[trigger] route_table()[j]).2,
{
    reveal_strlit("/");
    reveal_strlit("/:id");
    reveal_strlit("/:id/permissions");
    reveal_strlit("/:id/permissions/:user_id");
    assert("/"@.len() != "/:id"@.len());
    assert("/:id"@.len() != "/:id/permissions"@.len());
}

/// Every handler is served: each endpoint has a route.
pub proof fn lemma_every_endpoint_is_served(endpoint: Endpoint)
    ensures
        exists|i: int| 0 <= i < route_table().len() && (#[trigger] route_table()[i]).2 == endpoint,
{
    let k: int = match endpoint {
        Endpoint::CreateDocument => 0,
        Endpoint::GetDocument => 1,
        Endpoint::UpdateDocument => 2,
        Endpoint::DeleteDocument => 3,
        Endpoint::ListDocumentUsers => 4,
        Endpoint::GrantPermission => 5,
        Endpoint::RemovePermission => 6,
        Endpoint::UpdatePermission => 7,
    };
    assert(route_table()[k].2 == endpoint);
}

} // verus!
