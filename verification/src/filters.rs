use vstd::prelude::*;

verus! {

/// The HTTP method of an inbound request, as far as routing cares.
pub enum Method {
    Get,
    Post,
    Put,
    Delete,
    Head,
    Patch,
    Options,
    /// Any method not listed above.
    Other,
}

/// Where the routing table sends an inbound request.
pub enum RouteDecision {
    /// `GET /api/v1/users`: list users.
    ListUsers,
    /// `POST /api/v1/users`: create a user, once the body decodes.
    CreateUser,
    /// No route matches the path.
    PathNotFound,
    /// The path matches, but no route accepts the method.
    WrongMethod,
}

/// The one path the service serves.
pub open spec fn users_path(p: Seq<char>) -> bool {
    p == "/api/v1/users"@
}

/// The routing table, one decision per request: first matching route wins,
/// a matched path with an unrouted method is a method mismatch, and an
/// unmatched path falls through to not-found.
pub open spec fn users_decision(m: Method, p: Seq<char>) -> RouteDecision {
    if !users_path(p) {
        RouteDecision::PathNotFound
    } else if m is Get {
        RouteDecision::ListUsers
    } else if m is Post {
        RouteDecision::CreateUser
    } else {
        RouteDecision::WrongMethod
    }
}

fn is_users_path(path: &String) -> (r: bool)
    ensures
        r == users_path(path@),
{
    let expected = String::from_str("/api/v1/users");
    *path == expected
}

/// Route `GET` requests to `api/v1/users`.
pub fn users_list(method: &Method, path: &String) -> (r: bool)
    ensures
        r == (*method is Get && users_path(path@)),
{
    let m_ok = match method {
        Method::Get => true,
        _ => false,
    };
    m_ok && is_users_path(path)
}

/// Route `POST` requests to `api/v1/users`.
pub fn users_create(method: &Method, path: &String) -> (r: bool)
    ensures
        r == (*method is Post && users_path(path@)),
{
    let m_ok = match method {
        Method::Post => true,
        _ => false,
    };
    m_ok && is_users_path(path)
}

/// Match an inbound request against both routes, in order: list, then
/// create, then the two routing-level failure signals.
pub fn users(method: &Method, path: &String) -> (d: RouteDecision)
    ensures
        d == users_decision(*method, path@),
{
    if users_list(method, path) {
        RouteDecision::ListUsers
    } else if users_create(method, path) {
        RouteDecision::CreateUser
    } else if is_users_path(path) {
        RouteDecision::WrongMethod
    } else {
        RouteDecision::PathNotFound
    }
}

} // verus!
