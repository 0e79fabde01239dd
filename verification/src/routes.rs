//! The route table: which requests the service answers, and with what status.

use vstd::prelude::*;
use crate::text::same_text;

verus! {

/// The path of the health probe.
pub const HEALTH_PATH: &'static str = "/health";

/// The path that manuscripts are synced to.
pub const SYNC_PATH: &'static str = "/manuscript/sync";

/// The method that reads.
pub const GET: &'static str = "GET";

/// The method that reads the headers only.
pub const HEAD: &'static str = "HEAD";

/// The method that submits.
pub const POST: &'static str = "POST";

/// The status of an answer that an endpoint gave.
pub const STATUS_OK: u16 = 200;

/// The status of an answer to a request whose path no endpoint has.
pub const STATUS_NOT_FOUND: u16 = 404;

/// The status of an answer to a request whose path an endpoint has, under a
/// method that the endpoint does not take.
pub const STATUS_METHOD_NOT_ALLOWED: u16 = 405;

/// A handler of the service.
#[derive(Clone, Copy, Debug, PartialEq, Eq, Structural)]
pub enum Endpoint {
    /// The health probe, answered by `manuscript::health_check`.
    Health,
    /// The manuscript sync, answered by `manuscript::sync_manuscript`.
    SyncManuscript,
}

/// What becomes of a request, by its method and path.
#[derive(Clone, Copy, Debug, PartialEq, Eq, Structural)]
pub enum Route {
    /// The endpoint serves the request. The sync is handed the payload that
    /// the request's body decodes to; a request whose body does not decode is
    /// turned away by the decoder and never comes to it.
    Serve(Endpoint),
    /// The path is the endpoint's, the method is not one it takes.
    MethodNotAllowed(Endpoint),
    /// No endpoint has the path.
    NotFound,
}

impl Endpoint {
    /// The path the endpoint is mounted at.
    pub open spec fn spec_path(self) -> Seq<char> {
        match self {
            Endpoint::Health => HEALTH_PATH@,
            Endpoint::SyncManuscript => SYNC_PATH@,
        }
    }

    /// The method the endpoint is registered under.
    pub open spec fn spec_method(self) -> Seq<char> {
        match self {
            Endpoint::Health => GET@,
            Endpoint::SyncManuscript => POST@,
        }
    }

    /// Whether the endpoint takes requests of `method`: those of the method it
    /// is registered under, and an endpoint that reads also takes `HEAD`.
    pub open spec fn spec_serves(self, method: Seq<char>) -> bool {
        method == self.spec_method() || (self.spec_method() == GET@ && method == HEAD@)
    }

    /// The path the endpoint is mounted at.
    pub fn path(self) -> (path: &'static str)
        ensures
            path@ == self.spec_path(),
    {
        match self {
            Endpoint::Health => HEALTH_PATH,
            Endpoint::SyncManuscript => SYNC_PATH,
        }
    }

    /// The method the endpoint is registered under.
    pub fn method(self) -> (method: &'static str)
        ensures
            method@ == self.spec_method(),
    {
        match self {
            Endpoint::Health => GET,
            Endpoint::SyncManuscript => POST,
        }
    }

    /// Whether the endpoint takes requests of `method`.
    pub fn serves(self, method: &str) -> (taken: bool)
        ensures
            taken == self.spec_serves(method@),
    {
        let own = self.method();
        same_text(method, own) || (same_text(own, GET) && same_text(method, HEAD))
    }
}

/// The endpoint mounted at `path`, if there is one. A path is matched whole
/// and as it is written: no prefix, no trailing slash, no other case.
pub open spec fn endpoint_at(path: Seq<char>) -> Option<Endpoint> {
    if path == Endpoint::Health.spec_path() {
        Some(Endpoint::Health)
    } else if path == Endpoint::SyncManuscript.spec_path() {
        Some(Endpoint::SyncManuscript)
    } else {
        None
    }
}

/// What becomes of a request with this method and path.
pub open spec fn route_of(method: Seq<char>, path: Seq<char>) -> Route {
    match endpoint_at(path) {
        Some(endpoint) => if endpoint.spec_serves(method) {
            Route::Serve(endpoint)
        } else {
            Route::MethodNotAllowed(endpoint)
        },
        None => Route::NotFound,
    }
}

/// The endpoint mounted at `path`, if there is one.
pub fn endpoint_for(path: &str) -> (found: Option<Endpoint>)
    ensures
        found == endpoint_at(path@),
{
    if same_text(path, Endpoint::Health.path()) {
        Some(Endpoint::Health)
    } else if same_text(path, Endpoint::SyncManuscript.path()) {
        Some(Endpoint::SyncManuscript)
    } else {
        None
    }
}

/// Decides what becomes of a request from its method and path. The method is
/// the request line's token, the path the request target without its query.
pub fn route(method: &str, path: &str) -> (route: Route)
    ensures
        route == route_of(method@, path@),
        route == Route::NotFound <==> endpoint_at(path@) is None,
{
    match endpoint_for(path) {
        Some(endpoint) => if endpoint.serves(method) {
            Route::Serve(endpoint)
        } else {
            Route::MethodNotAllowed(endpoint)
        },
        None => Route::NotFound,
    }
}

impl Route {
    /// The status of the answer on this route. Where an endpoint serves the
    /// request, it is the status of the answer that the endpoint gives.
    pub open spec fn spec_status(self) -> u16 {
        match self {
            Route::Serve(_) => STATUS_OK,
            Route::MethodNotAllowed(_) => STATUS_METHOD_NOT_ALLOWED,
            Route::NotFound => STATUS_NOT_FOUND,
        }
    }

    /// The status of the answer on this route.
    pub fn status(self) -> (code: u16)
        ensures
            code == self.spec_status(),
    {
        match self {
            Route::Serve(_) => STATUS_OK,
            Route::MethodNotAllowed(_) => STATUS_METHOD_NOT_ALLOWED,
            Route::NotFound => STATUS_NOT_FOUND,
        }
    }
}

/// Every endpoint is found at its own path, and serves a request that comes
/// to that path under the method it is registered with. The endpoint's answer
/// then has status 200.
pub proof fn lemma_endpoint_serves_its_own_route(endpoint: Endpoint)
    ensures
        endpoint_at(endpoint.spec_path()) == Some(endpoint),
        route_of(endpoint.spec_method(), endpoint.spec_path()) == Route::Serve(endpoint),
        route_of(endpoint.spec_method(), endpoint.spec_path()).spec_status() == 200,
{
    reveal_strlit("/health");
    reveal_strlit("/manuscript/sync");
    assert(HEALTH_PATH@.len() != SYNC_PATH@.len());
}

/// A request for a path that no endpoint is mounted at is not found, whatever
/// its method, and the answer has status 404. No other request is not found.
pub proof fn lemma_unknown_path_is_not_found(method: Seq<char>, path: Seq<char>)
    ensures
        (path != HEALTH_PATH@ && path != SYNC_PATH@) <==> route_of(method, path) == Route::NotFound,
        route_of(method, path) == Route::NotFound <==> route_of(method, path).spec_status() == 404,
{
}

/// A request for an endpoint's path is answered with 200 where the endpoint
/// takes the method, and with 405 where it does not.
pub proof fn lemma_known_path_status(method: Seq<char>, endpoint: Endpoint)
    ensures
        endpoint.spec_serves(method) ==> route_of(method, endpoint.spec_path()).spec_status() == 200,
        !endpoint.spec_serves(method) ==> route_of(method, endpoint.spec_path()).spec_status() == 405,
{
    lemma_endpoint_serves_its_own_route(endpoint);
}

} // verus!
