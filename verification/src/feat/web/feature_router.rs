//! Enables features to be exposed by the server: the dispatch table and
//! the request dispatch over it.

use vstd::prelude::*;
use crate::app::Application;
use crate::feat::foo::handle_callable;
use crate::feat::foo::handle_value;
use crate::feat::foo::web::spec_decimal;
use crate::feat::foo::web::handler;
use crate::feat::web::healthcheck::healthcheck;
use crate::feat::web::healthcheck::healthcheck_response;

verus! {

/// The HTTP methods the dispatch table distinguishes.
#[derive(Clone, Copy, Debug, PartialEq, Eq, Structural)]
pub enum HttpMethod {
    Get,
    Post,
    Put,
    Delete,
}

/// The handlers a path can be bound to.
#[derive(Clone, Copy, Debug, PartialEq, Eq, Structural)]
pub enum Endpoint {
    /// Constant `200 OK` with no body.
    Healthcheck,
    /// The `foo` feature's endpoint: the feature's integer as plain text.
    Foo,
}

/// One (path, method, handler) binding of the dispatch table. Handlers are
/// named, not closed over: the dispatch hands them the shared application
/// state, so they are safely invocable concurrently and repeatedly.
#[derive(Debug)]
pub struct Route {
    pub method: HttpMethod,
    pub path: String,
    pub endpoint: Endpoint,
}

/// A plain HTTP response: a status code and a text body.
#[derive(Debug)]
pub struct HttpResponse {
    pub status: u16,
    pub body: String,
}

/// The fixed health-check binding: `GET /healthcheck`.
pub open spec fn is_healthcheck_route(r: Route) -> bool {
    &&& r.method == HttpMethod::Get
    &&& r.path@ == "/healthcheck"@
    &&& r.endpoint == Endpoint::Healthcheck
}

/// The `foo` feature's binding: `GET /foo`.
pub open spec fn is_foo_route(r: Route) -> bool {
    &&& r.method == HttpMethod::Get
    &&& r.path@ == "/foo"@
    &&& r.endpoint == Endpoint::Foo
}

/// Required to implement when a feature is to be integrated into the web
/// server.
pub trait FeatureRouter {
    /// The bindings this feature contributes to the dispatch table.
    spec fn spec_routes(&self, routes: Seq<Route>) -> bool;

    /// Given the full application state, produce this feature's set of
    /// (path, method, handler) bindings.
    fn router(&self, app: &Application) -> (r: Vec<Route>)
        ensures
            self.spec_routes(r@),
    ;
}

/// All routes for the application: the fixed health-check binding first,
/// then the active feature's bindings merged in.
///
/// No two features may claim the same (path, method) pair; with a single
/// feature no conflict can arise, and a conflict policy is deliberately
/// left undefined until a second feature exists.
pub fn all_routes(app: &Application) -> (r: Vec<Route>)
    ensures
        r@.len() == 2,
        is_healthcheck_route(r@[0]),
        is_foo_route(r@[1]),
        r@[0].path@ != r@[1].path@,
{
    let mut routes = healthcheck();
    let mut feature_routes = app.foo.router(app);
    routes.append(&mut feature_routes);
    proof {
        reveal_strlit("/healthcheck");
        reveal_strlit("/foo");
        assert("/healthcheck"@.len() == 12);
        assert("/foo"@.len() == 4);
    }
    routes
}

/// The response the application gives to one request, as a (status, body)
/// pair: the health check returns `200` with an empty body; the feature
/// endpoint returns `200` with the feature's integer rendered in base 10;
/// an unknown path gives `404`, a known path with the wrong method `405`,
/// each with an empty body.
pub open spec fn spec_handle(app: Application, method: HttpMethod, path: Seq<char>) -> (
    int,
    Seq<char>,
) {
    if path == "/healthcheck"@ {
        if method == HttpMethod::Get {
            (200int, Seq::<char>::empty())
        } else {
            (405int, Seq::<char>::empty())
        }
    } else if path == "/foo"@ {
        if method == HttpMethod::Get {
            (200int, spec_decimal(handle_value(app.foo) as int))
        } else {
            (405int, Seq::<char>::empty())
        }
    } else {
        (404int, Seq::<char>::empty())
    }
}

/// Run the handler a route is bound to.
fn run_endpoint(app: &Application, endpoint: Endpoint) -> (r: HttpResponse)
    requires
        endpoint == Endpoint::Foo ==> handle_callable(app.foo),
    ensures
        endpoint == Endpoint::Healthcheck ==> r.status == 200 && r.body@ == Seq::<char>::empty(),
        endpoint == Endpoint::Foo ==> r.status == 200 && r.body@ == spec_decimal(
            handle_value(app.foo) as int,
        ),
{
    match endpoint {
        Endpoint::Healthcheck => healthcheck_response(),
        Endpoint::Foo => HttpResponse { status: 200, body: handler(app) },
    }
}

/// Dispatch one request against the application's route table.
///
/// A `GET /foo` request invokes the feature's business logic, so it may
/// only be dispatched while the installed feature is callable; a request
/// that reaches a stub aborts instead of returning a value.
pub fn handle_request(app: &Application, method: HttpMethod, path: &str) -> (r: HttpResponse)
    requires
        method == HttpMethod::Get && path@ == "/foo"@ ==> handle_callable(app.foo),
    ensures
        r.status == spec_handle(*app, method, path@).0,
        r.body@ == spec_handle(*app, method, path@).1,
{
    let routes = all_routes(app);
    let p: String = path.to_owned();
    let mut i: usize = 0;
    while i < routes.len()
        invariant
            routes@.len() == 2,
            is_healthcheck_route(routes@[0]),
            is_foo_route(routes@[1]),
            p@ == path@,
            i <= 2,
            forall|j: int| 0 <= j < i ==> routes@[j].path@ != path@,
            method == HttpMethod::Get && path@ == "/foo"@ ==> handle_callable(app.foo),
        decreases routes@.len() - i,
    {
        proof {
            reveal_strlit("/healthcheck");
            reveal_strlit("/foo");
        }
        let matches_path = routes[i].path == p;
        if matches_path {
            if routes[i].method == method {
                return run_endpoint(app, routes[i].endpoint);
            } else {
                return HttpResponse { status: 405, body: String::new() };
            }
        }
        i += 1;
    }
    proof {
        reveal_strlit("/healthcheck");
        reveal_strlit("/foo");
    }
    HttpResponse { status: 404, body: String::new() }
}

/// Law: health-check idempotence. A `GET /healthcheck` request answers
/// `200` with an empty body in every application state — so repeated
/// requests answer `200` regardless of call count or of their ordering
/// relative to any other requests, none of which change the state.
pub proof fn lemma_healthcheck_idempotent(app: Application)
    ensures
        spec_handle(app, HttpMethod::Get, "/healthcheck"@).0 == 200,
        spec_handle(app, HttpMethod::Get, "/healthcheck"@).1 == Seq::<char>::empty(),
{
}

/// Law: requests to the feature endpoint observe no cross-request state.
/// The response to `GET /foo` is a function of the installed, read-only
/// feature handle alone, so any two requests against the same running
/// application — concurrent or not — observe the same feature result.
pub proof fn lemma_foo_requests_agree(app: Application)
    ensures
        spec_handle(app, HttpMethod::Get, "/foo"@).0 == 200,
        spec_handle(app, HttpMethod::Get, "/foo"@).1 == spec_decimal(handle_value(app.foo) as int),
{
    reveal_strlit("/healthcheck");
    reveal_strlit("/foo");
    assert("/healthcheck"@.len() == 12);
    assert("/foo"@.len() == 4);
}

} // verus!
