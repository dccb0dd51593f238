//! A "health check" route so the server status can be probed.

use vstd::prelude::*;
use crate::feat::web::feature_router::Endpoint;
use crate::feat::web::feature_router::HttpMethod;
use crate::feat::web::feature_router::HttpResponse;
use crate::feat::web::feature_router::Route;
use crate::feat::web::feature_router::is_healthcheck_route;

verus! {

/// Routes for performing a healthcheck.
pub fn healthcheck() -> (r: Vec<Route>)
    ensures
        r@.len() == 1,
        is_healthcheck_route(r@[0]),
{
    let mut v: Vec<Route> = Vec::new();
    v.push(
        Route {
            method: HttpMethod::Get,
            path: "/healthcheck".to_owned(),
            endpoint: Endpoint::Healthcheck,
        },
    );
    v
}

/// The health check's response: `200 OK`, no body, always — regardless of
/// call count or of any other requests served before or after.
pub fn healthcheck_response() -> (r: HttpResponse)
    ensures
        r.status == 200,
        r.body@ == Seq::<char>::empty(),
{
    HttpResponse { status: 200, body: String::new() }
}

} // verus!
