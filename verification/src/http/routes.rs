//! Which requests reach which handler: the routes and the origins allowed
//! to use them.

use crate::http::request::StatusCode;
use crate::util::text::same_text;
use vstd::prelude::*;

verus! {

/// The origin of the deployed front end.
pub const PRODUCTION_ORIGIN: &'static str = "https://paymesh.app";

/// The origin of a front end under development.
pub const DEVELOPMENT_ORIGIN: &'static str = "http://localhost:3000";

/// Where the relay listens: every interface, one fixed port.
pub const LISTEN_ADDRESS: &'static str = "0.0.0.0:8080";

/// Whether an allowed origin may send credentials.
pub const ALLOW_CREDENTIALS: bool = true;

/// What a request that no handler serves is told.
pub const UNAUTHORIZED_ORIGIN: &'static str = "UNAUTHORIZED ORIGIN";

/// Whether requests are held to the list of origins, and to which list.
#[derive(Clone, Copy, Debug, PartialEq, Eq, Structural)]
pub enum CrossOrigin {
    /// Origins are not looked at.
    Disabled,
    /// Only the production origin is allowed.
    Production,
    /// The production origin and the development origin are allowed.
    Development,
}

/// The handler that serves a request.
#[derive(Clone, Copy, Debug, PartialEq, Eq, Structural)]
pub enum Route {
    /// The liveness check.
    Liveness,
    /// The pay request.
    Pay,
    /// No handler: the request is answered as unauthorized.
    Unauthorized,
}

/// The origins on the list of a policy, in the order they are announced in.
pub open spec fn origins_of(policy: CrossOrigin) -> Seq<Seq<char>> {
    match policy {
        CrossOrigin::Disabled => Seq::empty(),
        CrossOrigin::Production => seq![PRODUCTION_ORIGIN@],
        CrossOrigin::Development => seq![PRODUCTION_ORIGIN@, DEVELOPMENT_ORIGIN@],
    }
}

/// Whether a request that names `origin` passes the policy. One that names
/// no origin comes from no other site and passes.
pub open spec fn origin_passes(policy: CrossOrigin, origin: Option<Seq<char>>) -> bool {
    match origin {
        Some(origin) => policy == CrossOrigin::Disabled || origins_of(policy).contains(origin),
        None => true,
    }
}

/// The handler for a method and a path, origins aside.
pub open spec fn route_of(method: Seq<char>, path: Seq<char>) -> Route {
    if method == "GET"@ && path == "/"@ {
        Route::Liveness
    } else if method == "POST"@ && path == "/pay_member"@ {
        Route::Pay
    } else {
        Route::Unauthorized
    }
}

/// The handler for a request: that of its method and path where its origin
/// passes the policy, none where it does not.
pub open spec fn dispatched(
    policy: CrossOrigin,
    origin: Option<Seq<char>>,
    method: Seq<char>,
    path: Seq<char>,
) -> Route {
    if origin_passes(policy, origin) {
        route_of(method, path)
    } else {
        Route::Unauthorized
    }
}

/// The characters of each string of a list.
pub open spec fn texts_of(list: Seq<&'static str>) -> Seq<Seq<char>> {
    list.map_values(|text: &'static str| text@)
}

/// The origins that a policy allows.
pub fn allowed_origins(policy: CrossOrigin) -> (origins: Vec<&'static str>)
    ensures
        texts_of(origins@) == origins_of(policy),
{
    let origins = match policy {
        CrossOrigin::Disabled => Vec::new(),
        CrossOrigin::Production => vec![PRODUCTION_ORIGIN],
        CrossOrigin::Development => vec![PRODUCTION_ORIGIN, DEVELOPMENT_ORIGIN],
    };
    assert(texts_of(origins@) =~= origins_of(policy));
    origins
}

/// The methods that an allowed origin may use.
pub fn allowed_methods() -> (methods: Vec<&'static str>)
    ensures
        texts_of(methods@) == seq!["GET"@, "POST"@],
{
    let methods = vec!["GET", "POST"];
    assert(texts_of(methods@) =~= seq!["GET"@, "POST"@]);
    methods
}

/// The request headers that an allowed origin may send.
pub fn allowed_headers() -> (headers: Vec<&'static str>)
    ensures
        texts_of(headers@) == seq!["content-type"@, "authorization"@, "x-requested-with"@],
{
    let headers = vec!["content-type", "authorization", "x-requested-with"];
    assert(texts_of(headers@) =~= seq!["content-type"@, "authorization"@, "x-requested-with"@]);
    headers
}

/// Whether a request with this origin, or with none, passes the policy.
pub fn is_allowed_origin(policy: CrossOrigin, origin: Option<&str>) -> (allowed: bool)
    ensures
        allowed == origin_passes(
            policy,
            match origin {
                Some(text) => Some(text@),
                None => None,
            },
        ),
{
    match origin {
        None => true,
        Some(text) => {
            match policy {
                CrossOrigin::Disabled => true,
                CrossOrigin::Production => {
                    let allowed = same_text(text, PRODUCTION_ORIGIN);
                    assert(origins_of(policy)[0] == PRODUCTION_ORIGIN@);
                    allowed
                },
                CrossOrigin::Development => {
                    let allowed = same_text(text, PRODUCTION_ORIGIN) || same_text(
                        text,
                        DEVELOPMENT_ORIGIN,
                    );
                    assert(origins_of(policy)[0] == PRODUCTION_ORIGIN@);
                    assert(origins_of(policy)[1] == DEVELOPMENT_ORIGIN@);
                    allowed
                },
            }
        },
    }
}

/// The handler for a method and a path.
pub fn route(method: &str, path: &str) -> (handler: Route)
    ensures
        handler == route_of(method@, path@),
{
    if same_text(method, "GET") && same_text(path, "/") {
        Route::Liveness
    } else if same_text(method, "POST") && same_text(path, "/pay_member") {
        Route::Pay
    } else {
        Route::Unauthorized
    }
}

/// The handler for a request. A request from an origin that the policy
/// does not allow reaches neither the liveness check nor the pay handler.
pub fn dispatch(
    policy: CrossOrigin,
    origin: Option<&str>,
    method: &str,
    path: &str,
) -> (handler: Route)
    ensures
        handler == dispatched(
            policy,
            match origin {
                Some(text) => Some(text@),
                None => None,
            },
            method@,
            path@,
        ),
        origin matches Some(text) && policy != CrossOrigin::Disabled && !origins_of(
            policy,
        ).contains(text@) ==> handler == Route::Unauthorized,
{
    if is_allowed_origin(policy, origin) {
        route(method, path)
    } else {
        Route::Unauthorized
    }
}

/// The answer to a request that no handler serves.
pub fn unauthorized() -> (reply: (StatusCode, &'static str))
    ensures
        reply.0 == StatusCode::Unauthorized,
        reply.1@ == UNAUTHORIZED_ORIGIN@,
{
    (StatusCode::Unauthorized, UNAUTHORIZED_ORIGIN)
}

} // verus!
