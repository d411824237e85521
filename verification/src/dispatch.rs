//! Mapping a request to the response that answers it.

use vstd::prelude::*;
use vstd::string::*;
use vstd::utf8::encode_utf8;
use crate::message::{Method, Request, Response, RouteMethod};
use crate::json::json_text;
use crate::respond::{
    error_object, greeting_object, greeting_response, handle_default, json_headers,
    method_not_allowed, method_not_allowed_response, not_found, not_found_response,
};
use crate::routes::{RouteKey, RouteTable};
use crate::text::same_text;

verus! {

/// How a request is answered.
#[derive(Clone, Copy, Debug, PartialEq, Eq)]
pub enum Route<H> {
    /// By the handler registered for its method and path.
    Handler(H),
    /// By the greeting, which stands in for a missing route of `GET /`.
    Greeting,
    /// By the not-found response.
    NotFound,
    /// By the method-not-allowed response.
    MethodNotAllowed,
}

/// The root path, `/`.
pub open spec fn root_path() -> Seq<char> {
    "/"@
}

/// The routing rule.
///
/// A method other than GET and POST is not allowed, whatever the path and
/// the table. Otherwise the handler registered for exactly this method and
/// path answers. Where there is none, a GET of the root path gets the
/// greeting, and everything else is not found.
pub open spec fn route<H>(routes: Map<RouteKey, H>, method: Method, path: Seq<char>) -> Route<H> {
    match method.spec_route_method() {
        None => Route::MethodNotAllowed,
        Some(kind) => if routes.contains_key((kind, path)) {
            Route::Handler(routes[(kind, path)])
        } else if kind == RouteMethod::Get && path == root_path() {
            Route::Greeting
        } else {
            Route::NotFound
        },
    }
}

/// The read-only side of a server: the routes as they were when serving
/// began. It offers no way to register a route.
#[verifier::reject_recursive_types(H)]
pub struct Dispatcher<H> {
    routes: RouteTable<H>,
}

impl<H> View for Dispatcher<H> {
    type V = Map<RouteKey, H>;

    /// The routes that requests are resolved against.
    closed spec fn view(&self) -> Map<RouteKey, H> {
        self.routes@
    }
}

impl<H> Dispatcher<H> {
    /// Freezes a route table for serving.
    pub fn new(routes: RouteTable<H>) -> (dispatcher: Self)
        ensures
            dispatcher@ == routes@,
    {
        Dispatcher { routes }
    }

    /// Decides how a request with this method and path is answered, without
    /// calling any handler.
    pub fn resolve(&self, method: Method, path: &str) -> (found: Route<&H>)
        ensures
            match found {
                Route::Handler(handler) => route(self@, method, path@) == Route::Handler(*handler),
                Route::Greeting => route(self@, method, path@) == Route::<H>::Greeting,
                Route::NotFound => route(self@, method, path@) == Route::<H>::NotFound,
                Route::MethodNotAllowed => route(self@, method, path@)
                    == Route::<H>::MethodNotAllowed,
            },
    {
        match method.route_method() {
            None => Route::MethodNotAllowed,
            Some(kind) => match self.routes.lookup(kind, path) {
                Some(handler) => Route::Handler(handler),
                None => match kind {
                    RouteMethod::Get => if same_text(path, "/") {
                        Route::Greeting
                    } else {
                        Route::NotFound
                    },
                    RouteMethod::Post => Route::NotFound,
                },
            },
        }
    }
}

/// What it means that `response` answers `request` under `routes`.
///
/// Where the request resolves to a registered handler, the response is one
/// that this handler gives for this request. Otherwise it is the response
/// that the routing rule names.
pub open spec fn answers<H: Fn(&Request) -> Response>(
    routes: Map<RouteKey, H>,
    request: &Request,
    response: Response,
) -> bool {
    match route(routes, request.method, request.path@) {
        Route::Handler(handler) => call_ensures(handler, (request,), response),
        Route::Greeting => response@ == greeting_response(),
        Route::NotFound => response@ == not_found_response(),
        Route::MethodNotAllowed => response@ == method_not_allowed_response(),
    }
}

impl<H: Fn(&Request) -> Response> Dispatcher<H> {
    /// Whether the handler that `request` resolves to, if it resolves to
    /// one, can be called on it.
    pub open spec fn accepts(&self, request: &Request) -> bool {
        route(self@, request.method, request.path@) matches Route::Handler(handler)
            ==> call_requires(handler, (request,))
    }

    /// Answers one request.
    ///
    /// A request that resolves to a registered handler is answered by one
    /// call of that handler, and its response is returned as it is. All
    /// other requests get the response that the routing rule names.
    ///
    /// A handler has no way to fail but by not returning. Whoever runs the
    /// handlers where that can happen catches it and hands what is left to
    /// [`settle`](crate::respond::settle).
    pub fn handle_request(&self, request: &Request) -> (response: Response)
        requires
            self.accepts(request),
        ensures
            answers(self@, request, response),
    {
        match self.resolve(request.method, request.path.as_str()) {
            Route::Handler(handler) => handler(request),
            Route::Greeting => handle_default(request),
            Route::NotFound => not_found(),
            Route::MethodNotAllowed => method_not_allowed(),
        }
    }
}

/// The routes after a run of registrations on top of `start`, each one
/// replacing what was registered under its key before.
pub open spec fn after_registrations<H>(
    start: Map<RouteKey, H>,
    registrations: Seq<(RouteKey, H)>,
) -> Map<RouteKey, H>
    decreases registrations.len(),
{
    if registrations.len() == 0 {
        start
    } else {
        after_registrations(start, registrations.drop_last()).insert(
            registrations.last().0,
            registrations.last().1,
        )
    }
}

/// After a run of registrations, the route of a key is the handler of the
/// last registration under that key.
pub proof fn lemma_last_registration_resolves<H>(
    start: Map<RouteKey, H>,
    registrations: Seq<(RouteKey, H)>,
    i: int,
)
    requires
        0 <= i < registrations.len(),
        forall|j: int| i < j < registrations.len() ==> registrations[j].0 != registrations[i].0,
    ensures
        route(
            after_registrations(start, registrations),
            registrations[i].0.0.spec_method(),
            registrations[i].0.1,
        ) == Route::Handler(registrations[i].1),
    decreases registrations.len(),
{
    if i < registrations.len() - 1 {
        lemma_last_registration_resolves(start, registrations.drop_last(), i);
    }
}

/// Every registered handler answers the requests for its method and path,
/// unless a later registration took its place.
///
/// Take any run of registrations and any one of them, with no later one in
/// the run under the same method and path. Then whatever answers a request
/// with exactly that method and path is a response that the handler
/// registered then gave for this request.
pub proof fn lemma_registered_handler_answers<H: Fn(&Request) -> Response>(
    start: Map<RouteKey, H>,
    registrations: Seq<(RouteKey, H)>,
    i: int,
    request: &Request,
    response: Response,
)
    requires
        0 <= i < registrations.len(),
        forall|j: int| i < j < registrations.len() ==> registrations[j].0 != registrations[i].0,
        request.method == registrations[i].0.0.spec_method(),
        request.path@ == registrations[i].0.1,
        answers(after_registrations(start, registrations), request, response),
    ensures
        call_ensures(registrations[i].1, (request,), response),
{
    lemma_last_registration_resolves(start, registrations, i);
}

/// A registration changes how requests for its own method and path are
/// answered, and no others: a route stays in force until something is
/// registered under the very same key.
pub proof fn lemma_registration_is_local<H: Fn(&Request) -> Response>(
    routes: Map<RouteKey, H>,
    key: RouteKey,
    handler: H,
    request: &Request,
    response: Response,
)
    requires
        request.method != key.0.spec_method() || request.path@ != key.1,
    ensures
        route(routes.insert(key, handler), request.method, request.path@) == route(
            routes,
            request.method,
            request.path@,
        ),
        answers(routes.insert(key, handler), request, response) == answers(
            routes,
            request,
            response,
        ),
{
}

/// A GET of the root path that no route claims is answered with the
/// greeting: status 200, and the JSON text of
/// `{"message": "Hello from Defacto Backend!", "status": "ok"}` as the body.
pub proof fn lemma_unclaimed_root_greets<H: Fn(&Request) -> Response>(
    routes: Map<RouteKey, H>,
    request: &Request,
    response: Response,
)
    requires
        request.method == Method::Get,
        request.path@ == root_path(),
        !routes.contains_key((RouteMethod::Get, root_path())),
        answers(routes, request, response),
    ensures
        response.status == 200,
        response@.headers == json_headers(),
        response.body@ == encode_utf8(json_text(greeting_object())),
{
}

/// A GET of any other path that no route claims is answered with status
/// 404, and the JSON text of `{"error": "Not Found", "status": 404}` as the
/// body.
pub proof fn lemma_unclaimed_get_not_found<H: Fn(&Request) -> Response>(
    routes: Map<RouteKey, H>,
    request: &Request,
    response: Response,
)
    requires
        request.method == Method::Get,
        request.path@ != root_path(),
        !routes.contains_key((RouteMethod::Get, request.path@)),
        answers(routes, request, response),
    ensures
        response.status == 404,
        response@.headers == json_headers(),
        response.body@ == encode_utf8(json_text(error_object(404, "Not Found"@))),
{
}

/// A POST of any path that no route claims is answered with status 404,
/// the root path included: POST has no fallback.
pub proof fn lemma_unclaimed_post_not_found<H: Fn(&Request) -> Response>(
    routes: Map<RouteKey, H>,
    request: &Request,
    response: Response,
)
    requires
        request.method == Method::Post,
        !routes.contains_key((RouteMethod::Post, request.path@)),
        answers(routes, request, response),
    ensures
        response.status == 404,
        response@.headers == json_headers(),
        response.body@ == encode_utf8(json_text(error_object(404, "Not Found"@))),
{
}

/// A request whose method is neither GET nor POST is answered with status
/// 405, and the JSON text of
/// `{"error": "Method Not Allowed", "status": 405}` as the body, whatever
/// its path and whatever is registered.
pub proof fn lemma_other_methods_refused<H: Fn(&Request) -> Response>(
    routes: Map<RouteKey, H>,
    request: &Request,
    response: Response,
)
    requires
        request.method != Method::Get,
        request.method != Method::Post,
        answers(routes, request, response),
    ensures
        response.status == 405,
        response@.headers == json_headers(),
        response.body@ == encode_utf8(json_text(error_object(405, "Method Not Allowed"@))),
{
}

} // verus!
