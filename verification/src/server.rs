//! The server context and the calls that set it up.
//!
//! The context is an ordinary value with one owner. Routes are registered
//! through `&mut` access to it, and `server_start` takes it by value, so no
//! route can be registered once serving has begun.

use vstd::prelude::*;
use vstd::string::*;
use vstd::utf8::*;
use crate::acceptor::{loopback, Acceptor, AcceptorAction, AcceptorState};
use crate::dispatch::Dispatcher;
use crate::message::RouteMethod;
use crate::routes::{no_routes, RouteTable};
use crate::text::text_from_utf8;

verus! {

/// The port of a server that was never given one.
pub const DEFAULT_PORT: u16 = 8080;

/// A server that is being set up: the port to bind and the routes to serve.
#[verifier::reject_recursive_types(H)]
pub struct Server<H> {
    pub port: u16,
    pub routes: RouteTable<H>,
}

/// What `server_start` hands over: the two halves of a serving server and
/// the first thing to do.
#[verifier::reject_recursive_types(H)]
pub struct Started<H> {
    /// Answers the requests of every connection.
    pub dispatcher: Dispatcher<H>,
    /// Drives start-up and the accept loop.
    pub acceptor: Acceptor,
    /// The action that start-up begins with.
    pub first: AcceptorAction,
}

/// The status of a call that was refused: the context is as it was, but
/// for route mappings that the call created.
pub const REFUSED: i32 = 1;

/// Whether an integer names a port: whether it lies in `0..=65535`.
pub open spec fn is_port(port: i32) -> bool {
    0 <= port <= u16::MAX
}

impl<H> Server<H> {
    /// A server on the default port whose route mappings do not exist yet.
    pub fn new() -> (server: Self)
        ensures
            server.port == DEFAULT_PORT,
            server.routes@ == no_routes::<H>(),
            !server.routes.has_mapping(RouteMethod::Get),
            !server.routes.has_mapping(RouteMethod::Post),
    {
        Server { port: DEFAULT_PORT, routes: RouteTable::new() }
    }
}

/// Prepares the context when the addon is loaded: the route mappings are
/// created if they do not exist. Routes that are registered already stay,
/// and so does the port. Returns 0.
pub fn defo_addon_init<H>(server: &mut Server<H>) -> (status: i32)
    ensures
        status == 0,
        final(server).port == old(server).port,
        final(server).routes@ == old(server).routes@,
        final(server).routes.spec_is_initialized(),
{
    server.routes.initialize();
    0
}

/// The name under which the addon registers itself.
pub fn defo_addon_name() -> (name: String)
    ensures
        name@ == "defacto.backend"@,
{
    "defacto.backend".to_owned()
}

/// Records the port and makes sure the route mappings exist. Nothing is
/// bound, and no route is added or removed.
///
/// Returns 0 when the port was recorded. An integer outside `0..=65535`
/// names no port: it is refused with a non-zero status, and the port
/// recorded before stays.
pub fn server_init<H>(server: &mut Server<H>, port: i32) -> (status: i32)
    ensures
        is_port(port) ==> status == 0 && final(server).port == port,
        !is_port(port) ==> status == REFUSED && final(server).port == old(server).port,
        final(server).routes@ == old(server).routes@,
        final(server).routes.spec_is_initialized(),
{
    server.routes.initialize();
    if 0 <= port && port <= 65535 {
        server.port = port as u16;
        0
    } else {
        REFUSED
    }
}

/// Registers `handler` for `method` and the path that `path` holds as
/// UTF-8, in place of any handler registered there before.
///
/// Returns 0 when the route was registered. Where `path` is not valid
/// UTF-8, it is refused with a non-zero status and every route stays as it
/// was. Either way the
/// mapping for `method` exists afterwards.
pub fn register_route<H>(
    server: &mut Server<H>,
    method: RouteMethod,
    path: Vec<u8>,
    handler: H,
) -> (status: i32)
    ensures
        valid_utf8(path@) ==> status == 0 && final(server).routes@ == old(server).routes@.insert(
            (method, decode_utf8(path@)),
            handler,
        ),
        !valid_utf8(path@) ==> status == REFUSED && final(server).routes@ == old(server).routes@,
        final(server).port == old(server).port,
        final(server).routes.has_mapping(method),
        forall|other: RouteMethod|
            other != method ==> final(server).routes.has_mapping(other) == old(
                server,
            ).routes.has_mapping(other),
{
    server.routes.prepare(method);
    match text_from_utf8(path) {
        Some(text) => {
            server.routes.register(method, text, handler);
            0
        },
        None => REFUSED,
    }
}

/// Registers a GET route. See [`register_route`].
pub fn route_get<H>(server: &mut Server<H>, path: Vec<u8>, handler: H) -> (status: i32)
    ensures
        valid_utf8(path@) ==> status == 0 && final(server).routes@ == old(server).routes@.insert(
            (RouteMethod::Get, decode_utf8(path@)),
            handler,
        ),
        !valid_utf8(path@) ==> status == REFUSED && final(server).routes@ == old(server).routes@,
        final(server).port == old(server).port,
        final(server).routes.has_mapping(RouteMethod::Get),
        final(server).routes.has_mapping(RouteMethod::Post) == old(server).routes.has_mapping(
            RouteMethod::Post,
        ),
{
    register_route(server, RouteMethod::Get, path, handler)
}

/// Registers a POST route. See [`register_route`].
pub fn route_post<H>(server: &mut Server<H>, path: Vec<u8>, handler: H) -> (status: i32)
    ensures
        valid_utf8(path@) ==> status == 0 && final(server).routes@ == old(server).routes@.insert(
            (RouteMethod::Post, decode_utf8(path@)),
            handler,
        ),
        !valid_utf8(path@) ==> status == REFUSED && final(server).routes@ == old(server).routes@,
        final(server).port == old(server).port,
        final(server).routes.has_mapping(RouteMethod::Post),
        final(server).routes.has_mapping(RouteMethod::Get) == old(server).routes.has_mapping(
            RouteMethod::Get,
        ),
{
    register_route(server, RouteMethod::Post, path, handler)
}

/// Ends the set-up phase.
///
/// The context is consumed. Its routes go, unchanged, into a dispatcher
/// that cannot register any more, and its port into an acceptor that will
/// bind the loopback address at that port. Nothing is bound here: the
/// caller performs `first` and then feeds what happened to the acceptor.
pub fn server_start<H>(server: Server<H>) -> (started: Started<H>)
    ensures
        started.dispatcher@ == server.routes@,
        started.acceptor.state() == AcceptorState::Starting,
        started.acceptor.address() == loopback(server.port),
        started.first == AcceptorAction::CreateRuntime,
{
    let Server { port, routes } = server;
    Started {
        dispatcher: Dispatcher::new(routes),
        acceptor: Acceptor::new(port),
        first: AcceptorAction::CreateRuntime,
    }
}

/// The text of an empty JSON object.
pub fn json_object() -> (text: String)
    ensures
        text@ == "{}"@,
{
    "{}".to_owned()
}

/// The version of this library.
pub fn backend_version() -> (version: String)
    ensures
        version@ == "0.1.0"@,
{
    "0.1.0".to_owned()
}

} // verus!
