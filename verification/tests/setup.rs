use defacto_backend::acceptor::{AcceptorAction, AcceptorEvent, AcceptorState, BindAddress};
use defacto_backend::message::{Method, Request, Response, RouteMethod};
use defacto_backend::routes::RouteTable;
use defacto_backend::server::{
    backend_version, defo_addon_init, defo_addon_name, json_object, register_route, route_get,
    route_post, server_init, server_start, Server, DEFAULT_PORT, REFUSED,
};

type Handler = fn(&Request) -> Response;

fn tagged(tag: &str) -> Response {
    Response {
        status: 200,
        headers: vec![(String::from("Content-Type"), String::from("text/plain"))],
        body: tag.as_bytes().to_vec(),
    }
}

fn one(_req: &Request) -> Response {
    tagged("one")
}

fn two(_req: &Request) -> Response {
    tagged("two")
}

fn body_of(table: &RouteTable<Handler>, method: RouteMethod, path: &str) -> Option<String> {
    let handler = table.lookup(method, path)?;
    String::from_utf8(handler(&Request::new(method.method(), path)).body).ok()
}

#[test]
fn new_server_has_the_default_port_and_no_routes() {
    let server: Server<Handler> = Server::new();
    assert_eq!(DEFAULT_PORT, 8080);
    assert_eq!(server.port, 8080);
    assert!(!server.routes.is_initialized());
    assert!(server.routes.lookup(RouteMethod::Get, "/").is_none());
    assert!(server.routes.lookup(RouteMethod::Post, "/").is_none());
}

#[test]
fn server_init_records_the_port() {
    let mut server: Server<Handler> = Server::new();
    assert_eq!(server_init(&mut server, 3000), 0);
    assert_eq!(server.port, 3000);
    assert!(server.routes.is_initialized());
    assert_eq!(server_init(&mut server, 0), 0);
    assert_eq!(server.port, 0);
    assert_eq!(server_init(&mut server, 65535), 0);
    assert_eq!(server.port, 65535);
}

#[test]
fn server_init_refuses_what_is_no_port() {
    for bad in [65536, 70000, -1, -8080, i32::MIN, i32::MAX] {
        let mut server: Server<Handler> = Server::new();
        assert_eq!(server_init(&mut server, 3000), 0);
        assert_eq!(server_init(&mut server, bad), 1);
        assert_ne!(REFUSED, 0);
        assert_eq!(server.port, 3000);
        assert!(server.routes.is_initialized());
    }
}

#[test]
fn a_refused_port_never_reaches_the_bind() {
    let mut server: Server<Handler> = Server::new();
    assert_eq!(server_init(&mut server, 70000), REFUSED);
    assert_eq!(server.port, 8080);
    route_get(&mut server, b"/a".to_vec(), one);
    assert_eq!(server_init(&mut server, -1), REFUSED);
    assert_eq!(body_of(&server.routes, RouteMethod::Get, "/a"), Some(String::from("one")));
    let mut acceptor = server_start(server).acceptor;
    assert_eq!(
        acceptor.step(AcceptorEvent::RuntimeReady),
        AcceptorAction::Bind(BindAddress { host: (127, 0, 0, 1), port: 8080 })
    );
}

#[test]
fn a_refused_port_still_creates_the_mappings() {
    let mut server: Server<Handler> = Server::new();
    assert!(!server.routes.is_initialized());
    assert_eq!(server_init(&mut server, 65536), REFUSED);
    assert!(server.routes.is_initialized());
}

#[test]
fn server_init_again_keeps_the_routes() {
    let mut server: Server<Handler> = Server::new();
    server_init(&mut server, 8080);
    route_get(&mut server, b"/a".to_vec(), one);
    route_post(&mut server, b"/b".to_vec(), two);
    assert_eq!(server_init(&mut server, 9090), 0);
    assert_eq!(server.port, 9090);
    assert_eq!(body_of(&server.routes, RouteMethod::Get, "/a"), Some(String::from("one")));
    assert_eq!(body_of(&server.routes, RouteMethod::Post, "/b"), Some(String::from("two")));
}

#[test]
fn routes_can_be_registered_before_server_init() {
    let mut server: Server<Handler> = Server::new();
    assert_eq!(route_get(&mut server, b"/early".to_vec(), one), 0);
    assert!(!server.routes.is_initialized());
    assert_eq!(server_init(&mut server, 8080), 0);
    assert!(server.routes.is_initialized());
    assert_eq!(body_of(&server.routes, RouteMethod::Get, "/early"), Some(String::from("one")));
}

#[test]
fn route_get_and_route_post_keep_apart() {
    let mut server: Server<Handler> = Server::new();
    assert_eq!(route_get(&mut server, b"/x".to_vec(), one), 0);
    assert_eq!(body_of(&server.routes, RouteMethod::Get, "/x"), Some(String::from("one")));
    assert_eq!(body_of(&server.routes, RouteMethod::Post, "/x"), None);
    assert_eq!(route_post(&mut server, b"/x".to_vec(), two), 0);
    assert_eq!(body_of(&server.routes, RouteMethod::Get, "/x"), Some(String::from("one")));
    assert_eq!(body_of(&server.routes, RouteMethod::Post, "/x"), Some(String::from("two")));
}

#[test]
fn register_route_overwrites() {
    let mut server: Server<Handler> = Server::new();
    assert_eq!(register_route(&mut server, RouteMethod::Post, b"/x".to_vec(), one), 0);
    assert_eq!(register_route(&mut server, RouteMethod::Post, b"/x".to_vec(), two), 0);
    assert_eq!(body_of(&server.routes, RouteMethod::Post, "/x"), Some(String::from("two")));
}

#[test]
fn a_path_that_is_not_utf8_is_refused() {
    let mut server: Server<Handler> = Server::new();
    route_get(&mut server, b"/kept".to_vec(), one);
    assert_eq!(route_get(&mut server, vec![b'/', 0xff, 0xfe], two), 1);
    assert_eq!(REFUSED, 1);
    assert_eq!(route_post(&mut server, vec![0xc3], two), 1);
    assert_eq!(route_get(&mut server, vec![0xed, 0xa0, 0x80], two), 1);
    assert_eq!(body_of(&server.routes, RouteMethod::Get, "/kept"), Some(String::from("one")));
    assert!(server.routes.is_initialized());
    assert_eq!(server.port, 8080);
}

#[test]
fn a_path_is_read_as_utf8() {
    let mut server: Server<Handler> = Server::new();
    assert_eq!(route_get(&mut server, vec![b'/', b'c', b'a', b'f', 0xc3, 0xa9], one), 0);
    assert_eq!(body_of(&server.routes, RouteMethod::Get, "/caf\u{e9}"), Some(String::from("one")));
    assert_eq!(body_of(&server.routes, RouteMethod::Get, "/cafe"), None);
    assert_eq!(route_get(&mut server, Vec::new(), two), 0);
    assert_eq!(body_of(&server.routes, RouteMethod::Get, ""), Some(String::from("two")));
}

#[test]
fn addon_init_creates_the_mappings_and_keeps_the_routes() {
    let mut server: Server<Handler> = Server::new();
    assert_eq!(defo_addon_init(&mut server), 0);
    assert!(server.routes.is_initialized());
    assert_eq!(server.port, 8080);
    server_init(&mut server, 9000);
    route_get(&mut server, b"/a".to_vec(), one);
    assert_eq!(defo_addon_init(&mut server), 0);
    assert!(server.routes.is_initialized());
    assert_eq!(body_of(&server.routes, RouteMethod::Get, "/a"), Some(String::from("one")));
    assert_eq!(server.port, 9000);
}

#[test]
fn table_initialize_is_idempotent() {
    let mut table: RouteTable<Handler> = RouteTable::new();
    assert!(!table.is_initialized());
    table.initialize();
    assert!(table.is_initialized());
    table.register(RouteMethod::Get, String::from("/a"), one);
    table.initialize();
    table.initialize();
    assert!(table.is_initialized());
    assert_eq!(body_of(&table, RouteMethod::Get, "/a"), Some(String::from("one")));
}

#[test]
fn table_prepare_creates_one_mapping() {
    let mut table: RouteTable<Handler> = RouteTable::new();
    table.prepare(RouteMethod::Post);
    assert!(!table.is_initialized());
    assert!(table.lookup(RouteMethod::Post, "/").is_none());
    table.prepare(RouteMethod::Get);
    assert!(table.is_initialized());
    table.register(RouteMethod::Get, String::from("/a"), one);
    table.prepare(RouteMethod::Get);
    assert_eq!(body_of(&table, RouteMethod::Get, "/a"), Some(String::from("one")));
}

#[test]
fn server_start_hands_over_routes_and_address() {
    let mut server: Server<Handler> = Server::new();
    server_init(&mut server, 4000);
    route_get(&mut server, b"/a".to_vec(), one);
    let started = server_start(server);
    assert_eq!(started.first, AcceptorAction::CreateRuntime);
    assert_eq!(started.acceptor.state(), AcceptorState::Starting);
    assert_eq!(
        started.acceptor.address(),
        BindAddress { host: (127, 0, 0, 1), port: 4000 }
    );
    let response = started.dispatcher.handle_request(&Request::new(Method::Get, "/a"));
    assert_eq!(response.body, b"one");
}

#[test]
fn server_start_then_bind() {
    let server: Server<Handler> = Server::new();
    let mut acceptor = server_start(server).acceptor;
    assert_eq!(
        acceptor.step(AcceptorEvent::RuntimeReady),
        AcceptorAction::Bind(BindAddress { host: (127, 0, 0, 1), port: 8080 })
    );
}

#[test]
fn names_and_versions() {
    assert_eq!(defo_addon_name(), "defacto.backend");
    assert_eq!(backend_version(), "0.1.0");
    assert_eq!(json_object(), "{}");
}
