use jmtdd::Application;
use jmtdd::feat::foo::FakeFoo;
use jmtdd::feat::foo::FooApplicationBuilderExt;
use jmtdd::feat::web::ServerConfig;
use jmtdd::feat::web::SocketAddress;
use jmtdd::feat::web::WebApplicationBuilderExt;
use jmtdd::feat::web::WebError;
use jmtdd::feat::web::WebServer;
use jmtdd::feat::web::feature_router::Endpoint;
use jmtdd::feat::web::feature_router::HttpMethod;
use jmtdd::feat::web::feature_router::all_routes;
use jmtdd::feat::web::feature_router::handle_request;
use jmtdd::feat::web::healthcheck::healthcheck;

#[test]
fn handles_foo() {
    // Given an application where the real Foo service was substituted with
    // one that returns `10`
    let app = Application::builder()
        .with_foo(FakeFoo::default().with_value(10))
        .build()
        .unwrap();

    // When we make a request to /foo
    let response = handle_request(&app, HttpMethod::Get, "/foo");

    // Then the server responds with the correct data
    assert_eq!(response.body, format!("10"));
    assert_eq!(response.status, 200);
}

#[test]
fn health_check_returns_200_ok() {
    // Given a default application
    let app = Application::builder().build().unwrap();

    // When we make a health check request
    let response = handle_request(&app, HttpMethod::Get, "/healthcheck");

    // Then the server responds with an OK status code and no body
    assert_eq!(response.status, 200);
    assert_eq!(response.body, "");
}

#[test]
fn serves_application() {
    // Given a default application whose webserver recorded a successful
    // bind
    let mut app = Application::builder().build().unwrap();
    app.webserver.record_bound(SocketAddress::new(127, 0, 0, 1, 8080));

    // When we make a request against the dispatch table
    let response = handle_request(&app, HttpMethod::Get, "/healthcheck");

    // Then the server responds with an OK status code
    assert_eq!(response.status, 200);
}

#[test]
fn uses_custom_server_configuration() {
    // Given an application with a customized bind address
    let addr = SocketAddress::new(127, 0, 0, 1, 65501);
    let app = Application::builder()
        .with_server_config(ServerConfig::default().with_socket_addr(addr))
        .build()
        .unwrap();

    // The configuration took effect, and the application serves requests
    assert_eq!(app.webserver.config.addr, addr);
    let response = handle_request(&app, HttpMethod::Get, "/healthcheck");
    assert_eq!(response.status, 200);
}

#[test]
fn default_foo_returns_zero_text() {
    let app = Application::builder().build().unwrap();
    let response = handle_request(&app, HttpMethod::Get, "/foo");
    assert_eq!(response.status, 200);
    assert_eq!(response.body, "0");
}

#[test]
fn unknown_path_returns_404() {
    let app = Application::builder().build().unwrap();
    let response = handle_request(&app, HttpMethod::Get, "/bar");
    assert_eq!(response.status, 404);
    assert_eq!(response.body, "");
}

#[test]
fn wrong_method_returns_405() {
    let app = Application::builder().build().unwrap();
    let response = handle_request(&app, HttpMethod::Post, "/healthcheck");
    assert_eq!(response.status, 405);
    let response = handle_request(&app, HttpMethod::Delete, "/foo");
    assert_eq!(response.status, 405);
}

#[test]
fn repeated_health_checks_stay_ok() {
    // Health checks answer 200 regardless of call count or ordering
    // relative to other requests
    let app = Application::builder().build().unwrap();
    for _ in 0..3 {
        assert_eq!(handle_request(&app, HttpMethod::Get, "/healthcheck").status, 200);
        assert_eq!(handle_request(&app, HttpMethod::Get, "/foo").status, 200);
    }
    assert_eq!(handle_request(&app, HttpMethod::Get, "/healthcheck").status, 200);
}

#[test]
fn foo_requests_observe_the_same_result() {
    // The feature handle is read-only and shared: two requests against the
    // same running application observe the same feature result
    let app = Application::builder()
        .with_foo(FakeFoo::default().with_value(31))
        .build()
        .unwrap();
    let first = handle_request(&app, HttpMethod::Get, "/foo");
    let second = handle_request(&app, HttpMethod::Get, "/foo");
    assert_eq!(first.body, second.body);
    assert_eq!(first.body, "31");
}

#[test]
fn route_table_merges_healthcheck_and_feature_routes() {
    let app = Application::builder().build().unwrap();
    let routes = all_routes(&app);
    assert_eq!(routes.len(), 2);
    assert_eq!(routes[0].path, "/healthcheck");
    assert!(matches!(routes[0].endpoint, Endpoint::Healthcheck));
    assert!(matches!(routes[0].method, HttpMethod::Get));
    assert_eq!(routes[1].path, "/foo");
    assert!(matches!(routes[1].endpoint, Endpoint::Foo));
    assert!(matches!(routes[1].method, HttpMethod::Get));
    let fixed = healthcheck();
    assert_eq!(fixed.len(), 1);
    assert_eq!(fixed[0].path, "/healthcheck");
}

#[test]
fn record_bound_overwrites_the_requested_address() {
    // A configuration that requested port 0 records the OS-assigned,
    // nonzero port after the bind
    let mut server = WebServer::default();
    assert_eq!(server.config.addr.port, 0);
    let resolved = SocketAddress::new(127, 0, 0, 1, 49152);
    server.record_bound(resolved);
    assert_eq!(server.config.addr, resolved);
    assert_ne!(server.config.addr.port, 0);
    assert!(server.task.is_none());
}

#[test]
fn attach_task_stores_the_background_handle() {
    let rt = tokio::runtime::Builder::new_multi_thread()
        .enable_all()
        .build()
        .unwrap();
    let handle = rt.block_on(async { tokio::spawn(async {}) });
    let mut server = WebServer::default();
    assert!(server.task.is_none());
    server.attach_task(handle);
    assert!(server.task.is_some());
    assert_eq!(server.config.addr.port, 0);
}

#[test]
fn web_error_describes_itself() {
    let err = WebError;
    assert_eq!(err.message(), "a web server error occurred");
}
