use service_sdk::{
    local_socket_transport, unix_socket_enabled, ControllersAuthorization, ControllersMiddleware,
    HttpServer, HttpServerBuilder, HttpServerConfig, HttpVerb, IpAddress, ListenAddress,
    Middleware, RegisteredAction, TechMiddleware, TransportBinding,
};

type Builder = HttpServerBuilder<String, String, String>;
type Stage = Middleware<String, String, String>;

fn builder(unix_socket: bool) -> Builder {
    HttpServerBuilder::new("orders".to_string(), "1.2.3".to_string(), unix_socket)
}

fn is_alive() -> Stage {
    Middleware::IsAlive { app_name: "orders".to_string(), app_version: "1.2.3".to_string() }
}

fn swagger() -> Stage {
    Middleware::Swagger { app_name: "orders".to_string(), app_version: "1.2.3".to_string() }
}

fn action(verb: HttpVerb, route: &str, handler: &str) -> RegisteredAction<String> {
    RegisteredAction { verb, route: route.to_string(), action: handler.to_string() }
}

fn kinds(server: &HttpServer<String, String, String>) -> Vec<&'static str> {
    server
        .middlewares
        .iter()
        .map(|stage| match stage {
            Middleware::IsAlive { .. } => "liveness",
            Middleware::Metrics => "metrics",
            Middleware::Swagger { .. } => "docs",
            Middleware::Authorization(_) => "authorization",
            Middleware::Controllers(_) => "handlers",
            Middleware::Custom(_) => "custom",
        })
        .collect()
}

#[test]
fn the_switch_is_on_for_one_only() {
    assert!(unix_socket_enabled(Some("1")));
    assert!(!unix_socket_enabled(Some("0")));
    assert!(!unix_socket_enabled(Some("")));
    assert!(!unix_socket_enabled(Some("11")));
    assert!(!unix_socket_enabled(Some("true")));
    assert!(!unix_socket_enabled(Some(" 1")));
    assert!(!unix_socket_enabled(None));
}

#[test]
fn local_sockets_need_platform_and_switch() {
    assert!(local_socket_transport(true, Some("1")));
    assert!(!local_socket_transport(false, Some("1")));
    assert!(!local_socket_transport(true, None));
    assert!(!local_socket_transport(true, Some("yes")));
    assert!(!local_socket_transport(false, None));
}

#[test]
fn a_new_builder_listens_on_port_8000_of_every_interface() {
    let b = builder(false);
    assert_eq!(b.listen_address, ListenAddress { ip: IpAddress::V4(0, 0, 0, 0), port: 8000 });
    assert_eq!(b.tcp, HttpServerConfig::new());
    assert_eq!(b.unix_socket, None);
    assert!(!b.consumed);
    let with_socket = builder(true);
    assert_eq!(with_socket.unix_socket, Some(HttpServerConfig::new()));
}

#[test]
fn an_empty_builder_builds_the_two_probes() {
    let mut b = builder(false);
    let servers = b.build();
    assert_eq!(servers.len(), 1);
    assert_eq!(servers[0].middlewares, vec![is_alive(), Middleware::Metrics]);
    assert_eq!(servers[0].tech_middlewares, vec![TechMiddleware::Metrics]);
}

#[test]
fn without_local_socket_one_server_listens_on_the_network() {
    let mut b = builder(false);
    b.register_get_action("/ping", "pong".to_string());
    let servers = b.build();
    assert_eq!(servers.len(), 1);
    assert_eq!(
        servers[0].binding,
        TransportBinding::Network(ListenAddress { ip: IpAddress::V4(0, 0, 0, 0), port: 8000 })
    );
}

#[test]
fn update_listen_endpoint_moves_the_network_listener() {
    let mut b = builder(true);
    b.update_listen_endpoint(IpAddress::V4(127, 0, 0, 1), 8080);
    let servers = b.build();
    assert_eq!(servers.len(), 2);
    assert_eq!(servers[0].binding, TransportBinding::LocalSocket("~/http/orders".to_string()));
    assert_eq!(
        servers[1].binding,
        TransportBinding::Network(ListenAddress { ip: IpAddress::V4(127, 0, 0, 1), port: 8080 })
    );
    let mut v6 = builder(false);
    v6.update_listen_endpoint(IpAddress::V6(0, 0, 0, 0, 0, 0, 0, 1), 443);
    assert_eq!(
        v6.build()[0].binding,
        TransportBinding::Network(ListenAddress {
            ip: IpAddress::V6(0, 0, 0, 0, 0, 0, 0, 1),
            port: 443
        })
    );
}

#[test]
fn the_fixed_chain_comes_first_and_custom_middlewares_follow_in_order() {
    let mut b = builder(false);
    b.register_custom_middleware("first".to_string());
    b.register_post_action("/orders", "create".to_string());
    b.register_custom_middleware("second".to_string());
    b.add_auth_middleware("auth".to_string());
    b.register_custom_middleware("third".to_string());
    let servers = b.build();
    let mut controllers = ControllersMiddleware::new(None, None);
    controllers.register_post_action("/orders", "create".to_string());
    assert_eq!(
        servers[0].middlewares,
        vec![
            is_alive(),
            Middleware::Metrics,
            swagger(),
            Middleware::Authorization("auth".to_string()),
            Middleware::Controllers(controllers),
            Middleware::Custom("first".to_string()),
            Middleware::Custom("second".to_string()),
            Middleware::Custom("third".to_string()),
        ]
    );
}

#[test]
fn the_order_of_the_built_in_stages_does_not_depend_on_the_registration_order() {
    let steps: [&dyn Fn(&mut Builder); 4] = [
        &|b| {
            b.add_auth_middleware("auth".to_string());
        },
        &|b| {
            b.register_get_action("/a", "a".to_string());
        },
        &|b| b.register_custom_middleware("x".to_string()),
        &|b| b.register_custom_middleware("y".to_string()),
    ];
    let orders = [[0, 1, 2, 3], [1, 0, 2, 3], [2, 3, 0, 1], [2, 1, 3, 0], [2, 0, 1, 3]];
    for order in orders {
        let mut b = builder(false);
        for index in order {
            steps[index](&mut b);
        }
        let servers = b.build();
        assert_eq!(
            kinds(&servers[0]),
            vec!["liveness", "metrics", "docs", "authorization", "handlers", "custom", "custom"]
        );
        assert_eq!(servers[0].middlewares[5], Middleware::Custom("x".to_string()));
        assert_eq!(servers[0].middlewares[6], Middleware::Custom("y".to_string()));
    }
    let mut swapped = builder(false);
    steps[3](&mut swapped);
    steps[2](&mut swapped);
    let servers = swapped.build();
    assert_eq!(
        servers[0].middlewares,
        vec![
            is_alive(),
            Middleware::Metrics,
            Middleware::Custom("y".to_string()),
            Middleware::Custom("x".to_string()),
        ]
    );
}

#[test]
fn an_authorization_middleware_without_handlers_is_not_served() {
    let mut b = builder(false);
    b.add_auth_middleware("auth".to_string());
    let servers = b.build();
    assert_eq!(kinds(&servers[0]), vec!["liveness", "metrics"]);
}

#[test]
fn the_authorization_middleware_added_last_is_the_one_in_use() {
    let mut b = builder(false);
    b.add_auth_middleware("old".to_string()).add_auth_middleware("new".to_string());
    b.register_get_action("/a", "a".to_string());
    let servers = b.build();
    assert_eq!(servers[0].middlewares[3], Middleware::Authorization("new".to_string()));
}

#[test]
fn an_authorization_map_alone_makes_the_handlers_stage() {
    let mut map = ControllersAuthorization::new();
    map.require(HttpVerb::Post, "/delete", "admin");
    let mut b = builder(false);
    b.set_authorization(map.clone());
    let servers = b.build();
    assert_eq!(kinds(&servers[0]), vec!["liveness", "metrics", "docs", "handlers"]);
    assert_eq!(
        servers[0].middlewares[3],
        Middleware::Controllers(ControllersMiddleware::new(Some(map), None))
    );
}

#[test]
fn an_error_factory_alone_makes_the_handlers_stage() {
    let mut b = builder(false);
    b.set_auth_error_factory("factory".to_string());
    b.set_auth_error_factory("later".to_string());
    let servers = b.build();
    assert_eq!(
        servers[0].middlewares[3],
        Middleware::Controllers(ControllersMiddleware::new(None, Some("later".to_string())))
    );
}

#[test]
fn registrations_chain() {
    let mut b = builder(false);
    b.register_get_action("/a", "get".to_string())
        .register_post_action("/a", "post".to_string())
        .register_put_action("/a", "put".to_string())
        .register_delete_action("/a", "delete".to_string())
        .register_options_action("/a", "options".to_string());
    let controllers = b.tcp.controllers.as_ref().unwrap();
    assert_eq!(
        controllers.actions,
        vec![
            action(HttpVerb::Get, "/a", "get"),
            action(HttpVerb::Post, "/a", "post"),
            action(HttpVerb::Put, "/a", "put"),
            action(HttpVerb::Delete, "/a", "delete"),
            action(HttpVerb::Options, "/a", "options"),
        ]
    );
}

#[test]
fn with_local_socket_both_servers_have_the_same_pipeline() {
    let mut map = ControllersAuthorization::new();
    map.require(HttpVerb::Delete, "/orders", "admin");
    let mut b = builder(true);
    b.register_custom_middleware("trace".to_string());
    b.set_authorization(map);
    b.set_auth_error_factory("factory".to_string());
    b.add_auth_middleware("auth".to_string());
    b.register_get_action("/orders", "list".to_string());
    b.register_delete_action("/orders", "remove".to_string());
    assert_eq!(b.unix_socket.as_ref(), Some(&b.tcp));
    let servers = b.build();
    assert_eq!(servers.len(), 2);
    assert_eq!(servers[0].binding, TransportBinding::LocalSocket("~/http/orders".to_string()));
    assert_eq!(servers[0].middlewares, servers[1].middlewares);
    assert_eq!(servers[0].tech_middlewares, servers[1].tech_middlewares);
    assert_eq!(
        kinds(&servers[1]),
        vec!["liveness", "metrics", "docs", "authorization", "handlers", "custom"]
    );
    for server in &servers {
        match &server.middlewares[4] {
            Middleware::Controllers(controllers) => {
                assert_eq!(controllers.find_action(HttpVerb::Get, "/orders"), Some(0));
                assert_eq!(controllers.find_action(HttpVerb::Delete, "/orders"), Some(1));
                assert_eq!(controllers.actions[0].action, "list");
                assert_eq!(controllers.actions[1].action, "remove");
            }
            other => panic!("no handlers at position 4: {other:?}"),
        }
    }
}

#[test]
fn a_builder_is_consumed_by_its_first_build() {
    let mut b = builder(true);
    b.register_get_action("/a", "a".to_string());
    b.register_custom_middleware("m".to_string());
    assert_eq!(b.build().len(), 2);
    assert!(b.consumed);
    assert_eq!(b.tcp, HttpServerConfig::new());
    assert_eq!(b.unix_socket, Some(HttpServerConfig::new()));
    let again = b.build();
    assert!(again.is_empty());
    assert!(b.consumed);
    b.register_get_action("/late", "late".to_string());
    assert!(b.build().is_empty());
}

#[test]
fn a_configuration_is_emptied_by_build() {
    let mut config: HttpServerConfig<String, String, String> = HttpServerConfig::default();
    config.register_custom_middleware("m".to_string());
    config.add_auth_middleware("auth".to_string());
    config.register_put_action("/a", "a".to_string());
    let mut server = HttpServer::new(ListenAddress::new(IpAddress::V4(10, 0, 0, 1), 80));
    server.add_middleware(Middleware::Custom("already there".to_string()));
    config.build(&mut server, "orders", "1.2.3");
    assert_eq!(
        kinds(&server),
        vec!["custom", "liveness", "metrics", "docs", "authorization", "handlers", "custom"]
    );
    assert_eq!(server.tech_middlewares, vec![TechMiddleware::Metrics]);
    assert_eq!(config, HttpServerConfig::new());
    let mut second = HttpServer::new_as_unix_socket("~/http/orders".to_string());
    config.build(&mut second, "orders", "1.2.3");
    assert_eq!(second.middlewares, vec![is_alive(), Middleware::Metrics]);
}
