use service_sdk::{
    GrpcLayer, GrpcListener, GrpcRouter, GrpcServerBuilder, IpAddress, ListenAddress,
    TransportBinding,
};

fn router(services: &[&str]) -> GrpcRouter<String> {
    GrpcRouter {
        layers: vec![GrpcLayer::Metrics],
        services: services.iter().map(|service| service.to_string()).collect(),
    }
}

fn network(port: u16) -> TransportBinding {
    TransportBinding::Network(ListenAddress { ip: IpAddress::V4(0, 0, 0, 0), port })
}

#[test]
fn a_new_grpc_builder_has_no_router() {
    let builder: GrpcServerBuilder<String> = GrpcServerBuilder::new(true);
    assert_eq!(builder.server, None);
    assert_eq!(builder.server_unix_socket, None);
    assert!(builder.unix_socket_enabled);
    assert_eq!(builder.listen_address, None);
    assert!(!builder.started);
}

#[test]
fn a_fresh_router_stands_behind_the_metrics_layer() {
    let fresh: GrpcRouter<String> = GrpcRouter::layered();
    assert_eq!(fresh, router(&[]));
    assert_eq!(fresh.add_service("orders".to_string()), router(&["orders"]));
}

#[test]
fn the_first_service_makes_the_router() {
    let mut builder = GrpcServerBuilder::new(false);
    builder.add_grpc_service("orders".to_string());
    assert_eq!(builder.server, Some(router(&["orders"])));
    assert_eq!(builder.server_unix_socket, None);
    builder.add_grpc_service("payments".to_string());
    assert_eq!(builder.server, Some(router(&["orders", "payments"])));
}

#[test]
fn with_local_socket_every_service_goes_to_both_routers() {
    let mut builder = GrpcServerBuilder::new(true);
    builder.add_grpc_service("orders".to_string());
    builder.add_grpc_service("payments".to_string());
    assert_eq!(builder.server, Some(router(&["orders", "payments"])));
    assert_eq!(builder.server_unix_socket, builder.server);
}

#[test]
fn start_uses_the_port_of_the_environment() {
    let mut builder = GrpcServerBuilder::new(false);
    builder.add_grpc_service("orders".to_string());
    let listeners = builder.start("shop", Some("9999"));
    assert_eq!(
        listeners,
        vec![GrpcListener { binding: network(9999), router: router(&["orders"]) }]
    );
}

#[test]
fn start_falls_back_to_port_8888() {
    let mut unset = GrpcServerBuilder::new(false);
    unset.add_grpc_service("orders".to_string());
    assert_eq!(unset.start("shop", None)[0].binding, network(8888));
    let mut malformed = GrpcServerBuilder::new(false);
    malformed.add_grpc_service("orders".to_string());
    assert_eq!(malformed.start("shop", Some("not-a-number"))[0].binding, network(8888));
}

#[test]
fn a_chosen_endpoint_wins_over_the_environment() {
    let mut builder = GrpcServerBuilder::new(false);
    builder.update_listen_endpoint(IpAddress::V4(127, 0, 0, 1), 5000);
    builder.add_grpc_service("orders".to_string());
    let listeners = builder.start("shop", Some("9999"));
    assert_eq!(
        listeners[0].binding,
        TransportBinding::Network(ListenAddress { ip: IpAddress::V4(127, 0, 0, 1), port: 5000 })
    );
}

#[test]
fn with_local_socket_start_hands_out_two_listeners() {
    let mut builder = GrpcServerBuilder::new(true);
    builder.add_grpc_service("orders".to_string());
    let listeners = builder.start("shop", None);
    assert_eq!(
        listeners,
        vec![
            GrpcListener {
                binding: TransportBinding::LocalSocket("~/grpc/shop".to_string()),
                router: router(&["orders"]),
            },
            GrpcListener { binding: network(8888), router: router(&["orders"]) },
        ]
    );
}

#[test]
fn a_grpc_builder_without_services_starts_nothing() {
    let mut builder: GrpcServerBuilder<String> = GrpcServerBuilder::new(true);
    assert!(builder.start("shop", None).is_empty());
    assert!(builder.started);
}

#[test]
fn a_grpc_builder_starts_once() {
    let mut builder = GrpcServerBuilder::new(true);
    builder.add_grpc_service("orders".to_string());
    assert_eq!(builder.start("shop", None).len(), 2);
    assert!(builder.started);
    assert_eq!(builder.server, None);
    assert_eq!(builder.server_unix_socket, None);
    assert!(builder.start("shop", None).is_empty());
    builder.add_grpc_service("late".to_string());
    assert!(builder.start("shop", None).is_empty());
}

#[test]
fn add_grpc_services_replaces_both_routers() {
    let mut builder = GrpcServerBuilder::new(true);
    builder.add_grpc_service("orders".to_string());
    builder.add_grpc_services(|fresh: GrpcRouter<String>| {
        fresh.add_service("a".to_string()).add_service("b".to_string())
    });
    assert_eq!(builder.server, Some(router(&["a", "b"])));
    assert_eq!(builder.server_unix_socket, Some(router(&["a", "b"])));
}

#[test]
fn add_grpc_services_leaves_the_local_socket_alone_when_it_is_off() {
    let mut builder = GrpcServerBuilder::new(false);
    builder.add_grpc_services(|fresh: GrpcRouter<String>| fresh.add_service("a".to_string()));
    assert_eq!(builder.server, Some(router(&["a"])));
    assert_eq!(builder.server_unix_socket, None);
    assert_eq!(builder.start("shop", None).len(), 1);
}

#[test]
fn services_added_in_one_call_are_served_on_both_endpoints() {
    let mut builder = GrpcServerBuilder::new(true);
    builder.add_grpc_services(|fresh: GrpcRouter<String>| {
        fresh.add_service("a".to_string()).add_service("b".to_string())
    });
    let listeners = builder.start("shop", Some("7001"));
    assert_eq!(
        listeners,
        vec![
            GrpcListener {
                binding: TransportBinding::LocalSocket("~/grpc/shop".to_string()),
                router: router(&["a", "b"]),
            },
            GrpcListener { binding: network(7001), router: router(&["a", "b"]) },
        ]
    );
}

#[test]
fn a_mirror_has_the_layers_and_services_of_its_router() {
    let source = router(&["a", "b", "c"]);
    assert_eq!(source.mirror(), source);
    let empty: GrpcRouter<String> = GrpcRouter::layered();
    assert_eq!(empty.mirror(), empty);
}
