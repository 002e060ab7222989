use service_sdk::{
    ApplicationState, BackgroundTimer, Capabilities, GrpcLayer, GrpcListener, GrpcRouter,
    GrpcServerBuilder, HttpServerBuilder, IpAddress, ListenAddress, ServiceContext, StartupStep,
    TransportBinding,
};

type Context = ServiceContext<String, String, String, String, u32>;

const NOTHING: Capabilities =
    Capabilities { secure_transport: false, structured_storage: false, pub_sub: false };
const EVERYTHING: Capabilities =
    Capabilities { secure_transport: true, structured_storage: true, pub_sub: true };

fn context(capabilities: Capabilities, unix_socket: bool) -> Context {
    ServiceContext::new("shop", "0.9.0", capabilities, unix_socket)
}

fn router(services: &[&str]) -> GrpcRouter<String> {
    GrpcRouter {
        layers: vec![GrpcLayer::Metrics],
        services: services.iter().map(|service| service.to_string()).collect(),
    }
}

#[test]
fn a_new_context_is_uninitialized_and_empty() {
    let ctx = context(NOTHING, true);
    assert_eq!(ctx.app_states, ApplicationState::Uninitialized);
    assert_eq!(ctx.app_name, "shop");
    assert_eq!(ctx.app_version, "0.9.0");
    assert!(ctx.http_servers.is_empty());
    assert!(ctx.background_timers.is_empty());
    assert_eq!(ctx.grpc_server_builder, None);
    assert_eq!(
        ctx.http_server_builder,
        HttpServerBuilder::new("shop".to_string(), "0.9.0".to_string(), true)
    );
}

#[test]
fn installation_starts_with_the_metrics_exporter() {
    assert_eq!(
        context(NOTHING, false).installation_steps(),
        vec![StartupStep::InstallMetricsExporter]
    );
    assert_eq!(
        context(EVERYTHING, false).installation_steps(),
        vec![StartupStep::InstallMetricsExporter, StartupStep::InstallCryptoProvider]
    );
}

#[test]
fn a_bare_application_starts_one_http_server_and_waits() {
    let mut ctx = context(NOTHING, false);
    let steps = ctx.start_application(None, None);
    assert_eq!(
        steps,
        vec![
            StartupStep::MarkInitialized,
            StartupStep::StartTelemetryWriter,
            StartupStep::StartHttpServer { index: 0, http2: false },
            StartupStep::WaitUntilShutdown,
        ]
    );
    assert_eq!(ctx.app_states, ApplicationState::Initialized);
    assert_eq!(ctx.http_servers.len(), 1);
    assert!(ctx.http_server_builder.consumed);
}

#[test]
fn a_full_application_starts_everything_in_the_fixed_order() {
    let mut ctx = context(EVERYTHING, true);
    ctx.register_timer(1_000_000, |mut timer: BackgroundTimer<u32>| {
        timer.register_timer("prices", 1);
        timer
    });
    ctx.register_timer(60_000_000, |mut timer: BackgroundTimer<u32>| {
        timer.register_timer("cleanup", 2);
        timer.register_timer("report", 3);
        timer
    });
    ctx.configure_http_server(|mut http: HttpServerBuilder<String, String, String>| {
        http.register_get_action("/ping", "pong".to_string());
        http
    });
    ctx.configure_grpc_server(|mut grpc: GrpcServerBuilder<String>| {
        grpc.add_grpc_service("orders".to_string());
        grpc
    });
    let steps = ctx.start_application(Some(""), Some("7000"));
    assert_eq!(
        steps,
        vec![
            StartupStep::MarkInitialized,
            StartupStep::StartTelemetryWriter,
            StartupStep::StartTimer(0),
            StartupStep::StartTimer(1),
            StartupStep::StartStructuredStorage,
            StartupStep::StartPubSub,
            StartupStep::StartHttpServer { index: 0, http2: true },
            StartupStep::StartHttpServer { index: 1, http2: true },
            StartupStep::StartGrpcListener(GrpcListener {
                binding: TransportBinding::LocalSocket("~/grpc/shop".to_string()),
                router: router(&["orders"]),
            }),
            StartupStep::StartGrpcListener(GrpcListener {
                binding: TransportBinding::Network(ListenAddress {
                    ip: IpAddress::V4(0, 0, 0, 0),
                    port: 7000,
                }),
                router: router(&["orders"]),
            }),
            StartupStep::WaitUntilShutdown,
        ]
    );
    assert_eq!(ctx.http_servers.len(), 2);
    assert_eq!(
        ctx.http_servers[0].binding,
        TransportBinding::LocalSocket("~/http/shop".to_string())
    );
    assert_eq!(ctx.http_servers[0].middlewares, ctx.http_servers[1].middlewares);
    assert_eq!(ctx.http_servers[1].middlewares.len(), 4);
}

#[test]
fn timers_keep_their_interval_and_callbacks() {
    let mut ctx = context(NOTHING, false);
    ctx.register_timer(250_000, |mut timer: BackgroundTimer<u32>| {
        timer.register_timer("a", 10);
        timer.register_timer("b", 20);
        timer
    });
    assert_eq!(
        ctx.background_timers,
        vec![BackgroundTimer {
            interval_micros: 250_000,
            callbacks: vec![("a".to_string(), 10), ("b".to_string(), 20)],
        }]
    );
}

#[test]
fn the_grpc_builder_is_made_on_the_first_configuration() {
    let mut ctx = context(NOTHING, true);
    ctx.configure_grpc_server(|grpc: GrpcServerBuilder<String>| {
        assert_eq!(grpc, GrpcServerBuilder::new(true));
        grpc
    });
    ctx.configure_grpc_server(|mut grpc: GrpcServerBuilder<String>| {
        grpc.add_grpc_service("orders".to_string());
        grpc
    });
    ctx.configure_grpc_server(|mut grpc: GrpcServerBuilder<String>| {
        grpc.add_grpc_service("payments".to_string());
        grpc
    });
    let grpc = ctx.grpc_server_builder.as_ref().unwrap();
    assert_eq!(grpc.server, Some(router(&["orders", "payments"])));
    assert_eq!(grpc.server_unix_socket, Some(router(&["orders", "payments"])));
}

#[test]
fn without_a_grpc_builder_no_grpc_listener_is_started() {
    let mut ctx = context(NOTHING, true);
    let steps = ctx.start_application(None, Some("7000"));
    assert!(steps.iter().all(|step| !matches!(step, StartupStep::StartGrpcListener(_))));
    assert_eq!(ctx.grpc_server_builder, None);
}

#[test]
fn http2_is_on_whenever_the_variable_is_set() {
    for (value, expected) in [(None, false), (Some(""), true), (Some("0"), true), (Some("1"), true)]
    {
        let mut ctx = context(NOTHING, false);
        let steps = ctx.start_application(value, None);
        assert_eq!(steps[2], StartupStep::StartHttpServer { index: 0, http2: expected });
    }
}

#[test]
fn a_second_start_has_no_listener_left() {
    let mut ctx = context(NOTHING, true);
    ctx.configure_grpc_server(|mut grpc: GrpcServerBuilder<String>| {
        grpc.add_grpc_service("orders".to_string());
        grpc
    });
    assert_eq!(ctx.start_application(None, None).len(), 7);
    let again = ctx.start_application(None, None);
    assert_eq!(
        again,
        vec![
            StartupStep::MarkInitialized,
            StartupStep::StartTelemetryWriter,
            StartupStep::WaitUntilShutdown,
        ]
    );
    assert!(ctx.http_servers.is_empty());
    assert_eq!(ctx.app_states, ApplicationState::Initialized);
}

#[test]
fn shutdown_is_final_for_the_context() {
    let mut ctx = context(NOTHING, false);
    ctx.start_application(None, None);
    ctx.shut_down();
    assert_eq!(ctx.app_states, ApplicationState::ShuttingDown);
    assert!(ctx.start_application(None, None).is_empty());
    assert_eq!(ctx.app_states, ApplicationState::ShuttingDown);
}

#[test]
fn nothing_starts_once_the_application_is_shutting_down() {
    let mut ctx = context(EVERYTHING, true);
    ctx.register_timer(1_000_000, |mut timer: BackgroundTimer<u32>| {
        timer.register_timer("prices", 1);
        timer
    });
    ctx.configure_http_server(|mut http: HttpServerBuilder<String, String, String>| {
        http.register_get_action("/ping", "pong".to_string());
        http
    });
    ctx.configure_grpc_server(|mut grpc: GrpcServerBuilder<String>| {
        grpc.add_grpc_service("orders".to_string());
        grpc
    });
    ctx.shut_down();

    let steps = ctx.start_application(Some("1"), Some("7000"));

    assert_eq!(steps, Vec::new());
    assert_eq!(ctx.app_states, ApplicationState::ShuttingDown);
    assert!(ctx.http_servers.is_empty());
    assert!(!ctx.http_server_builder.consumed);
    assert!(ctx.http_server_builder.tcp.controllers.is_some());
    let grpc = ctx.grpc_server_builder.as_ref().unwrap();
    assert!(!grpc.started);
    assert_eq!(grpc.server, Some(router(&["orders"])));
    assert_eq!(ctx.background_timers.len(), 1);
}

#[test]
fn a_subscriber_name_is_the_application_name_with_the_suffix() {
    let ctx = context(NOTHING, false);
    assert_eq!(ctx.subscriber_name_with_suffix("-audit"), "shop-audit");
    assert_eq!(ctx.subscriber_name_with_suffix(""), "shop");
    assert_eq!(
        service_sdk::service_context::service_context::subscriber_name("shop", "-eu"),
        "shop-eu"
    );
}

#[test]
fn configure_http_server_chains() {
    let mut ctx = context(NOTHING, false);
    ctx.configure_http_server(|mut http: HttpServerBuilder<String, String, String>| {
        http.register_get_action("/a", "a".to_string());
        http
    })
    .configure_http_server(|mut http: HttpServerBuilder<String, String, String>| {
        http.register_custom_middleware("m".to_string());
        http
    });
    let servers = ctx.http_server_builder.build();
    assert_eq!(servers[0].middlewares.len(), 5);
}
