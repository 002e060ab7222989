//! The builder of the gRPC listeners of an application.
//!
//! A service is a value of the caller's own type `S`: the builder stores it
//! and hands it out, and never looks inside.

use crate::consts::{get_default_ip_address, DEFAULT_GRPC_PORT};
use crate::decimal::{parse_u16, parsed_u16};
use crate::transport::{
    grpc_socket_directory, grpc_socket_path, IpAddress, ListenAddress, TransportBinding,
    TransportBindingModel,
};
use vstd::prelude::*;

verus! {

/// A layer that every call passes on its way to a service.
#[derive(Clone, Copy, Debug, PartialEq, Eq, Structural)]
pub enum GrpcLayer {
    /// Records duration and status of the call, and leaves the response as
    /// it is.
    Metrics,
}

/// The services of one listener, behind their layers.
#[derive(Debug, PartialEq, Eq)]
pub struct GrpcRouter<S> {
    pub layers: Vec<GrpcLayer>,
    pub services: Vec<S>,
}

/// A router as a mathematical value.
pub struct RouterModel<S> {
    pub layers: Seq<GrpcLayer>,
    pub services: Seq<S>,
}

impl<S> View for GrpcRouter<S> {
    type V = RouterModel<S>;

    open spec fn view(&self) -> RouterModel<S> {
        RouterModel { layers: self.layers@, services: self.services@ }
    }
}

impl<S> RouterModel<S> {
    /// A router without services, behind the metrics layer.
    pub open spec fn layered() -> Self {
        RouterModel { layers: seq![GrpcLayer::Metrics], services: Seq::empty() }
    }

    /// The router with one more service, behind the same layers.
    pub open spec fn with_service(self, service: S) -> Self {
        RouterModel { services: self.services.push(service), ..self }
    }
}

impl<S> GrpcRouter<S> {
    /// A router without services, behind the metrics layer.
    pub fn layered() -> (router: Self)
        ensures
            router@ == RouterModel::<S>::layered(),
    {
        let mut layers: Vec<GrpcLayer> = Vec::new();
        layers.push(GrpcLayer::Metrics);
        let router = GrpcRouter { layers, services: Vec::new() };
        assert(router@.layers =~= seq![GrpcLayer::Metrics]);
        router
    }

    /// Adds a service behind the layers of the router.
    pub fn add_service(self, service: S) -> (router: Self)
        ensures
            router@ == self@.with_service(service),
    {
        let mut router = self;
        router.services.push(service);
        router
    }
}

/// The view of a router that may be absent.
pub open spec fn router_model<S>(router: Option<GrpcRouter<S>>) -> Option<RouterModel<S>> {
    match router {
        Some(router) => Some(router@),
        None => None,
    }
}

/// The router that a registration adds to: the one that exists, or a fresh
/// one behind the metrics layer.
pub open spec fn router_or_layered<S>(router: Option<RouterModel<S>>) -> RouterModel<S> {
    match router {
        Some(router) => router,
        None => RouterModel::layered(),
    }
}

/// True when `copy` has the layers of `source` and a clone of each of
/// its services, in order.
pub open spec fn router_mirrors<S: Clone>(source: RouterModel<S>, copy: RouterModel<S>) -> bool {
    &&& source.layers == copy.layers
    &&& source.services.len() == copy.services.len()
    &&& forall|i: int|
        0 <= i < source.services.len() ==> cloned(#[trigger] source.services[i], copy.services[i])
}

impl<S: Clone> GrpcRouter<S> {
    /// A second router with the same layers and a clone of each service,
    /// in the same order.
    pub fn mirror(&self) -> (copy: Self)
        ensures
            router_mirrors(self@, copy@),
    {
        let mut layers: Vec<GrpcLayer> = Vec::new();
        let mut i: usize = 0;
        while i < self.layers.len()
            invariant
                i <= self.layers.len(),
                layers@ == self.layers@.take(i as int),
            decreases self.layers.len() - i,
        {
            layers.push(self.layers[i]);
            assert(layers@ =~= self.layers@.take(i + 1));
            i = i + 1;
        }
        assert(layers@ =~= self.layers@);
        let mut services: Vec<S> = Vec::new();
        let mut k: usize = 0;
        while k < self.services.len()
            invariant
                k <= self.services.len(),
                services@.len() == k,
                forall|j: int| 0 <= j < k ==> cloned(#[trigger] self.services@[j], services@[j]),
            decreases self.services.len() - k,
        {
            services.push(self.services[k].clone());
            k = k + 1;
        }
        GrpcRouter { layers, services }
    }
}

/// A router with the endpoint that it is to be served on.
#[derive(Debug, PartialEq, Eq)]
pub struct GrpcListener<S> {
    pub binding: TransportBinding,
    pub router: GrpcRouter<S>,
}

/// A listener as a mathematical value.
pub struct ListenerModel<S> {
    pub binding: TransportBindingModel,
    pub router: RouterModel<S>,
}

impl<S> View for GrpcListener<S> {
    type V = ListenerModel<S>;

    open spec fn view(&self) -> ListenerModel<S> {
        ListenerModel { binding: self.binding@, router: self.router@ }
    }
}

/// The listeners as models, in order.
pub open spec fn listener_models<S>(listeners: Seq<GrpcListener<S>>) -> Seq<ListenerModel<S>> {
    listeners.map_values(|listener: GrpcListener<S>| listener@)
}

/// The port that `text`, the value of the `GRPC_PORT` variable, asks for:
/// the number it denotes, and 8888 where the variable is not set or denotes
/// no port.
pub open spec fn grpc_port_of(text: Option<&str>) -> u16 {
    match text {
        Some(text) => match parsed_u16(text@) {
            Some(port) => port,
            None => DEFAULT_GRPC_PORT,
        },
        None => DEFAULT_GRPC_PORT,
    }
}

/// Reads the port of the gRPC listener from the value of the `GRPC_PORT`
/// variable, `None` when the variable is not set.
pub fn get_grpc_port(text: Option<&str>) -> (port: u16)
    ensures
        port == grpc_port_of(text),
{
    match text {
        Some(text) => match parse_u16(text) {
            Some(parsed) => parsed,
            None => DEFAULT_GRPC_PORT,
        },
        None => DEFAULT_GRPC_PORT,
    }
}

/// The builder of the gRPC listeners of one application.
#[derive(Debug, PartialEq, Eq)]
pub struct GrpcServerBuilder<S> {
    /// The services for the network listener, once there are any.
    pub server: Option<GrpcRouter<S>>,
    /// The services for the local-socket listener, once there are any.
    pub server_unix_socket: Option<GrpcRouter<S>>,
    pub unix_socket_enabled: bool,
    /// The address of the network listener, where the caller chose one.
    pub listen_address: Option<ListenAddress>,
    /// True once `start` has handed the routers out.
    pub started: bool,
}

impl<S: Clone> GrpcServerBuilder<S> {
    /// True when the local socket serves what the network serves: the
    /// transport is off, or its router mirrors the one for the network.
    pub open spec fn mirrored(&self) -> bool {
        self.unix_socket_enabled ==> match (self.server, self.server_unix_socket) {
            (Some(server), Some(server_unix_socket)) => router_mirrors(
                server@,
                server_unix_socket@,
            ),
            (None, None) => true,
            _ => false,
        }
    }

    /// The invariant of the builder: the local socket serves what the
    /// network serves, and has no router while its transport is off.
    pub open spec fn wf(&self) -> bool {
        &&& self.mirrored()
        &&& !self.unix_socket_enabled ==> self.server_unix_socket is None
    }

    /// True when `self` and `other` agree in all but their routers.
    pub open spec fn same_settings(&self, other: &Self) -> bool {
        &&& self.unix_socket_enabled == other.unix_socket_enabled
        &&& self.listen_address == other.listen_address
        &&& self.started == other.started
    }

    /// The address of the network listener: the one the caller chose, else
    /// every IPv4 interface with the port that the environment asks for.
    pub open spec fn network_address(&self, grpc_port: Option<&str>) -> ListenAddress {
        match self.listen_address {
            Some(address) => address,
            None => ListenAddress { ip: IpAddress::V4(0, 0, 0, 0), port: grpc_port_of(grpc_port) },
        }
    }

    /// The listeners that `start` hands out: none if the builder was
    /// started before; else the local-socket listener, if it has a router,
    /// and then the network listener, if it has one.
    pub open spec fn listeners_to_start(&self, app_name: Seq<char>, grpc_port: Option<&str>) -> Seq<
        ListenerModel<S>,
    > {
        if self.started {
            Seq::empty()
        } else {
            (match self.server_unix_socket {
                Some(router) => seq![
                    ListenerModel {
                        binding: TransportBindingModel::LocalSocket(
                            grpc_socket_directory() + app_name,
                        ),
                        router: router@,
                    },
                ],
                None => Seq::empty(),
            }) + (match self.server {
                Some(router) => seq![
                    ListenerModel {
                        binding: TransportBindingModel::Network(self.network_address(grpc_port)),
                        router: router@,
                    },
                ],
                None => Seq::empty(),
            })
        }
    }

    /// A builder without services. `unix_socket_enabled` switches the
    /// local-socket transport on.
    pub fn new(unix_socket_enabled: bool) -> (builder: Self)
        ensures
            builder.server is None,
            builder.server_unix_socket is None,
            builder.unix_socket_enabled == unix_socket_enabled,
            builder.listen_address is None,
            !builder.started,
            builder.wf(),
    {
        GrpcServerBuilder {
            server: None,
            server_unix_socket: None,
            unix_socket_enabled,
            listen_address: None,
            started: false,
        }
    }

    /// Sets the address of the network listener.
    pub fn update_listen_endpoint(&mut self, ip: IpAddress, port: u16)
        ensures
            final(self).listen_address == Some(ListenAddress { ip, port }),
            final(self).server == old(self).server,
            final(self).server_unix_socket == old(self).server_unix_socket,
            final(self).unix_socket_enabled == old(self).unix_socket_enabled,
            final(self).started == old(self).started,
    {
        self.listen_address = Some(ListenAddress::new(ip, port));
    }

    /// Adds a service. The first service makes the router, behind the
    /// metrics layer. Where the local-socket transport is on, its router
    /// gets a clone of the service in the same way.
    pub fn add_grpc_service(&mut self, svc: S)
        ensures
            final(self).same_settings(old(self)),
            router_model(final(self).server) == Some(
                router_or_layered(router_model(old(self).server)).with_service(svc),
            ),
            !old(self).unix_socket_enabled ==> final(self).server_unix_socket
                == old(self).server_unix_socket,
            old(self).unix_socket_enabled ==> exists|copy: S|
                cloned(svc, copy) && router_model(final(self).server_unix_socket) == Some(
                    router_or_layered(router_model(old(self).server_unix_socket)).with_service(
                        copy,
                    ),
                ),
            old(self).mirrored() ==> final(self).mirrored(),
            old(self).wf() ==> final(self).wf(),
    {
        if self.unix_socket_enabled {
            let copy = svc.clone();
            let server_unix_socket = match self.server_unix_socket.take() {
                Some(server_unix_socket) => server_unix_socket.add_service(copy),
                None => GrpcRouter::layered().add_service(copy),
            };
            self.server_unix_socket = Some(server_unix_socket);
            assert(cloned(svc, copy) && router_model(self.server_unix_socket) == Some(
                router_or_layered(router_model(old(self).server_unix_socket)).with_service(copy),
            ));
        }
        let server = match self.server.take() {
            Some(server) => server.add_service(svc),
            None => GrpcRouter::layered().add_service(svc),
        };
        self.server = Some(server);
    }

    /// Lets `add_function` fill a fresh router behind the metrics layer and
    /// takes the result as the router of the network listener, in place of
    /// the one that was there. Where the local-socket transport is on, its
    /// router is replaced as well, by one with the same layers and a clone
    /// of each service, so that both listeners serve the same.
    pub fn add_grpc_services<B: FnOnce(GrpcRouter<S>) -> GrpcRouter<S>>(&mut self, add_function: B)
        requires
            forall|fresh: GrpcRouter<S>|
                fresh@ == RouterModel::<S>::layered() ==> add_function.requires((fresh,)),
        ensures
            final(self).same_settings(old(self)),
            final(self).server matches Some(router) && exists|fresh: GrpcRouter<S>|
                fresh@ == RouterModel::<S>::layered() && add_function.ensures((fresh,), router),
            !old(self).unix_socket_enabled ==> final(self).server_unix_socket
                == old(self).server_unix_socket,
            old(self).unix_socket_enabled ==> (final(self).server_unix_socket matches Some(copy)
                && router_mirrors(final(self).server->0@, copy@)),
            final(self).mirrored(),
            old(self).wf() ==> final(self).wf(),
    {
        let fresh = GrpcRouter::layered();
        let router = add_function(fresh);
        if self.unix_socket_enabled {
            self.server_unix_socket = Some(router.mirror());
        }
        self.server = Some(router);
    }

    /// Hands the listeners out, once. The first call moves the routers out
    /// of the builder and marks it as started; any later call returns no
    /// listener. `grpc_port` is the value of the `GRPC_PORT` variable.
    pub fn start(&mut self, app_name: &str, grpc_port: Option<&str>) -> (listeners: Vec<
        GrpcListener<S>,
    >)
        ensures
            listener_models(listeners@) == old(self).listeners_to_start(app_name@, grpc_port),
            final(self).started,
            final(self).unix_socket_enabled == old(self).unix_socket_enabled,
            final(self).listen_address == old(self).listen_address,
            old(self).started ==> final(self).server == old(self).server
                && final(self).server_unix_socket == old(self).server_unix_socket,
            !old(self).started ==> final(self).server is None && final(self).server_unix_socket
                is None,
            old(self).wf() ==> final(self).wf(),
    {
        let mut listeners: Vec<GrpcListener<S>> = Vec::new();
        if self.started {
            assert(listener_models(listeners@) =~= old(self).listeners_to_start(
                app_name@,
                grpc_port,
            ));
            return listeners;
        }
        match self.server_unix_socket.take() {
            Some(grpc_server) => {
                let unix_socket_name = grpc_socket_path(app_name);
                listeners.push(
                    GrpcListener {
                        binding: TransportBinding::LocalSocket(unix_socket_name),
                        router: grpc_server,
                    },
                );
            },
            None => {},
        }
        match self.server.take() {
            Some(grpc_server) => {
                let grpc_addr = match self.listen_address {
                    Some(taken) => taken,
                    None => ListenAddress::new(get_default_ip_address(), get_grpc_port(grpc_port)),
                };
                listeners.push(
                    GrpcListener {
                        binding: TransportBinding::Network(grpc_addr),
                        router: grpc_server,
                    },
                );
            },
            None => {},
        }
        self.started = true;
        assert(listener_models(listeners@) =~= old(self).listeners_to_start(app_name@, grpc_port));
        listeners
    }
}

/// A builder starts the same services on both endpoints: where the
/// local-socket transport is on and anything was added, by whichever
/// method, `start` hands out two listeners, and the router on the local
/// socket mirrors the router on the network.
pub proof fn lemma_both_listeners_serve_the_same<S: Clone>(
    builder: GrpcServerBuilder<S>,
    app_name: Seq<char>,
    grpc_port: Option<&str>,
)
    requires
        builder.wf(),
        builder.unix_socket_enabled,
        builder.server is Some,
        !builder.started,
    ensures
        builder.listeners_to_start(app_name, grpc_port).len() == 2,
        builder.listeners_to_start(app_name, grpc_port)[0].binding
            == TransportBindingModel::LocalSocket(grpc_socket_directory() + app_name),
        builder.listeners_to_start(app_name, grpc_port)[1].binding
            == TransportBindingModel::Network(builder.network_address(grpc_port)),
        router_mirrors(
            builder.listeners_to_start(app_name, grpc_port)[1].router,
            builder.listeners_to_start(app_name, grpc_port)[0].router,
        ),
{
}

/// With the local-socket transport off, a builder starts at most one
/// listener, and that one on the network.
pub proof fn lemma_network_listener_only<S: Clone>(
    builder: GrpcServerBuilder<S>,
    app_name: Seq<char>,
    grpc_port: Option<&str>,
)
    requires
        builder.wf(),
        !builder.unix_socket_enabled,
        !builder.started,
    ensures
        builder.listeners_to_start(app_name, grpc_port).len() <= 1,
        builder.server is Some ==> builder.listeners_to_start(app_name, grpc_port).len() == 1
            && builder.listeners_to_start(app_name, grpc_port)[0].binding
            == TransportBindingModel::Network(builder.network_address(grpc_port)),
{
}

} // verus!
