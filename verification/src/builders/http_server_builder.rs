//! The builder of the HTTP servers of an application: one pipeline,
//! registered once, served on the network and, where enabled, on a local
//! socket as well.

use crate::builders::http_server_config::{ConfigModel, HttpServerConfig, Registration};
use crate::consts::{get_default_ip_address, DEFAULT_HTTP_PORT};
use crate::controllers::{
    ActionModel, ControllersAuthorization, ControllersModel, HttpVerb,
};
use crate::http_server::{
    server_models, HttpServer, HttpServerModel, MiddlewareModel, TechMiddleware,
};
use crate::transport::{
    http_socket_directory, http_socket_path, IpAddress, ListenAddress, TransportBindingModel,
};
use vstd::prelude::*;

verus! {

/// True when `copy` is absent where `source` is, and a clone of it where
/// it is present.
pub open spec fn option_mirrors<T: Clone>(source: Option<T>, copy: Option<T>) -> bool {
    match (source, copy) {
        (Some(a), Some(b)) => cloned(a, b),
        (None, None) => true,
        _ => false,
    }
}

/// True when `copy` holds a clone of each value of `source`, in order.
pub open spec fn seq_mirrors<T: Clone>(source: Seq<T>, copy: Seq<T>) -> bool {
    &&& source.len() == copy.len()
    &&& forall|i: int| 0 <= i < source.len() ==> cloned(#[trigger] source[i], copy[i])
}

/// True when `copy` is registered for the verb and route of `source`
/// with a clone of its handler.
pub open spec fn action_mirrors<A: Clone>(source: ActionModel<A>, copy: ActionModel<A>) -> bool {
    &&& source.verb == copy.verb
    &&& source.route == copy.route
    &&& cloned(source.action, copy.action)
}

/// True when `copy` holds the authorization map of `source`, a clone of
/// its error factory and a clone of each handler, in order and under the
/// same verbs and routes.
pub open spec fn controllers_mirror<A: Clone, F: Clone>(
    source: ControllersModel<A, F>,
    copy: ControllersModel<A, F>,
) -> bool {
    &&& source.authorization == copy.authorization
    &&& option_mirrors(source.auth_error_factory, copy.auth_error_factory)
    &&& source.actions.len() == copy.actions.len()
    &&& forall|i: int|
        0 <= i < source.actions.len() ==> action_mirrors(
            #[trigger] source.actions[i],
            copy.actions[i],
        )
}

/// True when the registrations `copy` repeat the registrations `source`
/// with clones.
pub open spec fn config_mirrors<M: Clone, A: Clone, F: Clone>(
    source: ConfigModel<M, A, F>,
    copy: ConfigModel<M, A, F>,
) -> bool {
    &&& option_mirrors(source.auth_middleware, copy.auth_middleware)
    &&& seq_mirrors(source.custom_middlewares, copy.custom_middlewares)
    &&& match (source.controllers, copy.controllers) {
        (Some(a), Some(b)) => controllers_mirror(a, b),
        (None, None) => true,
        _ => false,
    }
}

/// True when the stage `copy` is the stage `source` with clones of what
/// the caller gave.
pub open spec fn stage_mirrors<M: Clone, A: Clone, F: Clone>(
    source: MiddlewareModel<M, A, F>,
    copy: MiddlewareModel<M, A, F>,
) -> bool {
    match (source, copy) {
        (
            MiddlewareModel::IsAlive { app_name, app_version },
            MiddlewareModel::IsAlive { app_name: name, app_version: version },
        ) => app_name == name && app_version == version,
        (MiddlewareModel::Metrics, MiddlewareModel::Metrics) => true,
        (
            MiddlewareModel::Swagger { app_name, app_version },
            MiddlewareModel::Swagger { app_name: name, app_version: version },
        ) => app_name == name && app_version == version,
        (MiddlewareModel::Authorization(a), MiddlewareModel::Authorization(b)) => cloned(a, b),
        (MiddlewareModel::Controllers(a), MiddlewareModel::Controllers(b)) => controllers_mirror(
            a,
            b,
        ),
        (MiddlewareModel::Custom(a), MiddlewareModel::Custom(b)) => cloned(a, b),
        _ => false,
    }
}

/// True when the two pipelines have the same stages in the same order, the
/// second with clones of what the caller gave.
pub open spec fn pipeline_mirrors<M: Clone, A: Clone, F: Clone>(
    source: Seq<MiddlewareModel<M, A, F>>,
    copy: Seq<MiddlewareModel<M, A, F>>,
) -> bool {
    &&& source.len() == copy.len()
    &&& forall|i: int| 0 <= i < source.len() ==> stage_mirrors(#[trigger] source[i], copy[i])
}

/// The builder of the HTTP servers of one application.
///
/// Everything is registered once. Where the local-socket transport is on,
/// the builder keeps a second set of registrations for it, which repeats
/// the first with clones.
#[derive(Debug, PartialEq, Eq)]
pub struct HttpServerBuilder<M, A, F> {
    pub listen_address: ListenAddress,
    pub app_name: String,
    pub app_version: String,
    /// The registrations for the network listener.
    pub tcp: HttpServerConfig<M, A, F>,
    /// The registrations for the local-socket listener, where it is on.
    pub unix_socket: Option<HttpServerConfig<M, A, F>>,
    /// True once `build` has handed the pipelines out.
    pub consumed: bool,
}

impl<M: Clone, A: Clone, F: Clone> HttpServerBuilder<M, A, F> {
    /// The invariant of the builder: the registrations for the local socket
    /// repeat those for the network.
    pub open spec fn wf(&self) -> bool {
        match self.unix_socket {
            Some(unix_socket) => config_mirrors(self.tcp@, unix_socket@),
            None => true,
        }
    }

    /// True when the local-socket transport is on.
    pub open spec fn local_socket_enabled(&self) -> bool {
        self.unix_socket is Some
    }

    /// True when `self` and `other` are builders for the same application
    /// and the same endpoints.
    pub open spec fn same_endpoints(&self, other: &Self) -> bool {
        &&& self.listen_address == other.listen_address
        &&& self.app_name@ == other.app_name@
        &&& self.app_version@ == other.app_version@
        &&& self.local_socket_enabled() == other.local_socket_enabled()
    }

    /// True when `self` and `other` agree in all but their registrations.
    pub open spec fn same_settings(&self, other: &Self) -> bool {
        self.same_endpoints(other) && self.consumed == other.consumed
    }

    /// True when no registration is left in the builder.
    pub open spec fn holds_nothing(&self) -> bool {
        &&& self.tcp@ == ConfigModel::<M, A, F>::empty()
        &&& match self.unix_socket {
            Some(unix_socket) => unix_socket@ == ConfigModel::<M, A, F>::empty(),
            None => true,
        }
    }

    /// What a registration does to the builder: the network registrations
    /// take it as it is, the rest of the builder stays, and the invariant
    /// says what the local-socket registrations hold.
    pub open spec fn registered(&self, before: &Self, registration: Registration<M, A, F>) -> bool {
        &&& self.wf()
        &&& self.same_settings(before)
        &&& self.tcp@ == before.tcp@.after(registration)
    }

    /// The server that `build` makes for the network.
    pub open spec fn network_server(&self) -> HttpServerModel<M, A, F> {
        HttpServerModel::bare(TransportBindingModel::Network(self.listen_address)).with_middlewares(
            self.tcp@.built(self.app_name@, self.app_version@),
        ).with_tech_middleware(TechMiddleware::Metrics)
    }

    /// The server that `build` makes for the local socket from the
    /// registrations `config`.
    pub open spec fn local_socket_server(&self, config: ConfigModel<M, A, F>) -> HttpServerModel<
        M,
        A,
        F,
    > {
        HttpServerModel::bare(
            TransportBindingModel::LocalSocket(http_socket_directory() + self.app_name@),
        ).with_middlewares(config.built(self.app_name@, self.app_version@)).with_tech_middleware(
            TechMiddleware::Metrics,
        )
    }

    /// The servers that `build` makes: none if the builder was consumed
    /// before; else one for the local socket, where that transport is on,
    /// and then one for the network.
    pub open spec fn servers_to_build(&self) -> Seq<HttpServerModel<M, A, F>> {
        if self.consumed {
            Seq::empty()
        } else {
            match self.unix_socket {
                Some(unix_socket) => seq![
                    self.local_socket_server(unix_socket@),
                    self.network_server(),
                ],
                None => seq![self.network_server()],
            }
        }
    }

    /// A builder without registrations that listens on port 8000 of every
    /// interface. `unix_socket_enabled` switches the local-socket transport
    /// on.
    pub fn new(app_name: String, app_version: String, unix_socket_enabled: bool) -> (builder: Self)
        ensures
            builder.wf(),
            builder.listen_address == (ListenAddress {
                ip: IpAddress::V4(0, 0, 0, 0),
                port: DEFAULT_HTTP_PORT,
            }),
            builder.app_name@ == app_name@,
            builder.app_version@ == app_version@,
            builder.holds_nothing(),
            builder.local_socket_enabled() == unix_socket_enabled,
            !builder.consumed,
    {
        HttpServerBuilder {
            listen_address: ListenAddress::new(get_default_ip_address(), DEFAULT_HTTP_PORT),
            app_name,
            app_version,
            tcp: HttpServerConfig::new(),
            unix_socket: if unix_socket_enabled {
                Some(HttpServerConfig::new())
            } else {
                None
            },
            consumed: false,
        }
    }

    /// Sets the authorization map, or adds the entries of `authorization`
    /// to the one that is set.
    pub fn set_authorization(&mut self, authorization: ControllersAuthorization)
        requires
            old(self).wf(),
        ensures
            final(self).registered(old(self), Registration::Authorization(authorization@)),
    {
        match &mut self.unix_socket {
            Some(unix_socket) => {
                unix_socket.set_authorization(authorization.clone());
            },
            None => {},
        }
        self.tcp.set_authorization(authorization);
    }

    /// Installs the factory that answers requests which fail authorization.
    pub fn set_auth_error_factory(&mut self, value: F)
        requires
            old(self).wf(),
        ensures
            final(self).registered(old(self), Registration::AuthErrorFactory(value)),
    {
        match &mut self.unix_socket {
            Some(unix_socket) => {
                unix_socket.set_auth_error_factory(value.clone());
            },
            None => {},
        }
        self.tcp.set_auth_error_factory(value);
    }

    /// Adds a middleware of the caller. It runs behind the fixed chain and
    /// behind the middlewares added before it.
    pub fn register_custom_middleware(&mut self, middleware: M)
        requires
            old(self).wf(),
        ensures
            final(self).registered(old(self), Registration::CustomMiddleware(middleware)),
    {
        match &mut self.unix_socket {
            Some(unix_socket) => {
                unix_socket.register_custom_middleware(middleware.clone());
            },
            None => {},
        }
        self.tcp.register_custom_middleware(middleware);
    }

    /// Sets the address of the network listener.
    pub fn update_listen_endpoint(&mut self, ip: IpAddress, port: u16)
        ensures
            final(self).listen_address == (ListenAddress { ip, port }),
            final(self).app_name@ == old(self).app_name@,
            final(self).app_version@ == old(self).app_version@,
            final(self).tcp == old(self).tcp,
            final(self).unix_socket == old(self).unix_socket,
            final(self).consumed == old(self).consumed,
    {
        self.listen_address = ListenAddress::new(ip, port);
    }

    /// Sets the middleware that authorizes requests before they reach a
    /// handler. A later call replaces it.
    pub fn add_auth_middleware(&mut self, middleware: M) -> (builder: &mut Self)
        requires
            old(self).wf(),
        ensures
            builder.registered(old(self), Registration::AuthMiddleware(middleware)),
            *final(self) == *final(builder),
    {
        match &mut self.unix_socket {
            Some(unix_socket) => {
                unix_socket.add_auth_middleware(middleware.clone());
            },
            None => {},
        }
        self.tcp.add_auth_middleware(middleware);
        self
    }

    /// Registers a handler for `verb` and `route`.
    pub fn register_action(&mut self, verb: HttpVerb, route: &str, action: A)
        requires
            old(self).wf(),
        ensures
            final(self).registered(
                old(self),
                Registration::Action(ActionModel { verb, route: route@, action }),
            ),
    {
        match &mut self.unix_socket {
            Some(unix_socket) => {
                unix_socket.register_action(verb, route, action.clone());
            },
            None => {},
        }
        self.tcp.register_action(verb, route, action);
    }

    /// Registers a handler for `GET` requests.
    pub fn register_get_action(&mut self, route: &str, action: A) -> (builder: &mut Self)
        requires
            old(self).wf(),
        ensures
            builder.registered(
                old(self),
                Registration::Action(ActionModel { verb: HttpVerb::Get, route: route@, action }),
            ),
            *final(self) == *final(builder),
    {
        self.register_action(HttpVerb::Get, route, action);
        self
    }

    /// Registers a handler for `POST` requests.
    pub fn register_post_action(&mut self, route: &str, action: A) -> (builder: &mut Self)
        requires
            old(self).wf(),
        ensures
            builder.registered(
                old(self),
                Registration::Action(ActionModel { verb: HttpVerb::Post, route: route@, action }),
            ),
            *final(self) == *final(builder),
    {
        self.register_action(HttpVerb::Post, route, action);
        self
    }

    /// Registers a handler for `PUT` requests.
    pub fn register_put_action(&mut self, route: &str, action: A) -> (builder: &mut Self)
        requires
            old(self).wf(),
        ensures
            builder.registered(
                old(self),
                Registration::Action(ActionModel { verb: HttpVerb::Put, route: route@, action }),
            ),
            *final(self) == *final(builder),
    {
        self.register_action(HttpVerb::Put, route, action);
        self
    }

    /// Registers a handler for `DELETE` requests.
    pub fn register_delete_action(&mut self, route: &str, action: A) -> (builder: &mut Self)
        requires
            old(self).wf(),
        ensures
            builder.registered(
                old(self),
                Registration::Action(
                    ActionModel { verb: HttpVerb::Delete, route: route@, action },
                ),
            ),
            *final(self) == *final(builder),
    {
        self.register_action(HttpVerb::Delete, route, action);
        self
    }

    /// Registers a handler for `OPTIONS` requests.
    pub fn register_options_action(&mut self, route: &str, action: A) -> (builder: &mut Self)
        requires
            old(self).wf(),
        ensures
            builder.registered(
                old(self),
                Registration::Action(
                    ActionModel { verb: HttpVerb::Options, route: route@, action },
                ),
            ),
            *final(self) == *final(builder),
    {
        self.register_action(HttpVerb::Options, route, action);
        self
    }

    /// Hands the servers out, once. The first call moves every registration
    /// into the servers and marks the builder as consumed; any later call
    /// returns no server and changes nothing.
    pub fn build(&mut self) -> (servers: Vec<HttpServer<M, A, F>>)
        ensures
            server_models(servers@) == old(self).servers_to_build(),
            final(self).consumed,
            final(self).same_endpoints(old(self)),
            old(self).consumed ==> final(self).tcp == old(self).tcp && final(self).unix_socket
                == old(self).unix_socket,
            !old(self).consumed ==> final(self).holds_nothing(),
            old(self).wf() ==> final(self).wf(),
    {
        let mut result: Vec<HttpServer<M, A, F>> = Vec::new();
        if self.consumed {
            assert(server_models(result@) =~= old(self).servers_to_build());
            return result;
        }
        match &mut self.unix_socket {
            Some(unix_socket) => {
                let unix_socket_name = http_socket_path(self.app_name.as_str());
                let mut my_http_server = HttpServer::new_as_unix_socket(unix_socket_name);
                unix_socket.build(
                    &mut my_http_server,
                    self.app_name.as_str(),
                    self.app_version.as_str(),
                );
                result.push(my_http_server);
            },
            None => {},
        }
        let mut my_http_server = HttpServer::new(self.listen_address);
        self.tcp.build(&mut my_http_server, self.app_name.as_str(), self.app_version.as_str());
        result.push(my_http_server);
        self.consumed = true;
        assert(server_models(result@) =~= old(self).servers_to_build());
        result
    }
}

/// Two sets of registrations that mirror each other build pipelines that
/// mirror each other: the same stages in the same order, and under every
/// verb and route a clone of the same handler.
pub proof fn lemma_mirrored_registrations_build_mirrored_pipelines<M: Clone, A: Clone, F: Clone>(
    source: ConfigModel<M, A, F>,
    copy: ConfigModel<M, A, F>,
    app_name: Seq<char>,
    app_version: Seq<char>,
)
    requires
        config_mirrors(source, copy),
    ensures
        pipeline_mirrors(source.built(app_name, app_version), copy.built(app_name, app_version)),
{
    let a = source.built(app_name, app_version);
    let b = copy.built(app_name, app_version);
    let a_handlers = source.handler_chain(app_name, app_version);
    let b_handlers = copy.handler_chain(app_name, app_version);
    assert(a_handlers.len() == b_handlers.len());
    assert forall|i: int| 0 <= i < a.len() implies stage_mirrors(#[trigger] a[i], b[i]) by {
        if i < 2 {
        } else if i < 2 + a_handlers.len() {
            assert(a[i] == a_handlers[i - 2]);
            assert(b[i] == b_handlers[i - 2]);
        } else {
            let k = i - 2 - a_handlers.len();
            assert(a[i] == source.custom_chain()[k]);
            assert(b[i] == copy.custom_chain()[k]);
            assert(cloned(source.custom_middlewares[k], copy.custom_middlewares[k]));
        }
    }
}

/// With the local-socket transport on, `build` makes two servers, and the
/// pipeline on the local socket mirrors the pipeline on the network: every
/// handler that was registered once is served by both, at the same place
/// and under the same verb and route.
pub proof fn lemma_both_bindings_serve_the_same<M: Clone, A: Clone, F: Clone>(
    builder: HttpServerBuilder<M, A, F>,
)
    requires
        builder.wf(),
        builder.local_socket_enabled(),
        !builder.consumed,
    ensures
        builder.servers_to_build().len() == 2,
        builder.servers_to_build()[0].binding == TransportBindingModel::LocalSocket(
            http_socket_directory() + builder.app_name@,
        ),
        builder.servers_to_build()[1].binding == TransportBindingModel::Network(
            builder.listen_address,
        ),
        pipeline_mirrors(
            builder.servers_to_build()[1].middlewares,
            builder.servers_to_build()[0].middlewares,
        ),
        builder.servers_to_build()[0].tech_middlewares
            == builder.servers_to_build()[1].tech_middlewares,
{
    let unix_socket = builder.unix_socket->0;
    lemma_mirrored_registrations_build_mirrored_pipelines(
        builder.tcp@,
        unix_socket@,
        builder.app_name@,
        builder.app_version@,
    );
    let local = builder.servers_to_build()[0];
    let network = builder.servers_to_build()[1];
    assert(local.middlewares =~= unix_socket@.built(builder.app_name@, builder.app_version@));
    assert(network.middlewares =~= builder.tcp@.built(builder.app_name@, builder.app_version@));
}

/// With the local-socket transport off, `build` makes exactly one server,
/// and it listens on the network address.
pub proof fn lemma_network_only_without_local_socket<M: Clone, A: Clone, F: Clone>(
    builder: HttpServerBuilder<M, A, F>,
)
    requires
        !builder.local_socket_enabled(),
        !builder.consumed,
    ensures
        builder.servers_to_build().len() == 1,
        builder.servers_to_build()[0].binding == TransportBindingModel::Network(
            builder.listen_address,
        ),
        builder.servers_to_build()[0].middlewares == builder.tcp@.built(
            builder.app_name@,
            builder.app_version@,
        ),
{
    assert(builder.servers_to_build()[0].middlewares =~= builder.tcp@.built(
        builder.app_name@,
        builder.app_version@,
    ));
}

} // verus!
