//! A server as the builders describe it: where it listens and which
//! middlewares a request passes, in order.
//!
//! A request visits the middlewares front to back. Each may answer it, which
//! ends the visit, or pass it on.

use crate::controllers::{ControllersMiddleware, ControllersModel};
use crate::transport::{ListenAddress, TransportBinding, TransportBindingModel};
use vstd::prelude::*;

verus! {

/// One stage of the request pipeline. `M` is the caller's type of a
/// middleware, `A` of a handler and `F` of an error factory.
#[derive(Debug, PartialEq, Eq)]
pub enum Middleware<M, A, F> {
    /// Answers the liveness probe from the state of the application.
    IsAlive { app_name: String, app_version: String },
    /// Serves the metrics report.
    Metrics,
    /// Serves the description of the registered routes.
    Swagger { app_name: String, app_version: String },
    /// The middleware that authorizes requests before they reach a handler.
    Authorization(M),
    /// Checks the authorization map and runs the registered handlers.
    Controllers(ControllersMiddleware<A, F>),
    /// A middleware that the caller registered.
    Custom(M),
}

/// A stage of the pipeline as a mathematical value.
pub enum MiddlewareModel<M, A, F> {
    IsAlive { app_name: Seq<char>, app_version: Seq<char> },
    Metrics,
    Swagger { app_name: Seq<char>, app_version: Seq<char> },
    Authorization(M),
    Controllers(ControllersModel<A, F>),
    Custom(M),
}

impl<M, A, F> View for Middleware<M, A, F> {
    type V = MiddlewareModel<M, A, F>;

    open spec fn view(&self) -> MiddlewareModel<M, A, F> {
        match self {
            Middleware::IsAlive { app_name, app_version } => MiddlewareModel::IsAlive {
                app_name: app_name@,
                app_version: app_version@,
            },
            Middleware::Metrics => MiddlewareModel::Metrics,
            Middleware::Swagger { app_name, app_version } => MiddlewareModel::Swagger {
                app_name: app_name@,
                app_version: app_version@,
            },
            Middleware::Authorization(middleware) => MiddlewareModel::Authorization(*middleware),
            Middleware::Controllers(controllers) => MiddlewareModel::Controllers(controllers@),
            Middleware::Custom(middleware) => MiddlewareModel::Custom(*middleware),
        }
    }
}

impl<M, A, F> MiddlewareModel<M, A, F> {
    /// Place of the stage in the fixed order: liveness, metrics,
    /// documentation, authorization, handlers, and then whatever the caller
    /// added.
    pub open spec fn rank(self) -> nat {
        match self {
            MiddlewareModel::IsAlive { .. } => 0,
            MiddlewareModel::Metrics => 1,
            MiddlewareModel::Swagger { .. } => 2,
            MiddlewareModel::Authorization(_) => 3,
            MiddlewareModel::Controllers(_) => 4,
            MiddlewareModel::Custom(_) => 5,
        }
    }

    /// True for the stages that the builder adds by itself.
    pub open spec fn is_built_in(self) -> bool {
        !(self is Custom)
    }
}

/// The stages as models, front to back.
pub open spec fn middleware_models<M, A, F>(stages: Seq<Middleware<M, A, F>>) -> Seq<
    MiddlewareModel<M, A, F>,
> {
    stages.map_values(|stage: Middleware<M, A, F>| stage@)
}

/// The stages that a request passes when the stage at position
/// `answering` is the first to answer it: that stage and the ones in front
/// of it.
pub open spec fn stages_reached<M, A, F>(
    pipeline: Seq<MiddlewareModel<M, A, F>>,
    answering: int,
) -> Seq<MiddlewareModel<M, A, F>> {
    pipeline.take(answering + 1)
}

/// An observer that sees every request with its result, after the pipeline
/// is through with it.
#[derive(Clone, Copy, Debug, PartialEq, Eq, Structural)]
pub enum TechMiddleware {
    /// Records the request in the metrics.
    Metrics,
}

/// A server that is ready to be started.
#[derive(Debug, PartialEq, Eq)]
pub struct HttpServer<M, A, F> {
    pub binding: TransportBinding,
    pub middlewares: Vec<Middleware<M, A, F>>,
    pub tech_middlewares: Vec<TechMiddleware>,
}

/// A server as a mathematical value.
pub struct HttpServerModel<M, A, F> {
    pub binding: TransportBindingModel,
    pub middlewares: Seq<MiddlewareModel<M, A, F>>,
    pub tech_middlewares: Seq<TechMiddleware>,
}

impl<M, A, F> View for HttpServer<M, A, F> {
    type V = HttpServerModel<M, A, F>;

    open spec fn view(&self) -> HttpServerModel<M, A, F> {
        HttpServerModel {
            binding: self.binding@,
            middlewares: middleware_models(self.middlewares@),
            tech_middlewares: self.tech_middlewares@,
        }
    }
}

/// The servers as models, in order.
pub open spec fn server_models<M, A, F>(servers: Seq<HttpServer<M, A, F>>) -> Seq<
    HttpServerModel<M, A, F>,
> {
    servers.map_values(|server: HttpServer<M, A, F>| server@)
}

impl<M, A, F> HttpServerModel<M, A, F> {
    /// A server at `binding` without any stage.
    pub open spec fn bare(binding: TransportBindingModel) -> Self {
        HttpServerModel { binding, middlewares: Seq::empty(), tech_middlewares: Seq::empty() }
    }

    /// The server with `stages` behind the ones it has.
    pub open spec fn with_middlewares(self, stages: Seq<MiddlewareModel<M, A, F>>) -> Self {
        HttpServerModel { middlewares: self.middlewares + stages, ..self }
    }

    /// The server with one more observer.
    pub open spec fn with_tech_middleware(self, observer: TechMiddleware) -> Self {
        HttpServerModel { tech_middlewares: self.tech_middlewares.push(observer), ..self }
    }
}

impl<M, A, F> HttpServer<M, A, F> {
    /// A server on a network address, without any stage.
    pub fn new(address: ListenAddress) -> (server: Self)
        ensures
            server@ == HttpServerModel::<M, A, F>::bare(TransportBindingModel::Network(address)),
    {
        let server = HttpServer {
            binding: TransportBinding::Network(address),
            middlewares: Vec::new(),
            tech_middlewares: Vec::new(),
        };
        assert(server@.middlewares =~= Seq::empty());
        server
    }

    /// A server on a local socket, without any stage.
    pub fn new_as_unix_socket(path: String) -> (server: Self)
        ensures
            server@ == HttpServerModel::<M, A, F>::bare(TransportBindingModel::LocalSocket(path@)),
    {
        let server = HttpServer {
            binding: TransportBinding::LocalSocket(path),
            middlewares: Vec::new(),
            tech_middlewares: Vec::new(),
        };
        assert(server@.middlewares =~= Seq::empty());
        server
    }

    /// Puts `middleware` behind the stages that the server has.
    pub fn add_middleware(&mut self, middleware: Middleware<M, A, F>)
        ensures
            final(self)@ == old(self)@.with_middlewares(seq![middleware@]),
    {
        self.middlewares.push(middleware);
        assert(self@.middlewares =~= old(self)@.middlewares + seq![middleware@]);
    }

    /// Adds an observer.
    pub fn add_tech_middleware(&mut self, observer: TechMiddleware)
        ensures
            final(self)@ == old(self)@.with_tech_middleware(observer),
    {
        self.tech_middlewares.push(observer);
    }
}

} // verus!
