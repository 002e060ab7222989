//! What one HTTP server is made of, collected before the server exists.

use crate::controllers::{
    ActionModel, ControllersAuthorization, ControllersMiddleware, ControllersModel, HttpVerb,
    RequiredClaimModel,
};
use crate::http_server::{
    stages_reached, HttpServer, Middleware, MiddlewareModel, TechMiddleware,
};
use vstd::prelude::*;

verus! {

/// The registrations for one server. `M` is the caller's type of a
/// middleware, `A` of a handler and `F` of an error factory.
#[derive(Debug, PartialEq, Eq)]
pub struct HttpServerConfig<M, A, F> {
    pub auth_middleware: Option<M>,
    pub custom_middlewares: Vec<M>,
    pub controllers: Option<ControllersMiddleware<A, F>>,
}

/// The registrations for one server as mathematical values.
pub struct ConfigModel<M, A, F> {
    pub auth_middleware: Option<M>,
    pub custom_middlewares: Seq<M>,
    pub controllers: Option<ControllersModel<A, F>>,
}

impl<M, A, F> View for HttpServerConfig<M, A, F> {
    type V = ConfigModel<M, A, F>;

    open spec fn view(&self) -> ConfigModel<M, A, F> {
        ConfigModel {
            auth_middleware: self.auth_middleware,
            custom_middlewares: self.custom_middlewares@,
            controllers: match self.controllers {
                Some(controllers) => Some(controllers@),
                None => None,
            },
        }
    }
}

/// One call of a registration method, as a value.
pub enum Registration<M, A, F> {
    Authorization(Seq<RequiredClaimModel>),
    AuthErrorFactory(F),
    CustomMiddleware(M),
    AuthMiddleware(M),
    Action(ActionModel<A>),
}

impl<M, A, F> ConfigModel<M, A, F> {
    /// Nothing registered.
    pub open spec fn empty() -> Self {
        ConfigModel { auth_middleware: None, custom_middlewares: Seq::empty(), controllers: None }
    }

    /// The handlers registered so far, or handlers without anything if none
    /// exist yet.
    pub open spec fn controllers_or_new(self) -> ControllersModel<A, F> {
        match self.controllers {
            Some(controllers) => controllers,
            None => ControllersModel::new(None, None),
        }
    }

    pub open spec fn with_authorization(self, authorization: Seq<RequiredClaimModel>) -> Self {
        ConfigModel {
            controllers: Some(self.controllers_or_new().with_authorization(authorization)),
            ..self
        }
    }

    pub open spec fn with_auth_error_factory(self, factory: F) -> Self {
        ConfigModel {
            controllers: Some(self.controllers_or_new().with_auth_error_factory(factory)),
            ..self
        }
    }

    pub open spec fn with_custom_middleware(self, middleware: M) -> Self {
        ConfigModel { custom_middlewares: self.custom_middlewares.push(middleware), ..self }
    }

    pub open spec fn with_auth_middleware(self, middleware: M) -> Self {
        ConfigModel { auth_middleware: Some(middleware), ..self }
    }

    pub open spec fn with_action(self, action: ActionModel<A>) -> Self {
        ConfigModel { controllers: Some(self.controllers_or_new().with_action(action)), ..self }
    }

    /// The registrations after one more.
    pub open spec fn after(self, registration: Registration<M, A, F>) -> Self {
        match registration {
            Registration::Authorization(map) => self.with_authorization(map),
            Registration::AuthErrorFactory(factory) => self.with_auth_error_factory(factory),
            Registration::CustomMiddleware(middleware) => self.with_custom_middleware(middleware),
            Registration::AuthMiddleware(middleware) => self.with_auth_middleware(middleware),
            Registration::Action(action) => self.with_action(action),
        }
    }

    /// The registrations after `registrations`, oldest first.
    pub open spec fn after_all(self, registrations: Seq<Registration<M, A, F>>) -> Self
        decreases registrations.len(),
    {
        if registrations.len() == 0 {
            self
        } else {
            self.after_all(registrations.drop_last()).after(registrations.last())
        }
    }

    /// The two stages in front of every pipeline.
    pub open spec fn probes(app_name: Seq<char>, app_version: Seq<char>) -> Seq<
        MiddlewareModel<M, A, F>,
    > {
        seq![MiddlewareModel::IsAlive { app_name, app_version }, MiddlewareModel::Metrics]
    }

    /// The authorization middleware as a stage, if one was added.
    pub open spec fn authorization_stage(self) -> Seq<MiddlewareModel<M, A, F>> {
        match self.auth_middleware {
            Some(middleware) => seq![MiddlewareModel::Authorization(middleware)],
            None => Seq::empty(),
        }
    }

    /// Documentation, authorization and handlers. They exist once anything
    /// was registered with the handlers.
    pub open spec fn handler_chain(self, app_name: Seq<char>, app_version: Seq<char>) -> Seq<
        MiddlewareModel<M, A, F>,
    > {
        match self.controllers {
            Some(controllers) => seq![MiddlewareModel::Swagger { app_name, app_version }]
                + self.authorization_stage() + seq![MiddlewareModel::Controllers(controllers)],
            None => Seq::empty(),
        }
    }

    /// The caller's middlewares as stages, in the order they were added.
    pub open spec fn custom_chain(self) -> Seq<MiddlewareModel<M, A, F>> {
        self.custom_middlewares.map_values(|middleware: M| MiddlewareModel::Custom(middleware))
    }

    /// The pipeline that `build` makes of the registrations: the liveness
    /// probe, the metrics, then documentation, authorization and handlers,
    /// and behind this fixed chain the caller's middlewares.
    pub open spec fn built(self, app_name: Seq<char>, app_version: Seq<char>) -> Seq<
        MiddlewareModel<M, A, F>,
    > {
        Self::probes(app_name, app_version) + self.handler_chain(app_name, app_version)
            + self.custom_chain()
    }
}

impl<M, A, F> Default for HttpServerConfig<M, A, F> {
    fn default() -> (config: Self)
        ensures
            config@ == ConfigModel::<M, A, F>::empty(),
    {
        HttpServerConfig::new()
    }
}

impl<M, A, F> HttpServerConfig<M, A, F> {
    /// Nothing registered.
    pub fn new() -> (config: Self)
        ensures
            config@ == ConfigModel::<M, A, F>::empty(),
    {
        HttpServerConfig {
            auth_middleware: None,
            custom_middlewares: Vec::new(),
            controllers: None,
        }
    }

    /// Sets the authorization map, or adds the entries of `authorization`
    /// to the one that is set.
    pub fn set_authorization(&mut self, authorization: ControllersAuthorization)
        ensures
            final(self)@ == old(self)@.with_authorization(authorization@),
    {
        match &mut self.controllers {
            Some(controllers) => {
                controllers.update_authorization_map(authorization);
            },
            None => {
                let mut controllers = ControllersMiddleware::new(None, None);
                controllers.update_authorization_map(authorization);
                self.controllers = Some(controllers);
            },
        }
    }

    /// Installs the factory that answers requests which fail authorization.
    pub fn set_auth_error_factory(&mut self, value: F)
        ensures
            final(self)@ == old(self)@.with_auth_error_factory(value),
    {
        match &mut self.controllers {
            Some(controllers) => {
                controllers.update_auth_error_factory(value);
            },
            None => {
                self.controllers = Some(ControllersMiddleware::new(None, Some(value)));
            },
        }
    }

    /// Adds a middleware of the caller. It runs behind the fixed chain and
    /// behind the middlewares added before it.
    pub fn register_custom_middleware(&mut self, middleware: M)
        ensures
            final(self)@ == old(self)@.with_custom_middleware(middleware),
    {
        self.custom_middlewares.push(middleware);
    }

    /// Sets the middleware that authorizes requests before they reach a
    /// handler. A later call replaces it.
    pub fn add_auth_middleware(&mut self, middleware: M)
        ensures
            final(self)@ == old(self)@.with_auth_middleware(middleware),
    {
        self.auth_middleware = Some(middleware);
    }

    /// Registers a handler for `verb` and `route`.
    pub fn register_action(&mut self, verb: HttpVerb, route: &str, action: A)
        ensures
            final(self)@ == old(self)@.with_action(ActionModel { verb, route: route@, action }),
    {
        match &mut self.controllers {
            Some(controllers) => {
                controllers.register_action(verb, route, action);
            },
            None => {
                let mut controllers = ControllersMiddleware::new(None, None);
                controllers.register_action(verb, route, action);
                self.controllers = Some(controllers);
            },
        }
    }

    /// Registers a handler for `GET` requests.
    pub fn register_get_action(&mut self, route: &str, action: A)
        ensures
            final(self)@ == old(self)@.with_action(
                ActionModel { verb: HttpVerb::Get, route: route@, action },
            ),
    {
        self.register_action(HttpVerb::Get, route, action);
    }

    /// Registers a handler for `POST` requests.
    pub fn register_post_action(&mut self, route: &str, action: A)
        ensures
            final(self)@ == old(self)@.with_action(
                ActionModel { verb: HttpVerb::Post, route: route@, action },
            ),
    {
        self.register_action(HttpVerb::Post, route, action);
    }

    /// Registers a handler for `PUT` requests.
    pub fn register_put_action(&mut self, route: &str, action: A)
        ensures
            final(self)@ == old(self)@.with_action(
                ActionModel { verb: HttpVerb::Put, route: route@, action },
            ),
    {
        self.register_action(HttpVerb::Put, route, action);
    }

    /// Registers a handler for `DELETE` requests.
    pub fn register_delete_action(&mut self, route: &str, action: A)
        ensures
            final(self)@ == old(self)@.with_action(
                ActionModel { verb: HttpVerb::Delete, route: route@, action },
            ),
    {
        self.register_action(HttpVerb::Delete, route, action);
    }

    /// Registers a handler for `OPTIONS` requests.
    pub fn register_options_action(&mut self, route: &str, action: A)
        ensures
            final(self)@ == old(self)@.with_action(
                ActionModel { verb: HttpVerb::Options, route: route@, action },
            ),
    {
        self.register_action(HttpVerb::Options, route, action);
    }

    /// Moves the registrations into `my_http_server` as its pipeline, in
    /// the fixed order, and adds the metrics observer. Nothing is left in
    /// the configuration.
    pub fn build(
        &mut self,
        my_http_server: &mut HttpServer<M, A, F>,
        app_name: &str,
        app_version: &str,
    )
        ensures
            final(my_http_server)@ == old(my_http_server)@.with_middlewares(
                old(self)@.built(app_name@, app_version@),
            ).with_tech_middleware(TechMiddleware::Metrics),
            final(self)@ == ConfigModel::<M, A, F>::empty(),
    {
        let ghost before = my_http_server@;
        let ghost config = self@;
        my_http_server.add_middleware(
            Middleware::IsAlive {
                app_name: String::from_str(app_name),
                app_version: String::from_str(app_version),
            },
        );
        my_http_server.add_middleware(Middleware::Metrics);
        my_http_server.add_tech_middleware(TechMiddleware::Metrics);
        assert(my_http_server@.middlewares =~= before.middlewares + ConfigModel::<
            M,
            A,
            F,
        >::probes(app_name@, app_version@));

        let auth_middleware = self.auth_middleware.take();
        match self.controllers.take() {
            Some(controllers) => {
                my_http_server.add_middleware(
                    Middleware::Swagger {
                        app_name: String::from_str(app_name),
                        app_version: String::from_str(app_version),
                    },
                );
                match auth_middleware {
                    Some(middleware) => {
                        my_http_server.add_middleware(Middleware::Authorization(middleware));
                    },
                    None => {},
                }
                my_http_server.add_middleware(Middleware::Controllers(controllers));
            },
            None => {},
        }
        assert(my_http_server@.middlewares =~= before.middlewares + ConfigModel::<
            M,
            A,
            F,
        >::probes(app_name@, app_version@) + config.handler_chain(app_name@, app_version@));

        let mut customs: Vec<M> = Vec::new();
        std::mem::swap(&mut customs, &mut self.custom_middlewares);
        let ghost fixed = my_http_server@.middlewares;
        let ghost chain = config.custom_chain();
        for middleware in iter: customs
            invariant
                iter.seq() == config.custom_middlewares,
                chain == config.custom_chain(),
                my_http_server@.binding == before.binding,
                my_http_server@.tech_middlewares == before.tech_middlewares.push(
                    TechMiddleware::Metrics,
                ),
                my_http_server@.middlewares == fixed + chain.take(iter.index() as int),
        {
            let ghost done = iter.index() as int;
            my_http_server.add_middleware(Middleware::Custom(middleware));
            assert(chain[done] == MiddlewareModel::<M, A, F>::Custom(middleware));
            assert(chain.take(done + 1) =~= chain.take(done).push(chain[done]));
            assert(my_http_server@.middlewares =~= fixed + chain.take(done + 1));
        }
        assert(chain.take(config.custom_middlewares.len() as int) =~= chain);
        assert(my_http_server@.middlewares =~= before.middlewares + config.built(
            app_name@,
            app_version@,
        ));
    }
}

/// The caller's middlewares among `registrations`, in the order they were
/// added.
pub open spec fn registered_customs<M, A, F>(registrations: Seq<Registration<M, A, F>>) -> Seq<M>
    decreases registrations.len(),
{
    if registrations.len() == 0 {
        Seq::empty()
    } else {
        let earlier = registered_customs(registrations.drop_last());
        match registrations.last() {
            Registration::CustomMiddleware(middleware) => earlier.push(middleware),
            _ => earlier,
        }
    }
}

/// True when `registrations` holds a registration with the handlers: a
/// handler, an authorization map or an error factory.
pub open spec fn registers_with_handlers<M, A, F>(
    registrations: Seq<Registration<M, A, F>>,
) -> bool {
    exists|i: int|
        0 <= i < registrations.len() && ((#[trigger] registrations[i]) is Authorization
            || registrations[i] is AuthErrorFactory || registrations[i] is Action)
}

/// True when `registrations` holds an authorization middleware.
pub open spec fn registers_auth_middleware<M, A, F>(
    registrations: Seq<Registration<M, A, F>>,
) -> bool {
    exists|i: int| 0 <= i < registrations.len() && (#[trigger] registrations[i]) is AuthMiddleware
}

/// In every pipeline that `build` makes, the stages stand in the fixed
/// order: the liveness probe first, the metrics second, then documentation,
/// authorization and handlers, each at most once, and the caller's
/// middlewares behind all of them.
pub proof fn lemma_pipeline_has_fixed_order<M, A, F>(
    config: ConfigModel<M, A, F>,
    app_name: Seq<char>,
    app_version: Seq<char>,
)
    ensures
        config.built(app_name, app_version).len() >= 2,
        config.built(app_name, app_version)[0] == (MiddlewareModel::<M, A, F>::IsAlive {
            app_name,
            app_version,
        }),
        config.built(app_name, app_version)[1] == MiddlewareModel::<M, A, F>::Metrics,
        forall|i: int, j: int|
            0 <= i < j < config.built(app_name, app_version).len() ==> (#[trigger] config.built(
                app_name,
                app_version,
            )[i]).rank() <= (#[trigger] config.built(app_name, app_version)[j]).rank(),
        forall|i: int, j: int|
            0 <= i < j < config.built(app_name, app_version).len() && (#[trigger] config.built(
                app_name,
                app_version,
            )[j]).is_built_in() ==> (#[trigger] config.built(app_name, app_version)[i]).rank()
                < config.built(app_name, app_version)[j].rank(),
{
    let probes = ConfigModel::<M, A, F>::probes(app_name, app_version);
    let handlers = config.handler_chain(app_name, app_version);
    let customs = config.custom_chain();
    let pipeline = config.built(app_name, app_version);
    assert(pipeline =~= probes + handlers + customs);
    assert forall|k: int| 0 <= k < pipeline.len() implies {
        &&& k < 2 ==> (#[trigger] pipeline[k]).rank() == k
        &&& 2 <= k < 2 + handlers.len() ==> 2 <= pipeline[k].rank() <= 4 && pipeline[k]
            == handlers[k - 2]
        &&& 2 + handlers.len() <= k ==> pipeline[k].rank() == 5
    } by {
        if k < 2 {
            assert(pipeline[k] == probes[k]);
        } else if k < 2 + handlers.len() {
            assert(pipeline[k] == handlers[k - 2]);
        } else {
            assert(pipeline[k] == customs[k - 2 - handlers.len()]);
        }
    }
    assert forall|i: int, j: int|
        2 <= i < j < 2 + handlers.len() implies (#[trigger] pipeline[i]).rank() < (
    #[trigger] pipeline[j]).rank() by {
        assert(pipeline[i] == handlers[i - 2]);
        assert(pipeline[j] == handlers[j - 2]);
    }
}

/// In every pipeline that `build` makes, the liveness probe stands in
/// front, and it is the only stage that a request passes which the probe
/// answers: such a request reaches neither the metrics nor documentation,
/// authorization, a handler or a middleware of the caller.
pub proof fn lemma_liveness_probe_answers_first<M, A, F>(
    config: ConfigModel<M, A, F>,
    app_name: Seq<char>,
    app_version: Seq<char>,
)
    ensures
        config.built(app_name, app_version)[0] is IsAlive,
        stages_reached(config.built(app_name, app_version), 0) == seq![
            MiddlewareModel::<M, A, F>::IsAlive { app_name, app_version },
        ],
        forall|i: int|
            0 < i < config.built(app_name, app_version).len() ==> !(#[trigger] config.built(
                app_name,
                app_version,
            )[i] is IsAlive),
{
    lemma_pipeline_has_fixed_order(config, app_name, app_version);
    let pipeline = config.built(app_name, app_version);
    assert(stages_reached(pipeline, 0) =~= seq![pipeline[0]]);
    assert forall|i: int| 0 < i < pipeline.len() implies !(#[trigger] pipeline[i] is IsAlive) by {
        assert(pipeline[0].rank() < pipeline[i].rank() || pipeline[i].rank() == 5);
    }
}

/// Whatever the registrations and whatever their order, the caller's
/// middlewares are the ones that were added, in the order they were added.
pub proof fn lemma_customs_keep_registration_order<M, A, F>(
    start: ConfigModel<M, A, F>,
    registrations: Seq<Registration<M, A, F>>,
)
    ensures
        start.after_all(registrations).custom_middlewares == start.custom_middlewares
            + registered_customs(registrations),
    decreases registrations.len(),
{
    if registrations.len() == 0 {
        assert(start.custom_middlewares + registered_customs(registrations)
            =~= start.custom_middlewares);
    } else {
        lemma_customs_keep_registration_order(start, registrations.drop_last());
        assert(start.after_all(registrations).custom_middlewares =~= start.custom_middlewares
            + registered_customs(registrations));
    }
}

/// Whatever the registrations and whatever their order, handlers exist
/// exactly when something was registered with them, and the authorization
/// middleware is set exactly when one was added.
pub proof fn lemma_stages_depend_on_what_was_registered<M, A, F>(
    registrations: Seq<Registration<M, A, F>>,
)
    ensures
        ConfigModel::<M, A, F>::empty().after_all(registrations).controllers is Some
            <==> registers_with_handlers(registrations),
        ConfigModel::<M, A, F>::empty().after_all(registrations).auth_middleware is Some
            <==> registers_auth_middleware(registrations),
    decreases registrations.len(),
{
    if registrations.len() > 0 {
        let earlier = registrations.drop_last();
        let last = registrations.len() - 1;
        lemma_stages_depend_on_what_was_registered(earlier);
        if registers_with_handlers(earlier) {
            let i = choose|i: int|
                0 <= i < earlier.len() && ((#[trigger] earlier[i]) is Authorization || earlier[i]
                    is AuthErrorFactory || earlier[i] is Action);
            assert(registrations[i] == earlier[i]);
        }
        if registers_with_handlers(registrations) {
            let i = choose|i: int|
                0 <= i < registrations.len() && ((#[trigger] registrations[i]) is Authorization
                    || registrations[i] is AuthErrorFactory || registrations[i] is Action);
            if i < last {
                assert(earlier[i] == registrations[i]);
            }
        }
        if registers_auth_middleware(earlier) {
            let i = choose|i: int|
                0 <= i < earlier.len() && (#[trigger] earlier[i]) is AuthMiddleware;
            assert(registrations[i] == earlier[i]);
        }
        if registers_auth_middleware(registrations) {
            let i = choose|i: int|
                0 <= i < registrations.len() && (#[trigger] registrations[i]) is AuthMiddleware;
            if i < last {
                assert(earlier[i] == registrations[i]);
            }
        }
        assert(registrations[last] == registrations.last());
    }
}

/// The pipeline built after any registrations, in any order, is the fixed
/// chain followed by the caller's middlewares in the order they were added.
pub proof fn lemma_order_is_independent_of_registration_order<M, A, F>(
    registrations: Seq<Registration<M, A, F>>,
    app_name: Seq<char>,
    app_version: Seq<char>,
)
    ensures
        ({
            let config = ConfigModel::<M, A, F>::empty().after_all(registrations);
            config.built(app_name, app_version) == ConfigModel::<M, A, F>::probes(
                app_name,
                app_version,
            ) + config.handler_chain(app_name, app_version) + registered_customs(
                registrations,
            ).map_values(|middleware: M| MiddlewareModel::<M, A, F>::Custom(middleware))
        }),
{
    let start = ConfigModel::<M, A, F>::empty();
    lemma_customs_keep_registration_order(start, registrations);
    assert(start.custom_middlewares + registered_customs(registrations) =~= registered_customs(
        registrations,
    ));
}

} // verus!
