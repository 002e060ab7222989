//! The coordinator of an application: it owns the builders and the
//! application state, and decides what is started and in which order.
//!
//! The coordinator performs no step by itself. It hands out the steps, and
//! whoever runs the application performs them one after the other.

use crate::app_states::{ApplicationState, LifecycleEvent};
use crate::builders::grpc_server_builder::{
    listener_models, GrpcListener, GrpcServerBuilder, ListenerModel,
};
use crate::builders::http_server_builder::HttpServerBuilder;
use crate::consts::DEFAULT_HTTP_PORT;
use crate::http_server::{server_models, HttpServer};
use crate::transport::{IpAddress, ListenAddress};
use vstd::prelude::*;

verus! {

/// The optional subsystems that the application was built with.
#[derive(Clone, Copy, Debug, PartialEq, Eq, Structural)]
pub struct Capabilities {
    /// Secure transport, which needs a crypto provider.
    pub secure_transport: bool,
    /// The client of the structured storage.
    pub structured_storage: bool,
    /// The client of the publish and subscribe service.
    pub pub_sub: bool,
}

/// A timer: an interval and the callbacks that run once per interval, each
/// under its name. `T` is the caller's type of a callback.
#[derive(Debug, PartialEq, Eq)]
pub struct BackgroundTimer<T> {
    pub interval_micros: u64,
    pub callbacks: Vec<(String, T)>,
}

/// A timer as a mathematical value.
pub struct TimerModel<T> {
    pub interval_micros: u64,
    pub callbacks: Seq<(Seq<char>, T)>,
}

impl<T> View for BackgroundTimer<T> {
    type V = TimerModel<T>;

    open spec fn view(&self) -> TimerModel<T> {
        TimerModel {
            interval_micros: self.interval_micros,
            callbacks: self.callbacks@.map_values(|entry: (String, T)| (entry.0@, entry.1)),
        }
    }
}

impl<T> TimerModel<T> {
    /// A timer without callbacks.
    pub open spec fn new(interval_micros: u64) -> Self {
        TimerModel { interval_micros, callbacks: Seq::empty() }
    }
}

impl<T> BackgroundTimer<T> {
    /// A timer without callbacks.
    pub fn new(interval_micros: u64) -> (timer: Self)
        ensures
            timer@ == TimerModel::<T>::new(interval_micros),
    {
        let timer = BackgroundTimer { interval_micros, callbacks: Vec::new() };
        assert(timer@.callbacks =~= Seq::empty());
        timer
    }

    /// Adds a callback under `name`. Callbacks run in the order they were
    /// added.
    pub fn register_timer(&mut self, name: &str, callback: T)
        ensures
            final(self)@.interval_micros == old(self)@.interval_micros,
            final(self)@.callbacks == old(self)@.callbacks.push((name@, callback)),
    {
        self.callbacks.push((String::from_str(name), callback));
        assert(self@.callbacks =~= old(self)@.callbacks.push((name@, callback)));
    }
}

/// One step of bringing the application up.
#[derive(Debug, PartialEq, Eq)]
pub enum StartupStep<S> {
    /// Install the metrics registry and exporter.
    InstallMetricsExporter,
    /// Install the crypto provider of the secure transport.
    InstallCryptoProvider,
    /// Publish the application state `Initialized`.
    MarkInitialized,
    /// Start the flush loop of the telemetry writer.
    StartTelemetryWriter,
    /// Start the loop of the timer at this position.
    StartTimer(usize),
    /// Start the connection loop of the structured storage client.
    StartStructuredStorage,
    /// Start the connection loop of the publish and subscribe client.
    StartPubSub,
    /// Start the HTTP server at this position, with HTTP/2 framing or
    /// without.
    StartHttpServer { index: usize, http2: bool },
    /// Start this gRPC listener.
    StartGrpcListener(GrpcListener<S>),
    /// Wait until the application state reads `ShuttingDown`.
    WaitUntilShutdown,
}

/// A step as a mathematical value.
pub enum StepModel<S> {
    InstallMetricsExporter,
    InstallCryptoProvider,
    MarkInitialized,
    StartTelemetryWriter,
    StartTimer(usize),
    StartStructuredStorage,
    StartPubSub,
    StartHttpServer { index: usize, http2: bool },
    StartGrpcListener(ListenerModel<S>),
    WaitUntilShutdown,
}

impl<S> View for StartupStep<S> {
    type V = StepModel<S>;

    open spec fn view(&self) -> StepModel<S> {
        match self {
            StartupStep::InstallMetricsExporter => StepModel::InstallMetricsExporter,
            StartupStep::InstallCryptoProvider => StepModel::InstallCryptoProvider,
            StartupStep::MarkInitialized => StepModel::MarkInitialized,
            StartupStep::StartTelemetryWriter => StepModel::StartTelemetryWriter,
            StartupStep::StartTimer(index) => StepModel::StartTimer(*index),
            StartupStep::StartStructuredStorage => StepModel::StartStructuredStorage,
            StartupStep::StartPubSub => StepModel::StartPubSub,
            StartupStep::StartHttpServer { index, http2 } => StepModel::StartHttpServer {
                index: *index,
                http2: *http2,
            },
            StartupStep::StartGrpcListener(listener) => StepModel::StartGrpcListener(listener@),
            StartupStep::WaitUntilShutdown => StepModel::WaitUntilShutdown,
        }
    }
}

impl<S> StepModel<S> {
    /// The place of the step in the startup sequence, from 1 to 10.
    pub open spec fn phase(self) -> nat {
        match self {
            StepModel::InstallMetricsExporter => 1,
            StepModel::InstallCryptoProvider => 2,
            StepModel::MarkInitialized => 3,
            StepModel::StartTelemetryWriter => 4,
            StepModel::StartTimer(_) => 5,
            StepModel::StartStructuredStorage => 6,
            StepModel::StartPubSub => 7,
            StepModel::StartHttpServer { .. } => 8,
            StepModel::StartGrpcListener(_) => 9,
            StepModel::WaitUntilShutdown => 10,
        }
    }
}

/// The steps as models, in order.
pub open spec fn step_models<S>(steps: Seq<StartupStep<S>>) -> Seq<StepModel<S>> {
    steps.map_values(|step: StartupStep<S>| step@)
}

/// The steps taken when the coordinator is constructed: the metrics
/// exporter, and the crypto provider where secure transport is built in.
pub open spec fn installation_sequence<S>(capabilities: Capabilities) -> Seq<StepModel<S>> {
    seq![StepModel::InstallMetricsExporter] + (if capabilities.secure_transport {
        seq![StepModel::InstallCryptoProvider]
    } else {
        Seq::empty()
    })
}

/// One step for each of `count` timers, in registration order.
pub open spec fn timer_steps<S>(count: nat) -> Seq<StepModel<S>> {
    Seq::new(count, |i: int| StepModel::StartTimer(i as usize))
}

/// The steps for the clients that are built in: the structured storage
/// first, publish and subscribe second.
pub open spec fn client_steps<S>(capabilities: Capabilities) -> Seq<StepModel<S>> {
    (if capabilities.structured_storage {
        seq![StepModel::StartStructuredStorage]
    } else {
        Seq::empty()
    }) + (if capabilities.pub_sub {
        seq![StepModel::StartPubSub]
    } else {
        Seq::empty()
    })
}

/// One step for each of `count` HTTP servers, all with the same framing.
pub open spec fn http_steps<S>(count: nat, http2: bool) -> Seq<StepModel<S>> {
    Seq::new(count, |i: int| StepModel::StartHttpServer { index: i as usize, http2 })
}

/// One step for each gRPC listener.
pub open spec fn grpc_steps<S>(listeners: Seq<ListenerModel<S>>) -> Seq<StepModel<S>> {
    listeners.map_values(|listener: ListenerModel<S>| StepModel::StartGrpcListener(listener))
}

/// The steps of starting an application with `timers` timers,
/// `http_servers` HTTP servers and the gRPC listeners `listeners`: the
/// state is published, then telemetry, timers and clients start, then the
/// listeners, and the last step waits for the shutdown.
pub open spec fn start_sequence<S>(
    capabilities: Capabilities,
    timers: nat,
    http_servers: nat,
    http2: bool,
    listeners: Seq<ListenerModel<S>>,
) -> Seq<StepModel<S>> {
    seq![StepModel::MarkInitialized, StepModel::StartTelemetryWriter] + timer_steps(timers)
        + client_steps(capabilities) + http_steps(http_servers, http2) + grpc_steps(listeners)
        + seq![StepModel::WaitUntilShutdown]
}

/// True when `toggle`, the value of the `HTTP2` variable, asks for HTTP/2
/// framing: the variable is set, to whatever.
pub open spec fn http2_enabled(toggle: Option<&str>) -> bool {
    toggle is Some
}

/// The name under which the application `app_name` subscribes with
/// `suffix`: the name of the application with the suffix behind it.
pub fn subscriber_name(app_name: &str, suffix: &str) -> (name: String)
    ensures
        name@ == app_name@ + suffix@,
{
    String::from_str(app_name).concat(suffix)
}

/// The coordinator of one application. `M`, `A` and `F` are the caller's
/// types of a middleware, a handler and an error factory, `S` of a gRPC
/// service and `T` of a timer callback.
#[derive(Debug)]
pub struct ServiceContext<M, A, F, S, T> {
    pub http_server_builder: HttpServerBuilder<M, A, F>,
    /// The HTTP servers, once the application was started.
    pub http_servers: Vec<HttpServer<M, A, F>>,
    pub app_states: ApplicationState,
    pub app_name: String,
    pub app_version: String,
    pub background_timers: Vec<BackgroundTimer<T>>,
    /// The builder of the gRPC listeners, once it was configured.
    pub grpc_server_builder: Option<GrpcServerBuilder<S>>,
    pub capabilities: Capabilities,
    pub unix_socket_enabled: bool,
}

impl<M: Clone, A: Clone, F: Clone, S: Clone, T> ServiceContext<M, A, F, S, T> {
    /// The invariant of the coordinator: those of its builders.
    pub open spec fn wf(&self) -> bool {
        &&& self.http_server_builder.wf()
        &&& match self.grpc_server_builder {
            Some(builder) => builder.wf(),
            None => true,
        }
    }

    /// True when `self` and `other` agree in all but the HTTP builder.
    pub open spec fn same_but_http_builder(&self, other: &Self) -> bool {
        &&& self.http_servers == other.http_servers
        &&& self.app_states == other.app_states
        &&& self.app_name == other.app_name
        &&& self.app_version == other.app_version
        &&& self.background_timers == other.background_timers
        &&& self.grpc_server_builder == other.grpc_server_builder
        &&& self.capabilities == other.capabilities
        &&& self.unix_socket_enabled == other.unix_socket_enabled
    }

    /// True when `self` and `other` agree in all but the gRPC builder.
    pub open spec fn same_but_grpc_builder(&self, other: &Self) -> bool {
        &&& self.http_server_builder == other.http_server_builder
        &&& self.http_servers == other.http_servers
        &&& self.app_states == other.app_states
        &&& self.app_name == other.app_name
        &&& self.app_version == other.app_version
        &&& self.background_timers == other.background_timers
        &&& self.capabilities == other.capabilities
        &&& self.unix_socket_enabled == other.unix_socket_enabled
    }

    /// True when `self` and `other` agree in all but the timers.
    pub open spec fn same_but_timers(&self, other: &Self) -> bool {
        &&& self.http_server_builder == other.http_server_builder
        &&& self.http_servers == other.http_servers
        &&& self.app_states == other.app_states
        &&& self.app_name == other.app_name
        &&& self.app_version == other.app_version
        &&& self.grpc_server_builder == other.grpc_server_builder
        &&& self.capabilities == other.capabilities
        &&& self.unix_socket_enabled == other.unix_socket_enabled
    }

    /// The gRPC listeners that starting the application hands out: those of
    /// the gRPC builder, if it was configured.
    pub open spec fn listeners_to_start(&self, grpc_port: Option<&str>) -> Seq<ListenerModel<S>> {
        match self.grpc_server_builder {
            Some(builder) => builder.listeners_to_start(self.app_name@, grpc_port),
            None => Seq::empty(),
        }
    }

    /// The steps that `start_application` hands out: none once the
    /// application is shutting down, because no new work begins then; else
    /// the whole start sequence.
    pub open spec fn steps_to_start(&self, http2: Option<&str>, grpc_port: Option<&str>) -> Seq<
        StepModel<S>,
    > {
        if self.app_states == ApplicationState::ShuttingDown {
            Seq::empty()
        } else {
            start_sequence(
                self.capabilities,
                self.background_timers@.len(),
                self.http_server_builder.servers_to_build().len(),
                http2_enabled(http2),
                self.listeners_to_start(grpc_port),
            )
        }
    }

    /// What a start leaves of the coordinator `before`: the application is
    /// initialized, the HTTP servers are built and kept, both builders are
    /// consumed, and the rest is as it was.
    pub open spec fn started_from(&self, before: &Self) -> bool {
        &&& self.app_states == ApplicationState::Initialized
        &&& server_models(self.http_servers@) == before.http_server_builder.servers_to_build()
        &&& self.http_server_builder.consumed
        &&& self.http_server_builder.same_endpoints(&before.http_server_builder)
        &&& !before.http_server_builder.consumed ==> self.http_server_builder.holds_nothing()
        &&& before.wf() ==> self.wf()
        &&& self.background_timers == before.background_timers
        &&& self.app_name == before.app_name
        &&& self.app_version == before.app_version
        &&& self.capabilities == before.capabilities
        &&& self.unix_socket_enabled == before.unix_socket_enabled
        &&& match (before.grpc_server_builder, self.grpc_server_builder) {
            (Some(builder), Some(started)) => {
                &&& started.started
                &&& started.unix_socket_enabled == builder.unix_socket_enabled
                &&& started.listen_address == builder.listen_address
                &&& builder.started ==> started.server == builder.server
                    && started.server_unix_socket == builder.server_unix_socket
                &&& !builder.started ==> started.server is None && started.server_unix_socket
                    is None
            },
            (None, None) => true,
            _ => false,
        }
    }

    /// A coordinator for the application `app_name` in version
    /// `app_version`: not initialized, with an empty HTTP builder on the
    /// default endpoint, without timers and without a gRPC builder.
    pub fn new(
        app_name: &str,
        app_version: &str,
        capabilities: Capabilities,
        unix_socket_enabled: bool,
    ) -> (context: Self)
        ensures
            context.wf(),
            context.app_states == ApplicationState::Uninitialized,
            context.app_name@ == app_name@,
            context.app_version@ == app_version@,
            context.capabilities == capabilities,
            context.unix_socket_enabled == unix_socket_enabled,
            context.http_servers@.len() == 0,
            context.background_timers@.len() == 0,
            context.grpc_server_builder is None,
            context.http_server_builder.app_name@ == app_name@,
            context.http_server_builder.app_version@ == app_version@,
            context.http_server_builder.listen_address == (ListenAddress {
                ip: IpAddress::V4(0, 0, 0, 0),
                port: DEFAULT_HTTP_PORT,
            }),
            context.http_server_builder.local_socket_enabled() == unix_socket_enabled,
            context.http_server_builder.holds_nothing(),
            !context.http_server_builder.consumed,
    {
        ServiceContext {
            http_server_builder: HttpServerBuilder::new(
                String::from_str(app_name),
                String::from_str(app_version),
                unix_socket_enabled,
            ),
            http_servers: Vec::new(),
            app_states: ApplicationState::create_un_initialized(),
            app_name: String::from_str(app_name),
            app_version: String::from_str(app_version),
            background_timers: Vec::new(),
            grpc_server_builder: None,
            capabilities,
            unix_socket_enabled,
        }
    }

    /// The steps to take right after construction, before anything is
    /// configured.
    pub fn installation_steps(&self) -> (steps: Vec<StartupStep<S>>)
        ensures
            step_models(steps@) == installation_sequence::<S>(self.capabilities),
    {
        let mut steps: Vec<StartupStep<S>> = Vec::new();
        steps.push(StartupStep::InstallMetricsExporter);
        if self.capabilities.secure_transport {
            steps.push(StartupStep::InstallCryptoProvider);
        }
        assert(step_models(steps@) =~= installation_sequence::<S>(self.capabilities));
        steps
    }

    /// Makes a timer with the given interval, lets `builder` add the
    /// callbacks, and keeps the timer for the start of the application.
    pub fn register_timer<B: FnOnce(BackgroundTimer<T>) -> BackgroundTimer<T>>(
        &mut self,
        interval_micros: u64,
        builder: B,
    )
        requires
            forall|fresh: BackgroundTimer<T>|
                fresh@ == TimerModel::<T>::new(interval_micros) ==> builder.requires((fresh,)),
        ensures
            final(self).same_but_timers(old(self)),
            final(self).background_timers@.len() == old(self).background_timers@.len() + 1,
            final(self).background_timers@.drop_last() == old(self).background_timers@,
            exists|fresh: BackgroundTimer<T>|
                fresh@ == TimerModel::<T>::new(interval_micros) && builder.ensures(
                    (fresh,),
                    final(self).background_timers@.last(),
                ),
    {
        let fresh = BackgroundTimer::new(interval_micros);
        let ghost handed = fresh;
        let timer = builder(fresh);
        self.background_timers.push(timer);
        assert(self.background_timers@.drop_last() =~= old(self).background_timers@);
        assert(handed@ == TimerModel::<T>::new(interval_micros) && builder.ensures(
            (handed,),
            self.background_timers@.last(),
        ));
    }

    /// Lets `config` register with the HTTP builder.
    pub fn configure_http_server<C>(&mut self, config: C) -> (context: &mut Self)
        where
            C: FnOnce(HttpServerBuilder<M, A, F>) -> HttpServerBuilder<M, A, F>,
        requires
            config.requires((old(self).http_server_builder,)),
        ensures
            config.ensures((old(self).http_server_builder,), context.http_server_builder),
            context.same_but_http_builder(old(self)),
            *final(self) == *final(context),
    {
        let mut builder = HttpServerBuilder::new(String::new(), String::new(), false);
        std::mem::swap(&mut builder, &mut self.http_server_builder);
        self.http_server_builder = config(builder);
        self
    }

    /// Lets `config` register with the gRPC builder, which is made on the
    /// first call.
    pub fn configure_grpc_server<C: FnOnce(GrpcServerBuilder<S>) -> GrpcServerBuilder<S>>(
        &mut self,
        config: C,
    )
        requires
            match old(self).grpc_server_builder {
                Some(builder) => config.requires((builder,)),
                None => forall|fresh: GrpcServerBuilder<S>|
                    fresh.server is None && fresh.server_unix_socket is None
                        && fresh.listen_address is None && !fresh.started
                        && fresh.unix_socket_enabled == old(self).unix_socket_enabled
                        ==> config.requires((fresh,)),
            },
        ensures
            final(self).same_but_grpc_builder(old(self)),
            final(self).grpc_server_builder matches Some(configured) && match old(
                self
            ).grpc_server_builder {
                Some(builder) => config.ensures((builder,), configured),
                None => exists|fresh: GrpcServerBuilder<S>|
                    fresh.server is None && fresh.server_unix_socket is None
                        && fresh.listen_address is None && !fresh.started
                        && fresh.unix_socket_enabled == old(self).unix_socket_enabled
                        && config.ensures((fresh,), configured),
            },
    {
        let builder = match self.grpc_server_builder.take() {
            Some(builder) => builder,
            None => GrpcServerBuilder::new(self.unix_socket_enabled),
        };
        self.grpc_server_builder = Some(config(builder));
    }

    /// The name under which the application subscribes with `suffix`: the
    /// name of the application with the suffix behind it.
    pub fn subscriber_name_with_suffix(&self, suffix: &str) -> (name: String)
        ensures
            name@ == self.app_name@ + suffix@,
    {
        subscriber_name(self.app_name.as_str(), suffix)
    }

    /// Starts the application: marks it as initialized, builds the HTTP
    /// servers, takes the gRPC listeners, and hands out the steps to
    /// perform, in order. An application that is shutting down already is
    /// left as it is and gets no step. `http2` is the value of the `HTTP2`
    /// variable and `grpc_port` that of the `GRPC_PORT` variable, `None`
    /// where the variable is not set.
    pub fn start_application(&mut self, http2: Option<&str>, grpc_port: Option<&str>) -> (steps:
        Vec<StartupStep<S>>)
        ensures
            step_models(steps@) == old(self).steps_to_start(http2, grpc_port),
            old(self).app_states == ApplicationState::ShuttingDown ==> *final(self) == *old(self),
            old(self).app_states != ApplicationState::ShuttingDown ==> final(self).started_from(
                old(self),
            ),
    {
        if self.app_states.is_shutting_down() {
            let nothing: Vec<StartupStep<S>> = Vec::new();
            assert(step_models(nothing@) =~= old(self).steps_to_start(http2, grpc_port));
            return nothing;
        }
        let ghost expected = old(self).steps_to_start(http2, grpc_port);
        let ghost timers = self.background_timers@.len();
        let ghost listeners_model = old(self).listeners_to_start(grpc_port);
        let ghost servers = old(self).http_server_builder.servers_to_build().len();
        let ghost capabilities = self.capabilities;
        let h2 = http2.is_some();

        self.app_states.set_initialized();
        let mut steps: Vec<StartupStep<S>> = Vec::new();
        steps.push(StartupStep::MarkInitialized);
        steps.push(StartupStep::StartTelemetryWriter);
        let ghost head = step_models(steps@);
        assert(head =~= seq![StepModel::<S>::MarkInitialized, StepModel::StartTelemetryWriter]);

        let timer_count = self.background_timers.len();
        let mut i: usize = 0;
        while i < timer_count
            invariant
                i <= timer_count,
                timer_count == timers,
                step_models(steps@) == head + timer_steps::<S>(i as nat),
            decreases timer_count - i,
        {
            let ghost prior = step_models(steps@);
            steps.push(StartupStep::StartTimer(i));
            assert(step_models(steps@) =~= prior.push(StepModel::StartTimer(i)));
            assert(timer_steps::<S>((i + 1) as nat) =~= timer_steps::<S>(i as nat).push(
                StepModel::StartTimer(i),
            ));
            assert(step_models(steps@) =~= head + timer_steps::<S>((i + 1) as nat));
            i = i + 1;
        }
        if self.capabilities.structured_storage {
            steps.push(StartupStep::StartStructuredStorage);
        }
        if self.capabilities.pub_sub {
            steps.push(StartupStep::StartPubSub);
        }
        let ghost before_http = step_models(steps@);
        assert(before_http =~= head + timer_steps::<S>(timers) + client_steps::<S>(capabilities));

        let http_servers = self.http_server_builder.build();
        let server_count = http_servers.len();
        assert(server_count == servers) by {
            assert(server_models(http_servers@).len() == http_servers@.len());
        }
        let mut k: usize = 0;
        while k < server_count
            invariant
                k <= server_count,
                server_count == servers,
                step_models(steps@) == before_http + http_steps::<S>(k as nat, h2),
            decreases server_count - k,
        {
            let ghost prior = step_models(steps@);
            steps.push(StartupStep::StartHttpServer { index: k, http2: h2 });
            assert(step_models(steps@) =~= prior.push(
                StepModel::StartHttpServer { index: k, http2: h2 },
            ));
            assert(http_steps::<S>((k + 1) as nat, h2) =~= http_steps::<S>(k as nat, h2).push(
                StepModel::StartHttpServer { index: k, http2: h2 },
            ));
            assert(step_models(steps@) =~= before_http + http_steps::<S>((k + 1) as nat, h2));
            k = k + 1;
        }
        self.http_servers = http_servers;
        let ghost before_grpc = step_models(steps@);

        match &mut self.grpc_server_builder {
            Some(grpc_server_builder) => {
                let listeners = grpc_server_builder.start(self.app_name.as_str(), grpc_port);
                assert(listener_models(listeners@) == listeners_model);
                for listener in iter: listeners
                    invariant
                        listener_models(iter.seq()) == listeners_model,
                        step_models(steps@) == before_grpc + grpc_steps(
                            listeners_model.take(iter.index() as int),
                        ),
                {
                    let ghost done = iter.index() as int;
                    let ghost prior = step_models(steps@);
                    steps.push(StartupStep::StartGrpcListener(listener));
                    assert(step_models(steps@) =~= prior.push(
                        StepModel::StartGrpcListener(listener@),
                    ));
                    assert(listener_models(iter.seq())[done] == listener@);
                    assert(listeners_model[done] == listener@);
                    assert(grpc_steps(listeners_model.take(done + 1)) =~= grpc_steps(
                        listeners_model.take(done),
                    ).push(StepModel::StartGrpcListener(listener@)));
                    assert(listeners_model.take(done + 1) =~= listeners_model.take(done).push(
                        listeners_model[done],
                    ));
                    assert(step_models(steps@) =~= before_grpc + grpc_steps(
                        listeners_model.take(done + 1),
                    ));
                }
                assert(listeners_model.take(listeners_model.len() as int) =~= listeners_model);
            },
            None => {
                assert(grpc_steps(listeners_model) =~= Seq::<StepModel<S>>::empty());
                assert(step_models(steps@) =~= before_grpc + grpc_steps(listeners_model));
            },
        }
        steps.push(StartupStep::WaitUntilShutdown);
        assert(step_models(steps@) =~= expected);
        steps
    }

    /// Takes note of the shutdown signal. There is no way back.
    pub fn shut_down(&mut self)
        ensures
            final(self).app_states == ApplicationState::ShuttingDown,
            final(self).http_server_builder == old(self).http_server_builder,
            final(self).http_servers == old(self).http_servers,
            final(self).background_timers == old(self).background_timers,
            final(self).grpc_server_builder == old(self).grpc_server_builder,
            final(self).app_name == old(self).app_name,
            final(self).app_version == old(self).app_version,
            final(self).capabilities == old(self).capabilities,
            final(self).unix_socket_enabled == old(self).unix_socket_enabled,
    {
        self.app_states.set_shutting_down();
    }
}

/// Whatever is compiled in and whatever was registered, the steps of
/// construction and start together run in the fixed order of the ten
/// phases: no step comes before a step of an earlier phase. The crypto
/// provider comes right after the metrics exporter, publishing the state is
/// the first step of the start, and waiting for the shutdown is the last.
pub proof fn lemma_startup_runs_in_fixed_order<S>(
    capabilities: Capabilities,
    timers: nat,
    http_servers: nat,
    http2: bool,
    listeners: Seq<ListenerModel<S>>,
)
    ensures
        ({
            let steps = installation_sequence::<S>(capabilities) + start_sequence(
                capabilities,
                timers,
                http_servers,
                http2,
                listeners,
            );
            &&& forall|i: int, j: int|
                0 <= i < j < steps.len() ==> (#[trigger] steps[i]).phase() <= (
                #[trigger] steps[j]).phase()
            &&& steps[0] == StepModel::<S>::InstallMetricsExporter
            &&& steps.last() == StepModel::<S>::WaitUntilShutdown
        }),
        start_sequence(capabilities, timers, http_servers, http2, listeners)[0] == StepModel::<
            S,
        >::MarkInitialized,
        start_sequence(capabilities, timers, http_servers, http2, listeners)[1] == StepModel::<
            S,
        >::StartTelemetryWriter,
{
    let install = installation_sequence::<S>(capabilities);
    let head = seq![StepModel::<S>::MarkInitialized, StepModel::StartTelemetryWriter];
    let t = timer_steps::<S>(timers);
    let c = client_steps::<S>(capabilities);
    let h = http_steps::<S>(http_servers, http2);
    let g = grpc_steps(listeners);
    let tail = seq![StepModel::<S>::WaitUntilShutdown];
    let start = start_sequence(capabilities, timers, http_servers, http2, listeners);
    let steps = install + start;
    assert(start =~= head + t + c + h + g + tail);
    let a0 = install.len() as int;
    let a1 = a0 + 2;
    let a2 = a1 + t.len();
    let a3 = a2 + c.len();
    let a4 = a3 + h.len();
    let a5 = a4 + g.len();
    assert(steps.len() == a5 + 1);
    assert forall|k: int| 0 <= k < steps.len() implies {
        &&& k < a0 ==> (#[trigger] steps[k]).phase() == k + 1
        &&& a0 <= k < a1 ==> steps[k].phase() == 3 + (k - a0)
        &&& a1 <= k < a2 ==> steps[k].phase() == 5
        &&& a2 <= k < a3 ==> 6 <= steps[k].phase() <= 7 && steps[k] == c[k - a2]
        &&& a3 <= k < a4 ==> steps[k].phase() == 8
        &&& a4 <= k < a5 ==> steps[k].phase() == 9
        &&& k == a5 ==> steps[k].phase() == 10
    } by {
        if k < a0 {
            assert(steps[k] == install[k]);
        } else if k < a1 {
            assert(steps[k] == head[k - a0]);
        } else if k < a2 {
            assert(steps[k] == t[k - a1]);
        } else if k < a3 {
            assert(steps[k] == c[k - a2]);
        } else if k < a4 {
            assert(steps[k] == h[k - a3]);
        } else if k < a5 {
            assert(steps[k] == g[k - a4]);
        } else {
            assert(steps[k] == tail[0]);
        }
    }
    assert forall|i: int, j: int| a2 <= i < j < a3 implies (#[trigger] steps[i]).phase() <= (
    #[trigger] steps[j]).phase() by {
        assert(steps[i] == c[i - a2]);
        assert(steps[j] == c[j - a2]);
    }
    assert(steps[0] == install[0]);
    assert(steps.last() == steps[a5]);
    assert(start[0] == head[0]);
    assert(start[1] == head[1]);
}

/// Once the application is shutting down, a start initiates nothing: it
/// hands out no step, whatever is registered and whatever the environment
/// says.
pub proof fn lemma_shutting_down_starts_nothing<M: Clone, A: Clone, F: Clone, S: Clone, T>(
    context: ServiceContext<M, A, F, S, T>,
    http2: Option<&str>,
    grpc_port: Option<&str>,
)
    requires
        context.app_states == ApplicationState::ShuttingDown,
    ensures
        context.steps_to_start(http2, grpc_port).len() == 0,
{
}

/// Every HTTP server of an application is started with the same framing,
/// and each server that was built is started exactly once, in the order in
/// which the servers were built.
pub proof fn lemma_http_servers_start_alike<S>(count: nat, http2: bool)
    ensures
        http_steps::<S>(count, http2).len() == count,
        forall|i: int|
            0 <= i < count ==> #[trigger] http_steps::<S>(count, http2)[i]
                == (StepModel::<S>::StartHttpServer { index: i as usize, http2 }),
{
}

} // verus!
