//! Which settings interfaces an application has to provide, and under which
//! key of its settings each of them finds its value.
//!
//! The code generators of the toolkit write their output after these
//! tables.

use vstd::prelude::*;

verus! {

/// The optional parts that the code generators were built with.
#[derive(Clone, Copy, Debug, PartialEq, Eq, Structural)]
pub struct SettingsFeatures {
    pub my_service_bus: bool,
    pub no_sql_reader: bool,
    pub no_sql_writer: bool,
    pub postgres: bool,
    pub grpc: bool,
}

/// An interface through which a subsystem reads its settings.
#[derive(Clone, Copy, Debug, PartialEq, Eq, Structural)]
pub enum SettingsInterface {
    Telemetry,
    ServiceInfo,
    SeqLogger,
    ServiceBus,
    NoSqlReader,
    NoSqlWriter,
    Postgres,
    GrpcClient,
}

impl SettingsInterface {
    /// The name of the trait that stands for the interface.
    pub open spec fn trait_name_text(self) -> Seq<char> {
        match self {
            SettingsInterface::Telemetry => "MyTelemetrySettings"@,
            SettingsInterface::ServiceInfo => "ServiceInfo"@,
            SettingsInterface::SeqLogger => "SeqSettings"@,
            SettingsInterface::ServiceBus => "MyServiceBusSettings"@,
            SettingsInterface::NoSqlReader => "MyNoSqlTcpConnectionSettings"@,
            SettingsInterface::NoSqlWriter => "MyNoSqlWriterSettings"@,
            SettingsInterface::Postgres => "PostgresSettings"@,
            SettingsInterface::GrpcClient => "GrpcClientSettings"@,
        }
    }

    /// The key of the settings that holds the value of the interface.
    /// `ServiceInfo` reads the package instead, and the gRPC clients bring
    /// their own keys.
    pub open spec fn settings_key_text(self) -> Option<Seq<char>> {
        match self {
            SettingsInterface::Telemetry => Some("my_telemetry"@),
            SettingsInterface::ServiceInfo => None,
            SettingsInterface::SeqLogger => Some("seq_conn_string"@),
            SettingsInterface::ServiceBus => Some("my_sb_tcp_host_port"@),
            SettingsInterface::NoSqlReader => Some("my_no_sql_tcp_reader"@),
            SettingsInterface::NoSqlWriter => Some("my_no_sql_writer"@),
            SettingsInterface::Postgres => Some("postgres_conn_string"@),
            SettingsInterface::GrpcClient => None,
        }
    }

    /// The name of the trait that stands for the interface.
    pub fn trait_name(&self) -> (name: &'static str)
        ensures
            name@ == self.trait_name_text(),
    {
        match self {
            SettingsInterface::Telemetry => "MyTelemetrySettings",
            SettingsInterface::ServiceInfo => "ServiceInfo",
            SettingsInterface::SeqLogger => "SeqSettings",
            SettingsInterface::ServiceBus => "MyServiceBusSettings",
            SettingsInterface::NoSqlReader => "MyNoSqlTcpConnectionSettings",
            SettingsInterface::NoSqlWriter => "MyNoSqlWriterSettings",
            SettingsInterface::Postgres => "PostgresSettings",
            SettingsInterface::GrpcClient => "GrpcClientSettings",
        }
    }

    /// The key of the settings that holds the value of the interface.
    pub fn settings_key(&self) -> (key: Option<&'static str>)
        ensures
            match (key, self.settings_key_text()) {
                (Some(key), Some(text)) => key@ == text,
                (None, None) => true,
                _ => false,
            },
    {
        match self {
            SettingsInterface::Telemetry => Some("my_telemetry"),
            SettingsInterface::ServiceInfo => None,
            SettingsInterface::SeqLogger => Some("seq_conn_string"),
            SettingsInterface::ServiceBus => Some("my_sb_tcp_host_port"),
            SettingsInterface::NoSqlReader => Some("my_no_sql_tcp_reader"),
            SettingsInterface::NoSqlWriter => Some("my_no_sql_writer"),
            SettingsInterface::Postgres => Some("postgres_conn_string"),
            SettingsInterface::GrpcClient => None,
        }
    }
}

/// `interface` if `present`, else nothing.
pub open spec fn optional(present: bool, interface: SettingsInterface) -> Seq<SettingsInterface> {
    if present {
        seq![interface]
    } else {
        Seq::empty()
    }
}

/// The interfaces that the settings of an application have to offer to the
/// coordinator.
pub open spec fn signature_bounds(features: SettingsFeatures) -> Seq<SettingsInterface> {
    seq![SettingsInterface::Telemetry, SettingsInterface::ServiceInfo, SettingsInterface::SeqLogger]
        + optional(features.my_service_bus, SettingsInterface::ServiceBus) + optional(
        features.no_sql_reader,
        SettingsInterface::NoSqlReader,
    ) + optional(features.no_sql_writer, SettingsInterface::NoSqlWriter)
}

/// The interfaces that are implemented for the settings reader by reading
/// their key.
pub open spec fn generated_implementations(features: SettingsFeatures) -> Seq<SettingsInterface> {
    seq![SettingsInterface::Telemetry, SettingsInterface::SeqLogger] + optional(
        features.postgres,
        SettingsInterface::Postgres,
    ) + optional(features.no_sql_writer, SettingsInterface::NoSqlWriter) + optional(
        features.no_sql_reader,
        SettingsInterface::NoSqlReader,
    ) + optional(features.my_service_bus, SettingsInterface::ServiceBus)
}

/// The interfaces that a settings module imports.
pub open spec fn imported_interfaces(features: SettingsFeatures) -> Seq<SettingsInterface> {
    seq![SettingsInterface::SeqLogger, SettingsInterface::Telemetry] + optional(
        features.my_service_bus,
        SettingsInterface::ServiceBus,
    ) + optional(features.postgres, SettingsInterface::Postgres) + optional(
        features.no_sql_writer,
        SettingsInterface::NoSqlWriter,
    ) + optional(features.no_sql_reader, SettingsInterface::NoSqlReader) + optional(
        features.grpc,
        SettingsInterface::GrpcClient,
    )
}

/// Adds `interface` to `list` if `present`.
fn push_if(list: &mut Vec<SettingsInterface>, present: bool, interface: SettingsInterface)
    ensures
        final(list)@ == old(list)@ + optional(present, interface),
{
    if present {
        list.push(interface);
        assert(list@ =~= old(list)@ + optional(present, interface));
    } else {
        assert(list@ =~= old(list)@ + optional(present, interface));
    }
}

/// The interfaces that the settings of an application have to offer to the
/// coordinator.
pub fn settings_signature(features: SettingsFeatures) -> (bounds: Vec<SettingsInterface>)
    ensures
        bounds@ == signature_bounds(features),
{
    let mut bounds: Vec<SettingsInterface> = Vec::new();
    bounds.push(SettingsInterface::Telemetry);
    bounds.push(SettingsInterface::ServiceInfo);
    bounds.push(SettingsInterface::SeqLogger);
    assert(bounds@ =~= seq![
        SettingsInterface::Telemetry,
        SettingsInterface::ServiceInfo,
        SettingsInterface::SeqLogger,
    ]);
    push_if(&mut bounds, features.my_service_bus, SettingsInterface::ServiceBus);
    push_if(&mut bounds, features.no_sql_reader, SettingsInterface::NoSqlReader);
    push_if(&mut bounds, features.no_sql_writer, SettingsInterface::NoSqlWriter);
    bounds
}

/// The interfaces that are implemented for the settings reader by reading
/// their key, in the order of their implementations.
pub fn generated_settings_traits(features: SettingsFeatures) -> (interfaces: Vec<
    SettingsInterface,
>)
    ensures
        interfaces@ == generated_implementations(features),
        forall|i: int|
            0 <= i < interfaces@.len() ==> (#[trigger] interfaces@[i]).settings_key_text() is Some,
{
    let mut interfaces: Vec<SettingsInterface> = Vec::new();
    interfaces.push(SettingsInterface::Telemetry);
    interfaces.push(SettingsInterface::SeqLogger);
    assert(interfaces@ =~= seq![SettingsInterface::Telemetry, SettingsInterface::SeqLogger]);
    push_if(&mut interfaces, features.postgres, SettingsInterface::Postgres);
    push_if(&mut interfaces, features.no_sql_writer, SettingsInterface::NoSqlWriter);
    push_if(&mut interfaces, features.no_sql_reader, SettingsInterface::NoSqlReader);
    push_if(&mut interfaces, features.my_service_bus, SettingsInterface::ServiceBus);
    interfaces
}

/// The interfaces that a settings module imports, in the order of the
/// imports.
pub fn imported_settings_traits(features: SettingsFeatures) -> (interfaces: Vec<
    SettingsInterface,
>)
    ensures
        interfaces@ == imported_interfaces(features),
{
    let mut interfaces: Vec<SettingsInterface> = Vec::new();
    interfaces.push(SettingsInterface::SeqLogger);
    interfaces.push(SettingsInterface::Telemetry);
    assert(interfaces@ =~= seq![SettingsInterface::SeqLogger, SettingsInterface::Telemetry]);
    push_if(&mut interfaces, features.my_service_bus, SettingsInterface::ServiceBus);
    push_if(&mut interfaces, features.postgres, SettingsInterface::Postgres);
    push_if(&mut interfaces, features.no_sql_writer, SettingsInterface::NoSqlWriter);
    push_if(&mut interfaces, features.no_sql_reader, SettingsInterface::NoSqlReader);
    push_if(&mut interfaces, features.grpc, SettingsInterface::GrpcClient);
    interfaces
}

/// The name of a service: the name of its package, and behind it, where the
/// `SERVICE_NAME_SUFFIX` variable is set, a hyphen and the suffix.
pub open spec fn service_name_text(package: Seq<char>, suffix: Option<&str>) -> Seq<char> {
    match suffix {
        Some(suffix) => package + seq!['-'] + suffix@,
        None => package,
    }
}

/// The name of a service. `suffix` is the value of the
/// `SERVICE_NAME_SUFFIX` variable, `None` where the variable is not set.
pub fn service_name(package: &str, suffix: Option<&str>) -> (name: String)
    ensures
        name@ == service_name_text(package@, suffix),
{
    match suffix {
        Some(suffix) => {
            proof {
                reveal_strlit("-");
            }
            assert("-"@ =~= seq!['-']);
            String::from_str(package).concat("-").concat(suffix)
        },
        None => String::from_str(package),
    }
}

} // verus!
