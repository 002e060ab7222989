//! Where a listener accepts connections: a network address or a local
//! socket path.

use vstd::prelude::*;

verus! {

/// An IP address, written as its parts in network order.
#[derive(Clone, Copy, Debug, PartialEq, Eq, Structural)]
pub enum IpAddress {
    V4(u8, u8, u8, u8),
    V6(u16, u16, u16, u16, u16, u16, u16, u16),
}

/// An IP address and a port.
#[derive(Clone, Copy, Debug, PartialEq, Eq, Structural)]
pub struct ListenAddress {
    pub ip: IpAddress,
    pub port: u16,
}

impl ListenAddress {
    pub fn new(ip: IpAddress, port: u16) -> (address: Self)
        ensures
            address == (ListenAddress { ip, port }),
    {
        ListenAddress { ip, port }
    }
}

/// One endpoint that a listener is started on.
#[derive(Debug, PartialEq, Eq)]
pub enum TransportBinding {
    /// A TCP socket.
    Network(ListenAddress),
    /// A socket in the file system. The path may start with `~`, which
    /// whoever opens the socket expands to the home directory.
    LocalSocket(String),
}

/// What a binding is, with the path as a sequence of characters.
pub enum TransportBindingModel {
    Network(ListenAddress),
    LocalSocket(Seq<char>),
}

impl View for TransportBinding {
    type V = TransportBindingModel;

    open spec fn view(&self) -> TransportBindingModel {
        match self {
            TransportBinding::Network(address) => TransportBindingModel::Network(*address),
            TransportBinding::LocalSocket(path) => TransportBindingModel::LocalSocket(path@),
        }
    }
}

impl Clone for TransportBinding {
    fn clone(&self) -> (copy: Self)
        ensures
            copy@ == self@,
    {
        match self {
            TransportBinding::Network(address) => TransportBinding::Network(*address),
            TransportBinding::LocalSocket(path) => TransportBinding::LocalSocket(path.clone()),
        }
    }
}

/// Directory of the local sockets of HTTP servers.
pub open spec fn http_socket_directory() -> Seq<char> {
    seq!['~', '/', 'h', 't', 't', 'p', '/']
}

/// Directory of the local sockets of gRPC servers.
pub open spec fn grpc_socket_directory() -> Seq<char> {
    seq!['~', '/', 'g', 'r', 'p', 'c', '/']
}

/// Path of the local socket of the HTTP server of `app_name`.
pub fn http_socket_path(app_name: &str) -> (path: String)
    ensures
        path@ == http_socket_directory() + app_name@,
{
    proof {
        reveal_strlit("~/http/");
    }
    assert("~/http/"@ =~= http_socket_directory());
    String::from_str("~/http/").concat(app_name)
}

/// Path of the local socket of the gRPC server of `app_name`.
pub fn grpc_socket_path(app_name: &str) -> (path: String)
    ensures
        path@ == grpc_socket_directory() + app_name@,
{
    proof {
        reveal_strlit("~/grpc/");
    }
    assert("~/grpc/"@ =~= grpc_socket_directory());
    String::from_str("~/grpc/").concat(app_name)
}

} // verus!
