//! Defaults shared by the builders.

use crate::transport::IpAddress;
use vstd::prelude::*;

verus! {

/// Port of the HTTP listener unless the builder is told otherwise.
pub const DEFAULT_HTTP_PORT: u16 = 8000;

/// Port of the gRPC listener when neither the builder nor the environment
/// names one.
pub const DEFAULT_GRPC_PORT: u16 = 8888;

/// The address that listeners bind to by default: every IPv4 interface.
pub fn get_default_ip_address() -> (ip: IpAddress)
    ensures
        ip == IpAddress::V4(0, 0, 0, 0),
{
    IpAddress::V4(0, 0, 0, 0)
}

} // verus!
