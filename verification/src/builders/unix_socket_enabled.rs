//! The switch for the local-socket transport.

use vstd::prelude::*;

verus! {

/// True when `toggle`, the value of the `UNIX_SOCKET` variable, asks for
/// the local-socket transport: it is set, and set to `1`.
pub open spec fn toggle_enables(toggle: Option<&str>) -> bool {
    match toggle {
        Some(value) => value@ == seq!['1'],
        None => false,
    }
}

/// Reads the switch. `toggle` is the value of the `UNIX_SOCKET` variable,
/// `None` when the variable is not set.
pub fn unix_socket_enabled(toggle: Option<&str>) -> (enabled: bool)
    ensures
        enabled == toggle_enables(toggle),
{
    match toggle {
        Some(value) => {
            if value.unicode_len() == 1 {
                let first = value.get_char(0);
                assert(first == '1' <==> value@ =~= seq!['1']);
                first == '1'
            } else {
                false
            }
        },
        None => false,
    }
}

/// Whether servers get a second listener on a local socket: the platform
/// has to offer such sockets and the switch has to be on.
pub fn local_socket_transport(platform_has_local_sockets: bool, toggle: Option<&str>) -> (enabled:
    bool)
    ensures
        enabled == (platform_has_local_sockets && toggle_enables(toggle)),
{
    platform_has_local_sockets && unix_socket_enabled(toggle)
}

/// Without the switch, or on a platform without local sockets, there is no
/// local-socket transport.
pub proof fn lemma_no_local_socket_without_switch_or_platform(
    platform_has_local_sockets: bool,
    toggle: Option<&str>,
)
    requires
        toggle is None || !platform_has_local_sockets,
    ensures
        !(platform_has_local_sockets && toggle_enables(toggle)),
{
}

} // verus!
