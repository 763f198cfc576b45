//! The install path and the namespaces a container is given.
use vstd::prelude::*;

use crate::common::commands::runtime_commands::NetworkConfiguration;
use crate::text::text_result;

verus! {

broadcast use vstd::string::group_string_axioms;

/// The install path, or the error when it was left empty at build time.
pub open spec fn install_path_result(configured: Seq<char>) -> Result<Seq<char>, Seq<char>> {
    if configured.len() == 0 {
        Err("INSTALL_PATH is not set"@)
    } else {
        Ok(configured)
    }
}

/// The install path, given the `INSTALL_PATH` value the program was built
/// with: an error when that value is empty.
pub fn get_install_path(configured: &str) -> (r: Result<String, String>)
    ensures
        text_result(r) == install_path_result(configured@),
{
    if configured.unicode_len() == 0 {
        Err(String::from_str("INSTALL_PATH is not set"))
    } else {
        Ok(String::from_str(configured))
    }
}

/// The namespaces a process is moved into (the `CLONE_NEW*` flags of
/// `unshare`).
#[derive(Debug, Clone, Copy, PartialEq, Eq, Structural)]
pub struct NamespaceFlags {
    /// `CLONE_NEWPID`: a process-id namespace of its own.
    pub new_pid: bool,
    /// `CLONE_NEWNS`: a mount namespace of its own.
    pub new_mount: bool,
    /// `CLONE_NEWUTS`: a host name of its own.
    pub new_uts: bool,
    /// `CLONE_NEWNET`: a network namespace of its own.
    pub new_net: bool,
}

/// The namespace a network configuration adds: a network namespace of its
/// own without network, nothing when sharing the host's.
pub fn map_network_configuration_to_unshare_flag(network: &NetworkConfiguration) -> (f:
    NamespaceFlags)
    ensures
        f == (NamespaceFlags {
            new_pid: false,
            new_mount: false,
            new_uts: false,
            new_net: *network == NetworkConfiguration::NoNetwork,
        }),
{
    match network {
        NetworkConfiguration::NoNetwork => NamespaceFlags {
            new_pid: false,
            new_mount: false,
            new_uts: false,
            new_net: true,
        },
        NetworkConfiguration::Host => NamespaceFlags {
            new_pid: false,
            new_mount: false,
            new_uts: false,
            new_net: false,
        },
    }
}

/// The namespaces a container is moved into: its own process ids, mounts
/// and host name, and its own network unless it shares the host's.
pub fn container_unshare_flags(network: &NetworkConfiguration) -> (f: NamespaceFlags)
    ensures
        f == (NamespaceFlags {
            new_pid: true,
            new_mount: true,
            new_uts: true,
            new_net: *network == NetworkConfiguration::NoNetwork,
        }),
{
    let net = map_network_configuration_to_unshare_flag(network);
    NamespaceFlags { new_pid: true, new_mount: true, new_uts: true, new_net: net.new_net }
}

} // verus!
