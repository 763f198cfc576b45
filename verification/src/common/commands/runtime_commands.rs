//! The commands a client sends to the daemon.
use vstd::prelude::*;

use crate::text::{debug_list, debug_list_string, views};

verus! {

broadcast use vstd::string::group_string_axioms;

/// How a container is connected to the network.
#[derive(Debug, Clone, Copy, PartialEq, Eq, Structural)]
pub enum NetworkConfiguration {
    /// Share the host's network.
    Host,
    /// No network (`none`; written `None` in the command's description):
    /// the container gets a network namespace of its own.
    NoNetwork,
}

impl Default for NetworkConfiguration {
    /// The host's network.
    fn default() -> (n: Self)
        ensures
            n == NetworkConfiguration::Host,
    {
        NetworkConfiguration::Host
    }
}

/// The configuration a name selects: `none` selects no network, anything
/// else the host's.
pub open spec fn network_from_name(s: Seq<char>) -> NetworkConfiguration {
    if s == "none"@ {
        NetworkConfiguration::NoNetwork
    } else {
        NetworkConfiguration::Host
    }
}

impl NetworkConfiguration {
    /// The configuration named `s` (`"host"` or `"none"`); an unknown name
    /// selects the host's network.
    pub fn from_name(s: &str) -> (n: NetworkConfiguration)
        ensures
            n == network_from_name(s@),
    {
        proof {
            reveal_strlit("host");
            reveal_strlit("none");
            assert("host"@ != "none"@) by {
                assert("host"@[0] != "none"@[0]);
            }
        }
        if crate::text::text_eq(s, "host") {
            NetworkConfiguration::Host
        } else if crate::text::text_eq(s, "none") {
            NetworkConfiguration::NoNetwork
        } else {
            NetworkConfiguration::Host
        }
    }

    /// The `Debug` rendering: the variant's name.
    pub fn debug_name(&self) -> (r: String)
        ensures
            r@ == network_debug(*self),
    {
        match self {
            NetworkConfiguration::Host => String::from_str("Host"),
            NetworkConfiguration::NoNetwork => String::from_str("None"),
        }
    }
}

impl<'a> From<&'a str> for NetworkConfiguration {
    /// The configuration named `s` (see [`NetworkConfiguration::from_name`]).
    fn from(s: &'a str) -> (n: Self) {
        NetworkConfiguration::from_name(s)
    }
}

impl<'a> vstd::std_specs::convert::FromSpecImpl<&'a str> for NetworkConfiguration {
    open spec fn obeys_from_spec() -> bool {
        true
    }

    open spec fn from_spec(s: &'a str) -> NetworkConfiguration {
        network_from_name(s@)
    }
}

/// The `Debug` rendering of a network configuration.
pub open spec fn network_debug(n: NetworkConfiguration) -> Seq<char> {
    match n {
        NetworkConfiguration::Host => "Host"@,
        NetworkConfiguration::NoNetwork => "None"@,
    }
}

/// Commands on images.
#[derive(Debug, Clone, Copy, PartialEq, Eq, Structural)]
pub enum ImageCommand {
    /// List all images.
    List,
}

/// The commands a client sends to the daemon.
#[derive(Debug, Clone, PartialEq, Eq)]
pub enum ContainerCommand {
    /// A command on images.
    Image(ImageCommand),
    /// Start a container.
    Start {
        /// The container id.
        container_id: String,
        /// The image to use.
        image: String,
        /// The network configuration (the host's when absent).
        network: Option<NetworkConfiguration>,
        /// The command to run as the root process.
        command: String,
        /// The arguments to pass to the command.
        args: Vec<String>,
    },
    /// Stop a container.
    Stop {
        /// The container id.
        container_id: String,
    },
    /// Build an image from a Dockerfile.
    Build {
        /// The image id.
        image_id: String,
        /// The path to the Dockerfile.
        dockerfile: String,
    },
    /// List all running containers.
    List {},
}

/// The network a start command asks for: the given one, else the host's.
pub open spec fn network_or_default(n: Option<NetworkConfiguration>) -> NetworkConfiguration {
    match n {
        Some(c) => c,
        None => NetworkConfiguration::Host,
    }
}

/// The text that describes a command.
pub open spec fn command_text(c: ContainerCommand) -> Seq<char> {
    match c {
        ContainerCommand::Start { container_id, image, network, command, args } => "Start container "@
            + container_id@ + " with network "@ + network_debug(network_or_default(network))
            + " and image "@ + image@ + " and command "@ + command@ + " and args "@ + debug_list(
            views(args@),
        ),
        ContainerCommand::Build { image_id, dockerfile } => "Build image "@ + image_id@
            + " with Dockerfile "@ + dockerfile@,
        ContainerCommand::Image(_) => "Image command List"@,
        ContainerCommand::Stop { container_id } => "Stop container "@ + container_id@,
        ContainerCommand::List {  } => "List running containers"@,
    }
}

impl ContainerCommand {
    /// Replaces the Dockerfile path of a build command with
    /// `canonical_dockerfile`, its canonical (absolute) form; other commands
    /// are left as they are.
    pub fn canonize_paths(&mut self, canonical_dockerfile: String)
        ensures
            match *old(self) {
                ContainerCommand::Build { image_id, dockerfile: _ } => *final(self)
                    == ContainerCommand::Build { image_id, dockerfile: canonical_dockerfile },
                _ => *final(self) == *old(self),
            },
    {
        match self {
            ContainerCommand::Build { dockerfile, .. } => {
                *dockerfile = canonical_dockerfile;
            },
            _ => {},
        }
    }

    /// The text that describes this command.
    pub fn to_string(&self) -> (r: String)
        ensures
            r@ == command_text(*self),
    {
        match self {
            ContainerCommand::Start { container_id, image, network, command, args } => {
                let n = match network {
                    Some(c) => *c,
                    None => NetworkConfiguration::default(),
                };
                let mut r = String::from_str("Start container ");
                r.append(container_id.as_str());
                r.append(" with network ");
                r.append(n.debug_name().as_str());
                r.append(" and image ");
                r.append(image.as_str());
                r.append(" and command ");
                r.append(command.as_str());
                r.append(" and args ");
                r.append(debug_list_string(args.as_slice()).as_str());
                r
            },
            ContainerCommand::Build { image_id, dockerfile } => {
                let mut r = String::from_str("Build image ");
                r.append(image_id.as_str());
                r.append(" with Dockerfile ");
                r.append(dockerfile.as_str());
                r
            },
            ContainerCommand::Image(_) => String::from_str("Image command List"),
            ContainerCommand::Stop { container_id } => {
                let mut r = String::from_str("Stop container ");
                r.append(container_id.as_str());
                r
            },
            ContainerCommand::List {  } => String::from_str("List running containers"),
        }
    }
}

} // verus!
