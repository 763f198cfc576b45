//! The second form of the container commands.
use vstd::prelude::*;

use crate::text::{debug_list, debug_list_string, views};

verus! {

broadcast use vstd::string::group_string_axioms;

/// The second form of the container commands.
#[derive(Debug, Clone, PartialEq, Eq)]
pub enum ContainerCommand {
    /// Start a container.
    Start {
        /// The container id.
        container_id: String,
        /// The image to use.
        image: String,
        /// The command to run as the root process.
        command: String,
        /// The arguments to pass to the command.
        args: Vec<String>,
    },
    /// Build an image from a Dockerfile.
    Build {
        /// The image id.
        image_id: String,
        /// The path to the Dockerfile.
        dockerfile: String,
    },
    /// Stop a container.
    Stop {
        /// The container id.
        container_id: String,
    },
    /// Create a container.
    Create {
        /// The container id.
        container_id: String,
        /// The image to use.
        image: String,
    },
}

/// The text that describes a command.
pub open spec fn command_text(c: ContainerCommand) -> Seq<char> {
    match c {
        ContainerCommand::Start { container_id, image, command, args } => "Start container "@
            + container_id@ + " with image "@ + image@ + " and command "@ + command@
            + " and args "@ + debug_list(views(args@)),
        ContainerCommand::Build { image_id, dockerfile } => "Build image "@ + image_id@
            + " with Dockerfile "@ + dockerfile@,
        ContainerCommand::Stop { container_id } => "Stop container "@ + container_id@,
        ContainerCommand::Create { container_id, image } => "Create container "@ + container_id@
            + " with image "@ + image@,
    }
}

impl ContainerCommand {
    /// Replaces the Dockerfile path of a build command with
    /// `canonical_dockerfile`, its canonical (absolute) form; other commands
    /// are left as they are.
    pub fn canonize_paths(&mut self, canonical_dockerfile: String)
        ensures
            match *old(self) {
                ContainerCommand::Build { image_id, dockerfile: _ } => *final(self)
                    == ContainerCommand::Build { image_id, dockerfile: canonical_dockerfile },
                _ => *final(self) == *old(self),
            },
    {
        match self {
            ContainerCommand::Build { dockerfile, .. } => {
                *dockerfile = canonical_dockerfile;
            },
            _ => {},
        }
    }

    /// The text that describes this command.
    pub fn to_string(&self) -> (r: String)
        ensures
            r@ == command_text(*self),
    {
        match self {
            ContainerCommand::Start { container_id, image, command, args } => {
                let mut r = String::from_str("Start container ");
                r.append(container_id.as_str());
                r.append(" with image ");
                r.append(image.as_str());
                r.append(" and command ");
                r.append(command.as_str());
                r.append(" and args ");
                r.append(debug_list_string(args.as_slice()).as_str());
                r
            },
            ContainerCommand::Build { image_id, dockerfile } => {
                let mut r = String::from_str("Build image ");
                r.append(image_id.as_str());
                r.append(" with Dockerfile ");
                r.append(dockerfile.as_str());
                r
            },
            ContainerCommand::Stop { container_id } => {
                let mut r = String::from_str("Stop container ");
                r.append(container_id.as_str());
                r
            },
            ContainerCommand::Create { container_id, image } => {
                let mut r = String::from_str("Create container ");
                r.append(container_id.as_str());
                r.append(" with image ");
                r.append(image.as_str());
                r
            },
        }
    }
}

} // verus!
