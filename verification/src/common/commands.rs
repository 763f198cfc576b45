//! The commands the runtime understands.
use vstd::prelude::*;

pub mod feedback_commands;
pub mod runtime_commands;

verus! {

/// The first form of the container commands.
#[derive(Debug, Clone, PartialEq, Eq)]
pub enum ContainerCommand {
    /// Start a container.
    Start {
        /// The container id.
        container_id: String,
    },
    /// Stop a container.
    Stop {
        /// The container id.
        container_id: String,
    },
    /// Create a container.
    Create {
        /// The container id.
        container_id: String,
        /// The image to use.
        image: String,
    },
}

} // verus!
