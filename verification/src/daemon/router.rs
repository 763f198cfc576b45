//! Which controller handles a request.
use vstd::prelude::*;

use crate::common::commands::runtime_commands::{ContainerCommand, ImageCommand};

verus! {

/// The daemon's controllers.
#[derive(Debug, Clone, Copy, PartialEq, Eq, Structural)]
pub enum ControllerKind {
    BuildImage,
    StartContainer,
    ListImages,
    StopContainer,
    ListRunningContainers,
}

/// The controller that handles `command`.
pub fn match_command_to_controller(command: &ContainerCommand) -> (k: ControllerKind)
    ensures
        k == match *command {
            ContainerCommand::Build { .. } => ControllerKind::BuildImage,
            ContainerCommand::Start { .. } => ControllerKind::StartContainer,
            ContainerCommand::Image(ImageCommand::List) => ControllerKind::ListImages,
            ContainerCommand::Stop { .. } => ControllerKind::StopContainer,
            ContainerCommand::List {  } => ControllerKind::ListRunningContainers,
        },
{
    match command {
        ContainerCommand::Build { .. } => ControllerKind::BuildImage,
        ContainerCommand::Start { .. } => ControllerKind::StartContainer,
        ContainerCommand::Image(ImageCommand::List) => ControllerKind::ListImages,
        ContainerCommand::Stop { .. } => ControllerKind::StopContainer,
        ContainerCommand::List {  } => ControllerKind::ListRunningContainers,
    }
}

} // verus!
