//! Which controller handles a piece of feedback.
use vstd::prelude::*;

use crate::client::controllers::{
    ContainerExitedController, ContainerStartedController, ContentSentController,
    ImageBuiltController,
};
use crate::common::commands::feedback_commands::FeedbackCommand;
use crate::common::sockets::ConnectionStatus;

verus! {

/// Hands `command` to the controller of its kind: the connection stays
/// open after a container started and ends after anything else.
pub fn route_feedback_command(command: FeedbackCommand) -> (r: Result<ConnectionStatus, String>)
    ensures
        r == Ok::<ConnectionStatus, String>(
            if command is ContainerStarted {
                ConnectionStatus::Running
            } else {
                ConnectionStatus::Finished
            },
        ),
{
    match command {
        FeedbackCommand::ContainerStarted { .. } => ContainerStartedController.handle_response(
            command,
        ),
        FeedbackCommand::ContainerExited { .. } => ContainerExitedController.handle_response(
            command,
        ),
        FeedbackCommand::ImageBuilt { .. } => ImageBuiltController.handle_response(command),
        FeedbackCommand::Content(_) => ContentSentController.handle_response(command),
    }
}

} // verus!
