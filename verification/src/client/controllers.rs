//! How a client answers each kind of feedback.
use vstd::prelude::*;

use crate::common::commands::feedback_commands::{feedback_text, FeedbackCommand};
use crate::common::sockets::ConnectionStatus;

verus! {

broadcast use vstd::string::group_string_axioms;

/// Handles the start of a container.
#[derive(Debug, Clone, Copy)]
pub struct ContainerStartedController;

/// Handles the exit of a container.
#[derive(Debug, Clone, Copy)]
pub struct ContainerExitedController;

/// Handles a built image.
#[derive(Debug, Clone, Copy)]
pub struct ImageBuiltController;

/// Handles text sent to the client.
#[derive(Debug, Clone, Copy)]
pub struct ContentSentController;

/// The error for feedback a controller does not handle.
pub open spec fn invalid_command(command: FeedbackCommand) -> Seq<char> {
    "Invalid command "@ + feedback_text(command)
}

/// The error for feedback a controller does not handle, computed.
fn invalid_command_message(command: &FeedbackCommand) -> (r: String)
    ensures
        r@ == invalid_command(*command),
{
    let mut r = String::from_str("Invalid command ");
    r.append(command.to_string().as_str());
    r
}

impl ContainerStartedController {
    /// A started container keeps the connection open (the container's
    /// output is followed); any other feedback is an error.
    pub fn handle_response(&self, command: FeedbackCommand) -> (r: Result<ConnectionStatus, String>)
        ensures
            match command {
                FeedbackCommand::ContainerStarted { .. } => r == Ok::<ConnectionStatus, String>(
                    ConnectionStatus::Running,
                ),
                _ => r matches Err(e) && e@ == invalid_command(command),
            },
    {
        match command {
            FeedbackCommand::ContainerStarted { .. } => Ok(ConnectionStatus::Running),
            _ => Err(invalid_command_message(&command)),
        }
    }
}

impl ContainerExitedController {
    /// An exited container ends the connection; any other feedback is an
    /// error.
    pub fn handle_response(&self, command: FeedbackCommand) -> (r: Result<ConnectionStatus, String>)
        ensures
            match command {
                FeedbackCommand::ContainerExited { .. } => r == Ok::<ConnectionStatus, String>(
                    ConnectionStatus::Finished,
                ),
                _ => r matches Err(e) && e@ == invalid_command(command),
            },
    {
        match command {
            FeedbackCommand::ContainerExited { .. } => Ok(ConnectionStatus::Finished),
            _ => Err(invalid_command_message(&command)),
        }
    }
}

impl ImageBuiltController {
    /// A built image ends the connection; any other feedback is an error.
    pub fn handle_response(&self, command: FeedbackCommand) -> (r: Result<ConnectionStatus, String>)
        ensures
            match command {
                FeedbackCommand::ImageBuilt { .. } => r == Ok::<ConnectionStatus, String>(
                    ConnectionStatus::Finished,
                ),
                _ => r matches Err(e) && e@ == invalid_command(command),
            },
    {
        match command {
            FeedbackCommand::ImageBuilt { .. } => Ok(ConnectionStatus::Finished),
            _ => Err(invalid_command_message(&command)),
        }
    }
}

impl ContentSentController {
    /// Any feedback ends the connection (text is shown, anything else is
    /// reported as unsupported).
    pub fn handle_response(&self, command: FeedbackCommand) -> (r: Result<ConnectionStatus, String>)
        ensures
            r == Ok::<ConnectionStatus, String>(ConnectionStatus::Finished),
    {
        Ok(ConnectionStatus::Finished)
    }
}

} // verus!
