//! Answering requests to list the images.
use vstd::prelude::*;

use crate::common::client_request::{ClientId, ClientRequest, ClientResponse};
use crate::common::commands::feedback_commands::FeedbackCommand;
use crate::common::commands::runtime_commands::{ContainerCommand, ImageCommand};
use crate::daemon::controllers::{unsupported_command, unsupported_command_message};
use crate::text::{join, join_strings, views};

verus! {

broadcast use vstd::string::group_string_axioms;

/// Lists images.
#[derive(Debug)]
pub struct ListImagesController {}

impl ListImagesController {
    /// A controller for image listings.
    pub fn new() -> (c: ListImagesController) {
        ListImagesController {  }
    }

    /// The client to answer when `request` asks for the list of images; any
    /// other request is an error.
    pub fn accept(&mut self, request: ClientRequest) -> (r: Result<ClientId, String>)
        ensures
            match request.command {
                ContainerCommand::Image(ImageCommand::List) => r == Ok::<ClientId, String>(
                    request.client_id,
                ),
                _ => r matches Err(e) && e@ == unsupported_command(request.command),
            },
    {
        match request.command {
            ContainerCommand::Image(ImageCommand::List) => Ok(request.client_id),
            command => Err(unsupported_command_message(&command)),
        }
    }

    /// The answer to `client_id`: the image names separated by `, `.
    pub fn respond(client_id: ClientId, images: &[String]) -> (r: ClientResponse)
        ensures
            r.client_id == client_id,
            r.command matches FeedbackCommand::Content(text) && text@ == join(
                views(images@),
                ", "@,
            ),
    {
        ClientResponse::new(client_id, FeedbackCommand::Content(join_strings(images, ", ")))
    }
}

} // verus!
