//! Accepting requests to build an image.
use vstd::prelude::*;

use crate::common::client_request::{ClientId, ClientRequest};
use crate::common::commands::runtime_commands::ContainerCommand;
use crate::common::image::Image;
use crate::daemon::controllers::{unsupported_command, unsupported_command_message};

verus! {

/// Builds images.
#[derive(Debug)]
pub struct BuildImageController {}

/// A build the daemon is asked for.
#[derive(Debug, PartialEq, Eq)]
pub struct BuildImageRequest {
    /// The Dockerfile to build from.
    pub dockerfile: String,
    /// The image to build.
    pub image: Image,
    /// The client to tell when it is built.
    pub client_id: ClientId,
}

impl BuildImageController {
    /// A controller for builds.
    pub fn new() -> (c: BuildImageController) {
        BuildImageController {  }
    }

    /// The build that `request` asks for; a request that is not a build is
    /// an error.
    pub fn accept(&mut self, request: ClientRequest) -> (r: Result<BuildImageRequest, String>)
        ensures
            match request.command {
                ContainerCommand::Build { image_id, dockerfile } => r matches Ok(b) && b.dockerfile
                    == dockerfile && b.image.id == image_id && b.client_id == request.client_id,
                _ => r matches Err(e) && e@ == unsupported_command(request.command),
            },
    {
        let client_id = request.client_id;
        match request.command {
            ContainerCommand::Build { dockerfile, image_id } => Ok(
                BuildImageRequest { dockerfile, image: Image::new(image_id), client_id },
            ),
            command => Err(unsupported_command_message(&command)),
        }
    }
}

} // verus!
