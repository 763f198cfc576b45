//! The daemon's controllers: which requests each one accepts.
use vstd::prelude::*;

use crate::common::commands::runtime_commands::{command_text, ContainerCommand};

pub mod build_image_controller;
pub mod list_images_controller;

verus! {

/// The error for a request a controller does not handle.
pub open spec fn unsupported_command(command: ContainerCommand) -> Seq<char> {
    "Command not supported by this controller "@ + command_text(command)
}

/// The error for a request a controller does not handle, computed.
pub fn unsupported_command_message(command: &ContainerCommand) -> (r: String)
    ensures
        r@ == unsupported_command(*command),
{
    let mut r = String::from_str("Command not supported by this controller ");
    r.append(command.to_string().as_str());
    r
}

} // verus!
