//! The first daemon controller: containers created from raw requests.
use vstd::prelude::*;

use crate::common::commands::ContainerCommand;
use crate::container::Container;
use crate::daemon::image::Image;
use crate::text::{trim_char, trim_matches_char};

verus! {

broadcast use vstd::string::group_string_axioms;

/// The text of a request, without the NUL padding around it.
pub fn request_text(text: &str) -> (r: String)
    ensures
        r@ == trim_char(text@, '\0'),
{
    trim_matches_char(text, '\0')
}

/// The container a command asks to run: a create command runs `bash`
/// without arguments in a container of the named image; other commands
/// are not supported.
pub fn container_for_command(command: ContainerCommand) -> (r: Option<Container>)
    ensures
        match command {
            ContainerCommand::Create { container_id, image } => r matches Some(c) && c.id()
                == container_id@ && c.image_id() == image@ && c.command_text() == "bash"@
                && c.argument_texts() == Seq::<Seq<char>>::empty(),
            _ => r is None,
        },
{
    match command {
        ContainerCommand::Create { container_id, image } => {
            let args: Vec<String> = Vec::new();
            let c = Container::new(container_id, Image::new(image), String::from_str("bash"), args);
            assert(crate::text::views(args@) =~= Seq::<Seq<char>>::empty());
            Some(c)
        },
        _ => None,
    }
}

} // verus!
