//! The feedback the daemon sends back to a client.
use vstd::prelude::*;

use crate::common::image::Image;
use crate::text::{debug_string, signed_decimal, signed_decimal_string};

verus! {

broadcast use vstd::string::group_string_axioms;

/// The feedback the daemon sends back to a client.
#[derive(Debug, Clone, PartialEq, Eq)]
pub enum FeedbackCommand {
    /// An image was built.
    ImageBuilt { image: Image },
    /// A container started as the process `pid`.
    ContainerStarted { pid: i32, name: String },
    /// A container's process `pid` exited.
    ContainerExited { pid: i32, name: String },
    /// Text to show.
    Content(String),
}

/// The `Debug` rendering of an image: `Image { id: "<id>" }`.
pub open spec fn image_debug(image: Image) -> Seq<char> {
    "Image { id: "@ + debug_string(image.id@) + " }"@
}

/// The text that describes a piece of feedback.
pub open spec fn feedback_text(f: FeedbackCommand) -> Seq<char> {
    match f {
        FeedbackCommand::ImageBuilt { image } => "Image built: "@ + image_debug(image),
        FeedbackCommand::ContainerStarted { pid, name } => "Container started with pid "@
            + signed_decimal(pid as int) + " and name "@ + name@,
        FeedbackCommand::ContainerExited { pid, name } => "Container exited with pid "@
            + signed_decimal(pid as int) + " and name "@ + name@,
        FeedbackCommand::Content(content) => "Content: "@ + content@,
    }
}

impl FeedbackCommand {
    /// The text that describes this feedback.
    pub fn to_string(&self) -> (r: String)
        ensures
            r@ == feedback_text(*self),
    {
        match self {
            FeedbackCommand::ImageBuilt { image } => {
                let mut r = String::from_str("Image built: Image { id: ");
                r.append(crate::text::debug_text(image.id.as_str()).as_str());
                r.append(" }");
                proof {
                    reveal_strlit("Image built: Image { id: ");
                    reveal_strlit("Image built: ");
                    reveal_strlit("Image { id: ");
                    assert("Image built: Image { id: "@ =~= "Image built: "@ + "Image { id: "@);
                }
                r
            },
            FeedbackCommand::ContainerStarted { pid, name } => {
                let mut r = String::from_str("Container started with pid ");
                r.append(signed_decimal_string(*pid).as_str());
                r.append(" and name ");
                r.append(name.as_str());
                r
            },
            FeedbackCommand::ContainerExited { pid, name } => {
                let mut r = String::from_str("Container exited with pid ");
                r.append(signed_decimal_string(*pid).as_str());
                r.append(" and name ");
                r.append(name.as_str());
                r
            },
            FeedbackCommand::Content(content) => {
                let mut r = String::from_str("Content: ");
                r.append(content.as_str());
                r
            },
        }
    }
}

} // verus!
