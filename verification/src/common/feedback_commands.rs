//! The first form of the daemon's feedback.
use vstd::prelude::*;

use crate::common::image::Image;

verus! {

/// The first form of the daemon's feedback.
#[derive(Debug, Clone, PartialEq, Eq)]
pub enum FeedbackCommand {
    /// An image was built.
    ImageBuilt { image: Image },
    /// A container started as the process `pid`.
    ContainerStarted { pid: i32, name: String },
}

} // verus!
