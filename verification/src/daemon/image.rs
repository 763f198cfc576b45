//! The image a container is started from.
use vstd::prelude::*;

use crate::common::image::image_path;
use crate::common::process::get_install_path;
use crate::text::{join_path, text_result};

verus! {

broadcast use vstd::string::group_string_axioms;

/// An image, named by its id.
#[derive(Debug)]
pub struct Image {
    id: String,
}

impl View for Image {
    type V = Seq<char>;

    /// The image's id.
    closed spec fn view(&self) -> Seq<char> {
        self.id@
    }
}

impl Image {
    /// The image named `id`.
    pub fn new(id: String) -> (i: Image)
        ensures
            i@ == id@,
    {
        Image { id }
    }

    /// This image's directory, `<install>/images/<id>`, under the install
    /// path `install_path` (the `INSTALL_PATH` the program was built with).
    pub fn get_image_path(&self, install_path: &str) -> (r: Result<String, String>)
        ensures
            text_result(r) == image_path(install_path@, self@),
    {
        let install = get_install_path(install_path)?;
        let images = join_path(install.as_str(), "images");
        Ok(join_path(images.as_str(), self.id.as_str()))
    }
}

} // verus!
