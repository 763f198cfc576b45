//! Images: where an image's files live under the install path, and the
//! entrypoints recorded for it.
use vstd::prelude::*;

use crate::common::process::{get_install_path, install_path_result};
use crate::text::{
    is_relative, join_path, join_result, lemma_path_join_injective,
    path_join, text_result,
};

verus! {

broadcast use vstd::string::group_string_axioms;

/// An image, named by its id.
#[derive(Clone, Debug, PartialEq, Eq)]
pub struct Image {
    pub id: String,
}

/// The commands to run, in order, when a container of an image starts.
#[derive(Clone, Debug, PartialEq, Eq)]
pub struct EntryPoints {
    pub entrypoints: Vec<String>,
}

impl EntryPoints {
    /// No entrypoints.
    pub fn new() -> (e: EntryPoints)
        ensures
            e.entrypoints@ == Seq::<String>::empty(),
    {
        EntryPoints { entrypoints: Vec::new() }
    }

    /// Adds `entrypoint` after the others.
    pub fn add_entrypoint(&mut self, entrypoint: String)
        ensures
            final(self).entrypoints@ == old(self).entrypoints@.push(entrypoint),
    {
        self.entrypoints.push(entrypoint);
    }
}

/// The directory of the image `id`: `<install>/images/<id>`.
pub open spec fn image_path(install: Seq<char>, id: Seq<char>) -> Result<Seq<char>, Seq<char>> {
    join_result(join_result(install_path_result(install), "images"@), id)
}

/// The root filesystem of the image `id`: `<image>/rootfs`.
pub open spec fn filesystem_path(install: Seq<char>, id: Seq<char>) -> Result<
    Seq<char>,
    Seq<char>,
> {
    join_result(image_path(install, id), "rootfs"@)
}

/// The entrypoints file of the image `id`: `<image>/entrypoints.json`.
pub open spec fn entrypoint_path(install: Seq<char>, id: Seq<char>) -> Result<
    Seq<char>,
    Seq<char>,
> {
    join_result(image_path(install, id), "entrypoints.json"@)
}

impl Image {
    /// The image named `id`.
    pub fn new(id: String) -> (i: Image)
        ensures
            i.id == id,
    {
        Image { id }
    }

    /// This image's directory under the install path `install_path` (the
    /// `INSTALL_PATH` the program was built with).
    pub fn get_image_path(&self, install_path: &str) -> (r: Result<String, String>)
        ensures
            text_result(r) == image_path(install_path@, self.id@),
    {
        let install = get_install_path(install_path)?;
        let images = join_path(install.as_str(), "images");
        Ok(join_path(images.as_str(), self.id.as_str()))
    }

    /// This image's root filesystem.
    pub fn get_filesystem_path(&self, install_path: &str) -> (r: Result<String, String>)
        ensures
            text_result(r) == filesystem_path(install_path@, self.id@),
    {
        let image_path = self.get_image_path(install_path)?;
        Ok(join_path(image_path.as_str(), "rootfs"))
    }

    /// This image's entrypoints file.
    pub fn get_entrypoint_path(&self, install_path: &str) -> (r: Result<String, String>)
        ensures
            text_result(r) == entrypoint_path(install_path@, self.id@),
    {
        let image_path = self.get_image_path(install_path)?;
        Ok(join_path(image_path.as_str(), "entrypoints.json"))
    }

    /// The copy that cloning this image's contents into `destination_image`
    /// makes: from this image's root filesystem to the destination's.
    pub fn clone_image_contents(&self, destination_image: &Image, install_path: &str) -> (r:
        Result<(String, String), String>)
        ensures
            match r {
                Ok((from, to)) => filesystem_path(install_path@, self.id@) == Ok::<
                    Seq<char>,
                    Seq<char>,
                >(from@) && filesystem_path(install_path@, destination_image.id@) == Ok::<
                    Seq<char>,
                    Seq<char>,
                >(to@),
                Err(e) => filesystem_path(install_path@, self.id@) == Err::<Seq<char>, Seq<char>>(
                    e@,
                ),
            },
    {
        let image_path = self.get_filesystem_path(install_path)?;
        let dest_path = destination_image.get_filesystem_path(install_path)?;
        Ok((image_path, dest_path))
    }
}

/// Law: different images live in different directories. For images whose
/// ids are relative paths, different ids give different image directories.
pub proof fn law_distinct_images_distinct_directories(
    install: Seq<char>,
    a: Seq<char>,
    b: Seq<char>,
)
    requires
        is_relative(a),
        is_relative(b),
        a != b,
        install.len() > 0,
    ensures
        image_path(install, a) != image_path(install, b),
{
    let images = path_join(install, "images"@);
    lemma_path_join_injective(images, a, b);
}

/// Law: an image's root filesystem and entrypoints file are two different
/// entries directly inside its directory, and both exist exactly when the
/// directory does.
pub proof fn law_image_layout(install: Seq<char>, id: Seq<char>)
    ensures
        image_path(install, id) is Ok <==> filesystem_path(install, id) is Ok,
        image_path(install, id) is Ok <==> entrypoint_path(install, id) is Ok,
        image_path(install, id) matches Ok(dir) ==> {
            &&& filesystem_path(install, id) == Ok::<Seq<char>, Seq<char>>(
                path_join(dir, "rootfs"@),
            )
            &&& entrypoint_path(install, id) == Ok::<Seq<char>, Seq<char>>(
                path_join(dir, "entrypoints.json"@),
            )
            &&& path_join(dir, "rootfs"@) != path_join(dir, "entrypoints.json"@)
        },
{
    reveal_strlit("rootfs");
    reveal_strlit("entrypoints.json");
    if let Ok(dir) = image_path(install, id) {
        assert("rootfs"@ != "entrypoints.json"@) by {
            assert("rootfs"@.len() != "entrypoints.json"@.len());
        }
        lemma_path_join_injective(dir, "rootfs"@, "entrypoints.json"@);
    }
}

} // verus!
