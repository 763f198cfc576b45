//! Building an image: what each Dockerfile instruction does to it.
use vstd::prelude::*;

use crate::common::image::{filesystem_path, Image};
use crate::daemon::image_builder::parser::DockerfileInstruction;
use crate::text::{join_path, path_join};

verus! {

broadcast use vstd::string::group_string_axioms;

/// Builds images from Dockerfiles.
#[derive(Debug)]
pub struct ImageBuilder {}

/// One step of a build.
#[derive(Debug, PartialEq, Eq)]
pub enum BuildStep {
    /// Run a shell command inside the image's root filesystem.
    Run(String),
    /// Copy a file or directory into the image.
    Copy { from: String, to: String },
    /// Copy another image's root filesystem into the image.
    CloneImage { from: String, to: String },
    /// Add a command to the image's entrypoints.
    AddEntrypoint(String),
}

/// The directory holding a path (`Path::parent`): `None` for a root or an
/// empty path.
pub uninterp spec fn parent_path(path: Seq<char>) -> Option<Seq<char>>;

/// `Path::new(path).parent()`, as text: as named by [`parent_path`].
#[verifier::external_body]
fn path_parent(path: &str) -> (r: Option<String>)
    ensures
        match r {
            Some(p) => parent_path(path@) == Some(p@),
            None => parent_path(path@) is None,
        },
{
    match std::path::Path::new(path).parent() {
        Some(parent) => Some(parent.to_string_lossy().into_owned()),
        None => None,
    }
}

/// Where a `COPY` copies from: `source` taken relative to the directory of
/// the Dockerfile.
pub open spec fn copy_source(dockerfile: Seq<char>, source: Seq<char>) -> Option<Seq<char>> {
    match parent_path(dockerfile) {
        Some(dir) => Some(path_join(dir, source)),
        None => None,
    }
}

impl ImageBuilder {
    /// An image builder.
    pub fn new() -> (b: ImageBuilder) {
        ImageBuilder {  }
    }

    /// The copy a `COPY source destination` line of `dockerfile` makes into
    /// `image`: from `source` next to the Dockerfile to
    /// `<root filesystem>/<destination>`.
    pub fn copy_file(
        image: &Image,
        dockerfile: &str,
        source: &str,
        destination: &str,
        install_path: &str,
    ) -> (r: Result<(String, String), String>)
        ensures
            match filesystem_path(install_path@, image.id@) {
                Err(e) => r matches Err(m) && m@ == e,
                Ok(root) => match copy_source(dockerfile@, source@) {
                    None => r matches Err(m) && m@ == "Failed to get parent directory"@,
                    Some(from) => r matches Ok((f, t)) && f@ == from && t@ == root + "/"@
                        + destination@,
                },
            },
    {
        let image_path = image.get_filesystem_path(install_path)?;
        let parent = match path_parent(dockerfile) {
            Some(p) => p,
            None => {
                return Err(String::from_str("Failed to get parent directory"));
            },
        };
        let source_path = join_path(parent.as_str(), source);
        let mut destination_path = image_path;
        destination_path.append("/");
        destination_path.append(destination);
        Ok((source_path, destination_path))
    }

    /// The step that `instruction` of `dockerfile` makes in building
    /// `image`: a command to run, a copy next to the Dockerfile, a copy of
    /// another image's root filesystem, or an entrypoint to add.
    pub fn build_step(
        image: &Image,
        dockerfile: &str,
        instruction: DockerfileInstruction,
        install_path: &str,
    ) -> (r: Result<BuildStep, String>)
        ensures
            match instruction {
                DockerfileInstruction::RUN(command) => r == Ok::<BuildStep, String>(
                    BuildStep::Run(command),
                ),
                DockerfileInstruction::ENTRYPOINT(e) => r == Ok::<BuildStep, String>(
                    BuildStep::AddEntrypoint(e),
                ),
                DockerfileInstruction::FROM(source_image) => match filesystem_path(
                    install_path@,
                    source_image@,
                ) {
                    Err(e) => r matches Err(m) && m@ == e,
                    Ok(from) => r matches Ok(BuildStep::CloneImage { from: f, to: t }) && f@
                        == from && filesystem_path(install_path@, image.id@) == Ok::<
                        Seq<char>,
                        Seq<char>,
                    >(t@),
                },
                DockerfileInstruction::COPY(source, destination) => match filesystem_path(
                    install_path@,
                    image.id@,
                ) {
                    Err(e) => r matches Err(m) && m@ == e,
                    Ok(root) => match copy_source(dockerfile@, source@) {
                        None => r matches Err(m) && m@ == "Failed to get parent directory"@,
                        Some(from) => r matches Ok(BuildStep::Copy { from: f, to: t }) && f@
                            == from && t@ == root + "/"@ + destination@,
                    },
                },
            },
    {
        match instruction {
            DockerfileInstruction::RUN(command) => Ok(BuildStep::Run(command)),
            DockerfileInstruction::COPY(source, destination) => {
                let (from, to) = Self::copy_file(
                    image,
                    dockerfile,
                    source.as_str(),
                    destination.as_str(),
                    install_path,
                )?;
                Ok(BuildStep::Copy { from, to })
            },
            DockerfileInstruction::FROM(source_image_id) => {
                let source_image = Image::new(source_image_id);
                let (from, to) = source_image.clone_image_contents(image, install_path)?;
                Ok(BuildStep::CloneImage { from, to })
            },
            DockerfileInstruction::ENTRYPOINT(entrypoint) => Ok(
                BuildStep::AddEntrypoint(entrypoint),
            ),
        }
    }
}

} // verus!
