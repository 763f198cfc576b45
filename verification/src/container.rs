//! A container: where its files live and how its overlay filesystem is
//! stacked on its image.
use vstd::prelude::*;

use crate::common::filesystem::{overlay_mount_options, overlay_options};
use crate::common::image::image_path;
use crate::daemon::image::Image;
use crate::text::{
    is_relative, join_path, join_result, lemma_path_join_injective, path_join, text_result, views,
};
use crate::unshare::{env_install_path_result, get_install_path, option_view};

verus! {

broadcast use vstd::string::group_string_axioms;

/// A container: an id, the image it runs, and the command it starts with.
#[derive(Debug)]
pub struct Container {
    id: String,
    image: Box<Image>,
    pub command: String,
    pub args: Vec<String>,
}

/// Where a container's overlay filesystem is mounted from and to.
#[derive(Debug, Clone, PartialEq, Eq)]
pub struct OverlayMount {
    /// The image's directory, read only.
    pub lower: String,
    /// The container's own layer.
    pub upper: String,
    /// The overlay's work directory.
    pub work: String,
    /// Where the merged view is mounted.
    pub target: String,
}

/// The directory holding all containers: `<install>/containers`.
pub open spec fn containers_path(variable: Option<Seq<char>>) -> Result<Seq<char>, Seq<char>> {
    join_result(env_install_path_result(variable), "containers"@)
}

/// The directory of the container `id`: `<containers>/<id>`.
pub open spec fn container_path(variable: Option<Seq<char>>, id: Seq<char>) -> Result<
    Seq<char>,
    Seq<char>,
> {
    join_result(containers_path(variable), id)
}

/// The overlay directory of the container `id`: `<container>/overlay`.
pub open spec fn overlay_path(variable: Option<Seq<char>>, id: Seq<char>) -> Result<
    Seq<char>,
    Seq<char>,
> {
    join_result(container_path(variable, id), "overlay"@)
}

/// A directory inside the overlay directory of the container `id`.
pub open spec fn inner_overlay_path(
    variable: Option<Seq<char>>,
    id: Seq<char>,
    dirname: Seq<char>,
) -> Result<Seq<char>, Seq<char>> {
    join_result(overlay_path(variable, id), dirname)
}

impl Container {
    /// This container's id.
    pub closed spec fn id(&self) -> Seq<char> {
        self.id@
    }

    /// The id of this container's image.
    pub closed spec fn image_id(&self) -> Seq<char> {
        self.image@
    }

    /// The command this container starts with.
    pub closed spec fn command_text(&self) -> Seq<char> {
        self.command@
    }

    /// The arguments of that command.
    pub closed spec fn argument_texts(&self) -> Seq<Seq<char>> {
        views(self.args@)
    }

    /// A container `id` of `image` that starts with `command` and `args`.
    pub fn new(id: String, image: Image, command: String, args: Vec<String>) -> (c: Container)
        ensures
            c.id() == id@,
            c.image_id() == image@,
            c.command_text() == command@,
            c.argument_texts() == views(args@),
    {
        Container { id, image: Box::new(image), command, args }
    }

    /// A directory directly inside the containers directory.
    pub fn get_inner_containers_path(variable: Option<&str>, dirname: &str) -> (r: Result<
        String,
        String,
    >)
        ensures
            text_result(r) == join_result(containers_path(option_view(variable)), dirname@),
    {
        let container_path = Self::get_containers_path(variable)?;
        Ok(join_path(container_path.as_str(), dirname))
    }

    /// A directory inside this container's overlay directory.
    pub fn get_inner_overlay_path(&self, variable: Option<&str>, dirname: &str) -> (r: Result<
        String,
        String,
    >)
        ensures
            text_result(r) == inner_overlay_path(option_view(variable), self.id(), dirname@),
    {
        let overlay_path = self.get_overlayfs_path(variable)?;
        Ok(join_path(overlay_path.as_str(), dirname))
    }

    /// The directories to empty before mounting, in order: work, upper and
    /// merged.
    pub fn prepare_container_directories(&self, variable: Option<&str>) -> (r: Result<
        Vec<String>,
        String,
    >)
        ensures
            match r {
                Ok(dirs) => dirs@.len() == 3 && inner_overlay_path(
                    option_view(variable),
                    self.id(),
                    "work"@,
                ) == Ok::<Seq<char>, Seq<char>>(dirs@[0]@) && inner_overlay_path(
                    option_view(variable),
                    self.id(),
                    "upper"@,
                ) == Ok::<Seq<char>, Seq<char>>(dirs@[1]@) && inner_overlay_path(
                    option_view(variable),
                    self.id(),
                    "merged"@,
                ) == Ok::<Seq<char>, Seq<char>>(dirs@[2]@),
                Err(e) => overlay_path(option_view(variable), self.id()) == Err::<
                    Seq<char>,
                    Seq<char>,
                >(e@),
            },
    {
        let work_layer_path = self.get_work_overlayfs_path(variable)?;
        let upper_layer_path = self.get_upper_overlayfs_path(variable)?;
        let merged_layer_path = self.get_merged_overlayfs_path(variable)?;
        let mut dirs: Vec<String> = Vec::new();
        dirs.push(work_layer_path);
        dirs.push(upper_layer_path);
        dirs.push(merged_layer_path);
        Ok(dirs)
    }

    /// This container's overlay directory.
    pub fn get_overlayfs_path(&self, variable: Option<&str>) -> (r: Result<String, String>)
        ensures
            text_result(r) == overlay_path(option_view(variable), self.id()),
    {
        let container_path = self.get_conatiner_path(variable)?;
        Ok(join_path(container_path.as_str(), "overlay"))
    }

    /// The lower layer: the image's directory under the build-time install
    /// path `install_path`.
    pub fn get_lower_overlayfs_path(&self, install_path: &str) -> (r: Result<String, String>)
        ensures
            text_result(r) == image_path(install_path@, self.image_id()),
    {
        self.image.get_image_path(install_path)
    }

    /// The overlay's work directory.
    pub fn get_work_overlayfs_path(&self, variable: Option<&str>) -> (r: Result<String, String>)
        ensures
            text_result(r) == inner_overlay_path(option_view(variable), self.id(), "work"@),
    {
        self.get_inner_overlay_path(variable, "work")
    }

    /// The directory the merged view is mounted on.
    pub fn get_merged_overlayfs_path(&self, variable: Option<&str>) -> (r: Result<String, String>)
        ensures
            text_result(r) == inner_overlay_path(option_view(variable), self.id(), "merged"@),
    {
        self.get_inner_overlay_path(variable, "merged")
    }

    /// The container's own layer.
    pub fn get_upper_overlayfs_path(&self, variable: Option<&str>) -> (r: Result<String, String>)
        ensures
            text_result(r) == inner_overlay_path(option_view(variable), self.id(), "upper"@),
    {
        self.get_inner_overlay_path(variable, "upper")
    }

    /// The overlay mount of this container, computed after its directories
    /// were prepared: the image directory (from the build-time install path
    /// `install_path`) as lower layer, and the container's upper, work and
    /// merged directories (from the `INSTALL_PATH` variable).
    pub fn mount_overlayfs(&self, variable: Option<&str>, install_path: &str) -> (r: Result<
        OverlayMount,
        String,
    >)
        ensures
            match r {
                Ok(m) => {
                    &&& image_path(install_path@, self.image_id()) == Ok::<Seq<char>, Seq<char>>(
                        m.lower@,
                    )
                    &&& inner_overlay_path(option_view(variable), self.id(), "upper"@) == Ok::<
                        Seq<char>,
                        Seq<char>,
                    >(m.upper@)
                    &&& inner_overlay_path(option_view(variable), self.id(), "work"@) == Ok::<
                        Seq<char>,
                        Seq<char>,
                    >(m.work@)
                    &&& inner_overlay_path(option_view(variable), self.id(), "merged"@) == Ok::<
                        Seq<char>,
                        Seq<char>,
                    >(m.target@)
                },
                Err(e) => match image_path(install_path@, self.image_id()) {
                    Err(x) => e@ == x,
                    Ok(_) => overlay_path(option_view(variable), self.id()) == Err::<
                        Seq<char>,
                        Seq<char>,
                    >(e@),
                },
            },
    {
        let lower = self.get_lower_overlayfs_path(install_path)?;
        let upper = self.get_upper_overlayfs_path(variable)?;
        let work = self.get_work_overlayfs_path(variable)?;
        let target = self.get_merged_overlayfs_path(variable)?;
        Ok(OverlayMount { lower, upper, work, target })
    }

    /// The directory holding all containers.
    pub fn get_containers_path(variable: Option<&str>) -> (r: Result<String, String>)
        ensures
            text_result(r) == containers_path(option_view(variable)),
    {
        let install_path = get_install_path(variable)?;
        Ok(join_path(install_path.as_str(), "containers"))
    }

    /// This container's directory.
    pub fn get_conatiner_path(&self, variable: Option<&str>) -> (r: Result<String, String>)
        ensures
            text_result(r) == container_path(option_view(variable), self.id()),
    {
        let containers_path = Self::get_containers_path(variable)?;
        Ok(join_path(containers_path.as_str(), self.id.as_str()))
    }
}

impl OverlayMount {
    /// The mount options: `lowerdir=<lower>,upperdir=<upper>,workdir=<work>`.
    pub fn options(&self) -> (r: String)
        ensures
            r@ == overlay_options(self.lower@, self.upper@, self.work@),
    {
        overlay_mount_options(self.lower.as_str(), self.upper.as_str(), self.work.as_str())
    }
}

/// Law: containers with different ids (relative paths) have different
/// directories.
pub proof fn law_distinct_containers_distinct_directories(
    variable: Seq<char>,
    a: Seq<char>,
    b: Seq<char>,
)
    requires
        is_relative(a),
        is_relative(b),
        a != b,
    ensures
        container_path(Some(variable), a) != container_path(Some(variable), b),
{
    lemma_path_join_injective(path_join(variable, "containers"@), a, b);
}

/// Law: a container's work, upper and merged directories are three
/// different directories inside its overlay directory.
pub proof fn law_overlay_layers_distinct(variable: Option<Seq<char>>, id: Seq<char>)
    ensures
        overlay_path(variable, id) matches Ok(o) ==> {
            &&& inner_overlay_path(variable, id, "work"@) == Ok::<Seq<char>, Seq<char>>(
                path_join(o, "work"@),
            )
            &&& inner_overlay_path(variable, id, "upper"@) == Ok::<Seq<char>, Seq<char>>(
                path_join(o, "upper"@),
            )
            &&& inner_overlay_path(variable, id, "merged"@) == Ok::<Seq<char>, Seq<char>>(
                path_join(o, "merged"@),
            )
            &&& path_join(o, "work"@) != path_join(o, "upper"@)
            &&& path_join(o, "work"@) != path_join(o, "merged"@)
            &&& path_join(o, "upper"@) != path_join(o, "merged"@)
        },
{
    reveal_strlit("work");
    reveal_strlit("upper");
    reveal_strlit("merged");
    if let Ok(o) = overlay_path(variable, id) {
        assert("work"@ != "upper"@ && "work"@ != "merged"@ && "upper"@ != "merged"@) by {
            assert("work"@[0] != "upper"@[0]);
            assert("work"@.len() != "merged"@.len());
            assert("upper"@[0] != "merged"@[0]);
        }
        lemma_path_join_injective(o, "work"@, "upper"@);
        lemma_path_join_injective(o, "work"@, "merged"@);
        lemma_path_join_injective(o, "upper"@, "merged"@);
    }
}

} // verus!
