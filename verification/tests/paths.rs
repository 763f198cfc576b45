use container_runtime::common::filesystem::{
    is_proc_mounted, overlay_mount_options, FileMetadata, FileType,
};
use container_runtime::common::image::{EntryPoints, Image};
use container_runtime::common::logs::get_log4rs_config_path;
use container_runtime::common::process::get_install_path;
use container_runtime::container::Container;
use container_runtime::daemon::image::Image as DaemonImage;
use container_runtime::unshare::get_install_path as env_install_path;

const INSTALL: &str = "/var/lib/container-runtime";

#[test]
fn install_path_must_be_set() {
    assert_eq!(get_install_path(INSTALL), Ok(INSTALL.to_string()));
    assert_eq!(get_install_path(""), Err("INSTALL_PATH is not set".to_string()));
    assert_eq!(env_install_path(Some("/opt/rt")), Ok("/opt/rt".to_string()));
    assert_eq!(env_install_path(None), Err("INSTALL_PATH not set".to_string()));
}

#[test]
fn image_paths_live_under_images() {
    let image = Image::new("debian".to_string());
    assert_eq!(
        image.get_image_path(INSTALL),
        Ok("/var/lib/container-runtime/images/debian".to_string())
    );
    assert_eq!(
        image.get_filesystem_path(INSTALL),
        Ok("/var/lib/container-runtime/images/debian/rootfs".to_string())
    );
    assert_eq!(
        image.get_entrypoint_path(INSTALL),
        Ok("/var/lib/container-runtime/images/debian/entrypoints.json".to_string())
    );
    assert_eq!(
        image.get_image_path("/install/"),
        Ok("/install/images/debian".to_string())
    );
    assert_eq!(image.get_image_path(""), Err("INSTALL_PATH is not set".to_string()));
    assert_eq!(image.get_filesystem_path(""), Err("INSTALL_PATH is not set".to_string()));
}

#[test]
fn cloning_copies_root_filesystems() {
    let base = Image::new("base".to_string());
    let app = Image::new("app".to_string());
    assert_eq!(
        base.clone_image_contents(&app, "/rt"),
        Ok(("/rt/images/base/rootfs".to_string(), "/rt/images/app/rootfs".to_string()))
    );
    assert_eq!(
        base.clone_image_contents(&app, ""),
        Err("INSTALL_PATH is not set".to_string())
    );
}

#[test]
fn entrypoints_keep_their_order() {
    let mut e = EntryPoints::new();
    assert!(e.entrypoints.is_empty());
    e.add_entrypoint("first".to_string());
    e.add_entrypoint("second".to_string());
    assert_eq!(e.entrypoints, vec!["first".to_string(), "second".to_string()]);
}

#[test]
fn log_configuration_is_in_the_install_path() {
    assert_eq!(
        get_log4rs_config_path("/rt"),
        Ok("/rt/log4rs.yaml".to_string())
    );
    assert_eq!(
        get_log4rs_config_path("/rt/"),
        Ok("/rt//log4rs.yaml".to_string())
    );
    assert_eq!(get_log4rs_config_path(""), Err("INSTALL_PATH is not set".to_string()));
}

#[test]
fn daemon_image_path() {
    let image = DaemonImage::new("alpine".to_string());
    assert_eq!(image.get_image_path("/rt"), Ok("/rt/images/alpine".to_string()));
    assert_eq!(image.get_image_path(""), Err("INSTALL_PATH is not set".to_string()));
}

fn container() -> Container {
    Container::new(
        "c1".to_string(),
        DaemonImage::new("debian".to_string()),
        "bash".to_string(),
        vec!["-c".to_string(), "ls".to_string()],
    )
}

#[test]
fn container_directories() {
    let c = container();
    assert_eq!(c.command, "bash");
    assert_eq!(c.args, vec!["-c".to_string(), "ls".to_string()]);
    assert_eq!(Container::get_containers_path(Some("/rt")), Ok("/rt/containers".to_string()));
    assert_eq!(
        Container::get_containers_path(None),
        Err("INSTALL_PATH not set".to_string())
    );
    assert_eq!(c.get_conatiner_path(Some("/rt")), Ok("/rt/containers/c1".to_string()));
    assert_eq!(c.get_overlayfs_path(Some("/rt")), Ok("/rt/containers/c1/overlay".to_string()));
    assert_eq!(
        c.get_work_overlayfs_path(Some("/rt")),
        Ok("/rt/containers/c1/overlay/work".to_string())
    );
    assert_eq!(
        c.get_upper_overlayfs_path(Some("/rt")),
        Ok("/rt/containers/c1/overlay/upper".to_string())
    );
    assert_eq!(
        c.get_merged_overlayfs_path(Some("/rt")),
        Ok("/rt/containers/c1/overlay/merged".to_string())
    );
    assert_eq!(
        c.get_inner_overlay_path(Some("/rt"), "extra"),
        Ok("/rt/containers/c1/overlay/extra".to_string())
    );
    assert_eq!(
        Container::get_inner_containers_path(Some("/rt"), "x"),
        Ok("/rt/containers/x".to_string())
    );
    assert_eq!(
        c.get_lower_overlayfs_path("/built"),
        Ok("/built/images/debian".to_string())
    );
}

#[test]
fn container_directories_to_prepare() {
    let c = container();
    assert_eq!(
        c.prepare_container_directories(Some("/rt")),
        Ok(vec![
            "/rt/containers/c1/overlay/work".to_string(),
            "/rt/containers/c1/overlay/upper".to_string(),
            "/rt/containers/c1/overlay/merged".to_string(),
        ])
    );
    assert_eq!(
        c.prepare_container_directories(None),
        Err("INSTALL_PATH not set".to_string())
    );
}

#[test]
fn overlay_mount_of_a_container() {
    let c = container();
    let m = c.mount_overlayfs(Some("/rt"), "/built").unwrap();
    assert_eq!(m.lower, "/built/images/debian");
    assert_eq!(m.upper, "/rt/containers/c1/overlay/upper");
    assert_eq!(m.work, "/rt/containers/c1/overlay/work");
    assert_eq!(m.target, "/rt/containers/c1/overlay/merged");
    assert_eq!(
        m.options(),
        "lowerdir=/built/images/debian,upperdir=/rt/containers/c1/overlay/upper,workdir=/rt/containers/c1/overlay/work"
    );
    assert_eq!(
        c.mount_overlayfs(Some("/rt"), ""),
        Err("INSTALL_PATH is not set".to_string())
    );
    assert_eq!(
        c.mount_overlayfs(None, "/built"),
        Err("INSTALL_PATH not set".to_string())
    );
}

#[test]
fn distinct_ids_get_distinct_directories() {
    let a = Image::new("a".to_string()).get_image_path(INSTALL).unwrap();
    let b = Image::new("b".to_string()).get_image_path(INSTALL).unwrap();
    assert_ne!(a, b);
    let c1 = container().get_conatiner_path(Some("/rt")).unwrap();
    let c2 = Container::new("c2".to_string(), DaemonImage::new("debian".to_string()), "sh".to_string(), vec![])
        .get_conatiner_path(Some("/rt"))
        .unwrap();
    assert_ne!(c1, c2);
}

#[test]
fn proc_mount_is_found_in_the_mount_table() {
    let table = "sysfs /sys sysfs rw 0 0\nproc /proc proc rw,nosuid 0 0\n";
    assert!(is_proc_mounted(table));
    assert!(!is_proc_mounted("sysfs /sys sysfs rw 0 0\n/proc\n"));
    assert!(!is_proc_mounted(""));
    assert!(is_proc_mounted("none   /proc\n"));
}

#[test]
fn file_kinds() {
    let plain = FileMetadata { is_dir: false, is_char_device: false };
    let dir = FileMetadata { is_dir: true, is_char_device: false };
    let dev = FileMetadata { is_dir: false, is_char_device: true };
    assert_eq!(FileType::from_path("/l", true, Err("gone".to_string())), Ok(FileType::Symlink));
    assert_eq!(FileType::from_path("/d", false, Ok(dir)), Ok(FileType::Directory));
    assert_eq!(FileType::from_path("/c", false, Ok(dev)), Ok(FileType::Device));
    assert_eq!(FileType::from_path("/f", false, Ok(plain)), Ok(FileType::File));
    assert_eq!(
        FileType::from_path("/x", false, Err("No such file or directory".to_string())),
        Err("Failed to get metadata for /x: No such file or directory".to_string())
    );
}

#[test]
fn overlay_options_text() {
    assert_eq!(overlay_mount_options("/l", "/u", "/w"), "lowerdir=/l,upperdir=/u,workdir=/w");
}
