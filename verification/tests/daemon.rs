use container_runtime::common::client_request::{ClientId, ClientRequest};
use container_runtime::common::commands::feedback_commands::FeedbackCommand;
use container_runtime::common::commands::runtime_commands::{ContainerCommand, ImageCommand};
use container_runtime::common::commands::ContainerCommand as FirstCommand;
use container_runtime::common::image::Image;
use container_runtime::daemon::controller::{container_for_command, request_text};
use container_runtime::daemon::controllers::build_image_controller::BuildImageController;
use container_runtime::daemon::controllers::list_images_controller::ListImagesController;
use container_runtime::daemon::image_builder::builder::{BuildStep, ImageBuilder};
use container_runtime::daemon::image_builder::parser::DockerfileInstruction;
use container_runtime::daemon::router::{match_command_to_controller, ControllerKind};
use container_runtime::daemon::services::images_manager::collect_image_names;

fn request(command: ContainerCommand) -> ClientRequest {
    ClientRequest { command, client_id: ClientId::from_number(9) }
}

#[test]
fn build_controller_accepts_builds() {
    let mut c = BuildImageController::new();
    let r = c
        .accept(request(ContainerCommand::Build {
            image_id: "web".to_string(),
            dockerfile: "/src/Dockerfile".to_string(),
        }))
        .unwrap();
    assert_eq!(r.dockerfile, "/src/Dockerfile");
    assert_eq!(r.image, Image::new("web".to_string()));
    assert_eq!(r.client_id, ClientId::from_number(9));
    assert_eq!(
        c.accept(request(ContainerCommand::List {})),
        Err("Command not supported by this controller List running containers".to_string())
    );
}

#[test]
fn list_images_controller() {
    let mut c = ListImagesController::new();
    assert_eq!(
        c.accept(request(ContainerCommand::Image(ImageCommand::List))),
        Ok(ClientId::from_number(9))
    );
    assert_eq!(
        c.accept(request(ContainerCommand::Stop { container_id: "x".to_string() })),
        Err("Command not supported by this controller Stop container x".to_string())
    );
    let images = vec!["base".to_string(), "web".to_string()];
    let response = ListImagesController::respond(ClientId::from_number(1), &images);
    assert_eq!(response.client_id, ClientId::from_number(1));
    assert_eq!(response.command, FeedbackCommand::Content("base, web".to_string()));
    let empty = ListImagesController::respond(ClientId::from_number(1), &[]);
    assert_eq!(empty.command, FeedbackCommand::Content(String::new()));
}

#[test]
fn router_picks_the_controller() {
    assert_eq!(
        match_command_to_controller(&ContainerCommand::Build {
            image_id: "i".to_string(),
            dockerfile: "d".to_string()
        }),
        ControllerKind::BuildImage
    );
    assert_eq!(
        match_command_to_controller(&ContainerCommand::Image(ImageCommand::List)),
        ControllerKind::ListImages
    );
    assert_eq!(
        match_command_to_controller(&ContainerCommand::Start {
            container_id: "c".to_string(),
            image: "i".to_string(),
            network: None,
            command: "sh".to_string(),
            args: vec![],
        }),
        ControllerKind::StartContainer
    );
    assert_eq!(
        match_command_to_controller(&ContainerCommand::Stop { container_id: "c".to_string() }),
        ControllerKind::StopContainer
    );
    assert_eq!(
        match_command_to_controller(&ContainerCommand::List {}),
        ControllerKind::ListRunningContainers
    );
}

#[test]
fn image_names_skip_unreadable_and_empty() {
    let names = collect_image_names(vec![
        Some("base".to_string()),
        None,
        Some(String::new()),
        Some("web".to_string()),
    ]);
    assert_eq!(names, vec!["base".to_string(), "web".to_string()]);
    assert!(collect_image_names(vec![]).is_empty());
}

#[test]
fn raw_requests_lose_their_nul_padding() {
    assert_eq!(request_text("{\"a\":1}\0\0\0"), "{\"a\":1}");
    assert_eq!(request_text("\0x\0"), "x");
    assert_eq!(request_text("\0\0"), "");
}

#[test]
fn create_commands_run_bash() {
    let c = container_for_command(FirstCommand::Create {
        container_id: "c9".to_string(),
        image: "debian".to_string(),
    })
    .unwrap();
    assert_eq!(c.command, "bash");
    assert!(c.args.is_empty());
    assert_eq!(c.get_conatiner_path(Some("/rt")), Ok("/rt/containers/c9".to_string()));
    assert_eq!(c.get_lower_overlayfs_path("/rt"), Ok("/rt/images/debian".to_string()));
    assert!(container_for_command(FirstCommand::Start { container_id: "c".to_string() }).is_none());
    assert!(container_for_command(FirstCommand::Stop { container_id: "c".to_string() }).is_none());
}

#[test]
fn build_steps() {
    let image = Image::new("web".to_string());
    let df = "/src/app/Dockerfile";
    assert_eq!(
        ImageBuilder::build_step(&image, df, DockerfileInstruction::RUN("make".to_string()), "/rt"),
        Ok(BuildStep::Run("make".to_string()))
    );
    assert_eq!(
        ImageBuilder::build_step(
            &image,
            df,
            DockerfileInstruction::ENTRYPOINT("./serve".to_string()),
            "/rt"
        ),
        Ok(BuildStep::AddEntrypoint("./serve".to_string()))
    );
    assert_eq!(
        ImageBuilder::build_step(&image, df, DockerfileInstruction::FROM("base".to_string()), "/rt"),
        Ok(BuildStep::CloneImage {
            from: "/rt/images/base/rootfs".to_string(),
            to: "/rt/images/web/rootfs".to_string(),
        })
    );
    assert_eq!(
        ImageBuilder::build_step(
            &image,
            df,
            DockerfileInstruction::COPY("static".to_string(), "var/www".to_string()),
            "/rt"
        ),
        Ok(BuildStep::Copy {
            from: "/src/app/static".to_string(),
            to: "/rt/images/web/rootfs/var/www".to_string(),
        })
    );
    assert_eq!(
        ImageBuilder::build_step(
            &image,
            "/",
            DockerfileInstruction::COPY("a".to_string(), "b".to_string()),
            "/rt"
        ),
        Err("Failed to get parent directory".to_string())
    );
    assert_eq!(
        ImageBuilder::build_step(&image, df, DockerfileInstruction::FROM("base".to_string()), ""),
        Err("INSTALL_PATH is not set".to_string())
    );
    let _ = ImageBuilder::new();
}

#[test]
fn copy_source_is_next_to_the_dockerfile() {
    let image = Image::new("web".to_string());
    assert_eq!(
        ImageBuilder::copy_file(&image, "Dockerfile", "a.txt", "/a.txt", "/rt"),
        Ok(("a.txt".to_string(), "/rt/images/web/rootfs//a.txt".to_string()))
    );
    assert_eq!(
        ImageBuilder::copy_file(&image, "/src/Dockerfile", "/abs", "x", "/rt"),
        Ok(("/abs".to_string(), "/rt/images/web/rootfs/x".to_string()))
    );
}
