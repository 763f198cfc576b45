use container_runtime::common::commands::feedback_commands::FeedbackCommand;
use container_runtime::common::commands::runtime_commands::{
    ContainerCommand, ImageCommand, NetworkConfiguration,
};
use container_runtime::common::image::Image;
use container_runtime::common::process::{
    container_unshare_flags, map_network_configuration_to_unshare_flag, NamespaceFlags,
};
use container_runtime::common::runtime_commands::ContainerCommand as SecondCommand;

#[test]
fn network_configuration_names() {
    assert_eq!(NetworkConfiguration::default(), NetworkConfiguration::Host);
    assert_eq!(NetworkConfiguration::from("host"), NetworkConfiguration::Host);
    assert_eq!(NetworkConfiguration::from("none"), NetworkConfiguration::NoNetwork);
    assert_eq!(NetworkConfiguration::from("bridge"), NetworkConfiguration::Host);
    assert_eq!(NetworkConfiguration::from_name("NONE"), NetworkConfiguration::Host);
    assert_eq!(NetworkConfiguration::NoNetwork.debug_name(), "None");
    assert_eq!(NetworkConfiguration::Host.debug_name(), "Host");
}

#[test]
fn unshare_flags_follow_the_network() {
    let none = NetworkConfiguration::NoNetwork;
    let host = NetworkConfiguration::Host;
    assert_eq!(
        map_network_configuration_to_unshare_flag(&none),
        NamespaceFlags { new_pid: false, new_mount: false, new_uts: false, new_net: true }
    );
    assert_eq!(
        map_network_configuration_to_unshare_flag(&host),
        NamespaceFlags { new_pid: false, new_mount: false, new_uts: false, new_net: false }
    );
    assert_eq!(
        container_unshare_flags(&none),
        NamespaceFlags { new_pid: true, new_mount: true, new_uts: true, new_net: true }
    );
    assert_eq!(
        container_unshare_flags(&host),
        NamespaceFlags { new_pid: true, new_mount: true, new_uts: true, new_net: false }
    );
}

#[test]
fn command_descriptions() {
    let start = ContainerCommand::Start {
        container_id: "c1".to_string(),
        image: "debian".to_string(),
        network: None,
        command: "bash".to_string(),
        args: vec!["-c".to_string(), "echo \"hi\"".to_string()],
    };
    assert_eq!(
        start.to_string(),
        "Start container c1 with network Host and image debian and command bash and args [\"-c\", \"echo \\\"hi\\\"\"]"
    );
    let isolated = ContainerCommand::Start {
        container_id: "c2".to_string(),
        image: "alpine".to_string(),
        network: Some(NetworkConfiguration::NoNetwork),
        command: "sh".to_string(),
        args: vec![],
    };
    assert_eq!(
        isolated.to_string(),
        "Start container c2 with network None and image alpine and command sh and args []"
    );
    let build = ContainerCommand::Build {
        image_id: "img".to_string(),
        dockerfile: "/src/Dockerfile".to_string(),
    };
    assert_eq!(build.to_string(), "Build image img with Dockerfile /src/Dockerfile");
    assert_eq!(ContainerCommand::Image(ImageCommand::List).to_string(), "Image command List");
    assert_eq!(
        ContainerCommand::Stop { container_id: "c1".to_string() }.to_string(),
        "Stop container c1"
    );
    assert_eq!(ContainerCommand::List {}.to_string(), "List running containers");
}

#[test]
fn canonize_paths_changes_only_builds() {
    let mut build = ContainerCommand::Build {
        image_id: "img".to_string(),
        dockerfile: "Dockerfile".to_string(),
    };
    build.canonize_paths("/home/u/Dockerfile".to_string());
    assert_eq!(
        build,
        ContainerCommand::Build {
            image_id: "img".to_string(),
            dockerfile: "/home/u/Dockerfile".to_string(),
        }
    );
    let mut stop = ContainerCommand::Stop { container_id: "c".to_string() };
    stop.canonize_paths("/ignored".to_string());
    assert_eq!(stop, ContainerCommand::Stop { container_id: "c".to_string() });

    let mut second = SecondCommand::Build {
        image_id: "img".to_string(),
        dockerfile: "df".to_string(),
    };
    second.canonize_paths("/abs/df".to_string());
    assert_eq!(
        second,
        SecondCommand::Build { image_id: "img".to_string(), dockerfile: "/abs/df".to_string() }
    );
    let mut create = SecondCommand::Create { container_id: "c".to_string(), image: "i".to_string() };
    create.canonize_paths("/x".to_string());
    assert_eq!(create, SecondCommand::Create { container_id: "c".to_string(), image: "i".to_string() });
}

#[test]
fn second_command_descriptions() {
    let start = SecondCommand::Start {
        container_id: "c1".to_string(),
        image: "debian".to_string(),
        command: "ls".to_string(),
        args: vec!["-l".to_string()],
    };
    assert_eq!(
        start.to_string(),
        "Start container c1 with image debian and command ls and args [\"-l\"]"
    );
    assert_eq!(
        SecondCommand::Build { image_id: "i".to_string(), dockerfile: "/d".to_string() }.to_string(),
        "Build image i with Dockerfile /d"
    );
    assert_eq!(
        SecondCommand::Stop { container_id: "c".to_string() }.to_string(),
        "Stop container c"
    );
    assert_eq!(
        SecondCommand::Create { container_id: "c".to_string(), image: "i".to_string() }.to_string(),
        "Create container c with image i"
    );
}

#[test]
fn feedback_descriptions() {
    assert_eq!(
        FeedbackCommand::ImageBuilt { image: Image::new("web".to_string()) }.to_string(),
        "Image built: Image { id: \"web\" }"
    );
    assert_eq!(
        FeedbackCommand::ContainerStarted { pid: 1234, name: "c1".to_string() }.to_string(),
        "Container started with pid 1234 and name c1"
    );
    assert_eq!(
        FeedbackCommand::ContainerExited { pid: -1, name: "c1".to_string() }.to_string(),
        "Container exited with pid -1 and name c1"
    );
    assert_eq!(
        FeedbackCommand::Content("images: a, b".to_string()).to_string(),
        "Content: images: a, b"
    );
}
