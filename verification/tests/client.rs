use container_runtime::client::controllers::{
    ContainerExitedController, ContainerStartedController, ContentSentController,
    ImageBuiltController,
};
use container_runtime::client::router::route_feedback_command;
use container_runtime::common::client_request::{ClientId, ClientRequest, ClientResponse};
use container_runtime::common::commands::feedback_commands::FeedbackCommand;
use container_runtime::common::commands::runtime_commands::ContainerCommand;
use container_runtime::common::image::Image;
use container_runtime::common::sockets::{ConnectionStatus, SOCKETS_PATH};

fn started() -> FeedbackCommand {
    FeedbackCommand::ContainerStarted { pid: 7, name: "c".to_string() }
}

fn exited() -> FeedbackCommand {
    FeedbackCommand::ContainerExited { pid: 7, name: "c".to_string() }
}

fn built() -> FeedbackCommand {
    FeedbackCommand::ImageBuilt { image: Image::new("i".to_string()) }
}

fn content() -> FeedbackCommand {
    FeedbackCommand::Content("text".to_string())
}

#[test]
fn client_ids_are_socket_paths() {
    let id = ClientId::from_number(42);
    assert_eq!(id.get_id(), &format!("{}/42", SOCKETS_PATH));
    assert_eq!(ClientId::from_number(0).0, format!("{}/0", SOCKETS_PATH));
    let fresh = ClientId::new();
    let prefix = format!("{}/", SOCKETS_PATH);
    assert!(fresh.0.starts_with(&prefix));
    let digits = &fresh.0[prefix.len()..];
    assert!(!digits.is_empty() && digits.chars().all(|c| c.is_ascii_digit()));
    assert_ne!(ClientId::from_number(1), ClientId::from_number(10));
}

#[test]
fn requests_and_responses() {
    let command = ContainerCommand::Stop { container_id: "c".to_string() };
    let request = ClientRequest::new(command.clone());
    assert_eq!(request.command, command);
    assert_eq!(request.get_client_id(), &request.client_id);
    assert!(request.client_id.0.starts_with(SOCKETS_PATH));
    let response = ClientResponse::new(ClientId::from_number(3), content());
    assert_eq!(response.client_id, ClientId::from_number(3));
    assert_eq!(response.command, content());
}

#[test]
fn started_controller() {
    let c = ContainerStartedController;
    assert_eq!(c.handle_response(started()), Ok(ConnectionStatus::Running));
    assert_eq!(
        c.handle_response(exited()),
        Err("Invalid command Container exited with pid 7 and name c".to_string())
    );
}

#[test]
fn exited_controller() {
    let c = ContainerExitedController;
    assert_eq!(c.handle_response(exited()), Ok(ConnectionStatus::Finished));
    assert_eq!(
        c.handle_response(content()),
        Err("Invalid command Content: text".to_string())
    );
}

#[test]
fn image_built_controller() {
    let c = ImageBuiltController;
    assert_eq!(c.handle_response(built()), Ok(ConnectionStatus::Finished));
    assert_eq!(
        c.handle_response(started()),
        Err("Invalid command Container started with pid 7 and name c".to_string())
    );
}

#[test]
fn content_controller_always_finishes() {
    let c = ContentSentController;
    assert_eq!(c.handle_response(content()), Ok(ConnectionStatus::Finished));
    assert_eq!(c.handle_response(started()), Ok(ConnectionStatus::Finished));
}

#[test]
fn router_keeps_listening_only_after_a_start() {
    assert_eq!(route_feedback_command(started()), Ok(ConnectionStatus::Running));
    assert_eq!(route_feedback_command(exited()), Ok(ConnectionStatus::Finished));
    assert_eq!(route_feedback_command(built()), Ok(ConnectionStatus::Finished));
    assert_eq!(route_feedback_command(content()), Ok(ConnectionStatus::Finished));
}
