pub mod client_request;
pub mod commands;
pub mod feedback_commands;
pub mod filesystem;
pub mod image;
pub mod logs;
pub mod process;
pub mod runtime_commands;
pub mod sockets;
pub mod strace;
