//! Requests from clients and the responses sent back to them.
use vstd::prelude::*;

use crate::common::commands::feedback_commands::FeedbackCommand;
use crate::common::commands::runtime_commands::ContainerCommand;
use crate::common::sockets::SOCKETS_PATH;
use crate::text::{decimal, decimal_string, lemma_decimal_injective};

verus! {

broadcast use vstd::string::group_string_axioms;

/// A client, named by the path of the socket it listens on for feedback.
#[derive(Debug, Clone, PartialEq, Eq)]
pub struct ClientId(pub String);

/// The feedback socket of the client numbered `n`: `<SOCKETS_PATH>/<n>`.
pub open spec fn client_socket_path(n: u64) -> Seq<char> {
    SOCKETS_PATH@ + "/"@ + decimal(n as nat)
}

/// `rand::random::<u64>()`: a number from the thread's random generator.
/// Nothing is promised of which number.
#[verifier::external_body]
fn random_u64() -> u64 {
    rand::random::<u64>()
}

impl ClientId {
    /// A fresh client, numbered at random.
    pub fn new() -> (c: ClientId)
        ensures
            exists|n: u64| c.0@ == client_socket_path(n),
    {
        let n: u64 = random_u64();
        Self::from_number(n)
    }

    /// The client numbered `n`.
    pub fn from_number(n: u64) -> (c: ClientId)
        ensures
            c.0@ == client_socket_path(n),
    {
        let mut path = String::from_str(SOCKETS_PATH);
        path.append("/");
        path.append(decimal_string(n).as_str());
        ClientId(path)
    }

    /// The client's socket path.
    pub fn get_id(&self) -> (r: &String)
        ensures
            r == &self.0,
    {
        &self.0
    }
}

/// A command from a client.
#[derive(Debug, Clone, PartialEq, Eq)]
pub struct ClientRequest {
    pub command: ContainerCommand,
    pub client_id: ClientId,
}

/// Feedback for a client.
#[derive(Debug, Clone, PartialEq, Eq)]
pub struct ClientResponse {
    pub client_id: ClientId,
    pub command: FeedbackCommand,
}

impl ClientResponse {
    /// The feedback `command` for `client_id`.
    pub fn new(client_id: ClientId, command: FeedbackCommand) -> (r: ClientResponse)
        ensures
            r.client_id == client_id,
            r.command == command,
    {
        ClientResponse { client_id, command }
    }
}

impl ClientRequest {
    /// The request of `command` from a fresh client.
    pub fn new(command: ContainerCommand) -> (r: ClientRequest)
        ensures
            r.command == command,
            exists|n: u64| r.client_id.0@ == client_socket_path(n),
    {
        ClientRequest { command, client_id: ClientId::new() }
    }

    /// The client that sent the request.
    pub fn get_client_id(&self) -> (r: &ClientId)
        ensures
            r == &self.client_id,
    {
        &self.client_id
    }
}

/// Law: clients numbered differently listen on different sockets.
pub proof fn law_client_ids_distinct(a: u64, b: u64)
    requires
        a != b,
    ensures
        client_socket_path(a) != client_socket_path(b),
{
    let prefix = SOCKETS_PATH@ + "/"@;
    if client_socket_path(a) == client_socket_path(b) {
        assert(client_socket_path(a).skip(prefix.len() as int) =~= decimal(a as nat));
        assert(client_socket_path(b).skip(prefix.len() as int) =~= decimal(b as nat));
        lemma_decimal_injective(a as nat, b as nat);
    }
}

} // verus!
