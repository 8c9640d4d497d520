//! Direct messages between peers and the chat commands of the event loop.
use vstd::prelude::*;

verus! {

/// A chat message as it travels between two peers.
#[derive(Debug, Clone, PartialEq, Eq)]
pub struct Message {
    pub content: String,
    pub id: u128,
}

/// The request that carries a direct message.
#[derive(Debug, PartialEq, Eq)]
pub struct DirectMessageRequest(pub Message);

/// The answer to a direct message.
#[derive(Debug, PartialEq, Eq)]
pub struct DirectMessageResponse(pub MessageResponse);

/// How the receiver answers a direct message.
#[derive(Debug, Clone, Copy, PartialEq, Eq, Structural)]
pub enum MessageResponse {
    Ack,
    DeniedNotFriends,
}

/// What the event loop is asked to do with chats.
#[derive(Debug, PartialEq, Eq)]
pub enum ChatCommand {
    SendMessage { receiver: String, message: Message },
    LoadChatLog { from_peer_id: String, page: usize },
}

} // verus!
