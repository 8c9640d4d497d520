//! The messages exchanged between the chat daemon and its user interface.
use vstd::prelude::*;
use crate::types::{Contact, Message};

verus! {

/// A request of the user interface, tagged with the identifier under which
/// its answer will come back.
#[derive(Debug, Clone, PartialEq, Eq)]
pub struct UiClientRequest {
    pub req_id: u128,
    pub event: UiClientEvent,
}

/// A request that can only be carried out once the peer is connected.
#[derive(Debug, Clone, PartialEq, Eq)]
pub struct UiClientEventRequiringDial {
    pub peer_id: String,
    pub event: UiClientEventRequiringDialMessage,
}

/// What is to be done with a connected peer.
#[derive(Debug, Clone, PartialEq, Eq)]
pub enum UiClientEventRequiringDialMessage {
    SendMessage { peer_id: String, message: String },
    SendFriendRequest { peer_id: String },
    AcceptFriendRequest { peer_id: String },
    DenyFriendRequest { peer_id: String },
    /// Ask the peer for the name it goes by.
    ResolveName,
}

/// A request of the user interface.
#[derive(Debug, Clone, PartialEq, Eq)]
pub enum UiClientEvent {
    EventRequiringDial(UiClientEventRequiringDial),
    SearchUsername { username: String },
    SearchPeer { peer_id: String },
    CheckUsernameAvailability { username: String },
    ChangeUsername { username: String },
    LoadChatlogPage { from_peer_id: String, page: usize },
    LoadFriends,
    LoadPendingFriendRequests,
    LoadIncomingFriendRequests,
    Dial { peer_id: String },
    Close,
}

/// The answer to the request with identifier `req_id`.
#[derive(Debug, PartialEq, Eq)]
pub struct UiClientEventResponse {
    pub req_id: u128,
    pub result: Result<UiClientEventResponseType, UiClientEventResponseError>,
}

/// What a request that succeeded gives back.
#[derive(Debug, PartialEq, Eq)]
pub enum UiClientEventResponseType {
    SendMessage,
    SendFriendRequest,
    AcceptFriendRequest,
    DenyFriendRequest,
    SearchPeer { username: String },
    SearchUsername { peer_id: String },
    CheckUsernameAvailability(bool),
    ChangeUsername,
    LoadChatlogPage(Vec<Message>),
    LoadFriends(Vec<Contact>),
    LoadPendingFriendRequests(Vec<Contact>),
    LoadIncomingFriendRequests(Vec<Contact>),
}

/// Why a request failed.
#[derive(Debug, Clone, Copy, PartialEq, Eq, Structural)]
pub enum UiClientEventResponseError {
    MessageDeniedNotFriends,
    NetworkError,
    PeerNotDialed,
    SqliteError,
    PeerSearchNotFound,
    PeerSearchServerError,
    /// The tracker could not be reached.
    PeerSearchTrackerConnectionFailed,
}

/// The relay server that this node reserved a slot with.
#[derive(Debug, Clone, PartialEq, Eq)]
pub struct RelayConnectionSuccess {
    pub relay_addr: String,
}

/// Why no relay connection could be made.
#[derive(Debug, Clone, Copy, PartialEq, Eq, Structural)]
pub enum RelayConnectionError {
    DialError,
    ParseAddrError,
    ReservationError,
}

/// A failed hole-punching attempt. The daemon reports successes only, so no
/// value of this type is ever produced.
#[derive(Debug, Clone, Copy, PartialEq, Eq, Structural)]
pub struct DcutrConnectionError;

/// A direct connection that hole punching established.
#[derive(Debug, Clone, PartialEq, Eq)]
pub struct DcutrConnectionSuccess {
    pub peer_id: String,
}

/// The outcome of connecting to the relay server.
#[derive(Debug, PartialEq, Eq)]
pub struct RelayServerConnectionEvent(pub Result<RelayConnectionSuccess, RelayConnectionError>);

/// The outcome of a hole-punching attempt.
#[derive(Debug, PartialEq, Eq)]
pub struct DcutrConnectionEvent(pub Result<DcutrConnectionSuccess, DcutrConnectionError>);

/// A failure after which the daemon cannot go on.
#[derive(Debug, Clone, Copy, PartialEq, Eq, Structural)]
pub enum CriticalFailure {
    FailedToLoadSettings,
}

/// What the daemon tells the user interface.
#[allow(inconsistent_fields)]
#[derive(Debug, PartialEq, Eq)]
pub enum WriteEvent {
    CriticalFailure(CriticalFailure),
    ReceiveMessage(Message),
    ReceiveFriendRequest,
    /// A peer answered a friend request that this node sent.
    ReceiveFriendRequestResponse { decision: bool },
    /// A peer was found on the local network; `name` is `None` while its name
    /// is not known yet.
    DiscoverMdnsContact { peer_id: String, name: Option<String> },
    MdnsPeerDisconnected { peer_id: String },
    MdnsNameResolved { peer_id: String, name: String },
    RelayServerConnection(RelayServerConnectionEvent),
    DcutrConnection(DcutrConnectionEvent),
    EventResponse(UiClientEventResponse),
}

/// The identifier of a user-interface request.
#[derive(Debug, Clone, Copy, PartialEq, Eq, Structural)]
pub struct UiClientEventId(pub u128);

} // verus!
