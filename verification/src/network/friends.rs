//! The friend protocol between peers and the friend commands of the event
//! loop.
use vstd::prelude::*;

verus! {

/// What one peer asks another about names and friendship.
#[derive(Debug, Clone, Copy, PartialEq, Eq, Structural)]
pub enum FriendRequest {
    RequestName,
    AddFriend,
    AcceptFriend { decision: bool },
}

/// The answers to a [`FriendRequest`].
#[derive(Debug, Clone, PartialEq, Eq)]
pub enum FriendResponse {
    RequestName { name: String },
    AddFriendAck,
    AcceptFriendAck,
}

/// What the event loop is asked to do about friends and the tracker.
#[derive(Debug, Clone, PartialEq, Eq)]
pub enum FriendCommand {
    RequestName { peer: String },
    AddFriend { peer: String },
    AcceptFriend { peer: String, decision: bool },
    SearchPeer { id: String },
    SearchUsername { username: String },
    CheckUsernameAvailability { username: String },
    ChangeUsername { username: String },
    LoadFriends,
    LoadPendingFriendRequests,
    LoadIncomingFriendRequests,
}

} // verus!
