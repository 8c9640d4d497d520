//! The chat daemon's network side: the commands that its event loop carries
//! out, the requests that wait for a peer to connect, and the decisions taken
//! on the events of the peer-to-peer swarm.
use vstd::prelude::*;
use crate::api::{
    UiClientEvent, UiClientEventRequiringDial, UiClientEventRequiringDialMessage, UiClientEventResponse,
    UiClientEventResponseError, UiClientRequest, WriteEvent,
};
use crate::network::chat::{ChatCommand, Message};
use crate::network::friends::FriendCommand;
use crate::network::events::{ChatPlan, chat_plan_spec};
use crate::db::sql_calls::{INSERT_SENT_MESSAGE, statements_spec};
use crate::bridge::uuid_hyphenated;

pub mod buffer;
pub mod events;
pub mod chat;
pub mod friends;

verus! {

/// A user-interface request that needs a connection to its peer, with the
/// identifier of the request.
#[derive(Debug, Clone, PartialEq, Eq)]
pub struct UiClientRequestRequiringDial {
    pub event: UiClientEventRequiringDial,
    pub id: u128,
}

/// What the event loop is asked to do.
#[derive(Debug, PartialEq, Eq)]
pub enum CommandType {
    ChatCommand(ChatCommand),
    FriendCommand(FriendCommand),
    Dial { peer_id: String },
    /// Ask whether the peer is connected; the answer goes back on a channel
    /// that the caller holds.
    IsPeerConnected { peer_id: String },
    BufferEvent { ev: UiClientRequestRequiringDial },
}

/// A command for the event loop, with the identifier of the user-interface
/// request it serves.
#[derive(Debug, PartialEq, Eq)]
pub struct Command {
    pub id: u128,
    pub cmd_type: CommandType,
}

impl Command {
    /// Dial `peer_id`, for request `req_id`.
    pub fn dial(peer_id: String, req_id: u128) -> (r: Command)
        ensures
            r == (Command { id: req_id, cmd_type: CommandType::Dial { peer_id } }),
    {
        Command { id: req_id, cmd_type: CommandType::Dial { peer_id } }
    }

    /// Ask whether `peer_id` is connected; `id` is a fresh identifier.
    pub fn is_connected(peer_id: String, id: u128) -> (r: Command)
        ensures
            r == (Command { id, cmd_type: CommandType::IsPeerConnected { peer_id } }),
    {
        Command { id, cmd_type: CommandType::IsPeerConnected { peer_id } }
    }

    /// Hold `ev` back until its peer is connected; `id` is a fresh identifier.
    pub fn buffer_event(ev: UiClientRequestRequiringDial, id: u128) -> (r: Command)
        ensures
            r == (Command { id, cmd_type: CommandType::BufferEvent { ev } }),
    {
        Command { id, cmd_type: CommandType::BufferEvent { ev } }
    }

    /// Send `message` to `receiver` as a new chat message with identifier
    /// `message_id`, for request `req_id`.
    pub fn send_message(receiver: String, message: String, message_id: u128, req_id: u128) -> (r: Command)
        ensures
            r == (Command {
                id: req_id,
                cmd_type: CommandType::ChatCommand(
                    ChatCommand::SendMessage { receiver, message: Message { content: message, id: message_id } },
                ),
            }),
    {
        let message = Message { content: message, id: message_id };
        Command { id: req_id, cmd_type: CommandType::ChatCommand(ChatCommand::SendMessage { receiver, message }) }
    }

    /// Load page `page` of the chat with `from_peer_id`, for request `req_id`.
    pub fn load_chatlog_page(from_peer_id: String, page: usize, req_id: u128) -> (r: Command)
        ensures
            r == (Command {
                id: req_id,
                cmd_type: CommandType::ChatCommand(ChatCommand::LoadChatLog { from_peer_id, page }),
            }),
    {
        Command { id: req_id, cmd_type: CommandType::ChatCommand(ChatCommand::LoadChatLog { from_peer_id, page }) }
    }

    /// Ask `peer` for its name; `id` is a fresh identifier.
    pub fn request_name(peer: String, id: u128) -> (r: Command)
        ensures
            r == (Command { id, cmd_type: CommandType::FriendCommand(FriendCommand::RequestName { peer }) }),
    {
        Command { id, cmd_type: CommandType::FriendCommand(FriendCommand::RequestName { peer }) }
    }

    /// Send `peer` a friend request, for request `req_id`.
    pub fn send_friend_request(peer: String, req_id: u128) -> (r: Command)
        ensures
            r == (Command { id: req_id, cmd_type: CommandType::FriendCommand(FriendCommand::AddFriend { peer }) }),
    {
        Command { id: req_id, cmd_type: CommandType::FriendCommand(FriendCommand::AddFriend { peer }) }
    }

    /// Accept `peer`'s friend request, for request `req_id`.
    pub fn accept_friend_req(peer: String, req_id: u128) -> (r: Command)
        ensures
            r == (Command {
                id: req_id,
                cmd_type: CommandType::FriendCommand(FriendCommand::AcceptFriend { peer, decision: true }),
            }),
    {
        Command { id: req_id, cmd_type: CommandType::FriendCommand(FriendCommand::AcceptFriend { peer, decision: true }) }
    }

    /// Deny `peer`'s friend request, for request `req_id`.
    pub fn deny_friend_req(peer: String, req_id: u128) -> (r: Command)
        ensures
            r == (Command {
                id: req_id,
                cmd_type: CommandType::FriendCommand(FriendCommand::AcceptFriend { peer, decision: false }),
            }),
    {
        Command { id: req_id, cmd_type: CommandType::FriendCommand(FriendCommand::AcceptFriend { peer, decision: false }) }
    }

    /// Look up the username of peer `id` at the tracker, for request `req_id`.
    pub fn search_peer(id: String, req_id: u128) -> (r: Command)
        ensures
            r == (Command { id: req_id, cmd_type: CommandType::FriendCommand(FriendCommand::SearchPeer { id }) }),
    {
        Command { id: req_id, cmd_type: CommandType::FriendCommand(FriendCommand::SearchPeer { id }) }
    }

    /// Look up the peer registered as `username` at the tracker, for request `req_id`.
    pub fn search_username(username: String, req_id: u128) -> (r: Command)
        ensures
            r == (Command {
                id: req_id,
                cmd_type: CommandType::FriendCommand(FriendCommand::SearchUsername { username }),
            }),
    {
        Command { id: req_id, cmd_type: CommandType::FriendCommand(FriendCommand::SearchUsername { username }) }
    }

    /// Ask whether `username` is still free, for request `req_id`.
    pub fn check_username_availability(username: String, req_id: u128) -> (r: Command)
        ensures
            r == (Command {
                id: req_id,
                cmd_type: CommandType::FriendCommand(FriendCommand::CheckUsernameAvailability { username }),
            }),
    {
        Command {
            id: req_id,
            cmd_type: CommandType::FriendCommand(FriendCommand::CheckUsernameAvailability { username }),
        }
    }

    /// Change this node's username to `username`, for request `req_id`.
    pub fn change_username(username: String, req_id: u128) -> (r: Command)
        ensures
            r == (Command {
                id: req_id,
                cmd_type: CommandType::FriendCommand(FriendCommand::ChangeUsername { username }),
            }),
    {
        Command { id: req_id, cmd_type: CommandType::FriendCommand(FriendCommand::ChangeUsername { username }) }
    }

    /// Load the friends list, for request `req_id`.
    pub fn load_friends(req_id: u128) -> (r: Command)
        ensures
            r == (Command { id: req_id, cmd_type: CommandType::FriendCommand(FriendCommand::LoadFriends) }),
    {
        Command { id: req_id, cmd_type: CommandType::FriendCommand(FriendCommand::LoadFriends) }
    }

    /// Load the friend requests this node sent, for request `req_id`.
    pub fn load_pending_friend_requests(req_id: u128) -> (r: Command)
        ensures
            r == (Command {
                id: req_id,
                cmd_type: CommandType::FriendCommand(FriendCommand::LoadPendingFriendRequests),
            }),
    {
        Command { id: req_id, cmd_type: CommandType::FriendCommand(FriendCommand::LoadPendingFriendRequests) }
    }

    /// Load the friend requests this node received, for request `req_id`.
    pub fn load_incoming_friend_requests(req_id: u128) -> (r: Command)
        ensures
            r == (Command {
                id: req_id,
                cmd_type: CommandType::FriendCommand(FriendCommand::LoadIncomingFriendRequests),
            }),
    {
        Command { id: req_id, cmd_type: CommandType::FriendCommand(FriendCommand::LoadIncomingFriendRequests) }
    }
}

/// The command that carries out a request on a connected peer; a message that
/// is sent gets the identifier `message_id`.
pub open spec fn resolve_spec(ev: UiClientEventRequiringDial, req_id: u128, message_id: u128) -> Command {
    match ev.event {
        UiClientEventRequiringDialMessage::SendMessage { peer_id, message } => Command {
            id: req_id,
            cmd_type: CommandType::ChatCommand(
                ChatCommand::SendMessage { receiver: peer_id, message: Message { content: message, id: message_id } },
            ),
        },
        UiClientEventRequiringDialMessage::SendFriendRequest { peer_id } => Command {
            id: req_id,
            cmd_type: CommandType::FriendCommand(FriendCommand::AddFriend { peer: peer_id }),
        },
        UiClientEventRequiringDialMessage::AcceptFriendRequest { peer_id } => Command {
            id: req_id,
            cmd_type: CommandType::FriendCommand(FriendCommand::AcceptFriend { peer: peer_id, decision: true }),
        },
        UiClientEventRequiringDialMessage::DenyFriendRequest { peer_id } => Command {
            id: req_id,
            cmd_type: CommandType::FriendCommand(FriendCommand::AcceptFriend { peer: peer_id, decision: false }),
        },
        UiClientEventRequiringDialMessage::ResolveName => Command {
            id: req_id,
            cmd_type: CommandType::FriendCommand(FriendCommand::RequestName { peer: ev.peer_id }),
        },
    }
}

/// Turns a request on a connected peer into the command that carries it out;
/// a message that is sent gets the fresh identifier `message_id`.
pub fn resolve_event_requiring_dial(ev: UiClientEventRequiringDial, req_id: u128, message_id: u128) -> (r: Command)
    ensures
        r == resolve_spec(ev, req_id, message_id),
        r.id == req_id,
        ev.event matches UiClientEventRequiringDialMessage::AcceptFriendRequest { peer_id } ==> r.cmd_type
            == CommandType::FriendCommand(FriendCommand::AcceptFriend { peer: peer_id, decision: true }),
        ev.event matches UiClientEventRequiringDialMessage::DenyFriendRequest { peer_id } ==> r.cmd_type
            == CommandType::FriendCommand(FriendCommand::AcceptFriend { peer: peer_id, decision: false }),
{
    match ev.event {
        UiClientEventRequiringDialMessage::SendMessage { peer_id, message } => {
            Command::send_message(peer_id, message, message_id, req_id)
        },
        UiClientEventRequiringDialMessage::SendFriendRequest { peer_id } => Command::send_friend_request(peer_id, req_id),
        UiClientEventRequiringDialMessage::AcceptFriendRequest { peer_id } => Command::accept_friend_req(peer_id, req_id),
        UiClientEventRequiringDialMessage::DenyFriendRequest { peer_id } => Command::deny_friend_req(peer_id, req_id),
        UiClientEventRequiringDialMessage::ResolveName => Command::request_name(ev.peer_id, req_id),
    }
}

/// What the daemon does with a request read from the user interface.
#[derive(Debug, PartialEq, Eq)]
pub enum UiRoute {
    /// Shut the daemon down.
    Close,
    /// Ask whether `ev.peer_id` is connected, then go on with
    /// [`after_connection_check`].
    CheckConnection { ev: UiClientEventRequiringDial, req_id: u128 },
    /// Hand the command to the event loop.
    Forward(Command),
}

/// How the daemon routes request `req`.
pub open spec fn route_spec(req: UiClientRequest) -> UiRoute {
    let id: u128 = req.req_id;
    match req.event {
        UiClientEvent::Close => UiRoute::Close,
        UiClientEvent::EventRequiringDial(ev) => UiRoute::CheckConnection { ev, req_id: id },
        UiClientEvent::SearchUsername { username } => UiRoute::Forward(Command {
            id,
            cmd_type: CommandType::FriendCommand(FriendCommand::SearchUsername { username }),
        }),
        UiClientEvent::SearchPeer { peer_id } => UiRoute::Forward(Command {
            id,
            cmd_type: CommandType::FriendCommand(FriendCommand::SearchPeer { id: peer_id }),
        }),
        UiClientEvent::CheckUsernameAvailability { username } => UiRoute::Forward(Command {
            id,
            cmd_type: CommandType::FriendCommand(FriendCommand::CheckUsernameAvailability { username }),
        }),
        UiClientEvent::ChangeUsername { username } => UiRoute::Forward(Command {
            id,
            cmd_type: CommandType::FriendCommand(FriendCommand::ChangeUsername { username }),
        }),
        UiClientEvent::LoadChatlogPage { from_peer_id, page } => UiRoute::Forward(Command {
            id,
            cmd_type: CommandType::ChatCommand(ChatCommand::LoadChatLog { from_peer_id, page }),
        }),
        UiClientEvent::LoadFriends => UiRoute::Forward(Command {
            id,
            cmd_type: CommandType::FriendCommand(FriendCommand::LoadFriends),
        }),
        UiClientEvent::LoadPendingFriendRequests => UiRoute::Forward(Command {
            id,
            cmd_type: CommandType::FriendCommand(FriendCommand::LoadPendingFriendRequests),
        }),
        UiClientEvent::LoadIncomingFriendRequests => UiRoute::Forward(Command {
            id,
            cmd_type: CommandType::FriendCommand(FriendCommand::LoadIncomingFriendRequests),
        }),
        UiClientEvent::Dial { peer_id } => UiRoute::Forward(Command { id, cmd_type: CommandType::Dial { peer_id } }),
    }
}

/// Routes a request read from the user interface.
pub fn route_ui_request(req: UiClientRequest) -> (r: UiRoute)
    ensures
        r == route_spec(req),
        req.event == UiClientEvent::LoadFriends ==> r == UiRoute::Forward(
            Command { id: req.req_id, cmd_type: CommandType::FriendCommand(FriendCommand::LoadFriends) },
        ),
        req.event == UiClientEvent::LoadPendingFriendRequests ==> r == UiRoute::Forward(
            Command { id: req.req_id, cmd_type: CommandType::FriendCommand(FriendCommand::LoadPendingFriendRequests) },
        ),
        req.event == UiClientEvent::LoadIncomingFriendRequests ==> r == UiRoute::Forward(
            Command { id: req.req_id, cmd_type: CommandType::FriendCommand(FriendCommand::LoadIncomingFriendRequests) },
        ),
{
    let id: u128 = req.req_id;
    match req.event {
        UiClientEvent::Close => UiRoute::Close,
        UiClientEvent::EventRequiringDial(ev) => UiRoute::CheckConnection { ev, req_id: id },
        UiClientEvent::SearchUsername { username } => UiRoute::Forward(Command::search_username(username, id)),
        UiClientEvent::SearchPeer { peer_id } => UiRoute::Forward(Command::search_peer(peer_id, id)),
        UiClientEvent::CheckUsernameAvailability { username } => {
            UiRoute::Forward(Command::check_username_availability(username, id))
        },
        UiClientEvent::ChangeUsername { username } => UiRoute::Forward(Command::change_username(username, id)),
        UiClientEvent::LoadChatlogPage { from_peer_id, page } => {
            UiRoute::Forward(Command::load_chatlog_page(from_peer_id, page, id))
        },
        UiClientEvent::LoadFriends => UiRoute::Forward(Command::load_friends(id)),
        UiClientEvent::LoadPendingFriendRequests => UiRoute::Forward(Command::load_pending_friend_requests(id)),
        UiClientEvent::LoadIncomingFriendRequests => UiRoute::Forward(Command::load_incoming_friend_requests(id)),
        UiClientEvent::Dial { peer_id } => UiRoute::Forward(Command::dial(peer_id, id)),
    }
}

/// The answer given when a request needs a peer that is not connected.
pub open spec fn not_dialed_spec(req_id: u128) -> WriteEvent {
    WriteEvent::EventResponse(
        UiClientEventResponse { req_id, result: Err(UiClientEventResponseError::PeerNotDialed) },
    )
}

/// Goes on with a request on a peer once it is known whether the peer is
/// connected: a connected peer gets the command that carries the request out,
/// otherwise the user interface is told that the peer is not dialed.
pub fn after_connection_check(
    ev: UiClientEventRequiringDial,
    req_id: u128,
    is_connected: bool,
    message_id: u128,
) -> (r: Result<Command, WriteEvent>)
    ensures
        is_connected ==> r == Ok::<Command, WriteEvent>(resolve_spec(ev, req_id, message_id)),
        !is_connected ==> r == Err::<Command, WriteEvent>(not_dialed_spec(req_id)),
{
    if is_connected {
        Ok(resolve_event_requiring_dial(ev, req_id, message_id))
    } else {
        Err(
            WriteEvent::EventResponse(
                UiClientEventResponse { req_id, result: Err(UiClientEventResponseError::PeerNotDialed) },
            ),
        )
    }
}

/// A request's identifier travels with it: the command that carries a request
/// out, at once or once its peer is connected, bears the request's
/// identifier, and so does the answer given when the peer is not connected.
pub proof fn law_request_ids_carried(
    req: UiClientRequest,
    ev: UiClientEventRequiringDial,
    req_id: u128,
    message_id: u128,
)
    ensures
        route_spec(req) matches UiRoute::Forward(c) ==> c.id == req.req_id,
        route_spec(req) matches UiRoute::CheckConnection { req_id: r, .. } ==> r == req.req_id,
        resolve_spec(ev, req_id, message_id).id == req_id,
        not_dialed_spec(req_id) matches WriteEvent::EventResponse(resp) && resp.req_id == req_id,
{
}

/// Accepting and denying a friend request differ in the decision alone: both
/// answer the request of the peer that the event names, under the request's
/// identifier, whatever peer the request waited for; accepting says yes,
/// denying says no.
pub proof fn law_friend_decisions(waited_for: String, peer: String, req_id: u128, message_id: u128)
    ensures
        ({
            let accept = resolve_spec(
                UiClientEventRequiringDial {
                    peer_id: waited_for,
                    event: UiClientEventRequiringDialMessage::AcceptFriendRequest { peer_id: peer },
                },
                req_id,
                message_id,
            );
            let deny = resolve_spec(
                UiClientEventRequiringDial {
                    peer_id: waited_for,
                    event: UiClientEventRequiringDialMessage::DenyFriendRequest { peer_id: peer },
                },
                req_id,
                message_id,
            );
            &&& accept.id == req_id && deny.id == req_id
            &&& accept.cmd_type matches CommandType::FriendCommand(FriendCommand::AcceptFriend { peer: p, decision: d })
                && p == peer && d
            &&& deny.cmd_type matches CommandType::FriendCommand(FriendCommand::AcceptFriend { peer: p, decision: d })
                && p == peer && !d
        }),
{
}

/// Each list of contacts is asked for under its own name: loading the
/// friends, the friend requests this node sent, or those it received is
/// forwarded at once as the command that loads that same list, with the
/// request's identifier, and the three commands differ.
pub proof fn law_lists_routed_by_name(id: u128)
    ensures
        route_spec(UiClientRequest { req_id: id, event: UiClientEvent::LoadFriends }) == UiRoute::Forward(
            Command { id, cmd_type: CommandType::FriendCommand(FriendCommand::LoadFriends) },
        ),
        route_spec(UiClientRequest { req_id: id, event: UiClientEvent::LoadPendingFriendRequests }) == UiRoute::Forward(
            Command { id, cmd_type: CommandType::FriendCommand(FriendCommand::LoadPendingFriendRequests) },
        ),
        route_spec(UiClientRequest { req_id: id, event: UiClientEvent::LoadIncomingFriendRequests }) == UiRoute::Forward(
            Command { id, cmd_type: CommandType::FriendCommand(FriendCommand::LoadIncomingFriendRequests) },
        ),
{
}

/// A message sent from the user interface is stored: the command that carries
/// it out, once planned, sends the message to its receiver and stores the same
/// message, with its identifier and its text, in the receiver's channel.
pub proof fn law_sent_message_stored(ev: UiClientEventRequiringDial, req_id: u128, message_id: u128)
    requires
        ev.event is SendMessage,
    ensures
        resolve_spec(ev, req_id, message_id).cmd_type matches CommandType::ChatCommand(c) && chat_plan_spec(c, req_id)
            matches ChatPlan::SendDirectMessage { receiver, request, store, .. } && {
            &&& receiver@ == ev.event->SendMessage_peer_id@
            &&& request.0.content@ == ev.event->SendMessage_message@
            &&& request.0.id == message_id
            &&& statements_spec(store) == seq![
                (
                    INSERT_SENT_MESSAGE@,
                    seq![
                        crate::db::sql_calls::SqlParamView::Text(uuid_hyphenated(message_id)),
                        crate::db::sql_calls::SqlParamView::Text(ev.event->SendMessage_message@),
                        crate::db::sql_calls::SqlParamView::Text(ev.event->SendMessage_peer_id@),
                    ],
                ),
            ]
        },
{
}

/// Takes out the requests held back for `peer`, now connected, and turns each
/// into its command, in the order in which they were held back; the `i`-th
/// sent message gets `message_ids[i]`.
pub fn flush_requests(buffer: &mut buffer::RequestBuffer, peer: &String, message_ids: &Vec<u128>) -> (r: Vec<Command>)
    requires
        old(buffer).wf(),
        message_ids@.len() >= old(buffer).held_for(peer@).len(),
    ensures
        final(buffer).wf(),
        final(buffer).view() == old(buffer).view().remove(peer@),
        r@.len() == old(buffer).held_for(peer@).len(),
        forall|i: int|
            0 <= i < r@.len() ==> #[trigger] r@[i] == resolve_spec(
                old(buffer).held_for(peer@)[i].event,
                old(buffer).held_for(peer@)[i].id,
                message_ids@[i],
            ),
{
    let mut requests = buffer.take(peer);
    let ghost held = requests@;
    let mut out: Vec<Command> = Vec::new();
    let n: usize = requests.len();
    // Take the requests out from the back, then put the commands in order.
    let mut rev: Vec<Command> = Vec::new();
    while requests.len() > 0
        invariant
            n == held.len(),
            requests@ == held.subrange(0, requests@.len() as int),
            message_ids@.len() >= n,
            rev@.len() + requests@.len() == n,
            forall|k: int|
                0 <= k < rev@.len() ==> #[trigger] rev@[k] == resolve_spec(
                    held[n - 1 - k].event,
                    held[n - 1 - k].id,
                    message_ids@[n - 1 - k],
                ),
        decreases requests@.len(),
    {
        let idx: usize = requests.len() - 1;
        let req = requests.pop().unwrap();
        proof {
            assert(req == held[idx as int]);
        }
        rev.push(resolve_event_requiring_dial(req.event, req.id, message_ids[idx]));
        proof {
            assert(requests@ =~= held.subrange(0, requests@.len() as int));
        }
    }
    while rev.len() > 0
        invariant
            n == held.len(),
            message_ids@.len() >= n,
            rev@.len() + out@.len() == n,
            forall|k: int|
                0 <= k < rev@.len() ==> #[trigger] rev@[k] == resolve_spec(
                    held[n - 1 - k].event,
                    held[n - 1 - k].id,
                    message_ids@[n - 1 - k],
                ),
            forall|k: int|
                0 <= k < out@.len() ==> #[trigger] out@[k] == resolve_spec(
                    held[k].event,
                    held[k].id,
                    message_ids@[k],
                ),
        decreases rev@.len(),
    {
        let c = rev.pop().unwrap();
        out.push(c);
    }
    out
}

} // verus!
