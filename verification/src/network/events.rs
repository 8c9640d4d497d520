//! The event loop's decisions: what it stores, sends and tells the user
//! interface when a peer is found or lost, when a message or a friend request
//! arrives, when a peer answers, and when a command comes in.
use vstd::prelude::*;
use crate::api::{
    DcutrConnectionEvent, DcutrConnectionSuccess, UiClientEventRequiringDial, UiClientEventRequiringDialMessage,
    UiClientEventResponse, UiClientEventResponseError, UiClientEventResponseType, WriteEvent,
};
use crate::network::{Command, CommandType, UiClientRequestRequiringDial};
use crate::network::chat::{self, ChatCommand, DirectMessageRequest, DirectMessageResponse, MessageResponse};
use crate::network::friends::{FriendCommand, FriendRequest, FriendResponse};
use crate::types::{Contact, FriendRequestType, Message, NameType, PeerSearchResponse, contact_display_name_spec, opt_string_view};
use crate::tracker::{find_by_id_url, find_by_name_url, is_server_error_spec, is_success_spec, status_is_server_error, status_is_success, tracker_url_spec};

verus! {

/// A change to the local database.
#[derive(Debug, PartialEq, Eq)]
pub enum DbOp {
    InsertContact { peer_id: String },
    InsertName { peer_id: String, name_type: NameType, content: String },
    InsertMessage { message: chat::Message, channel_id: i64 },
    /// Stores a message sent to `receiver` in the receiver's channel.
    InsertSentMessage { message: chat::Message, receiver: String },
    InsertFriend { peer_id: String },
    DeleteFriend { peer_id: String },
    DeleteFriendRequest { peer_id: String },
    InsertFriendRequest { request_type: FriendRequestType, peer_id: String },
}

/// The text of each string.
pub open spec fn strings_view(v: Seq<String>) -> Seq<Seq<char>> {
    v.map_values(|x: String| x@)
}

/// The distinct elements of `s`, in the order of their first occurrence.
pub open spec fn first_occurrences_spec(s: Seq<Seq<char>>) -> Seq<Seq<char>>
    decreases s.len(),
{
    if s.len() == 0 {
        seq![]
    } else {
        let d = first_occurrences_spec(s.drop_last());
        if d.contains(s.last()) {
            d
        } else {
            d.push(s.last())
        }
    }
}

/// Whether `peer` is among `known`.
fn contains_peer(known: &Vec<String>, peer: &String) -> (r: bool)
    ensures
        r == strings_view(known@).contains(peer@),
{
    let mut i: usize = 0;
    while i < known.len()
        invariant
            i <= known@.len(),
            forall|k: int| 0 <= k < i ==> #[trigger] known@[k]@ != peer@,
        decreases known@.len() - i,
    {
        if known[i] == *peer {
            proof {
                assert(strings_view(known@)[i as int] == peer@);
            }
            return true;
        }
        i = i + 1;
    }
    proof {
        if strings_view(known@).contains(peer@) {
            let k = choose|k: int| 0 <= k < strings_view(known@).len() && strings_view(known@)[k] == peer@;
            assert(known@[k]@ == peer@);
        }
    }
    false
}

/// The peers that a local-network discovery reports, each once, in the order
/// in which they first appear.
pub fn first_occurrences(peers: &Vec<String>) -> (r: Vec<String>)
    ensures
        strings_view(r@) == first_occurrences_spec(strings_view(peers@)),
{
    let mut known: Vec<String> = Vec::new();
    let mut i: usize = 0;
    while i < peers.len()
        invariant
            i <= peers@.len(),
            strings_view(known@) == first_occurrences_spec(strings_view(peers@).take(i as int)),
        decreases peers@.len() - i,
    {
        let ghost before = strings_view(peers@).take(i as int);
        let ghost after = strings_view(peers@).take(i + 1);
        proof {
            assert(after.drop_last() =~= before);
            assert(after.last() == peers@[i as int]@);
        }
        if !contains_peer(&known, &peers[i]) {
            known.push(peers[i].clone());
            proof {
                assert(strings_view(known@) =~= strings_view(known@).drop_last().push(peers@[i as int]@));
            }
        }
        i = i + 1;
        proof {
            assert(strings_view(known@) =~= first_occurrences_spec(after));
        }
    }
    proof {
        assert(strings_view(peers@).take(peers@.len() as int) =~= strings_view(peers@));
    }
    known
}

/// The distinct first occurrences hold no element twice, and hold exactly the
/// elements of the input.
pub proof fn law_first_occurrences(s: Seq<Seq<char>>)
    ensures
        first_occurrences_spec(s).no_duplicates(),
        forall|x: Seq<char>| #[trigger] first_occurrences_spec(s).contains(x) <==> s.contains(x),
    decreases s.len(),
{
    if s.len() > 0 {
        let p = s.drop_last();
        law_first_occurrences(p);
        let d = first_occurrences_spec(p);
        assert forall|x: Seq<char>| #[trigger] first_occurrences_spec(s).contains(x) <==> s.contains(x) by {
            if s.contains(x) && x != s.last() {
                let k = choose|k: int| 0 <= k < s.len() && s[k] == x;
                assert(p[k] == x);
            }
            if p.contains(x) {
                let k = choose|k: int| 0 <= k < p.len() && p[k] == x;
                assert(s[k] == x);
            }
            if x == s.last() {
                assert(s[s.len() - 1] == x);
            }
            if !d.contains(s.last()) {
                assert(d.push(s.last()).contains(x) <==> (d.contains(x) || x == s.last())) by {
                    if d.push(s.last()).contains(x) {
                        let k = choose|k: int| 0 <= k < d.len() + 1 && d.push(s.last())[k] == x;
                        if k < d.len() {
                            assert(d[k] == x);
                        }
                    }
                    if d.contains(x) {
                        let k = choose|k: int| 0 <= k < d.len() && d[k] == x;
                        assert(d.push(s.last())[k] == x);
                    }
                    if x == s.last() {
                        assert(d.push(s.last())[d.len() as int] == x);
                    }
                }
            }
        }
        if !d.contains(s.last()) {
            let e = d.push(s.last());
            assert forall|i: int, j: int| 0 <= i < e.len() && 0 <= j < e.len() && i != j implies e[i] != e[j] by {
                if i < d.len() && j < d.len() {
                } else if i == d.len() {
                    assert(e[j] == d[j]);
                } else {
                    assert(e[i] == d[i]);
                }
            }
        }
    }
}

/// What a contact that is already known looks like when it is found on the
/// local network: its peer id and the name it is shown under.
pub fn known_contact_discovered(contact: Contact) -> (r: WriteEvent)
    ensures
        r matches WriteEvent::DiscoverMdnsContact { peer_id, name }
            && peer_id == contact.peer_id
            && opt_string_view(name) == contact_display_name_spec(contact),
{
    let name = contact.display_name();
    WriteEvent::DiscoverMdnsContact { peer_id: contact.peer_id, name }
}

/// What follows when a peer found on the local network is not yet a contact:
/// the commands to send and the event for the user interface.
#[derive(Debug, PartialEq, Eq)]
pub struct NewPeerPlan {
    pub commands: Vec<Command>,
    pub event: WriteEvent,
}

/// What follows when a peer found on the local network is not yet a contact.
/// When storing it as a contact succeeded, its name is asked for (command
/// `name_cmd_id`) and a name resolution (request `resolve_req_id`) is held
/// back until the peer is connected (command `buffer_cmd_id`); either way the
/// user interface learns of the peer, with no name yet.
pub fn new_peer_discovered(
    peer: String,
    stored: bool,
    name_cmd_id: u128,
    resolve_req_id: u128,
    buffer_cmd_id: u128,
) -> (r: NewPeerPlan)
    ensures
        r.event == (WriteEvent::DiscoverMdnsContact { peer_id: peer, name: None }),
        !stored ==> r.commands@.len() == 0,
        stored ==> r.commands@ == seq![
            Command {
                id: name_cmd_id,
                cmd_type: CommandType::FriendCommand(FriendCommand::RequestName { peer }),
            },
            Command {
                id: buffer_cmd_id,
                cmd_type: CommandType::BufferEvent {
                    ev: UiClientRequestRequiringDial {
                        id: resolve_req_id,
                        event: UiClientEventRequiringDial {
                            peer_id: peer,
                            event: UiClientEventRequiringDialMessage::ResolveName,
                        },
                    },
                },
            },
        ],
{
    let mut commands: Vec<Command> = Vec::new();
    if stored {
        commands.push(Command::request_name(peer.clone(), name_cmd_id));
        let ev = UiClientRequestRequiringDial {
            id: resolve_req_id,
            event: UiClientEventRequiringDial {
                peer_id: peer.clone(),
                event: UiClientEventRequiringDialMessage::ResolveName,
            },
        };
        commands.push(Command::buffer_event(ev, buffer_cmd_id));
        assert(commands@ =~= seq![commands@[0], commands@[1]]);
    }
    NewPeerPlan { commands, event: WriteEvent::DiscoverMdnsContact { peer_id: peer, name: None } }
}

/// The events that tell the user interface which local-network peers expired,
/// one per peer, in order.
pub fn expired_peers(peers: Vec<String>) -> (r: Vec<WriteEvent>)
    ensures
        r@.len() == peers@.len(),
        forall|i: int| 0 <= i < r@.len() ==> #[trigger] r@[i] == (WriteEvent::MdnsPeerDisconnected { peer_id: peers@[i] }),
{
    let mut peers = peers;
    let ghost all = peers@;
    let mut rev: Vec<WriteEvent> = Vec::new();
    while peers.len() > 0
        invariant
            peers@ == all.subrange(0, peers@.len() as int),
            rev@.len() + peers@.len() == all.len(),
            forall|k: int| 0 <= k < rev@.len() ==> #[trigger] rev@[k] == (WriteEvent::MdnsPeerDisconnected {
                peer_id: all[all.len() - 1 - k],
            }),
        decreases peers@.len(),
    {
        let idx: usize = peers.len() - 1;
        let p = peers.pop().unwrap();
        proof {
            assert(p == all[idx as int]);
            assert(peers@ =~= all.subrange(0, peers@.len() as int));
        }
        rev.push(WriteEvent::MdnsPeerDisconnected { peer_id: p });
    }
    let mut out: Vec<WriteEvent> = Vec::new();
    while rev.len() > 0
        invariant
            rev@.len() + out@.len() == all.len(),
            forall|k: int| 0 <= k < rev@.len() ==> #[trigger] rev@[k] == (WriteEvent::MdnsPeerDisconnected {
                peer_id: all[all.len() - 1 - k],
            }),
            forall|k: int| 0 <= k < out@.len() ==> #[trigger] out@[k] == (WriteEvent::MdnsPeerDisconnected {
                peer_id: all[k],
            }),
        decreases rev@.len(),
    {
        let e = rev.pop().unwrap();
        out.push(e);
    }
    out
}

/// The event that reports a direct connection that hole punching made.
pub fn hole_punched(remote_peer_id: String) -> (r: WriteEvent)
    ensures
        r == WriteEvent::DcutrConnection(DcutrConnectionEvent(Ok(DcutrConnectionSuccess { peer_id: remote_peer_id }))),
{
    WriteEvent::DcutrConnection(DcutrConnectionEvent(Ok(DcutrConnectionSuccess { peer_id: remote_peer_id })))
}

/// What follows the arrival of a direct message from a contact: storing it in
/// the contact's channel, acknowledging it, and handing it, stamped with the
/// time `now`, to the user interface.
#[derive(Debug, PartialEq, Eq)]
pub struct ReceivedMessagePlan {
    pub store: DbOp,
    pub response: DirectMessageResponse,
    pub event: WriteEvent,
}

/// What follows the arrival of `message` from `sender`, at time `now`.
pub fn direct_message_received(message: chat::Message, sender: Contact, now: i64) -> (r: ReceivedMessagePlan)
    ensures
        r.store == (DbOp::InsertMessage { message, channel_id: sender.channel_id }),
        r.response == DirectMessageResponse(MessageResponse::Ack),
        r.event == WriteEvent::ReceiveMessage(
            Message { content: message.content, id: message.id, sender, created_at: now },
        ),
{
    let stored = chat::Message { content: message.content.clone(), id: message.id };
    let channel_id: i64 = sender.channel_id;
    ReceivedMessagePlan {
        store: DbOp::InsertMessage { message: stored, channel_id },
        response: DirectMessageResponse(MessageResponse::Ack),
        event: WriteEvent::ReceiveMessage(Message { content: message.content, id: message.id, sender, created_at: now }),
    }
}

/// The success answer to user-interface request `req_id`.
pub open spec fn success_spec(req_id: u128, t: UiClientEventResponseType) -> WriteEvent {
    WriteEvent::EventResponse(UiClientEventResponse { req_id, result: Ok(t) })
}

/// The failure answer to user-interface request `req_id`.
pub open spec fn failure_spec(req_id: u128, e: UiClientEventResponseError) -> WriteEvent {
    WriteEvent::EventResponse(UiClientEventResponse { req_id, result: Err(e) })
}

/// What the user interface is told when a peer answers the direct message of
/// request `req_id`: an acknowledged message was sent; a refusal is not
/// reported.
pub fn direct_message_answered(response: MessageResponse, req_id: u128) -> (r: Option<WriteEvent>)
    ensures
        response == MessageResponse::Ack ==> r == Some(success_spec(req_id, UiClientEventResponseType::SendMessage)),
        response == MessageResponse::DeniedNotFriends ==> r is None,
{
    match response {
        MessageResponse::Ack => Some(
            WriteEvent::EventResponse(UiClientEventResponse { req_id, result: Ok(UiClientEventResponseType::SendMessage) }),
        ),
        MessageResponse::DeniedNotFriends => None,
    }
}

/// How this node answers a friend-protocol request from `peer`: what it
/// stores, what it tells the user interface, and what it answers.
#[derive(Debug, PartialEq, Eq)]
pub struct FriendRequestAnswer {
    pub db: Vec<DbOp>,
    pub event: Option<WriteEvent>,
    pub response: FriendResponse,
}

/// How this node, whose own name setting is `own_name`, answers `request`
/// from `peer`. A name request is answered with the own name, or `Anonymous`
/// when none is set. An answer to this node's friend request makes the peer a
/// friend when it is positive and removes the pending request either way. A
/// friend request is stored as incoming.
pub fn answer_friend_request(peer: String, request: FriendRequest, own_name: Option<String>) -> (r: FriendRequestAnswer)
    ensures
        request == FriendRequest::RequestName ==> {
            &&& r.db@.len() == 0
            &&& r.event is None
            &&& r.response matches FriendResponse::RequestName { name } && name@ == match own_name {
                Some(n) => n@,
                None => "Anonymous"@,
            }
        },
        request matches FriendRequest::AcceptFriend { decision } ==> {
            &&& r.db@ == if decision {
                seq![DbOp::InsertFriend { peer_id: peer }, DbOp::DeleteFriendRequest { peer_id: peer }]
            } else {
                seq![DbOp::DeleteFriendRequest { peer_id: peer }]
            }
            &&& r.event == Some(WriteEvent::ReceiveFriendRequestResponse { decision })
            &&& r.response == FriendResponse::AcceptFriendAck
        },
        request == FriendRequest::AddFriend ==> {
            &&& r.db@ == seq![DbOp::InsertFriendRequest { request_type: FriendRequestType::Incoming, peer_id: peer }]
            &&& r.event == Some(WriteEvent::ReceiveFriendRequest)
            &&& r.response == FriendResponse::AddFriendAck
        },
{
    let mut db: Vec<DbOp> = Vec::new();
    match request {
        FriendRequest::RequestName => {
            let name = match own_name {
                Some(n) => n,
                None => String::from_str("Anonymous"),
            };
            FriendRequestAnswer { db, event: None, response: FriendResponse::RequestName { name } }
        },
        FriendRequest::AcceptFriend { decision } => {
            if decision {
                db.push(DbOp::InsertFriend { peer_id: peer.clone() });
            }
            db.push(DbOp::DeleteFriendRequest { peer_id: peer });
            proof {
                if decision {
                    assert(db@ =~= seq![db@[0], db@[1]]);
                } else {
                    assert(db@ =~= seq![db@[0]]);
                }
            }
            FriendRequestAnswer {
                db,
                event: Some(WriteEvent::ReceiveFriendRequestResponse { decision }),
                response: FriendResponse::AcceptFriendAck,
            }
        },
        FriendRequest::AddFriend => {
            db.push(DbOp::InsertFriendRequest { request_type: FriendRequestType::Incoming, peer_id: peer });
            assert(db@ =~= seq![db@[0]]);
            FriendRequestAnswer { db, event: Some(WriteEvent::ReceiveFriendRequest), response: FriendResponse::AddFriendAck }
        },
    }
}

/// What follows a peer's answer to this node's friend-protocol request.
#[derive(Debug, PartialEq, Eq)]
pub enum FriendAnswerPlan {
    /// Store the name; once stored, tell the user interface.
    StoreName { op: DbOp, on_success: WriteEvent },
    /// Tell the user interface.
    Notify(WriteEvent),
}

/// What follows `peer`'s answer `response` to the request made for
/// user-interface request `req_id`: a name is stored as the name the peer
/// provided, and acknowledgements of friend requests and of accepted requests
/// are reported as successes.
pub fn friend_request_answered(peer: String, response: FriendResponse, req_id: u128) -> (r: FriendAnswerPlan)
    ensures
        response matches FriendResponse::RequestName { name } ==> r == (FriendAnswerPlan::StoreName {
            op: DbOp::InsertName { peer_id: peer, name_type: NameType::Provided, content: name },
            on_success: WriteEvent::MdnsNameResolved { peer_id: peer, name },
        }),
        response == FriendResponse::AddFriendAck ==> r == FriendAnswerPlan::Notify(
            success_spec(req_id, UiClientEventResponseType::SendFriendRequest),
        ),
        response == FriendResponse::AcceptFriendAck ==> r == FriendAnswerPlan::Notify(
            success_spec(req_id, UiClientEventResponseType::AcceptFriendRequest),
        ),
{
    match response {
        FriendResponse::RequestName { name } => FriendAnswerPlan::StoreName {
            op: DbOp::InsertName { peer_id: peer.clone(), name_type: NameType::Provided, content: name.clone() },
            on_success: WriteEvent::MdnsNameResolved { peer_id: peer, name },
        },
        FriendResponse::AddFriendAck => FriendAnswerPlan::Notify(
            WriteEvent::EventResponse(UiClientEventResponse { req_id, result: Ok(UiClientEventResponseType::SendFriendRequest) }),
        ),
        FriendResponse::AcceptFriendAck => FriendAnswerPlan::Notify(
            WriteEvent::EventResponse(
                UiClientEventResponse { req_id, result: Ok(UiClientEventResponseType::AcceptFriendRequest) },
            ),
        ),
    }
}

/// What the event loop does for a chat command.
#[derive(Debug, PartialEq, Eq)]
pub enum ChatPlan {
    /// Send the request to `receiver`, remember that its answer belongs to
    /// user-interface request `remember`, and store the sent message with
    /// `store`.
    SendDirectMessage { receiver: String, request: DirectMessageRequest, remember: u128, store: DbOp },
    /// Read the page of the chat log, then go on with [`chat_log_loaded`].
    QueryChatLog { from_peer_id: String, page: usize },
}

/// What the event loop does for chat command `command` of request `req_id`:
/// a message is sent to its receiver and stored in the receiver's channel; a
/// page of a chat log is read.
pub open spec fn chat_plan_spec(command: ChatCommand, req_id: u128) -> ChatPlan {
    match command {
        ChatCommand::SendMessage { receiver, message } => ChatPlan::SendDirectMessage {
            receiver,
            request: DirectMessageRequest(message),
            remember: req_id,
            store: DbOp::InsertSentMessage { message, receiver },
        },
        ChatCommand::LoadChatLog { from_peer_id, page } => ChatPlan::QueryChatLog { from_peer_id, page },
    }
}

/// What the event loop does for chat command `command` of request `req_id`:
/// a message is sent to its receiver and stored in the receiver's channel; a
/// page of a chat log is read.
pub fn plan_chat_command(command: ChatCommand, req_id: u128) -> (r: ChatPlan)
    ensures
        r == chat_plan_spec(command, req_id),
{
    match command {
        ChatCommand::SendMessage { receiver, message } => {
            let stored = chat::Message { content: message.content.clone(), id: message.id };
            let to = receiver.clone();
            ChatPlan::SendDirectMessage {
                receiver,
                request: DirectMessageRequest(message),
                remember: req_id,
                store: DbOp::InsertSentMessage { message: stored, receiver: to },
            }
        },
        ChatCommand::LoadChatLog { from_peer_id, page } => ChatPlan::QueryChatLog { from_peer_id, page },
    }
}

/// What the user interface is told once the chat log of request `req_id` was
/// read: the messages, or nothing when reading failed.
pub fn chat_log_loaded(req_id: u128, log: Option<Vec<Message>>) -> (r: Option<WriteEvent>)
    ensures
        match log {
            Some(l) => r == Some(success_spec(req_id, UiClientEventResponseType::LoadChatlogPage(l))),
            None => r is None,
        },
{
    match log {
        Some(l) => Some(
            WriteEvent::EventResponse(UiClientEventResponse { req_id, result: Ok(UiClientEventResponseType::LoadChatlogPage(l)) }),
        ),
        None => None,
    }
}

/// Which tracker lookup is meant.
#[derive(Debug, Clone, Copy, PartialEq, Eq, Structural)]
pub enum SearchKind {
    /// The username of a peer id.
    ById,
    /// The peer id of a username.
    ByName,
}

/// Which list of contacts is meant.
#[derive(Debug, Clone, Copy, PartialEq, Eq, Structural)]
pub enum ContactListKind {
    Friends,
    PendingFriendRequests,
    IncomingFriendRequests,
}

/// What the event loop does for a friend command.
#[derive(Debug, PartialEq, Eq)]
pub enum FriendPlan {
    /// Apply `db` (each change must succeed), then send `request` to `peer`
    /// and remember that its answer belongs to user-interface request
    /// `remember`.
    SendRequest { peer: String, request: FriendRequest, db: Vec<DbOp>, remember: u128 },
    /// Ask the tracker at `url`, then go on with [`search_status`].
    TrackerSearch { url: String, kind: SearchKind },
    /// Read the list, then go on with [`contacts_loaded`].
    LoadContacts(ContactListKind),
    /// The command is not carried out.
    Unsupported,
}

/// What the event loop does for friend command `command` of request `req_id`,
/// asking the tracker at `tracker`. A friend request is stored as outgoing
/// before it is sent; an answer to a friend request makes the peer a friend
/// when it is positive, and removes the pending request either way, before it
/// is sent.
pub fn plan_friend_command(command: FriendCommand, req_id: u128, tracker: &String) -> (r: FriendPlan)
    ensures
        match command {
            FriendCommand::RequestName { peer } => r == (FriendPlan::SendRequest {
                peer,
                request: FriendRequest::RequestName,
                db: r->db,
                remember: req_id,
            }) && r->db@.len() == 0,
            FriendCommand::AddFriend { peer } => r == (FriendPlan::SendRequest {
                peer,
                request: FriendRequest::AddFriend,
                db: r->db,
                remember: req_id,
            }) && r->db@ == seq![DbOp::InsertFriendRequest { request_type: FriendRequestType::Outgoing, peer_id: peer }],
            FriendCommand::AcceptFriend { peer, decision } => r == (FriendPlan::SendRequest {
                peer,
                request: FriendRequest::AcceptFriend { decision },
                db: r->db,
                remember: req_id,
            }) && r->db@ == if decision {
                seq![DbOp::InsertFriend { peer_id: peer }, DbOp::DeleteFriendRequest { peer_id: peer }]
            } else {
                seq![DbOp::DeleteFriendRequest { peer_id: peer }]
            },
            FriendCommand::SearchPeer { id } => r matches FriendPlan::TrackerSearch { url, kind }
                && kind == SearchKind::ById && url@ == tracker_url_spec(tracker@, "/find-by-id?q="@ + id@),
            FriendCommand::SearchUsername { username } => r matches FriendPlan::TrackerSearch { url, kind }
                && kind == SearchKind::ByName && url@ == tracker_url_spec(tracker@, "/find-by-name?q="@ + username@),
            FriendCommand::CheckUsernameAvailability { .. } => r == FriendPlan::Unsupported,
            FriendCommand::ChangeUsername { .. } => r == FriendPlan::Unsupported,
            FriendCommand::LoadFriends => r == FriendPlan::LoadContacts(ContactListKind::Friends),
            FriendCommand::LoadPendingFriendRequests => r == FriendPlan::LoadContacts(ContactListKind::PendingFriendRequests),
            FriendCommand::LoadIncomingFriendRequests => r == FriendPlan::LoadContacts(ContactListKind::IncomingFriendRequests),
        },
{
    match command {
        FriendCommand::RequestName { peer } => {
            FriendPlan::SendRequest { peer, request: FriendRequest::RequestName, db: Vec::new(), remember: req_id }
        },
        FriendCommand::AddFriend { peer } => {
            let mut db: Vec<DbOp> = Vec::new();
            db.push(DbOp::InsertFriendRequest { request_type: FriendRequestType::Outgoing, peer_id: peer.clone() });
            assert(db@ =~= seq![db@[0]]);
            FriendPlan::SendRequest { peer, request: FriendRequest::AddFriend, db, remember: req_id }
        },
        FriendCommand::AcceptFriend { peer, decision } => {
            let mut db: Vec<DbOp> = Vec::new();
            if decision {
                db.push(DbOp::InsertFriend { peer_id: peer.clone() });
            }
            db.push(DbOp::DeleteFriendRequest { peer_id: peer.clone() });
            proof {
                if decision {
                    assert(db@ =~= seq![db@[0], db@[1]]);
                } else {
                    assert(db@ =~= seq![db@[0]]);
                }
            }
            FriendPlan::SendRequest { peer, request: FriendRequest::AcceptFriend { decision }, db, remember: req_id }
        },
        FriendCommand::SearchPeer { id } => {
            FriendPlan::TrackerSearch { url: find_by_id_url(tracker, &id), kind: SearchKind::ById }
        },
        FriendCommand::SearchUsername { username } => {
            FriendPlan::TrackerSearch { url: find_by_name_url(tracker, &username), kind: SearchKind::ByName }
        },
        FriendCommand::CheckUsernameAvailability { .. } => FriendPlan::Unsupported,
        FriendCommand::ChangeUsername { .. } => FriendPlan::Unsupported,
        FriendCommand::LoadFriends => FriendPlan::LoadContacts(ContactListKind::Friends),
        FriendCommand::LoadPendingFriendRequests => FriendPlan::LoadContacts(ContactListKind::PendingFriendRequests),
        FriendCommand::LoadIncomingFriendRequests => FriendPlan::LoadContacts(ContactListKind::IncomingFriendRequests),
    }
}

/// What follows a tracker reply with status `code`.
#[derive(Debug, PartialEq, Eq)]
pub enum SearchStep {
    /// Read the body as a search result, then go on with [`search_result`].
    ReadBody,
    /// Send this to the user interface, if anything, and stop.
    Reply(Option<WriteEvent>),
}

/// What follows a tracker reply with status `code` to the search of request
/// `req_id`: a success is read; a server error is reported for a username
/// search and only logged for a peer-id search; any other status means that
/// nothing was found.
pub fn search_status(kind: SearchKind, code: u16, req_id: u128) -> (r: SearchStep)
    ensures
        is_success_spec(code) ==> r == SearchStep::ReadBody,
        !is_success_spec(code) && is_server_error_spec(code) ==> r == SearchStep::Reply(
            if kind == SearchKind::ByName {
                Some(failure_spec(req_id, UiClientEventResponseError::PeerSearchServerError))
            } else {
                None
            },
        ),
        !is_success_spec(code) && !is_server_error_spec(code) ==> r == SearchStep::Reply(
            Some(failure_spec(req_id, UiClientEventResponseError::PeerSearchNotFound)),
        ),
{
    if status_is_success(code) {
        SearchStep::ReadBody
    } else if status_is_server_error(code) {
        match kind {
            SearchKind::ByName => SearchStep::Reply(
                Some(
                    WriteEvent::EventResponse(
                        UiClientEventResponse { req_id, result: Err(UiClientEventResponseError::PeerSearchServerError) },
                    ),
                ),
            ),
            SearchKind::ById => SearchStep::Reply(None),
        }
    } else {
        SearchStep::Reply(
            Some(
                WriteEvent::EventResponse(
                    UiClientEventResponse { req_id, result: Err(UiClientEventResponseError::PeerSearchNotFound) },
                ),
            ),
        )
    }
}

/// What the user interface is told once a successful reply to the search of
/// request `req_id` was read: the username found for a peer id, or the peer
/// id found for a username; nothing when the body could not be parsed.
pub fn search_result(kind: SearchKind, req_id: u128, found: Option<PeerSearchResponse>) -> (r: Option<WriteEvent>)
    ensures
        match found {
            None => r is None,
            Some(f) => r == Some(
                if kind == SearchKind::ById {
                    success_spec(req_id, UiClientEventResponseType::SearchPeer { username: f.username })
                } else {
                    success_spec(req_id, UiClientEventResponseType::SearchUsername { peer_id: f.peer_id })
                },
            ),
        },
{
    match found {
        None => None,
        Some(f) => match kind {
            SearchKind::ById => Some(
                WriteEvent::EventResponse(
                    UiClientEventResponse { req_id, result: Ok(UiClientEventResponseType::SearchPeer { username: f.username }) },
                ),
            ),
            SearchKind::ByName => Some(
                WriteEvent::EventResponse(
                    UiClientEventResponse { req_id, result: Ok(UiClientEventResponseType::SearchUsername { peer_id: f.peer_id }) },
                ),
            ),
        },
    }
}

/// What the user interface is told when the tracker cannot be reached for the
/// search of request `req_id`.
pub fn search_unreachable(req_id: u128) -> (r: WriteEvent)
    ensures
        r == failure_spec(req_id, UiClientEventResponseError::PeerSearchTrackerConnectionFailed),
{
    WriteEvent::EventResponse(
        UiClientEventResponse { req_id, result: Err(UiClientEventResponseError::PeerSearchTrackerConnectionFailed) },
    )
}

/// The answer carrying a list of contacts of the given kind.
pub open spec fn contacts_answer_spec(kind: ContactListKind, contacts: Vec<Contact>) -> UiClientEventResponseType {
    match kind {
        ContactListKind::Friends => UiClientEventResponseType::LoadFriends(contacts),
        ContactListKind::PendingFriendRequests => UiClientEventResponseType::LoadPendingFriendRequests(contacts),
        ContactListKind::IncomingFriendRequests => UiClientEventResponseType::LoadIncomingFriendRequests(contacts),
    }
}

/// The answer to a loaded list names the list that was asked for and carries
/// the contacts read, unchanged: friends are answered as friends, the friend
/// requests this node sent as pending ones, those it received as incoming
/// ones; so the three answers to the same contacts all differ.
pub proof fn law_loaded_list_named(c: Vec<Contact>)
    ensures
        contacts_answer_spec(ContactListKind::Friends, c) == UiClientEventResponseType::LoadFriends(c),
        contacts_answer_spec(ContactListKind::PendingFriendRequests, c)
            == UiClientEventResponseType::LoadPendingFriendRequests(c),
        contacts_answer_spec(ContactListKind::IncomingFriendRequests, c)
            == UiClientEventResponseType::LoadIncomingFriendRequests(c),
{
}

/// What the user interface is told once the list of request `req_id` was
/// read: the contacts, or nothing when reading failed.
pub fn contacts_loaded(kind: ContactListKind, req_id: u128, contacts: Option<Vec<Contact>>) -> (r: Option<WriteEvent>)
    ensures
        match contacts {
            Some(c) => r == Some(success_spec(req_id, contacts_answer_spec(kind, c))),
            None => r is None,
        },
        contacts matches Some(c) ==> r matches Some(WriteEvent::EventResponse(resp)) && resp.req_id == req_id && match kind {
            ContactListKind::Friends => resp.result == Ok::<UiClientEventResponseType, UiClientEventResponseError>(
                UiClientEventResponseType::LoadFriends(c),
            ),
            ContactListKind::PendingFriendRequests => resp.result == Ok::<
                UiClientEventResponseType,
                UiClientEventResponseError,
            >(UiClientEventResponseType::LoadPendingFriendRequests(c)),
            ContactListKind::IncomingFriendRequests => resp.result == Ok::<
                UiClientEventResponseType,
                UiClientEventResponseError,
            >(UiClientEventResponseType::LoadIncomingFriendRequests(c)),
        },
{
    match contacts {
        None => None,
        Some(c) => {
            let t = match kind {
                ContactListKind::Friends => UiClientEventResponseType::LoadFriends(c),
                ContactListKind::PendingFriendRequests => UiClientEventResponseType::LoadPendingFriendRequests(c),
                ContactListKind::IncomingFriendRequests => UiClientEventResponseType::LoadIncomingFriendRequests(c),
            };
            Some(WriteEvent::EventResponse(UiClientEventResponse { req_id, result: Ok(t) }))
        },
    }
}

} // verus!
