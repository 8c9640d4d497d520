use p2pchat::api::{
    DcutrConnectionEvent, DcutrConnectionSuccess, UiClientEventRequiringDial, UiClientEventRequiringDialMessage,
    UiClientEventResponse, UiClientEventResponseError, UiClientEventResponseType, WriteEvent,
};
use p2pchat::network::chat::{self, ChatCommand, DirectMessageRequest, DirectMessageResponse, MessageResponse};
use p2pchat::network::events::{
    answer_friend_request, chat_log_loaded, contacts_loaded, direct_message_answered, direct_message_received,
    expired_peers, first_occurrences, friend_request_answered, hole_punched, known_contact_discovered,
    new_peer_discovered, plan_chat_command, plan_friend_command, search_result, search_status, search_unreachable,
    ChatPlan, ContactListKind, DbOp, FriendAnswerPlan, FriendPlan, SearchKind, SearchStep,
};
use p2pchat::network::friends::{FriendCommand, FriendRequest, FriendResponse};
use p2pchat::network::{Command, CommandType, UiClientRequestRequiringDial};
use p2pchat::types::{Contact, FriendRequestType, Message, Name, NameType, PeerSearchResponse};

fn s(x: &str) -> String {
    x.to_string()
}

fn contact(peer: &str, channel: i64) -> Contact {
    Contact { peer_id: s(peer), central_name: None, provided_name: None, channel_id: channel }
}

fn ok(req_id: u128, t: UiClientEventResponseType) -> WriteEvent {
    WriteEvent::EventResponse(UiClientEventResponse { req_id, result: Ok(t) })
}

fn err(req_id: u128, e: UiClientEventResponseError) -> WriteEvent {
    WriteEvent::EventResponse(UiClientEventResponse { req_id, result: Err(e) })
}

#[test]
fn discovered_peers_are_deduplicated_in_order() {
    let peers = vec![s("b"), s("a"), s("b"), s("c"), s("a")];
    assert_eq!(first_occurrences(&peers), vec![s("b"), s("a"), s("c")]);
    assert_eq!(first_occurrences(&vec![]), Vec::<String>::new());
}

#[test]
fn known_contact_is_shown_by_name() {
    let mut c = contact("p1", 3);
    c.provided_name = Some(Name { content: s("pat"), ttl: 0 });
    assert_eq!(known_contact_discovered(c), WriteEvent::DiscoverMdnsContact { peer_id: s("p1"), name: Some(s("pat")) });
    assert_eq!(
        known_contact_discovered(contact("p2", 4)),
        WriteEvent::DiscoverMdnsContact { peer_id: s("p2"), name: None }
    );
}

#[test]
fn new_peer_asks_for_name_and_holds_resolution() {
    let plan = new_peer_discovered(s("p"), true, 1, 2, 3);
    assert_eq!(plan.event, WriteEvent::DiscoverMdnsContact { peer_id: s("p"), name: None });
    assert_eq!(
        plan.commands,
        vec![
            Command::request_name(s("p"), 1),
            Command {
                id: 3,
                cmd_type: CommandType::BufferEvent {
                    ev: UiClientRequestRequiringDial {
                        id: 2,
                        event: UiClientEventRequiringDial {
                            peer_id: s("p"),
                            event: UiClientEventRequiringDialMessage::ResolveName
                        }
                    }
                }
            }
        ]
    );
    let failed = new_peer_discovered(s("p"), false, 1, 2, 3);
    assert!(failed.commands.is_empty());
    assert_eq!(failed.event, WriteEvent::DiscoverMdnsContact { peer_id: s("p"), name: None });
}

#[test]
fn expired_and_hole_punched_events() {
    assert_eq!(
        expired_peers(vec![s("x"), s("y")]),
        vec![WriteEvent::MdnsPeerDisconnected { peer_id: s("x") }, WriteEvent::MdnsPeerDisconnected { peer_id: s("y") }]
    );
    assert_eq!(
        hole_punched(s("r")),
        WriteEvent::DcutrConnection(DcutrConnectionEvent(Ok(DcutrConnectionSuccess { peer_id: s("r") })))
    );
}

#[test]
fn received_message_is_stored_acked_and_shown() {
    let m = chat::Message { content: s("hello"), id: 42 };
    let plan = direct_message_received(m.clone(), contact("p", 9), 1000);
    assert_eq!(plan.store, DbOp::InsertMessage { message: m, channel_id: 9 });
    assert_eq!(plan.response, DirectMessageResponse(MessageResponse::Ack));
    assert_eq!(
        plan.event,
        WriteEvent::ReceiveMessage(Message { content: s("hello"), id: 42, sender: contact("p", 9), created_at: 1000 })
    );
}

#[test]
fn answers_to_direct_messages() {
    assert_eq!(direct_message_answered(MessageResponse::Ack, 5), Some(ok(5, UiClientEventResponseType::SendMessage)));
    assert_eq!(direct_message_answered(MessageResponse::DeniedNotFriends, 5), None);
}

#[test]
fn answering_friend_requests() {
    let a = answer_friend_request(s("p"), FriendRequest::RequestName, None);
    assert_eq!(a.response, FriendResponse::RequestName { name: s("Anonymous") });
    assert!(a.db.is_empty());
    assert_eq!(a.event, None);
    let b = answer_friend_request(s("p"), FriendRequest::RequestName, Some(s("zoe")));
    assert_eq!(b.response, FriendResponse::RequestName { name: s("zoe") });
    let yes = answer_friend_request(s("p"), FriendRequest::AcceptFriend { decision: true }, None);
    assert_eq!(yes.db, vec![DbOp::InsertFriend { peer_id: s("p") }, DbOp::DeleteFriendRequest { peer_id: s("p") }]);
    assert_eq!(yes.event, Some(WriteEvent::ReceiveFriendRequestResponse { decision: true }));
    assert_eq!(yes.response, FriendResponse::AcceptFriendAck);
    let no = answer_friend_request(s("p"), FriendRequest::AcceptFriend { decision: false }, None);
    assert_eq!(no.db, vec![DbOp::DeleteFriendRequest { peer_id: s("p") }]);
    let add = answer_friend_request(s("p"), FriendRequest::AddFriend, None);
    assert_eq!(add.db, vec![DbOp::InsertFriendRequest { request_type: FriendRequestType::Incoming, peer_id: s("p") }]);
    assert_eq!(add.event, Some(WriteEvent::ReceiveFriendRequest));
    assert_eq!(add.response, FriendResponse::AddFriendAck);
}

#[test]
fn answers_from_peers() {
    assert_eq!(
        friend_request_answered(s("p"), FriendResponse::RequestName { name: s("al") }, 1),
        FriendAnswerPlan::StoreName {
            op: DbOp::InsertName { peer_id: s("p"), name_type: NameType::Provided, content: s("al") },
            on_success: WriteEvent::MdnsNameResolved { peer_id: s("p"), name: s("al") }
        }
    );
    assert_eq!(
        friend_request_answered(s("p"), FriendResponse::AddFriendAck, 2),
        FriendAnswerPlan::Notify(ok(2, UiClientEventResponseType::SendFriendRequest))
    );
    assert_eq!(
        friend_request_answered(s("p"), FriendResponse::AcceptFriendAck, 3),
        FriendAnswerPlan::Notify(ok(3, UiClientEventResponseType::AcceptFriendRequest))
    );
}

#[test]
fn chat_commands() {
    let m = chat::Message { content: s("yo"), id: 1 };
    assert_eq!(
        plan_chat_command(ChatCommand::SendMessage { receiver: s("r"), message: m.clone() }, 6),
        ChatPlan::SendDirectMessage {
            receiver: s("r"),
            request: DirectMessageRequest(m.clone()),
            remember: 6,
            store: DbOp::InsertSentMessage { message: m, receiver: s("r") },
        }
    );
    assert_eq!(
        plan_chat_command(ChatCommand::LoadChatLog { from_peer_id: s("r"), page: 2 }, 6),
        ChatPlan::QueryChatLog { from_peer_id: s("r"), page: 2 }
    );
    assert_eq!(chat_log_loaded(6, Some(vec![])), Some(ok(6, UiClientEventResponseType::LoadChatlogPage(vec![]))));
    assert_eq!(chat_log_loaded(6, None), None);
}

#[test]
fn friend_commands() {
    let t = s("127.0.0.1:8000");
    assert_eq!(
        plan_friend_command(FriendCommand::AddFriend { peer: s("p") }, 4, &t),
        FriendPlan::SendRequest {
            peer: s("p"),
            request: FriendRequest::AddFriend,
            db: vec![DbOp::InsertFriendRequest { request_type: FriendRequestType::Outgoing, peer_id: s("p") }],
            remember: 4
        }
    );
    assert_eq!(
        plan_friend_command(FriendCommand::AcceptFriend { peer: s("p"), decision: false }, 4, &t),
        FriendPlan::SendRequest {
            peer: s("p"),
            request: FriendRequest::AcceptFriend { decision: false },
            db: vec![DbOp::DeleteFriendRequest { peer_id: s("p") }],
            remember: 4
        }
    );
    assert_eq!(
        plan_friend_command(FriendCommand::SearchUsername { username: s("al") }, 4, &t),
        FriendPlan::TrackerSearch { url: s("http://127.0.0.1:8000/find-by-name?q=al"), kind: SearchKind::ByName }
    );
    assert_eq!(
        plan_friend_command(FriendCommand::SearchPeer { id: s("x") }, 4, &t),
        FriendPlan::TrackerSearch { url: s("http://127.0.0.1:8000/find-by-id?q=x"), kind: SearchKind::ById }
    );
    assert_eq!(
        plan_friend_command(FriendCommand::LoadFriends, 4, &t),
        FriendPlan::LoadContacts(ContactListKind::Friends)
    );
    assert_eq!(
        plan_friend_command(FriendCommand::ChangeUsername { username: s("n") }, 4, &t),
        FriendPlan::Unsupported
    );
}

#[test]
fn tracker_search_replies() {
    assert_eq!(search_status(SearchKind::ByName, 200, 1), SearchStep::ReadBody);
    assert_eq!(
        search_status(SearchKind::ByName, 500, 1),
        SearchStep::Reply(Some(err(1, UiClientEventResponseError::PeerSearchServerError)))
    );
    assert_eq!(search_status(SearchKind::ById, 502, 1), SearchStep::Reply(None));
    assert_eq!(
        search_status(SearchKind::ById, 404, 1),
        SearchStep::Reply(Some(err(1, UiClientEventResponseError::PeerSearchNotFound)))
    );
    let found = PeerSearchResponse { peer_id: s("pid"), username: s("al") };
    assert_eq!(
        search_result(SearchKind::ById, 2, Some(found.clone())),
        Some(ok(2, UiClientEventResponseType::SearchPeer { username: s("al") }))
    );
    assert_eq!(
        search_result(SearchKind::ByName, 2, Some(found)),
        Some(ok(2, UiClientEventResponseType::SearchUsername { peer_id: s("pid") }))
    );
    assert_eq!(search_result(SearchKind::ByName, 2, None), None);
    assert_eq!(search_unreachable(3), err(3, UiClientEventResponseError::PeerSearchTrackerConnectionFailed));
}

#[test]
fn loaded_contact_lists() {
    assert_eq!(
        contacts_loaded(ContactListKind::IncomingFriendRequests, 7, Some(vec![contact("a", 1)])),
        Some(ok(7, UiClientEventResponseType::LoadIncomingFriendRequests(vec![contact("a", 1)])))
    );
    assert_eq!(contacts_loaded(ContactListKind::Friends, 7, None), None);
}
