use p2pchat::api::{
    UiClientEvent, UiClientEventRequiringDial, UiClientEventRequiringDialMessage, UiClientEventResponse,
    UiClientEventResponseError, UiClientRequest, WriteEvent,
};
use p2pchat::network::buffer::RequestBuffer;
use p2pchat::network::chat::{ChatCommand, Message};
use p2pchat::network::friends::FriendCommand;
use p2pchat::network::{
    after_connection_check, flush_requests, resolve_event_requiring_dial, route_ui_request, Command, CommandType,
    UiClientRequestRequiringDial, UiRoute,
};

fn send(peer: &str, text: &str) -> UiClientEventRequiringDial {
    UiClientEventRequiringDial {
        peer_id: peer.to_string(),
        event: UiClientEventRequiringDialMessage::SendMessage { peer_id: peer.to_string(), message: text.to_string() },
    }
}

fn held(peer: &str, text: &str, id: u128) -> UiClientRequestRequiringDial {
    UiClientRequestRequiringDial { event: send(peer, text), id }
}

#[test]
fn command_constructors() {
    assert_eq!(Command::dial("p".to_string(), 7), Command { id: 7, cmd_type: CommandType::Dial { peer_id: "p".to_string() } });
    assert_eq!(
        Command::accept_friend_req("p".to_string(), 1).cmd_type,
        CommandType::FriendCommand(FriendCommand::AcceptFriend { peer: "p".to_string(), decision: true })
    );
    assert_eq!(
        Command::deny_friend_req("p".to_string(), 1).cmd_type,
        CommandType::FriendCommand(FriendCommand::AcceptFriend { peer: "p".to_string(), decision: false })
    );
    assert_eq!(
        Command::load_chatlog_page("p".to_string(), 3, 9),
        Command {
            id: 9,
            cmd_type: CommandType::ChatCommand(ChatCommand::LoadChatLog { from_peer_id: "p".to_string(), page: 3 })
        }
    );
    assert_eq!(Command::load_friends(2).cmd_type, CommandType::FriendCommand(FriendCommand::LoadFriends));
}

#[test]
fn resolve_send_message() {
    let c = resolve_event_requiring_dial(send("bob", "hi"), 5, 77);
    assert_eq!(
        c,
        Command {
            id: 5,
            cmd_type: CommandType::ChatCommand(ChatCommand::SendMessage {
                receiver: "bob".to_string(),
                message: Message { content: "hi".to_string(), id: 77 }
            })
        }
    );
}

#[test]
fn resolve_name_asks_the_peer() {
    let ev = UiClientEventRequiringDial { peer_id: "carol".to_string(), event: UiClientEventRequiringDialMessage::ResolveName };
    let c = resolve_event_requiring_dial(ev, 4, 0);
    assert_eq!(c.cmd_type, CommandType::FriendCommand(FriendCommand::RequestName { peer: "carol".to_string() }));
    assert_eq!(c.id, 4);
}

#[test]
fn routing_ui_requests() {
    assert_eq!(route_ui_request(UiClientRequest { req_id: 1, event: UiClientEvent::Close }), UiRoute::Close);
    assert_eq!(
        route_ui_request(UiClientRequest { req_id: 2, event: UiClientEvent::EventRequiringDial(send("b", "x")) }),
        UiRoute::CheckConnection { ev: send("b", "x"), req_id: 2 }
    );
    assert_eq!(
        route_ui_request(UiClientRequest { req_id: 3, event: UiClientEvent::SearchUsername { username: "al".to_string() } }),
        UiRoute::Forward(Command {
            id: 3,
            cmd_type: CommandType::FriendCommand(FriendCommand::SearchUsername { username: "al".to_string() })
        })
    );
    assert_eq!(
        route_ui_request(UiClientRequest { req_id: 4, event: UiClientEvent::Dial { peer_id: "p".to_string() } }),
        UiRoute::Forward(Command::dial("p".to_string(), 4))
    );
}

#[test]
fn not_connected_peer_is_reported() {
    assert_eq!(
        after_connection_check(send("b", "x"), 8, false, 1),
        Err(WriteEvent::EventResponse(UiClientEventResponse {
            req_id: 8,
            result: Err(UiClientEventResponseError::PeerNotDialed)
        }))
    );
    assert_eq!(after_connection_check(send("b", "x"), 8, true, 1), Ok(resolve_event_requiring_dial(send("b", "x"), 8, 1)));
}

#[test]
fn buffer_keeps_order_per_peer() {
    let mut b = RequestBuffer::new();
    b.buffer_event(held("a", "one", 1));
    b.buffer_event(held("b", "other", 2));
    b.buffer_event(held("a", "two", 3));
    assert_eq!(b.pending(&"a".to_string()), 2);
    assert_eq!(b.pending(&"b".to_string()), 1);
    let taken = b.take(&"a".to_string());
    assert_eq!(taken, vec![held("a", "one", 1), held("a", "two", 3)]);
    assert_eq!(b.pending(&"a".to_string()), 0);
    assert_eq!(b.pending(&"b".to_string()), 1);
    assert!(b.take(&"zed".to_string()).is_empty());
}

#[test]
fn flushing_turns_held_requests_into_commands() {
    let mut b = RequestBuffer::new();
    b.buffer_event(held("a", "one", 1));
    b.buffer_event(held("a", "two", 2));
    let cmds = flush_requests(&mut b, &"a".to_string(), &vec![100, 200]);
    assert_eq!(
        cmds,
        vec![resolve_event_requiring_dial(send("a", "one"), 1, 100), resolve_event_requiring_dial(send("a", "two"), 2, 200)]
    );
    assert_eq!(b.pending(&"a".to_string()), 0);
}
