use p2pchat::api::{CriticalFailure, RelayConnectionError, RelayConnectionSuccess, RelayServerConnectionEvent, WriteEvent};
use p2pchat::chat_tui::{
    handle_key_event, handle_mouse_event, handle_write_event, App, Focus, InputMode, KeyInput, KeyPress, MouseInput, Tab,
};
use p2pchat::types::{Contact as StoredContact, Message};

fn key(code: KeyInput) -> KeyPress {
    KeyPress { code, ctrl: false, shift: false, alt: false }
}

fn discover(app: &mut App, peer: &str, name: Option<&str>) {
    handle_write_event(
        app,
        WriteEvent::DiscoverMdnsContact { peer_id: peer.to_string(), name: name.map(|n| n.to_string()) },
    );
}

#[test]
fn fresh_interface() {
    let app = App::new();
    assert_eq!(app.selected_tab, Tab::Contacts);
    assert_eq!(app.focus, Focus::ContactList);
    assert_eq!(app.input_mode, InputMode::Normal);
    assert!(app.contacts.is_empty());
    assert_eq!(app.contact_list_state.selected(), None);
    assert_eq!(app.selected_contact_name(), "nobody");
}

#[test]
fn discovered_contacts_are_listed_once_and_selected() {
    let mut app = App::new();
    discover(&mut app, "p1", Some("ann"));
    assert_eq!(app.contact_list_state.selected(), Some(0));
    discover(&mut app, "p1", Some("other"));
    discover(&mut app, "p2", None);
    assert_eq!(app.contacts.len(), 2);
    assert_eq!(app.contacts[0].name, "ann");
    assert_eq!(app.contacts[1].name, "");
    assert_eq!(app.selected_contact_name(), "ann");
}

#[test]
fn names_resolve_and_peers_leave() {
    let mut app = App::new();
    discover(&mut app, "p1", None);
    discover(&mut app, "p2", None);
    handle_write_event(&mut app, WriteEvent::MdnsNameResolved { peer_id: "p2".to_string(), name: "bo".to_string() });
    assert_eq!(app.contacts[1].name, "bo");
    app.next_contact();
    assert_eq!(app.contact_list_state.selected(), Some(1));
    handle_write_event(&mut app, WriteEvent::MdnsPeerDisconnected { peer_id: "p2".to_string() });
    assert_eq!(app.contacts.len(), 1);
    assert_eq!(app.contact_list_state.selected(), Some(0));
    handle_write_event(&mut app, WriteEvent::MdnsPeerDisconnected { peer_id: "p1".to_string() });
    assert_eq!(app.contact_list_state.selected(), None);
}

#[test]
fn messages_relay_and_failures() {
    let mut app = App::new();
    let sender = StoredContact { peer_id: "p".to_string(), central_name: None, provided_name: None, channel_id: 1 };
    let m = Message { content: "hi".to_string(), id: 1, sender, created_at: 0 };
    handle_write_event(&mut app, WriteEvent::ReceiveMessage(m.clone()));
    assert_eq!(app.messages, vec![m]);
    handle_write_event(
        &mut app,
        WriteEvent::RelayServerConnection(RelayServerConnectionEvent(Ok(RelayConnectionSuccess {
            relay_addr: "/ip4/1.2.3.4".to_string(),
        }))),
    );
    assert!(app.relay_connected);
    assert_eq!(app.relay_addr, "/ip4/1.2.3.4");
    handle_write_event(
        &mut app,
        WriteEvent::RelayServerConnection(RelayServerConnectionEvent(Err(RelayConnectionError::DialError))),
    );
    assert!(!app.relay_connected);
    assert_eq!(app.relay_addr, "/ip4/1.2.3.4");
    handle_write_event(&mut app, WriteEvent::CriticalFailure(CriticalFailure::FailedToLoadSettings));
    assert!(app.should_quit);
}

#[test]
fn keys_in_normal_and_editing_mode() {
    let mut app = App::new();
    discover(&mut app, "a", Some("a"));
    discover(&mut app, "b", Some("b"));
    handle_key_event(&mut app, key(KeyInput::Char('j')));
    assert_eq!(app.contact_list_state.selected(), Some(1));
    handle_key_event(&mut app, key(KeyInput::Down));
    assert_eq!(app.contact_list_state.selected(), Some(1));
    handle_key_event(&mut app, key(KeyInput::Up));
    assert_eq!(app.contact_list_state.selected(), Some(0));
    handle_key_event(&mut app, key(KeyInput::Tab));
    assert_eq!(app.selected_tab, Tab::Friends);
    handle_key_event(&mut app, key(KeyInput::Enter));
    assert_eq!(app.input_mode, InputMode::Normal);
    handle_key_event(&mut app, key(KeyInput::Char('l')));
    assert_eq!(app.focus, Focus::Chat);
    handle_key_event(&mut app, key(KeyInput::Char('i')));
    assert_eq!(app.input_mode, InputMode::Editing);
    handle_key_event(&mut app, key(KeyInput::Char('q')));
    handle_key_event(&mut app, key(KeyInput::Char('x')));
    assert_eq!(app.input, "qx");
    assert!(!app.should_quit);
    handle_key_event(&mut app, key(KeyInput::Backspace));
    assert_eq!(app.input, "q");
    handle_key_event(&mut app, key(KeyInput::Enter));
    assert_eq!(app.input, "");
    handle_key_event(&mut app, key(KeyInput::Esc));
    assert_eq!(app.input_mode, InputMode::Normal);
    handle_key_event(&mut app, KeyPress { code: KeyInput::Char('c'), ctrl: true, shift: false, alt: false });
    assert!(app.should_quit);
}

#[test]
fn mouse_clicks_and_scrolling() {
    let mut app = App::new();
    for p in ["a", "b", "c"] {
        discover(&mut app, p, None);
    }
    handle_mouse_event(&mut app, MouseInput::LeftDown { column: 5, row: 6 });
    assert_eq!(app.focus, Focus::ContactList);
    assert_eq!(app.contact_list_state.selected(), Some(2));
    handle_mouse_event(&mut app, MouseInput::LeftDown { column: 5, row: 20 });
    assert_eq!(app.contact_list_state.selected(), Some(2));
    handle_mouse_event(&mut app, MouseInput::ScrollUp);
    assert_eq!(app.contact_list_state.selected(), Some(1));
    handle_mouse_event(&mut app, MouseInput::LeftDown { column: 40, row: 2 });
    assert_eq!(app.focus, Focus::Chat);
    assert_eq!(app.input_mode, InputMode::Editing);
    handle_mouse_event(&mut app, MouseInput::ScrollDown);
    assert_eq!(app.contact_list_state.selected(), Some(1));
}

#[test]
fn a_peer_is_listed_once_and_leaves_entirely() {
    let mut app = App::new();
    for (p, n) in [("a", "x"), ("b", "y"), ("a", "z"), ("c", "w"), ("b", "v")] {
        discover(&mut app, p, Some(n));
    }
    let peers: Vec<&str> = app.contacts.iter().map(|c| c.peer_id.as_str()).collect();
    assert_eq!(peers, vec!["a", "b", "c"]);
    handle_write_event(&mut app, WriteEvent::MdnsPeerDisconnected { peer_id: "b".to_string() });
    assert!(app.contacts.iter().all(|c| c.peer_id != "b"));
    assert_eq!(app.contacts.len(), 2);
}
