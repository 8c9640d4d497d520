use p2pchat::chat_tui::{KeyInput, KeyPress};
use p2pchat::tui::types::{
    find_peer, rename_peer, Contact, ContactPage, Event, FriendRequestPage, ListSelection, Message, MoveHorizontal,
    MoveVertical, Tabline,
};
use p2pchat::tui::{
    contact_from_row, handle_event, input_line, message_from_row, message_line, update, TuiEffect,
    CONTACTS_BY_DISCOVERY_QUERY, MESSAGE_LOG_QUERY,
};
use p2pchat::tui::types::App;
use p2pchat::types::{DiscoveryType, MessageStatus};

fn plain(code: KeyInput) -> KeyPress {
    KeyPress { code, ctrl: false, shift: false, alt: false }
}

fn ctrl(c: char) -> KeyPress {
    KeyPress { code: KeyInput::Char(c), ctrl: true, shift: false, alt: false }
}

fn shift(c: char) -> KeyPress {
    KeyPress { code: KeyInput::Char(c), ctrl: false, shift: true, alt: false }
}

fn contact(peer: &str, name: &str) -> Contact {
    Contact { peer_id: peer.to_string(), name: name.to_string(), discovery_type: DiscoveryType::Mdns }
}

fn me() -> String {
    "me".to_string()
}

#[test]
fn starts_on_contact_list() {
    let app = App::new();
    assert_eq!(app.selected_tab, Tabline::Chatting(ContactPage::ContactList));
    assert_eq!(app.selected_contact.selected(), Some(0));
    assert!(!app.should_quit);
}

#[test]
fn navigation_between_tabs_and_panels() {
    let mut app = App::new();
    assert_eq!(update(&mut app, Event::Key(shift('L')), &me(), 0), TuiEffect::Nothing);
    assert_eq!(app.selected_tab, Tabline::FriendRequests(FriendRequestPage::Search));
    update(&mut app, Event::Key(ctrl('j')), &me(), 0);
    assert_eq!(app.selected_tab, Tabline::FriendRequests(FriendRequestPage::RequestList));
    update(&mut app, Event::Key(ctrl('k')), &me(), 0);
    assert_eq!(app.selected_tab, Tabline::FriendRequests(FriendRequestPage::Search));
    update(&mut app, Event::Key(shift('H')), &me(), 0);
    assert_eq!(app.selected_tab, Tabline::Chatting(ContactPage::ContactList));
    update(&mut app, Event::Key(ctrl('l')), &me(), 0);
    assert_eq!(app.selected_tab, Tabline::Chatting(ContactPage::Chat));
    update(&mut app, Event::Key(ctrl('k')), &me(), 0);
    assert_eq!(app.selected_tab, Tabline::Chatting(ContactPage::CallButton));
    update(&mut app, Event::Key(ctrl('j')), &me(), 0);
    assert_eq!(app.selected_tab, Tabline::Chatting(ContactPage::Chat));
    update(&mut app, Event::Key(ctrl('h')), &me(), 0);
    assert_eq!(app.selected_tab, Tabline::Chatting(ContactPage::ContactList));
}

#[test]
fn escape_quits() {
    let mut app = App::new();
    assert_eq!(update(&mut app, Event::Key(plain(KeyInput::Esc)), &me(), 0), TuiEffect::Quit);
    assert!(app.should_quit);
}

#[test]
fn contacts_are_added_once_reloaded_and_renamed() {
    let mut app = App::new();
    update(&mut app, Event::AddContact(contact("a", "ann")), &me(), 0);
    update(&mut app, Event::AddContact(contact("a", "ann")), &me(), 0);
    assert_eq!(app.contacts, vec![contact("a", "ann")]);
    update(&mut app, Event::AddContact(contact("a", "other")), &me(), 0);
    assert_eq!(app.contacts.len(), 2);
    update(&mut app, Event::EditContact(contact("a", "zed")), &me(), 0);
    assert_eq!(app.contacts, vec![contact("a", "zed"), contact("a", "other")]);
    update(&mut app, Event::ReloadContacts(vec![contact("b", "bo")]), &me(), 0);
    assert_eq!(app.contacts, vec![contact("b", "bo")]);
    update(&mut app, Event::SearchResult(vec![contact("c", "cy")]), &me(), 0);
    assert_eq!(app.friend_search_results, vec![contact("c", "cy")]);
    assert_eq!(update(&mut app, Event::MdnsSearchRefresh, &me(), 0), TuiEffect::LoadMdnsContacts);
}

#[test]
fn moving_in_contact_list_loads_chat() {
    let mut app = App::new();
    update(&mut app, Event::ReloadContacts(vec![contact("a", "ann"), contact("b", "bo")]), &me(), 0);
    assert_eq!(
        update(&mut app, Event::Key(plain(KeyInput::Char('j'))), &me(), 0),
        TuiEffect::LoadChat { peer_id: "b".to_string() }
    );
    assert_eq!(app.selected_contact.selected(), Some(1));
    assert_eq!(
        update(&mut app, Event::Key(plain(KeyInput::Char('k'))), &me(), 0),
        TuiEffect::LoadChat { peer_id: "a".to_string() }
    );
    assert_eq!(update(&mut app, Event::Key(plain(KeyInput::Char('x'))), &me(), 0), TuiEffect::Nothing);
    update(&mut app, Event::Key(plain(KeyInput::Char('l'))), &me(), 0);
    assert_eq!(app.selected_tab, Tabline::Chatting(ContactPage::Chat));
}

#[test]
fn writing_and_sending_a_message() {
    let mut app = App::new();
    update(&mut app, Event::ReloadContacts(vec![contact("a", "ann")]), &me(), 0);
    update(&mut app, Event::Key(ctrl('l')), &me(), 0);
    for c in "hey!".chars() {
        update(&mut app, Event::Key(plain(KeyInput::Char(c))), &me(), 0);
    }
    update(&mut app, Event::Key(plain(KeyInput::Backspace)), &me(), 0);
    assert_eq!(app.buffer, "hey");
    let effect = update(&mut app, Event::Key(plain(KeyInput::Enter)), &me(), 99);
    assert_eq!(effect, TuiEffect::SendMessage { receiver: "a".to_string(), content: "hey".to_string() });
    assert_eq!(app.buffer, "");
    assert_eq!(app.chat.len(), 1);
    let m = &app.chat[0];
    assert_eq!(m.content, "hey");
    assert_eq!(m.id, 99);
    assert_eq!(m.sender, Contact { peer_id: "me".to_string(), name: "You".to_string(), discovery_type: DiscoveryType::You });
    assert_eq!(m.status, MessageStatus::SentOffNotRead);
}

#[test]
fn received_messages_are_logged() {
    let mut app = App::new();
    let m = Message { content: "yo".to_string(), id: 5, sender: contact("a", "ann"), status: MessageStatus::ReceivedNotRead };
    update(&mut app, Event::MessageReceived(m.clone()), &me(), 0);
    assert_eq!(app.chat, vec![m]);
    assert_eq!(handle_event(&mut app, Event::Tick, &me()), TuiEffect::Nothing);
}

#[test]
fn search_field_editing() {
    let mut app = App::new();
    update(&mut app, Event::Key(shift('L')), &me(), 0);
    update(&mut app, Event::Key(plain(KeyInput::Char('b'))), &me(), 0);
    update(&mut app, Event::Key(plain(KeyInput::Char('o'))), &me(), 0);
    update(&mut app, Event::Key(plain(KeyInput::Backspace)), &me(), 0);
    assert_eq!(app.friend_search_buffer, "b");
}

#[test]
fn list_selection_moves() {
    let mut s = ListSelection::new();
    assert_eq!(s.selected(), None);
    s.select_next();
    assert_eq!(s.selected(), Some(0));
    s.select_previous();
    assert_eq!(s.selected(), Some(0));
    let mut t = ListSelection::new();
    t.select_previous();
    assert_eq!(t.selected(), Some(usize::MAX));
    t.select_next();
    assert_eq!(t.selected(), Some(usize::MAX));
    t.select(None);
    assert_eq!(t.offset(), 0);
}

#[test]
fn page_moves() {
    assert_eq!(Tabline::Chatting(ContactPage::Chat).right(), Tabline::FriendRequests(FriendRequestPage::Search));
    assert_eq!(Tabline::FriendRequests(FriendRequestPage::RequestList).left(), Tabline::Chatting(ContactPage::ContactList));
    assert_eq!(FriendRequestPage::Search.up(), FriendRequestPage::RequestList);
    assert_eq!(FriendRequestPage::Search.down(), FriendRequestPage::RequestList);
    assert_eq!(ContactPage::ContactList.right(), ContactPage::Chat);
    assert_eq!(ContactPage::Chat.up(), ContactPage::CallButton);
    assert_eq!(ContactPage::CallButton.down(), ContactPage::Chat);
    assert_eq!(ContactPage::CallButton.left(), ContactPage::ContactList);
    assert_eq!(Tabline::default(), Tabline::Chatting(ContactPage::ContactList));
}

#[test]
fn finding_and_renaming_peers() {
    let mut cs = vec![contact("a", "1"), contact("b", "2"), contact("b", "3")];
    assert_eq!(find_peer(&cs, &"b".to_string()), Some(1));
    assert_eq!(find_peer(&cs, &"z".to_string()), None);
    rename_peer(&mut cs, &"b".to_string(), "new".to_string());
    assert_eq!(cs, vec![contact("a", "1"), contact("b", "new"), contact("b", "3")]);
    rename_peer(&mut cs, &"z".to_string(), "x".to_string());
    assert_eq!(cs.len(), 3);
}

#[test]
fn rows_and_lines() {
    assert_eq!(contact_from_row("n".to_string(), "p".to_string(), 1), Some(Contact {
        peer_id: "p".to_string(),
        name: "n".to_string(),
        discovery_type: DiscoveryType::Tracker
    }));
    assert_eq!(contact_from_row("n".to_string(), "p".to_string(), 9), None);
    let m = message_from_row("00000000-0000-0000-0000-00000000000a", "c".to_string(), 1, "n".to_string(), 0, &"p".to_string()).unwrap();
    assert_eq!(m.id, 10);
    assert_eq!(m.status, MessageStatus::ReceivedRead);
    assert_eq!(m.sender, contact("p", "n"));
    assert_eq!(message_from_row("bad", "c".to_string(), 1, "n".to_string(), 0, &"p".to_string()), None);
    assert_eq!(message_from_row("00000000-0000-0000-0000-00000000000a", "c".to_string(), 7, "n".to_string(), 0, &"p".to_string()), None);
    assert_eq!(message_line(&m), "n: c");
    assert_eq!(input_line(&"abc".to_string()), " > abc");
    assert!(CONTACTS_BY_DISCOVERY_QUERY.contains("discovery_type = ?"));
    assert!(MESSAGE_LOG_QUERY.contains("INNER JOIN contacts"));
}
