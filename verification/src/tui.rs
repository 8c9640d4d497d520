//! The first terminal interface: how its events change what it shows, and
//! what is left to do outside it in return.
use vstd::prelude::*;
use crate::bridge::{new_uuid, string_pop, string_push};
use crate::chat_tui::{KeyInput, KeyPress};
use crate::bridge::{parse_uuid, uuid_text_value};
use crate::types::{discovery_type_from_code, message_status_from_code, DiscoveryType, MessageStatus};
use types::{
    contact_page_down, contact_page_left, contact_page_right, contact_page_up, request_page_flip, tabline_left,
    tabline_right, has_peer, renamed_first, rename_peer, App, Contact, ContactPage, Event, FriendRequestPage, Key,
    ListSelection, Message, MoveHorizontal, MoveVertical, Tabline,
};

pub mod types;

verus! {

/// What the interface asks of its surroundings after an event.
#[derive(Debug, PartialEq, Eq)]
pub enum TuiEffect {
    Nothing,
    /// Stop: the interface is to be closed and the node shut down.
    Quit,
    /// Read the contacts found on the local network into the search results.
    LoadMdnsContacts,
    /// Read the chat with `peer_id` into the chat log.
    LoadChat { peer_id: String },
    /// Send `content` to `receiver`.
    SendMessage { receiver: String, content: String },
}

/// A control-key move between panels: `h`, `l`, `k` or `j`.
pub open spec fn nav_char(c: char) -> bool {
    c == 'h' || c == 'l' || c == 'k' || c == 'j'
}

/// Escape, with no modifier.
pub open spec fn quit_key(k: KeyPress) -> bool {
    k.code == KeyInput::Esc && k.plain()
}

/// The keys that act whatever panel has the focus: escape, shift with `H` or
/// `L`, and control with a move key.
pub open spec fn global_key(k: KeyPress) -> bool {
    ||| quit_key(k)
    ||| (k.code == KeyInput::Char('H') || k.code == KeyInput::Char('L')) && k.shift_only()
    ||| k.ctrl_only() && match k.code {
        KeyInput::Char(c) => nav_char(c),
        _ => false,
    }
}

/// The panel reached from `t` by a control-key move `c`.
pub open spec fn tab_moved(t: Tabline, c: char) -> Tabline {
    match t {
        Tabline::Chatting(p) => Tabline::Chatting(
            if c == 'h' {
                contact_page_left(p)
            } else if c == 'l' {
                contact_page_right(p)
            } else if c == 'k' {
                contact_page_up(p)
            } else {
                contact_page_down(p)
            },
        ),
        Tabline::FriendRequests(p) => Tabline::FriendRequests(
            if c == 'k' || c == 'j' {
                request_page_flip(p)
            } else {
                p
            },
        ),
    }
}

/// Whether the panel with the focus handles event `e`: keys other than the
/// global ones, and the events that carry no data for the interface.
pub open spec fn reaches_page(e: Event) -> bool {
    match e {
        Event::Key(k) => !global_key(k),
        Event::MessageReceived(_) => false,
        Event::AddContact(_) => false,
        Event::ReloadContacts(_) => false,
        Event::EditContact(_) => false,
        Event::MdnsSearchRefresh => false,
        Event::SearchResult(_) => false,
        _ => true,
    }
}

/// The key that the panel with the focus handles, if `e` is one.
pub open spec fn page_key(e: Event) -> Option<KeyPress> {
    match e {
        Event::Key(k) => if global_key(k) {
            None
        } else {
            Some(k)
        },
        _ => None,
    }
}

/// The selection after moving down: the next item, or the first.
pub open spec fn list_next(sel: Option<usize>) -> Option<usize> {
    Some(
        match sel {
            Some(i) => if i == usize::MAX {
                usize::MAX
            } else {
                (i + 1) as usize
            },
            None => 0usize,
        },
    )
}

/// The selection after moving up: the item before, or the last possible one.
pub open spec fn list_previous(sel: Option<usize>) -> Option<usize> {
    Some(
        match sel {
            Some(i) => if i == 0 {
                0usize
            } else {
                (i - 1) as usize
            },
            None => usize::MAX,
        },
    )
}

/// The peer of the selected contact, if an existing contact is selected.
pub open spec fn peer_at(contacts: Seq<Contact>, sel: Option<usize>) -> Option<Seq<char>> {
    match sel {
        Some(i) => if i < contacts.len() {
            Some(contacts[i as int].peer_id@)
        } else {
            None
        },
        None => None,
    }
}

/// Whether two contacts agree in every field.
pub open spec fn same_contact(a: Contact, b: Contact) -> bool {
    a.peer_id@ == b.peer_id@ && a.name@ == b.name@ && a.discovery_type == b.discovery_type
}

/// Whether the list holds a contact equal to `c`.
pub open spec fn holds_contact(s: Seq<Contact>, c: Contact) -> bool {
    exists|i: int| 0 <= i < s.len() && same_contact(#[trigger] s[i], c)
}

/// The events on which the interface has no answer: any event that reaches
/// the call button or the request list, enter in the search field, a key
/// other than a character, backspace or enter in the chat, enter in the chat
/// with no contact selected, and a selection move in the contact list that
/// lands past the last contact.
pub open spec fn unhandled(a: App, e: Event) -> bool {
    reaches_page(e) && match a.selected_tab {
        Tabline::Chatting(ContactPage::CallButton) => true,
        Tabline::FriendRequests(FriendRequestPage::RequestList) => true,
        Tabline::FriendRequests(FriendRequestPage::Search) => match page_key(e) {
            Some(k) => k.code == KeyInput::Enter,
            None => false,
        },
        Tabline::Chatting(ContactPage::Chat) => match page_key(e) {
            Some(k) => match k.code {
                KeyInput::Char(_) => false,
                KeyInput::Backspace => false,
                KeyInput::Enter => peer_at(a.contacts@, a.selected_contact.selected) is None,
                _ => true,
            },
            None => false,
        },
        Tabline::Chatting(ContactPage::ContactList) => match page_key(e) {
            Some(k) => if k.code == KeyInput::Char('k') {
                peer_at(a.contacts@, list_previous(a.selected_contact.selected)) is None
            } else if k.code == KeyInput::Char('j') || k.code == KeyInput::Enter {
                peer_at(a.contacts@, list_next(a.selected_contact.selected)) is None
            } else {
                false
            },
            None => false,
        },
    }
}

/// The selected panel after event `e`.
pub open spec fn tab_after(a: App, e: Event) -> Tabline {
    match e {
        Event::Key(k) => if k.code == KeyInput::Char('H') && k.shift_only() {
            tabline_left(a.selected_tab)
        } else if k.code == KeyInput::Char('L') && k.shift_only() {
            tabline_right(a.selected_tab)
        } else if k.ctrl_only() && (k.code matches KeyInput::Char(c) && nav_char(c)) {
            match k.code {
                KeyInput::Char(c) => tab_moved(a.selected_tab, c),
                _ => a.selected_tab,
            }
        } else if !global_key(k) && a.selected_tab == Tabline::Chatting(ContactPage::ContactList) && k.code
            == KeyInput::Char('l') {
            Tabline::Chatting(ContactPage::Chat)
        } else {
            a.selected_tab
        },
        _ => a.selected_tab,
    }
}

/// The contact selection after event `e`: up and down in the contact list
/// move it (enter moves it down too).
pub open spec fn selection_after(a: App, e: Event) -> ListSelection {
    let s = a.selected_contact;
    match page_key(e) {
        Some(k) => if a.selected_tab == Tabline::Chatting(ContactPage::ContactList) {
            if k.code == KeyInput::Char('k') {
                ListSelection { selected: list_previous(s.selected), offset: s.offset }
            } else if k.code == KeyInput::Char('j') || k.code == KeyInput::Enter {
                ListSelection { selected: list_next(s.selected), offset: s.offset }
            } else {
                s
            }
        } else {
            s
        },
        None => s,
    }
}

/// The contacts after event `e`.
pub open spec fn contacts_after(s: Seq<Contact>, e: Event) -> Seq<Contact> {
    match e {
        Event::AddContact(c) => if holds_contact(s, c) {
            s
        } else {
            s.push(c)
        },
        Event::ReloadContacts(v) => v@,
        Event::EditContact(c) => renamed_first(s, c.peer_id@, c.name),
        _ => s,
    }
}

/// The search results after event `e`.
pub open spec fn results_after(s: Seq<Contact>, e: Event) -> Seq<Contact> {
    match e {
        Event::SearchResult(v) => v@,
        _ => s,
    }
}

/// A text after backspace: one character shorter, unless it is empty.
pub open spec fn backspaced(t: Seq<char>) -> Seq<char> {
    if t.len() == 0 {
        t
    } else {
        t.drop_last()
    }
}

/// The search field after event `e`, which edits it when the field has the
/// focus.
pub open spec fn search_text_after(a: App, e: Event) -> Seq<char> {
    let t = a.friend_search_buffer@;
    match page_key(e) {
        Some(k) => if a.selected_tab == Tabline::FriendRequests(FriendRequestPage::Search) {
            match k.code {
                KeyInput::Backspace => backspaced(t),
                KeyInput::Char(ch) => t.push(ch),
                _ => t,
            }
        } else {
            t
        },
        None => t,
    }
}

/// The message being written after event `e`; enter sends and empties it.
pub open spec fn input_after(a: App, e: Event) -> Seq<char> {
    let t = a.buffer@;
    match page_key(e) {
        Some(k) => if a.selected_tab == Tabline::Chatting(ContactPage::Chat) {
            match k.code {
                KeyInput::Backspace => backspaced(t),
                KeyInput::Char(ch) => t.push(ch),
                KeyInput::Enter => Seq::<char>::empty(),
                _ => t,
            }
        } else {
            t
        },
        None => t,
    }
}

/// Whether event `e` sends the message being written.
pub open spec fn sends(a: App, e: Event) -> bool {
    match page_key(e) {
        Some(k) => a.selected_tab == Tabline::Chatting(ContactPage::Chat) && k.code == KeyInput::Enter,
        None => false,
    }
}

/// The chat-log entry of a message this node sent: from "You", of peer
/// `own`, with identifier `id`, not read yet.
pub open spec fn sent_entry(m: Message, content: Seq<char>, own: Seq<char>, id: u128) -> bool {
    &&& m.content@ == content
    &&& m.id == id
    &&& m.sender.peer_id@ == own
    &&& m.sender.name@ == "You"@
    &&& m.sender.discovery_type == DiscoveryType::You
    &&& m.status == MessageStatus::SentOffNotRead
}

/// The chat log after event `e`: a received message is added, and so is a
/// sent one.
pub open spec fn chat_after(a: App, e: Event, own: Seq<char>, id: u128, chat: Seq<Message>) -> bool {
    match e {
        Event::MessageReceived(m) => chat == a.chat@.push(m),
        _ => if sends(a, e) {
            &&& chat.len() == a.chat@.len() + 1
            &&& chat.drop_last() == a.chat@
            &&& sent_entry(chat.last(), a.buffer@, own, id)
        } else {
            chat == a.chat@
        },
    }
}

/// A contact that is listed already is not added again, so adding a contact
/// twice leaves the list as adding it once does.
pub proof fn law_add_contact_idempotent(s: Seq<Contact>, c: Contact)
    ensures
        contacts_after(contacts_after(s, Event::AddContact(c)), Event::AddContact(c)) == contacts_after(
            s,
            Event::AddContact(c),
        ),
        holds_contact(contacts_after(s, Event::AddContact(c)), c),
{
    if !holds_contact(s, c) {
        assert(same_contact(s.push(c)[s.len() as int], c));
    }
}

/// What is asked of the surroundings after event `e`.
pub open spec fn effect_after(a: App, e: Event, r: TuiEffect) -> bool {
    let sel = a.selected_contact.selected;
    match e {
        Event::Key(k) => if quit_key(k) {
            r is Quit
        } else if global_key(k) {
            r is Nothing
        } else if a.selected_tab == Tabline::Chatting(ContactPage::ContactList) && k.code == KeyInput::Char('k') {
            r matches TuiEffect::LoadChat { peer_id } && peer_at(a.contacts@, list_previous(sel)) == Some(peer_id@)
        } else if a.selected_tab == Tabline::Chatting(ContactPage::ContactList) && (k.code == KeyInput::Char('j')
            || k.code == KeyInput::Enter) {
            r matches TuiEffect::LoadChat { peer_id } && peer_at(a.contacts@, list_next(sel)) == Some(peer_id@)
        } else if a.selected_tab == Tabline::Chatting(ContactPage::Chat) && k.code == KeyInput::Enter {
            r matches TuiEffect::SendMessage { receiver, content } && peer_at(a.contacts@, sel) == Some(receiver@)
                && content@ == a.buffer@
        } else {
            r is Nothing
        },
        Event::MdnsSearchRefresh => r is LoadMdnsContacts,
        _ => r is Nothing,
    }
}

/// The whole effect of event `e` on interface `a`, which becomes `b` and asks
/// for `r`; a message sent gets identifier `id`, from peer `own`.
pub open spec fn step(a: App, e: Event, own: Seq<char>, id: u128, b: App, r: TuiEffect) -> bool {
    &&& b.incoming_requests@ == a.incoming_requests@
    &&& b.selected_incoming_request == a.selected_incoming_request
    &&& b.selected_search_result == a.selected_search_result
    &&& b.should_quit == (a.should_quit || (e matches Event::Key(k) && quit_key(k)))
    &&& b.selected_tab == tab_after(a, e)
    &&& b.selected_contact == selection_after(a, e)
    &&& b.contacts@ == contacts_after(a.contacts@, e)
    &&& b.friend_search_results@ == results_after(a.friend_search_results@, e)
    &&& b.friend_search_buffer@ == search_text_after(a, e)
    &&& b.buffer@ == input_after(a, e)
    &&& chat_after(a, e, own, id, b.chat@)
    &&& effect_after(a, e, r)
}

/// What is sent is what is logged: when an event sends the message being
/// written, the text handed out for sending, the text of the new chat-log
/// entry and the text that was being written are one and the same, the entry
/// comes from this node, and the field is left empty.
pub proof fn law_sent_is_logged(a: App, e: Event, own: Seq<char>, id: u128, b: App, r: TuiEffect)
    requires
        step(a, e, own, id, b, r),
        sends(a, e),
    ensures
        r matches TuiEffect::SendMessage { content, .. } && content@ == a.buffer@,
        b.chat@.len() == a.chat@.len() + 1,
        b.chat@.last().content@ == a.buffer@,
        b.chat@.last().sender.peer_id@ == own,
        b.buffer@.len() == 0,
{
}

/// Backspace undoes typing: a character typed into the chat's message or
/// into the search field, followed by backspace, leaves both texts and the
/// focus as they were.
pub proof fn law_backspace_undoes_typing(
    a: App,
    ch: char,
    own: Seq<char>,
    id1: u128,
    id2: u128,
    b: App,
    r1: TuiEffect,
    c: App,
    r2: TuiEffect,
)
    requires
        a.selected_tab == Tabline::Chatting(ContactPage::Chat) || a.selected_tab == Tabline::FriendRequests(
            FriendRequestPage::Search,
        ),
        step(a, Event::Key(KeyPress { code: KeyInput::Char(ch), ctrl: false, shift: false, alt: false }), own, id1, b, r1),
        step(b, Event::Key(KeyPress { code: KeyInput::Backspace, ctrl: false, shift: false, alt: false }), own, id2, c, r2),
    ensures
        c.buffer@ == a.buffer@,
        c.friend_search_buffer@ == a.friend_search_buffer@,
        c.selected_tab == a.selected_tab,
        r1 is Nothing && r2 is Nothing,
{
    assert(a.buffer@.push(ch).drop_last() =~= a.buffer@);
    assert(a.friend_search_buffer@.push(ch).drop_last() =~= a.friend_search_buffer@);
}

impl App {
    /// The peer of the selected contact, if an existing contact is selected.
    pub fn get_selected_peer(&self) -> (r: Option<String>)
        ensures
            match r {
                Some(p) => peer_at(self.contacts@, self.selected_contact.selected) == Some(p@),
                None => peer_at(self.contacts@, self.selected_contact.selected) is None,
            },
    {
        match self.selected_contact.selected() {
            Some(i) => if i < self.contacts.len() {
                Some(self.contacts[i].peer_id.clone())
            } else {
                None
            },
            None => None,
        }
    }
}

/// Whether `contacts` holds a contact equal to `c`.
fn contains_contact(contacts: &Vec<Contact>, c: &Contact) -> (r: bool)
    ensures
        r == holds_contact(contacts@, *c),
{
    let mut i: usize = 0;
    while i < contacts.len()
        invariant
            i <= contacts@.len(),
            forall|j: int| 0 <= j < i ==> !same_contact(#[trigger] contacts@[j], *c),
        decreases contacts@.len() - i,
    {
        let x = &contacts[i];
        if x.peer_id == c.peer_id && x.name == c.name && x.discovery_type == c.discovery_type {
            assert(same_contact(contacts@[i as int], *c));
            return true;
        }
        i = i + 1;
    }
    false
}

/// How a key press in the contact list changes the interface: `l` moves the
/// focus to the chat; `k` moves the selection up, and `j` or enter down, and
/// the chat with the newly selected contact is to be read.
fn handle_contact_list(app: &mut App, key: KeyPress) -> (r: TuiEffect)
    requires
        !global_key(key),
        old(app).selected_tab == Tabline::Chatting(ContactPage::ContactList),
        !unhandled(*old(app), Event::Key(key)),
    ensures
        step(*old(app), Event::Key(key), Seq::<char>::empty(), 0, *final(app), r),
{
    if key.code == KeyInput::Char(Key::RIGHT) {
        app.selected_tab = Tabline::Chatting(ContactPage::Chat);
        TuiEffect::Nothing
    } else if key.code == KeyInput::Char(Key::UP) {
        app.selected_contact.select_previous();
        match app.get_selected_peer() {
            Some(peer_id) => TuiEffect::LoadChat { peer_id },
            None => {
                proof {
                    assert(false);
                }
                TuiEffect::Nothing
            },
        }
    } else if key.code == KeyInput::Char(Key::DOWN) || key.code == KeyInput::Enter {
        app.selected_contact.select_next();
        match app.get_selected_peer() {
            Some(peer_id) => TuiEffect::LoadChat { peer_id },
            None => {
                proof {
                    assert(false);
                }
                TuiEffect::Nothing
            },
        }
    } else {
        TuiEffect::Nothing
    }
}

/// How a key press in the chat changes the interface: a character is
/// appended to the message being written, backspace removes its last
/// character, and enter sends it to the selected contact, adds it to the chat
/// log as sent by "You" with identifier `message_id`, and empties it.
fn handle_chat(app: &mut App, key: KeyPress, own_peer_id: &String, message_id: u128) -> (r: TuiEffect)
    requires
        !global_key(key),
        old(app).selected_tab == Tabline::Chatting(ContactPage::Chat),
        !unhandled(*old(app), Event::Key(key)),
    ensures
        step(*old(app), Event::Key(key), own_peer_id@, message_id, *final(app), r),
{
    match key.code {
        KeyInput::Backspace => {
            string_pop(&mut app.buffer);
            TuiEffect::Nothing
        },
        KeyInput::Enter => {
            match app.get_selected_peer() {
                Some(receiver) => {
                    let content = app.buffer.clone();
                    let sender = Contact {
                        peer_id: own_peer_id.clone(),
                        name: String::from_str("You"),
                        discovery_type: DiscoveryType::You,
                    };
                    app.chat.push(
                        Message {
                            content: app.buffer.clone(),
                            id: message_id,
                            sender,
                            status: MessageStatus::SentOffNotRead,
                        },
                    );
                    assert(app.chat@.drop_last() =~= old(app).chat@);
                    app.buffer = String::new();
                    TuiEffect::SendMessage { receiver, content }
                },
                None => {
                    proof {
                        assert(false);
                    }
                    TuiEffect::Nothing
                },
            }
        },
        KeyInput::Char(ch) => {
            string_push(&mut app.buffer, ch);
            TuiEffect::Nothing
        },
        _ => {
            proof {
                assert(false);
            }
            TuiEffect::Nothing
        },
    }
}

/// How a key press in the search field changes it: a character is appended
/// and backspace removes the last one.
fn handle_search(app: &mut App, key: KeyPress) -> (r: TuiEffect)
    requires
        !global_key(key),
        old(app).selected_tab == Tabline::FriendRequests(FriendRequestPage::Search),
        !unhandled(*old(app), Event::Key(key)),
    ensures
        step(*old(app), Event::Key(key), Seq::<char>::empty(), 0, *final(app), r),
{
    match key.code {
        KeyInput::Backspace => {
            string_pop(&mut app.friend_search_buffer);
        },
        KeyInput::Char(ch) => {
            string_push(&mut app.friend_search_buffer, ch);
        },
        _ => {},
    }
    TuiEffect::Nothing
}

/// How a key press changes the interface. Escape ends it. Shift with `H` or
/// `L` selects the chatting or the friend-requests tab. Control with `h`,
/// `l`, `k` or `j` moves between the panels of the tab. Any other key goes to
/// the panel with the focus.
pub fn handle_key(app: &mut App, key: KeyPress, own_peer_id: &String, message_id: u128) -> (r: TuiEffect)
    requires
        !unhandled(*old(app), Event::Key(key)),
    ensures
        step(*old(app), Event::Key(key), own_peer_id@, message_id, *final(app), r),
{
    if key.code == KeyInput::Esc && !key.ctrl && !key.shift && !key.alt {
        app.should_quit = true;
        return TuiEffect::Quit;
    }
    if key.shift && !key.ctrl && !key.alt {
        if key.code == KeyInput::Char('H') {
            app.selected_tab = app.selected_tab.left();
            return TuiEffect::Nothing;
        }
        if key.code == KeyInput::Char('L') {
            app.selected_tab = app.selected_tab.right();
            return TuiEffect::Nothing;
        }
    }
    if key.ctrl && !key.shift && !key.alt {
        if let KeyInput::Char(c) = key.code {
            if c == Key::LEFT || c == Key::RIGHT || c == Key::UP || c == Key::DOWN {
                app.selected_tab = match app.selected_tab {
                    Tabline::Chatting(p) => Tabline::Chatting(
                        if c == Key::LEFT {
                            p.left()
                        } else if c == Key::RIGHT {
                            p.right()
                        } else if c == Key::UP {
                            p.up()
                        } else {
                            p.down()
                        },
                    ),
                    Tabline::FriendRequests(p) => Tabline::FriendRequests(
                        if c == Key::UP {
                            p.up()
                        } else if c == Key::DOWN {
                            p.down()
                        } else {
                            p
                        },
                    ),
                };
                return TuiEffect::Nothing;
            }
        }
    }
    match app.selected_tab {
        Tabline::Chatting(ContactPage::ContactList) => handle_contact_list(app, key),
        Tabline::Chatting(ContactPage::Chat) => handle_chat(app, key, own_peer_id, message_id),
        Tabline::FriendRequests(FriendRequestPage::Search) => handle_search(app, key),
        _ => {
            proof {
                assert(false);
            }
            TuiEffect::Nothing
        },
    }
}

/// How an event changes the interface, and what it asks for in return. A
/// received message is added to the chat log; a contact is added unless an
/// equal one is listed; the contacts and the search results are replaced by
/// new ones; an edited contact gives its name to the first contact of its
/// peer; a refresh of the local-network contacts is asked for. Keys go to
/// `handle_key`; every other event goes to the panel with the focus, which
/// ignores it. A message sent gets identifier `message_id`.
pub fn update(app: &mut App, event: Event, own_peer_id: &String, message_id: u128) -> (r: TuiEffect)
    requires
        !unhandled(*old(app), event),
    ensures
        step(*old(app), event, own_peer_id@, message_id, *final(app), r),
{
    match event {
        Event::Key(key) => handle_key(app, key, own_peer_id, message_id),
        Event::MessageReceived(message) => {
            app.chat.push(message);
            TuiEffect::Nothing
        },
        Event::AddContact(contact) => {
            if !contains_contact(&app.contacts, &contact) {
                app.contacts.push(contact);
            }
            TuiEffect::Nothing
        },
        Event::ReloadContacts(contacts) => {
            app.contacts = contacts;
            TuiEffect::Nothing
        },
        Event::EditContact(contact) => {
            rename_peer(&mut app.contacts, &contact.peer_id, contact.name);
            TuiEffect::Nothing
        },
        Event::MdnsSearchRefresh => TuiEffect::LoadMdnsContacts,
        Event::SearchResult(results) => {
            app.friend_search_results = results;
            TuiEffect::Nothing
        },
        _ => TuiEffect::Nothing,
    }
}

/// `update` with a fresh random identifier for a message that is sent.
pub fn handle_event(app: &mut App, event: Event, own_peer_id: &String) -> (r: TuiEffect)
    requires
        !unhandled(*old(app), event),
    ensures
        exists|id: u128| step(*old(app), event, own_peer_id@, id, *final(app), r),
{
    let message_id = new_uuid();
    update(app, event, own_peer_id, message_id)
}

/// The query for the contacts of one discovery type, whose code is its
/// parameter: name, peer, discovery type.
pub const CONTACTS_BY_DISCOVERY_QUERY: &'static str = "SELECT name, peer_id, discovery_type FROM contacts WHERE discovery_type = ?";

/// The query for the chat log with one peer, the parameter: message id,
/// content, status, and the name and discovery type of the contact.
pub const MESSAGE_LOG_QUERY: &'static str = "SELECT m.id, m.content, m.status, c.name, c.discovery_type FROM messages AS m INNER JOIN contacts AS c ON m.contact_id = c.peer_id WHERE contact_id = ?";

/// The contact that a row of the contacts query describes; `None` when the
/// discovery type is not a known code.
pub fn contact_from_row(name: String, peer_id: String, discovery_type: u8) -> (r: Option<Contact>)
    ensures
        match discovery_type_from_code(discovery_type) {
            Ok(d) => r == Some(Contact { peer_id, name, discovery_type: d }),
            Err(_) => r is None,
        },
{
    match DiscoveryType::try_from_primitive(discovery_type) {
        Ok(d) => Some(Contact { peer_id, name, discovery_type: d }),
        Err(_) => None,
    }
}

/// The message that a row of the chat log with `peer_id` describes; `None`
/// when the id is not a UUID or a code is not known.
pub fn message_from_row(id: &str, content: String, status: u8, name: String, discovery_type: u8, peer_id: &String) -> (r:
    Option<Message>)
    ensures
        match (uuid_text_value(id@), message_status_from_code(status), discovery_type_from_code(discovery_type)) {
            (Some(v), Ok(st), Ok(d)) => r matches Some(m) && m.id == v && m.content == content && m.status == st
                && m.sender.name == name && m.sender.discovery_type == d && m.sender.peer_id@ == peer_id@,
            _ => r is None,
        },
{
    let parsed = parse_uuid(id);
    let st = MessageStatus::try_from_primitive(status);
    let d = DiscoveryType::try_from_primitive(discovery_type);
    match (parsed, st, d) {
        (Some(v), Ok(st), Ok(d)) => Some(
            Message {
                content,
                id: v,
                sender: Contact { peer_id: peer_id.clone(), name, discovery_type: d },
                status: st,
            },
        ),
        _ => None,
    }
}

impl App {
    /// The interface as it starts: the contact list of the chatting tab, the
    /// first contact selected, everything else empty.
    pub fn new() -> (r: App)
        ensures
            r.selected_tab == Tabline::Chatting(ContactPage::ContactList),
            r.selected_contact == (ListSelection { selected: Some(0usize), offset: 0 }),
            r.contacts@.len() == 0,
            !r.should_quit,
            r.chat@.len() == 0,
            r.buffer@.len() == 0,
            r.friend_search_buffer@.len() == 0,
            r.friend_search_results@.len() == 0,
            r.incoming_requests@.len() == 0,
            r.selected_incoming_request == (ListSelection { selected: None, offset: 0 }),
            r.selected_search_result == (ListSelection { selected: None, offset: 0 }),
    {
        App {
            selected_tab: Tabline::default(),
            selected_contact: ListSelection::new().with_selected(Some(0)),
            contacts: Vec::new(),
            should_quit: false,
            chat: Vec::new(),
            buffer: String::new(),
            friend_search_buffer: String::new(),
            friend_search_results: Vec::new(),
            incoming_requests: Vec::new(),
            selected_incoming_request: ListSelection::new(),
            selected_search_result: ListSelection::new(),
        }
    }
}

/// A chat-log line: the sender's name, a colon, and the message.
pub fn message_line(m: &Message) -> (r: String)
    ensures
        r@ == m.sender.name@ + ": "@ + m.content@,
{
    m.sender.name.clone().concat(": ").concat(m.content.as_str())
}

/// An input field's line: a prompt and the text typed so far.
pub fn input_line(text: &String) -> (r: String)
    ensures
        r@ == " > "@ + text@,
{
    String::from_str(" > ").concat(text.as_str())
}

/// Whether `key` is one of the keys that act whatever panel has the focus.
fn is_global_key(key: KeyPress) -> (r: bool)
    ensures
        r == global_key(key),
{
    let plain = !key.ctrl && !key.shift && !key.alt;
    let shift_only = !key.ctrl && key.shift && !key.alt;
    let ctrl_only = key.ctrl && !key.shift && !key.alt;
    if key.code == KeyInput::Esc && plain {
        return true;
    }
    if (key.code == KeyInput::Char('H') || key.code == KeyInput::Char('L')) && shift_only {
        return true;
    }
    match key.code {
        KeyInput::Char(c) => ctrl_only && (c == 'h' || c == 'l' || c == 'k' || c == 'j'),
        _ => false,
    }
}

/// Whether the interface has no answer to `event`.
pub fn event_unhandled(app: &App, event: &Event) -> (r: bool)
    ensures
        r == unhandled(*app, *event),
{
    let key = match event {
        Event::Key(k) => {
            if is_global_key(*k) {
                return false;
            }
            Some(*k)
        },
        Event::MessageReceived(_) => return false,
        Event::AddContact(_) => return false,
        Event::ReloadContacts(_) => return false,
        Event::EditContact(_) => return false,
        Event::MdnsSearchRefresh => return false,
        Event::SearchResult(_) => return false,
        _ => None,
    };
    let sel = app.selected_contact.selected();
    match app.selected_tab {
        Tabline::Chatting(ContactPage::CallButton) => true,
        Tabline::FriendRequests(FriendRequestPage::RequestList) => true,
        Tabline::FriendRequests(FriendRequestPage::Search) => match key {
            Some(k) => k.code == KeyInput::Enter,
            None => false,
        },
        Tabline::Chatting(ContactPage::Chat) => match key {
            Some(k) => match k.code {
                KeyInput::Char(_) => false,
                KeyInput::Backspace => false,
                KeyInput::Enter => app.get_selected_peer().is_none(),
                _ => true,
            },
            None => false,
        },
        Tabline::Chatting(ContactPage::ContactList) => match key {
            Some(k) => {
                let target = if k.code == KeyInput::Char('k') {
                    Some(
                        match sel {
                            Some(i) => i.saturating_sub(1),
                            None => usize::MAX,
                        },
                    )
                } else if k.code == KeyInput::Char('j') || k.code == KeyInput::Enter {
                    Some(
                        match sel {
                            Some(i) => i.saturating_add(1),
                            None => 0,
                        },
                    )
                } else {
                    None
                };
                match target {
                    Some(t) => t >= app.contacts.len(),
                    None => false,
                }
            },
            None => false,
        },
    }
}

/// `handle_event` where the interface has an answer; `None`, with the
/// interface unchanged, where it has none.
pub fn try_handle_event(app: &mut App, event: Event, own_peer_id: &String) -> (r: Option<TuiEffect>)
    ensures
        unhandled(*old(app), event) ==> r is None && *final(app) == *old(app),
        !unhandled(*old(app), event) ==> (r matches Some(e) && exists|id: u128|
            step(*old(app), event, own_peer_id@, id, *final(app), e)),
{
    if event_unhandled(app, &event) {
        None
    } else {
        Some(handle_event(app, event, own_peer_id))
    }
}

} // verus!
