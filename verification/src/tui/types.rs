//! What the terminal interfaces show and how their focus moves.
use vstd::prelude::*;
use crate::types::{DiscoveryType, MessageStatus};
use crate::chat_tui::{KeyPress, MouseInput};

verus! {

/// A contact as a terminal interface lists it.
#[derive(Debug, Clone, PartialEq, Eq)]
pub struct Contact {
    pub peer_id: String,
    pub name: String,
    pub discovery_type: DiscoveryType,
}

/// A message as a terminal interface shows it.
#[derive(Debug, Clone, PartialEq, Eq)]
pub struct Message {
    pub content: String,
    pub id: u128,
    pub sender: Contact,
    pub status: MessageStatus,
}

/// Whether some contact is of peer `p`.
pub open spec fn has_peer(s: Seq<Contact>, p: Seq<char>) -> bool {
    exists|i: int| 0 <= i < s.len() && #[trigger] s[i].peer_id@ == p
}

/// The contacts with the name of the first contact of peer `p` set to `name`.
pub open spec fn renamed_first(s: Seq<Contact>, p: Seq<char>, name: String) -> Seq<Contact> {
    if has_peer(s, p) {
        let k = choose|k: int|
            0 <= k < s.len() && #[trigger] s[k].peer_id@ == p && forall|j: int| 0 <= j < k ==> s[j].peer_id@ != p;
        s.update(k, Contact { peer_id: s[k].peer_id, name, discovery_type: s[k].discovery_type })
    } else {
        s
    }
}

/// The position of the first contact of peer `p`.
pub fn find_peer(contacts: &Vec<Contact>, p: &String) -> (r: Option<usize>)
    ensures
        match r {
            Some(k) => k < contacts@.len() && contacts@[k as int].peer_id@ == p@
                && forall|j: int| 0 <= j < k ==> contacts@[j].peer_id@ != p@,
            None => !has_peer(contacts@, p@),
        },
{
    let mut i: usize = 0;
    while i < contacts.len()
        invariant
            i <= contacts@.len(),
            forall|j: int| 0 <= j < i ==> #[trigger] contacts@[j].peer_id@ != p@,
        decreases contacts@.len() - i,
    {
        if contacts[i].peer_id == *p {
            return Some(i);
        }
        i = i + 1;
    }
    None
}

/// Gives the first contact of peer `p` the name `name`; the list is unchanged
/// when no contact is of `p`.
pub fn rename_peer(contacts: &mut Vec<Contact>, p: &String, name: String)
    ensures
        final(contacts)@ == renamed_first(old(contacts)@, p@, name),
        final(contacts)@.len() == old(contacts)@.len(),
{
    if let Some(k) = find_peer(contacts, p) {
        let ghost before = contacts@;
        let c = contacts.remove(k);
        contacts.insert(k, Contact { peer_id: c.peer_id, name, discovery_type: c.discovery_type });
        proof {
            let kk = choose|kk: int|
                0 <= kk < before.len() && #[trigger] before[kk].peer_id@ == p@ && forall|j: int|
                    0 <= j < kk ==> before[j].peer_id@ != p@;
            assert(kk == k);
            assert(contacts@ =~= renamed_first(before, p@, name));
        }
    }
}

/// Which item of a list is selected, and the first item that is shown.
#[derive(Debug, Clone, Copy, PartialEq, Eq, Structural)]
pub struct ListSelection {
    pub selected: Option<usize>,
    pub offset: usize,
}

impl ListSelection {
    /// Nothing selected, shown from the top.
    pub fn new() -> (r: Self)
        ensures
            r.selected is None,
            r.offset == 0,
    {
        ListSelection { selected: None, offset: 0 }
    }

    /// The same selection with `index` selected.
    pub fn with_selected(self, index: Option<usize>) -> (r: Self)
        ensures
            r.selected == index,
            r.offset == self.offset,
    {
        ListSelection { selected: index, offset: self.offset }
    }

    /// The selected index, if any.
    pub fn selected(&self) -> (r: Option<usize>)
        ensures
            r == self.selected,
    {
        self.selected
    }

    /// The index of the first item shown.
    pub fn offset(&self) -> (r: usize)
        ensures
            r == self.offset,
    {
        self.offset
    }

    /// Selects `index`; selecting nothing also scrolls back to the top.
    pub fn select(&mut self, index: Option<usize>)
        ensures
            final(self).selected == index,
            final(self).offset == if index is None { 0 } else { old(self).offset },
    {
        self.selected = index;
        if index.is_none() {
            self.offset = 0;
        }
    }

    /// Selects the item after the selected one, or the first item when none is
    /// selected.
    pub fn select_next(&mut self)
        ensures
            final(self).selected == Some(
                match old(self).selected {
                    Some(i) => if i == usize::MAX { usize::MAX } else { (i + 1) as usize },
                    None => 0usize,
                },
            ),
            final(self).offset == old(self).offset,
    {
        let next: usize = match self.selected {
            Some(i) => i.saturating_add(1),
            None => 0,
        };
        self.select(Some(next));
    }

    /// Selects the item before the selected one, or the last possible item
    /// when none is selected.
    pub fn select_previous(&mut self)
        ensures
            final(self).selected == Some(
                match old(self).selected {
                    Some(i) => if i == 0 { 0usize } else { (i - 1) as usize },
                    None => usize::MAX,
                },
            ),
            final(self).offset == old(self).offset,
    {
        let previous: usize = match self.selected {
            Some(i) => i.saturating_sub(1),
            None => usize::MAX,
        };
        self.select(Some(previous));
    }
}

/// Moving left and right between panels.
pub trait MoveHorizontal: Sized {
    fn left(self) -> Self;

    fn right(self) -> Self;
}

/// Moving up and down between panels.
pub trait MoveVertical: Sized {
    fn up(self) -> Self;

    fn down(self) -> Self;
}

/// The panels of the chatting tab.
#[derive(Debug, Clone, Copy, PartialEq, Eq, Structural)]
pub enum ContactPage {
    ContactList,
    Chat,
    CallButton,
}

/// The panels of the friend-requests tab.
#[derive(Debug, Clone, Copy, PartialEq, Eq, Structural)]
pub enum FriendRequestPage {
    Search,
    RequestList,
}

/// The selected tab and the panel selected in it.
#[derive(Debug, Clone, Copy, PartialEq, Eq, Structural)]
pub enum Tabline {
    Chatting(ContactPage),
    FriendRequests(FriendRequestPage),
}

impl Default for ContactPage {
    /// The contact list.
    fn default() -> (r: Self)
        ensures
            r == ContactPage::ContactList,
    {
        ContactPage::ContactList
    }
}

impl Default for FriendRequestPage {
    /// The search field.
    fn default() -> (r: Self)
        ensures
            r == FriendRequestPage::Search,
    {
        FriendRequestPage::Search
    }
}

impl Default for Tabline {
    /// The chatting tab, on the contact list.
    fn default() -> (r: Self)
        ensures
            r == Tabline::Chatting(ContactPage::ContactList),
    {
        Tabline::Chatting(ContactPage::ContactList)
    }
}

pub open spec fn tabline_left(t: Tabline) -> Tabline {
    match t {
        Tabline::Chatting(_) => t,
        Tabline::FriendRequests(_) => Tabline::Chatting(ContactPage::ContactList),
    }
}

pub open spec fn tabline_right(t: Tabline) -> Tabline {
    match t {
        Tabline::FriendRequests(_) => t,
        Tabline::Chatting(_) => Tabline::FriendRequests(FriendRequestPage::Search),
    }
}

pub open spec fn request_page_flip(p: FriendRequestPage) -> FriendRequestPage {
    match p {
        FriendRequestPage::RequestList => FriendRequestPage::Search,
        FriendRequestPage::Search => FriendRequestPage::RequestList,
    }
}

pub open spec fn contact_page_left(p: ContactPage) -> ContactPage {
    match p {
        ContactPage::Chat => ContactPage::ContactList,
        ContactPage::CallButton => ContactPage::ContactList,
        _ => p,
    }
}

pub open spec fn contact_page_right(p: ContactPage) -> ContactPage {
    match p {
        ContactPage::ContactList => ContactPage::Chat,
        _ => p,
    }
}

pub open spec fn contact_page_up(p: ContactPage) -> ContactPage {
    match p {
        ContactPage::Chat => ContactPage::CallButton,
        _ => p,
    }
}

pub open spec fn contact_page_down(p: ContactPage) -> ContactPage {
    match p {
        ContactPage::CallButton => ContactPage::Chat,
        _ => p,
    }
}

impl MoveHorizontal for Tabline {
    /// The chatting tab; a move from the friend-requests tab lands on the
    /// contact list.
    fn left(self) -> (r: Self)
        ensures
            r == tabline_left(self),
    {
        if let Tabline::Chatting(_) = self {
            return self;
        }
        Tabline::Chatting(ContactPage::default())
    }

    /// The friend-requests tab; a move from the chatting tab lands on the
    /// search field.
    fn right(self) -> (r: Self)
        ensures
            r == tabline_right(self),
    {
        if let Tabline::FriendRequests(_) = self {
            return self;
        }
        Tabline::FriendRequests(FriendRequestPage::default())
    }
}

impl MoveVertical for FriendRequestPage {
    /// The other panel.
    fn up(self) -> (r: Self)
        ensures
            r == request_page_flip(self),
    {
        match self {
            FriendRequestPage::RequestList => FriendRequestPage::Search,
            FriendRequestPage::Search => FriendRequestPage::RequestList,
        }
    }

    /// The other panel.
    fn down(self) -> (r: Self)
        ensures
            r == request_page_flip(self),
    {
        match self {
            FriendRequestPage::RequestList => FriendRequestPage::Search,
            FriendRequestPage::Search => FriendRequestPage::RequestList,
        }
    }
}

impl MoveHorizontal for ContactPage {
    /// The contact list, from the chat or the call button.
    fn left(self) -> (r: Self)
        ensures
            r == contact_page_left(self),
    {
        match self {
            ContactPage::Chat => ContactPage::ContactList,
            ContactPage::CallButton => ContactPage::ContactList,
            _ => self,
        }
    }

    /// The chat, from the contact list.
    fn right(self) -> (r: Self)
        ensures
            r == contact_page_right(self),
            self == ContactPage::ContactList ==> r == ContactPage::Chat,
            self != ContactPage::ContactList ==> r == self,
    {
        match self {
            ContactPage::ContactList => ContactPage::Chat,
            _ => self,
        }
    }
}

impl MoveVertical for ContactPage {
    /// The call button, from the chat.
    fn up(self) -> (r: Self)
        ensures
            r == contact_page_up(self),
    {
        match self {
            ContactPage::Chat => ContactPage::CallButton,
            _ => self,
        }
    }

    /// The chat, from the call button.
    fn down(self) -> (r: Self)
        ensures
            r == contact_page_down(self),
    {
        match self {
            ContactPage::CallButton => ContactPage::Chat,
            _ => self,
        }
    }
}

/// Moving between tabs lands on a tab's first panel and is idempotent; in the
/// friend-requests tab up and down both switch panels, so two moves return;
/// in the chatting tab, left undoes right and down undoes up.
pub proof fn law_navigation(t: Tabline, c: ContactPage, f: FriendRequestPage)
    ensures
        tabline_left(tabline_left(t)) == tabline_left(t),
        tabline_right(tabline_right(t)) == tabline_right(t),
        tabline_left(t) is Chatting,
        tabline_right(t) is FriendRequests,
        tabline_left(tabline_right(t)) == Tabline::Chatting(ContactPage::ContactList),
        request_page_flip(request_page_flip(f)) == f,
        request_page_flip(f) != f,
        contact_page_left(contact_page_right(ContactPage::ContactList)) == ContactPage::ContactList,
        contact_page_down(contact_page_up(ContactPage::Chat)) == ContactPage::Chat,
        contact_page_left(contact_page_left(c)) == contact_page_left(c),
{
}

/// Moving right moves the contact list alone, onto the chat: every other
/// panel stays where it is, so a second move right changes nothing, and left
/// then leads back to the contact list.
pub proof fn law_right_moves_only_the_list(c: ContactPage)
    ensures
        contact_page_right(ContactPage::ContactList) == ContactPage::Chat,
        c != ContactPage::ContactList ==> contact_page_right(c) == c,
        contact_page_right(contact_page_right(c)) == contact_page_right(c),
        contact_page_left(contact_page_right(c)) == ContactPage::ContactList,
{
}

/// The keys that move between panels, together with control.
pub struct Key;

impl Key {
    pub const LEFT: char = 'h';
    pub const RIGHT: char = 'l';
    pub const UP: char = 'k';
    pub const DOWN: char = 'j';
}

/// What the terminal interface reacts to.
#[derive(Debug, PartialEq, Eq)]
pub enum Event {
    Init,
    Quit,
    Error,
    Closed,
    Tick,
    Render,
    FocusGained,
    FocusLost,
    Paste(String),
    Key(KeyPress),
    Mouse(MouseInput),
    Resize(u16, u16),
    MessageReceived(Message),
    ReloadContacts(Vec<Contact>),
    AddContact(Contact),
    /// A contact's name changed.
    EditContact(Contact),
    SearchResult(Vec<Contact>),
    LoadFriendRequests(Vec<Contact>),
    /// The local-network contacts are to be read again.
    MdnsSearchRefresh,
}

/// The state of the terminal interface.
#[derive(Debug)]
pub struct App {
    pub selected_tab: Tabline,
    pub selected_contact: ListSelection,
    pub contacts: Vec<Contact>,
    pub should_quit: bool,
    pub chat: Vec<Message>,
    pub buffer: String,
    pub friend_search_buffer: String,
    pub friend_search_results: Vec<Contact>,
    pub incoming_requests: Vec<Contact>,
    pub selected_incoming_request: ListSelection,
    pub selected_search_result: ListSelection,
}

} // verus!
