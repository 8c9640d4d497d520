//! The chat client's terminal interface: its state, and how keys, mouse
//! actions and the daemon's events change it.
use vstd::prelude::*;
use crate::api::{RelayServerConnectionEvent, WriteEvent};
use crate::tui::types::{Contact, ListSelection, find_peer, has_peer, rename_peer, renamed_first};
use crate::types::{DiscoveryType, Message};
use crate::bridge::{string_pop, string_push};

verus! {

/// The tab shown on the left.
#[derive(Debug, Clone, Copy, PartialEq, Eq, Structural)]
pub enum Tab {
    Contacts,
    Friends,
}

/// Whether keys edit the message being written.
#[derive(Debug, Clone, Copy, PartialEq, Eq, Structural)]
pub enum InputMode {
    Normal,
    Editing,
}

/// The panel that has the focus.
#[derive(Debug, Clone, Copy, PartialEq, Eq, Structural)]
pub enum Focus {
    ContactList,
    Chat,
}

/// A key of the keyboard, as far as the interfaces tell keys apart.
#[derive(Debug, Clone, Copy, PartialEq, Eq, Structural)]
pub enum KeyInput {
    Char(char),
    Esc,
    Enter,
    Backspace,
    Tab,
    BackTab,
    Up,
    Down,
    Left,
    Right,
    Other,
}

/// A key press with the modifiers that were held.
#[derive(Debug, Clone, Copy, PartialEq, Eq, Structural)]
pub struct KeyPress {
    pub code: KeyInput,
    pub ctrl: bool,
    pub shift: bool,
    pub alt: bool,
}

impl KeyPress {
    /// No modifier is held.
    pub open spec fn plain(&self) -> bool {
        !self.ctrl && !self.shift && !self.alt
    }

    /// Control alone is held.
    pub open spec fn ctrl_only(&self) -> bool {
        self.ctrl && !self.shift && !self.alt
    }

    /// Shift alone is held.
    pub open spec fn shift_only(&self) -> bool {
        !self.ctrl && self.shift && !self.alt
    }
}

/// A mouse action, as far as the chat client tells them apart.
#[derive(Debug, Clone, Copy, PartialEq, Eq, Structural)]
pub enum MouseInput {
    LeftDown { column: u16, row: u16 },
    ScrollDown,
    ScrollUp,
    Other,
}

/// The state of the chat client.
#[derive(Debug)]
pub struct App {
    pub selected_tab: Tab,
    pub contacts: Vec<Contact>,
    pub contact_list_state: ListSelection,
    pub messages: Vec<Message>,
    pub input: String,
    pub input_mode: InputMode,
    pub focus: Focus,
    pub username: String,
    pub relay_connected: bool,
    pub relay_addr: String,
    pub should_quit: bool,
}

/// The contacts without those of peer `p`, in their order.
pub open spec fn without_peer(s: Seq<Contact>, p: Seq<char>) -> Seq<Contact>
    decreases s.len(),
{
    if s.len() == 0 {
        seq![]
    } else {
        let rest = without_peer(s.drop_last(), p);
        if s.last().peer_id@ == p {
            rest
        } else {
            rest.push(s.last())
        }
    }
}

/// No two contacts are of the same peer.
pub open spec fn unique_peers(s: Seq<Contact>) -> bool {
    forall|i: int, j: int| 0 <= i < j < s.len() ==> #[trigger] s[i].peer_id@ != #[trigger] s[j].peer_id@
}

/// Every contact left after taking out peer `p` was there before and is not
/// of `p`.
pub proof fn lemma_without_peer_subset(s: Seq<Contact>, p: Seq<char>)
    ensures
        forall|k: int| 0 <= k < without_peer(s, p).len() ==> {
            &&& #[trigger] without_peer(s, p)[k].peer_id@ != p
            &&& exists|i: int| 0 <= i < s.len() && s[i] == without_peer(s, p)[k]
        },
    decreases s.len(),
{
    if s.len() > 0 {
        let rest = without_peer(s.drop_last(), p);
        lemma_without_peer_subset(s.drop_last(), p);
        assert forall|k: int| 0 <= k < without_peer(s, p).len() implies {
            &&& #[trigger] without_peer(s, p)[k].peer_id@ != p
            &&& exists|i: int| 0 <= i < s.len() && s[i] == without_peer(s, p)[k]
        } by {
            if k < rest.len() {
                assert(rest[k].peer_id@ != p);
                let i = choose|i: int| 0 <= i < s.drop_last().len() && s.drop_last()[i] == rest[k];
                assert(s[i] == without_peer(s, p)[k]);
            } else {
                assert(s[s.len() - 1] == without_peer(s, p)[k]);
            }
        }
    }
}

/// Taking out peer `p` keeps the peers of a list distinct.
pub proof fn lemma_without_peer_unique(s: Seq<Contact>, p: Seq<char>)
    requires
        unique_peers(s),
    ensures
        unique_peers(without_peer(s, p)),
    decreases s.len(),
{
    if s.len() > 0 {
        let init = s.drop_last();
        assert(unique_peers(init)) by {
            assert forall|i: int, j: int| 0 <= i < j < init.len() implies #[trigger] init[i].peer_id@
                != #[trigger] init[j].peer_id@ by {
                assert(init[i] == s[i] && init[j] == s[j]);
            }
        }
        lemma_without_peer_unique(init, p);
        lemma_without_peer_subset(init, p);
        let rest = without_peer(init, p);
        if s.last().peer_id@ != p {
            let r = rest.push(s.last());
            assert forall|i: int, j: int| 0 <= i < j < r.len() implies #[trigger] r[i].peer_id@ != #[trigger] r[j].peer_id@ by {
                if j == r.len() - 1 {
                    assert(rest[i].peer_id@ != p);
                    let k = choose|k: int| 0 <= k < init.len() && init[k] == rest[i];
                    assert(s[k] == init[k]);
                    assert(s[s.len() - 1] == s.last());
                } else {
                    assert(r[i] == rest[i] && r[j] == rest[j]);
                }
            }
        }
    }
}

/// Renaming a peer's first contact keeps the peer ids of the list.
pub proof fn lemma_renamed_first_peers(s: Seq<Contact>, p: Seq<char>, name: String)
    ensures
        renamed_first(s, p, name).len() == s.len(),
        forall|k: int| 0 <= k < s.len() ==> #[trigger] renamed_first(s, p, name)[k].peer_id@ == s[k].peer_id@,
{
    if has_peer(s, p) {
        let i0 = choose|i: int| 0 <= i < s.len() && #[trigger] s[i].peer_id@ == p;
        assert(exists|k: int| 0 <= k < s.len() && #[trigger] s[k].peer_id@ == p && forall|j: int| 0 <= j < k ==> s[j].peer_id@ != p) by {
            lemma_first_match(s, p, i0);
        }
    }
}

/// A list that holds a contact of peer `p` has a first such contact.
proof fn lemma_first_match(s: Seq<Contact>, p: Seq<char>, i0: int)
    requires
        0 <= i0 < s.len(),
        s[i0].peer_id@ == p,
    ensures
        exists|k: int| 0 <= k < s.len() && #[trigger] s[k].peer_id@ == p && forall|j: int| 0 <= j < k ==> s[j].peer_id@ != p,
    decreases i0,
{
    if exists|j: int| 0 <= j < i0 && s[j].peer_id@ == p {
        let j = choose|j: int| 0 <= j < i0 && s[j].peer_id@ == p;
        lemma_first_match(s, p, j);
    } else {
        assert(s[i0].peer_id@ == p && forall|j: int| 0 <= j < i0 ==> s[j].peer_id@ != p);
    }
}

/// The state the interface starts in: the contacts tab, nothing selected,
/// nothing typed.
pub open spec fn initial_spec(a: App) -> bool {
    &&& a.selected_tab == Tab::Contacts
    &&& a.contacts@.len() == 0
    &&& a.contact_list_state == ListSelection { selected: None, offset: 0 }
    &&& a.messages@.len() == 0
    &&& a.input@.len() == 0
    &&& a.input_mode == InputMode::Normal
    &&& a.focus == Focus::ContactList
    &&& a.username@.len() == 0
    &&& !a.relay_connected
    &&& a.relay_addr@.len() == 0
    &&& !a.should_quit
}

/// The selection after `next_contact` on a list of `len` contacts.
pub open spec fn next_selection(sel: Option<usize>, len: nat) -> Option<usize> {
    if len == 0 {
        sel
    } else {
        Some(
            match sel {
                Some(i) => if i + 1 < len - 1 { (i + 1) as usize } else { (len - 1) as usize },
                None => 0usize,
            },
        )
    }
}

/// The selection after `previous_contact` on a list of `len` contacts.
pub open spec fn previous_selection(sel: Option<usize>, len: nat) -> Option<usize> {
    if len == 0 {
        sel
    } else {
        Some(
            match sel {
                Some(i) => if i == 0 { 0usize } else { (i - 1) as usize },
                None => 0usize,
            },
        )
    }
}

/// Moving the contact selection down and then up returns it to where it was,
/// unless it was on the last contact; up and then down likewise, unless it
/// was on the first. Both moves keep the selection on a contact.
pub proof fn law_selection_moves_undo(i: usize, len: nat)
    requires
        i < len <= usize::MAX,
    ensures
        i + 1 < len ==> previous_selection(next_selection(Some(i), len), len) == Some(i),
        i > 0 ==> next_selection(previous_selection(Some(i), len), len) == Some(i),
        next_selection(Some(i), len) matches Some(j) && j < len,
        previous_selection(Some(i), len) matches Some(j) && j < len,
{
}

impl App {
    /// The selection points into the contact list, if anywhere.
    pub open spec fn selection_valid(&self) -> bool {
        self.contact_list_state.selected matches Some(i) ==> i < self.contacts@.len()
    }

    /// Everything but the contact selection is as in `other`.
    pub open spec fn same_but_selection(&self, other: &App) -> bool {
        &&& self.selected_tab == other.selected_tab
        &&& self.contacts@ == other.contacts@
        &&& self.contact_list_state.offset == other.contact_list_state.offset
        &&& self.messages@ == other.messages@
        &&& self.input@ == other.input@
        &&& self.input_mode == other.input_mode
        &&& self.focus == other.focus
        &&& self.username@ == other.username@
        &&& self.relay_connected == other.relay_connected
        &&& self.relay_addr@ == other.relay_addr@
        &&& self.should_quit == other.should_quit
    }

    /// A fresh interface.
    pub fn new() -> (r: App)
        ensures
            initial_spec(r),
            r.selection_valid(),
    {
        App {
            selected_tab: Tab::Contacts,
            contacts: Vec::new(),
            contact_list_state: ListSelection::new(),
            messages: Vec::new(),
            input: String::new(),
            input_mode: InputMode::Normal,
            focus: Focus::ContactList,
            username: String::new(),
            relay_connected: false,
            relay_addr: String::new(),
            should_quit: false,
        }
    }

    /// The selected contact, if one is selected and it exists.
    pub fn selected_contact(&self) -> (r: Option<&Contact>)
        ensures
            match self.contact_list_state.selected {
                Some(i) => if i < self.contacts@.len() {
                    r == Some(&self.contacts@[i as int])
                } else {
                    r is None
                },
                None => r is None,
            },
    {
        match self.contact_list_state.selected() {
            Some(i) => {
                if i < self.contacts.len() {
                    Some(&self.contacts[i])
                } else {
                    None
                }
            },
            None => None,
        }
    }

    /// The name of the selected contact, or `nobody` when no contact is
    /// selected.
    pub open spec fn selected_contact_name_spec(&self) -> Seq<char> {
        match self.contact_list_state.selected {
            Some(i) => if i < self.contacts@.len() {
                self.contacts@[i as int].name@
            } else {
                "nobody"@
            },
            None => "nobody"@,
        }
    }

    /// The name of the selected contact, or `nobody`.
    pub fn selected_contact_name(&self) -> (r: &str)
        ensures
            r@ == self.selected_contact_name_spec(),
    {
        match self.selected_contact() {
            Some(c) => c.name.as_str(),
            None => "nobody",
        }
    }

    /// Moves the selection one contact down, stopping at the last one; with
    /// nothing selected, selects the first.
    pub fn next_contact(&mut self)
        ensures
            final(self).same_but_selection(old(self)),
            final(self).contact_list_state.selected == next_selection(
                old(self).contact_list_state.selected,
                old(self).contacts@.len(),
            ),
            old(self).selection_valid() ==> final(self).selection_valid(),
    {
        if self.contacts.len() == 0 {
            return;
        }
        let i: usize = match self.contact_list_state.selected() {
            Some(i) => {
                if i < self.contacts.len() - 1 {
                    i + 1
                } else {
                    self.contacts.len() - 1
                }
            },
            None => 0,
        };
        self.contact_list_state.select(Some(i));
    }

    /// Moves the selection one contact up, stopping at the first one; with
    /// nothing selected, selects the first.
    pub fn previous_contact(&mut self)
        ensures
            final(self).same_but_selection(old(self)),
            final(self).contact_list_state.selected == previous_selection(
                old(self).contact_list_state.selected,
                old(self).contacts@.len(),
            ),
            old(self).selection_valid() ==> final(self).selection_valid(),
    {
        if self.contacts.len() == 0 {
            return;
        }
        let i: usize = match self.contact_list_state.selected() {
            Some(i) => i.saturating_sub(1),
            None => 0,
        };
        self.contact_list_state.select(Some(i));
    }

    /// Switches between the two tabs.
    pub fn next_tab(&mut self)
        ensures
            final(self).selected_tab == (if old(self).selected_tab == Tab::Contacts { Tab::Friends } else { Tab::Contacts }),
            final(self).contacts@ == old(self).contacts@,
            final(self).contact_list_state == old(self).contact_list_state,
            final(self).focus == old(self).focus,
            final(self).input_mode == old(self).input_mode,
            final(self).input@ == old(self).input@,
            final(self).should_quit == old(self).should_quit,
            final(self).messages@ == old(self).messages@,
            final(self).username@ == old(self).username@,
            final(self).relay_connected == old(self).relay_connected,
            final(self).relay_addr@ == old(self).relay_addr@,
    {
        self.selected_tab = match self.selected_tab {
            Tab::Contacts => Tab::Friends,
            Tab::Friends => Tab::Contacts,
        };
    }
}

impl App {
    /// Takes the contacts of peer `p` out of the list.
    fn remove_peer(&mut self, p: &String)
        ensures
            final(self).contacts@ == without_peer(old(self).contacts@, p@),
            final(self).same_but_contacts(old(self)),
    {
        let mut old_contacts: Vec<Contact> = Vec::new();
        std::mem::swap(&mut old_contacts, &mut self.contacts);
        let ghost all = old_contacts@;
        let total: usize = old_contacts.len();
        let mut rev: Vec<Contact> = Vec::new();
        while old_contacts.len() > 0
            invariant
                old_contacts@ == all.subrange(0, old_contacts@.len() as int),
                rev@.len() + old_contacts@.len() == all.len(),
                forall|k: int| 0 <= k < rev@.len() ==> #[trigger] rev@[k] == all[all.len() - 1 - k],
            decreases old_contacts@.len(),
        {
            let idx: usize = old_contacts.len() - 1;
            let c = old_contacts.pop().unwrap();
            proof {
                assert(c == all[idx as int]);
                assert(old_contacts@ =~= all.subrange(0, old_contacts@.len() as int));
            }
            rev.push(c);
        }
        let mut kept: Vec<Contact> = Vec::new();
        let mut n: usize = 0;
        while rev.len() > 0
            invariant
                total == all.len(),
                rev@.len() + n == all.len(),
                forall|k: int| 0 <= k < rev@.len() ==> #[trigger] rev@[k] == all[all.len() - 1 - k],
                kept@ == without_peer(all.subrange(0, n as int), p@),
                self.contacts@.len() == 0,
                self.same_but_contacts(old(self)),
            decreases rev@.len(),
        {
            let c = rev.pop().unwrap();
            proof {
                assert(c == all[n as int]);
                let pre = all.subrange(0, n as int);
                let post = all.subrange(0, n + 1);
                assert(post.drop_last() =~= pre);
                assert(post.last() == c);
            }
            if c.peer_id != *p {
                kept.push(c);
            }
            n = n + 1;
        }
        proof {
            assert(all.subrange(0, all.len() as int) =~= all);
        }
        self.contacts = kept;
    }

    /// Everything but the contact list is as in `other`.
    pub open spec fn same_but_contacts(&self, other: &App) -> bool {
        &&& self.selected_tab == other.selected_tab
        &&& self.contact_list_state == other.contact_list_state
        &&& self.messages@ == other.messages@
        &&& self.input@ == other.input@
        &&& self.input_mode == other.input_mode
        &&& self.focus == other.focus
        &&& self.username@ == other.username@
        &&& self.relay_connected == other.relay_connected
        &&& self.relay_addr@ == other.relay_addr@
        &&& self.should_quit == other.should_quit
    }
}

/// How an event from the daemon changes the interface. A received message is
/// added to the chat. A peer found on the local network is added to the
/// contacts unless it is there already, and the first contact gets selected
/// when none is. A peer that went away leaves the contacts, and a selection
/// past the end moves to the last contact, or to nothing. A resolved name is
/// given to the peer's first contact. The relay connection is shown as it is
/// reported. A critical failure ends the interface.
pub fn handle_write_event(app: &mut App, event: WriteEvent)
    ensures
        old(app).selection_valid() ==> final(app).selection_valid(),
        unique_peers(old(app).contacts@) ==> unique_peers(final(app).contacts@),
        event matches WriteEvent::MdnsPeerDisconnected { peer_id } ==> !has_peer(final(app).contacts@, peer_id@),
        final(app).username@ == old(app).username@,
        final(app).input@ == old(app).input@,
        final(app).input_mode == old(app).input_mode,
        final(app).focus == old(app).focus,
        final(app).selected_tab == old(app).selected_tab,
        final(app).contact_list_state.offset == old(app).contact_list_state.offset || (final(app).contact_list_state
            == ListSelection { selected: None, offset: 0 }),
        !(event is RelayServerConnection) ==> final(app).relay_connected == old(app).relay_connected
            && final(app).relay_addr@ == old(app).relay_addr@,
        !(event is CriticalFailure) ==> final(app).should_quit == old(app).should_quit,
        !(event is ReceiveMessage) ==> final(app).messages@ == old(app).messages@,
        match event {
            WriteEvent::ReceiveMessage(msg) => final(app).messages@ == old(app).messages@.push(msg)
                && final(app).contacts@ == old(app).contacts@
                && final(app).contact_list_state == old(app).contact_list_state,
            WriteEvent::DiscoverMdnsContact { peer_id, name } => {
                &&& final(app).contacts@ == if has_peer(old(app).contacts@, peer_id@) {
                    old(app).contacts@
                } else {
                    old(app).contacts@.push(Contact {
                        peer_id,
                        name: final(app).contacts@.last().name,
                        discovery_type: DiscoveryType::Mdns,
                    })
                }
                &&& !has_peer(old(app).contacts@, peer_id@) ==> final(app).contacts@.last().name@ == match name {
                    Some(n) => n@,
                    None => Seq::<char>::empty(),
                }
                &&& final(app).contact_list_state.selected == if old(app).contact_list_state.selected is None
                    && final(app).contacts@.len() > 0 {
                    Some(0usize)
                } else {
                    old(app).contact_list_state.selected
                }
                &&& final(app).messages@ == old(app).messages@
            },
            WriteEvent::MdnsPeerDisconnected { peer_id } => {
                &&& final(app).contacts@ == without_peer(old(app).contacts@, peer_id@)
                &&& final(app).contact_list_state.selected == match old(app).contact_list_state.selected {
                    Some(sel) => if sel >= final(app).contacts@.len() {
                        if final(app).contacts@.len() == 0 {
                            None
                        } else {
                            Some((final(app).contacts@.len() - 1) as usize)
                        }
                    } else {
                        Some(sel)
                    },
                    None => None,
                }
            },
            WriteEvent::MdnsNameResolved { peer_id, name } => final(app).contacts@ == renamed_first(
                old(app).contacts@,
                peer_id@,
                name,
            ) && final(app).contact_list_state == old(app).contact_list_state,
            WriteEvent::RelayServerConnection(RelayServerConnectionEvent(res)) => (match res {
                Ok(success) => final(app).relay_connected && final(app).relay_addr@ == success.relay_addr@,
                Err(_) => !final(app).relay_connected && final(app).relay_addr@ == old(app).relay_addr@,
            }) && final(app).contacts@ == old(app).contacts@ && final(app).contact_list_state == old(app).contact_list_state,
            WriteEvent::CriticalFailure(_) => final(app).should_quit && final(app).contacts@ == old(app).contacts@
                && final(app).contact_list_state == old(app).contact_list_state,
            _ => final(app).contacts@ == old(app).contacts@ && final(app).contact_list_state == old(
                app,
            ).contact_list_state && final(app).messages@ == old(app).messages@ && final(app).should_quit == old(
                app,
            ).should_quit,
        },
{
    match event {
        WriteEvent::ReceiveMessage(msg) => {
            app.messages.push(msg);
        },
        WriteEvent::DiscoverMdnsContact { peer_id, name } => {
            let name = match name {
                Some(n) => n,
                None => String::new(),
            };
            if find_peer(&app.contacts, &peer_id).is_none() {
                let ghost before = app.contacts@;
                app.contacts.push(Contact { peer_id, name, discovery_type: DiscoveryType::Mdns });
                proof {
                    let after = app.contacts@;
                    assert forall|i: int, j: int| 0 <= i < j < after.len() && unique_peers(before) implies
                        #[trigger] after[i].peer_id@ != #[trigger] after[j].peer_id@ by {
                        if j == after.len() - 1 {
                            assert(after[i] == before[i]);
                        } else {
                            assert(after[i] == before[i] && after[j] == before[j]);
                        }
                    }
                }
            }
            if app.contact_list_state.selected().is_none() && app.contacts.len() > 0 {
                app.contact_list_state.select(Some(0));
            }
        },
        WriteEvent::MdnsPeerDisconnected { peer_id } => {
            let ghost before = app.contacts@;
            app.remove_peer(&peer_id);
            proof {
                lemma_without_peer_subset(before, peer_id@);
                if unique_peers(before) {
                    lemma_without_peer_unique(before, peer_id@);
                }
                let after = app.contacts@;
                if has_peer(after, peer_id@) {
                    let k = choose|k: int| 0 <= k < after.len() && #[trigger] after[k].peer_id@ == peer_id@;
                    assert(after[k].peer_id@ != peer_id@);
                }
            }
            if let Some(sel) = app.contact_list_state.selected() {
                if sel >= app.contacts.len() {
                    if app.contacts.len() == 0 {
                        app.contact_list_state.select(None);
                    } else {
                        app.contact_list_state.select(Some(app.contacts.len() - 1));
                    }
                }
            }
        },
        WriteEvent::MdnsNameResolved { peer_id, name } => {
            let ghost before = app.contacts@;
            let ghost new_name = name;
            rename_peer(&mut app.contacts, &peer_id, name);
            proof {
                lemma_renamed_first_peers(before, peer_id@, new_name);
                let after = app.contacts@;
                assert forall|i: int, j: int| 0 <= i < j < after.len() && unique_peers(before) implies
                    #[trigger] after[i].peer_id@ != #[trigger] after[j].peer_id@ by {
                    assert(after[i].peer_id@ == before[i].peer_id@);
                    assert(after[j].peer_id@ == before[j].peer_id@);
                }
            }
        },
        WriteEvent::RelayServerConnection(relay_event) => match relay_event.0 {
            Ok(success) => {
                app.relay_connected = true;
                app.relay_addr = success.relay_addr;
            },
            Err(_) => {
                app.relay_connected = false;
            },
        },
        WriteEvent::EventResponse(_) => {},
        WriteEvent::CriticalFailure(_) => {
            app.should_quit = true;
        },
        WriteEvent::ReceiveFriendRequest => {},
        WriteEvent::ReceiveFriendRequestResponse { .. } => {},
        WriteEvent::DcutrConnection(_) => {},
    }
}

/// How a key press changes the interface. In normal mode `q`, or `c` with
/// control, ends the interface; tab switches tabs; `j`/down and `k`/up move
/// the contact selection; `l`/right and `h`/left move the focus to the chat
/// and to the contacts; `i`/enter starts editing when the chat has the focus.
/// While editing, escape stops editing, enter empties the message, backspace
/// removes its last character and any other character is appended to it.
pub fn handle_key_event(app: &mut App, key: KeyPress)
    ensures
        old(app).selection_valid() ==> final(app).selection_valid(),
        final(app).username@ == old(app).username@,
        final(app).relay_connected == old(app).relay_connected,
        final(app).relay_addr@ == old(app).relay_addr@,
        final(app).contact_list_state.offset == old(app).contact_list_state.offset,
        final(app).contacts@ == old(app).contacts@,
        final(app).messages@ == old(app).messages@,
        old(app).input_mode == InputMode::Normal ==> {
            &&& final(app).input@ == old(app).input@
            &&& final(app).should_quit == (old(app).should_quit || key.code == KeyInput::Char('q') || (key.code
                == KeyInput::Char('c') && key.ctrl))
            &&& final(app).selected_tab == if key.code == KeyInput::Tab {
                if old(app).selected_tab == Tab::Contacts { Tab::Friends } else { Tab::Contacts }
            } else {
                old(app).selected_tab
            }
            &&& final(app).contact_list_state.selected == if key.code == KeyInput::Char('j') || key.code
                == KeyInput::Down {
                next_selection(old(app).contact_list_state.selected, old(app).contacts@.len())
            } else if key.code == KeyInput::Char('k') || key.code == KeyInput::Up {
                previous_selection(old(app).contact_list_state.selected, old(app).contacts@.len())
            } else {
                old(app).contact_list_state.selected
            }
            &&& final(app).focus == if key.code == KeyInput::Char('l') || key.code == KeyInput::Right {
                Focus::Chat
            } else if key.code == KeyInput::Char('h') || key.code == KeyInput::Left {
                Focus::ContactList
            } else {
                old(app).focus
            }
            &&& final(app).input_mode == if (key.code == KeyInput::Char('i') || key.code == KeyInput::Enter)
                && old(app).focus == Focus::Chat {
                InputMode::Editing
            } else {
                InputMode::Normal
            }
        },
        old(app).input_mode == InputMode::Editing ==> {
            &&& final(app).should_quit == old(app).should_quit
            &&& final(app).focus == old(app).focus
            &&& final(app).selected_tab == old(app).selected_tab
            &&& final(app).contact_list_state == old(app).contact_list_state
            &&& final(app).input_mode == if key.code == KeyInput::Esc {
                InputMode::Normal
            } else {
                InputMode::Editing
            }
            &&& final(app).input@ == match key.code {
                KeyInput::Enter => Seq::<char>::empty(),
                KeyInput::Backspace => if old(app).input@.len() == 0 {
                    old(app).input@
                } else {
                    old(app).input@.drop_last()
                },
                KeyInput::Char(c) => old(app).input@.push(c),
                _ => old(app).input@,
            }
        },
{
    match app.input_mode {
        InputMode::Normal => match key.code {
            KeyInput::Char('q') => {
                app.should_quit = true;
            },
            KeyInput::Char('c') if key.ctrl => {
                app.should_quit = true;
            },
            KeyInput::Tab => app.next_tab(),
            KeyInput::Char('j') | KeyInput::Down => app.next_contact(),
            KeyInput::Char('k') | KeyInput::Up => app.previous_contact(),
            KeyInput::Char('l') | KeyInput::Right => {
                app.focus = Focus::Chat;
            },
            KeyInput::Char('h') | KeyInput::Left => {
                app.focus = Focus::ContactList;
            },
            KeyInput::Char('i') | KeyInput::Enter => {
                if app.focus == Focus::Chat {
                    app.input_mode = InputMode::Editing;
                }
            },
            _ => {},
        },
        InputMode::Editing => match key.code {
            KeyInput::Esc => {
                app.input_mode = InputMode::Normal;
            },
            KeyInput::Enter => {
                app.input = String::new();
            },
            KeyInput::Backspace => {
                string_pop(&mut app.input);
            },
            KeyInput::Char(c) => {
                string_push(&mut app.input, c);
            },
            _ => {},
        },
    }
}

/// How a mouse action changes the interface. A left click in the leftmost 30
/// columns gives the contacts the focus and, from the fifth row down, selects
/// the contact shown on that row when there is one; a click further right
/// gives the chat the focus and starts editing. Scrolling moves the contact
/// selection when the contacts have the focus.
pub fn handle_mouse_event(app: &mut App, mouse: MouseInput)
    requires
        old(app).contact_list_state.offset + 0xFFFF <= usize::MAX,
    ensures
        old(app).selection_valid() ==> final(app).selection_valid(),
        final(app).username@ == old(app).username@,
        final(app).relay_connected == old(app).relay_connected,
        final(app).relay_addr@ == old(app).relay_addr@,
        final(app).contacts@ == old(app).contacts@,
        final(app).messages@ == old(app).messages@,
        final(app).input@ == old(app).input@,
        final(app).should_quit == old(app).should_quit,
        final(app).selected_tab == old(app).selected_tab,
        final(app).contact_list_state.offset == old(app).contact_list_state.offset,
        match mouse {
            MouseInput::LeftDown { column, row } => if column < 30 {
                &&& final(app).focus == Focus::ContactList
                &&& final(app).input_mode == old(app).input_mode
                &&& final(app).contact_list_state.selected == if row >= 4 && row - 4
                    + old(app).contact_list_state.offset < old(app).contacts@.len() {
                    Some((row - 4 + old(app).contact_list_state.offset) as usize)
                } else {
                    old(app).contact_list_state.selected
                }
            } else {
                &&& final(app).focus == Focus::Chat
                &&& final(app).input_mode == InputMode::Editing
                &&& final(app).contact_list_state.selected == old(app).contact_list_state.selected
            },
            MouseInput::ScrollDown => {
                &&& final(app).focus == old(app).focus
                &&& final(app).input_mode == old(app).input_mode
                &&& final(app).contact_list_state.selected == if old(app).focus == Focus::ContactList {
                    next_selection(old(app).contact_list_state.selected, old(app).contacts@.len())
                } else {
                    old(app).contact_list_state.selected
                }
            },
            MouseInput::ScrollUp => {
                &&& final(app).focus == old(app).focus
                &&& final(app).input_mode == old(app).input_mode
                &&& final(app).contact_list_state.selected == if old(app).focus == Focus::ContactList {
                    previous_selection(old(app).contact_list_state.selected, old(app).contacts@.len())
                } else {
                    old(app).contact_list_state.selected
                }
            },
            MouseInput::Other => {
                &&& final(app).focus == old(app).focus
                &&& final(app).input_mode == old(app).input_mode
                &&& final(app).contact_list_state == old(app).contact_list_state
            },
        },
{
    match mouse {
        MouseInput::LeftDown { column, row } => {
            if column < 30 {
                app.focus = Focus::ContactList;
                let row: usize = row as usize;
                if row >= 4 {
                    let contact_idx: usize = (row - 4) + app.contact_list_state.offset();
                    if contact_idx < app.contacts.len() {
                        app.contact_list_state.select(Some(contact_idx));
                    }
                }
            } else {
                app.focus = Focus::Chat;
                app.input_mode = InputMode::Editing;
            }
        },
        MouseInput::ScrollDown => {
            if app.focus == Focus::ContactList {
                app.next_contact();
            }
        },
        MouseInput::ScrollUp => {
            if app.focus == Focus::ContactList {
                app.previous_contact();
            }
        },
        MouseInput::Other => {},
    }
}

} // verus!
