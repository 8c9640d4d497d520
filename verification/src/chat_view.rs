//! The text that the chat client shows: the chat log grouped by sender, the
//! labels of contacts, the titles and the status bar.
use vstd::prelude::*;
use crate::chat_tui::{App, InputMode};
use crate::tui::types::Contact as ListedContact;
use crate::types::{contact_display_name_spec, Message};

verus! {

/// A line of the chat log as shown.
#[derive(Debug, Clone, PartialEq, Eq)]
pub enum ChatLine {
    /// The gap between two senders' groups of messages.
    Blank,
    /// The name of the sender of the messages below it, in bold.
    Sender(String),
    /// A message, indented.
    Body(String),
}

/// A line of the chat log by its text.
pub ghost enum ChatLineView {
    Blank,
    Sender(Seq<char>),
    Body(Seq<char>),
}

impl View for ChatLine {
    type V = ChatLineView;

    open spec fn view(&self) -> ChatLineView {
        match self {
            ChatLine::Blank => ChatLineView::Blank,
            ChatLine::Sender(s) => ChatLineView::Sender(s@),
            ChatLine::Body(s) => ChatLineView::Body(s@),
        }
    }
}

/// The lines by their text.
pub open spec fn lines_view(s: Seq<ChatLine>) -> Seq<ChatLineView> {
    Seq::new(s.len(), |i: int| s[i]@)
}

/// The name over a sender's messages: the name known for the sender, or its
/// peer id when no name, or an empty one, is known.
pub open spec fn sender_label_spec(m: Message) -> Seq<char> {
    match contact_display_name_spec(m.sender) {
        Some(n) => if n.len() == 0 {
            m.sender.peer_id@
        } else {
            n
        },
        None => m.sender.peer_id@,
    }
}

/// A sender is labelled by its name: the name registered with the tracker
/// when it has one, otherwise the name the peer gave itself; the peer id
/// stands in only when the sender has no name or its name is empty.
pub proof fn law_sender_label_prefers_central_name(m: Message)
    ensures
        match (m.sender.central_name, m.sender.provided_name) {
            (Some(n), _) => sender_label_spec(m) == if n.content@.len() > 0 {
                n.content@
            } else {
                m.sender.peer_id@
            },
            (None, Some(n)) => sender_label_spec(m) == if n.content@.len() > 0 {
                n.content@
            } else {
                m.sender.peer_id@
            },
            (None, None) => sender_label_spec(m) == m.sender.peer_id@,
        },
{
}

/// Whether message `i` opens a group: it is the first, or its sender differs
/// from the sender of the message before it.
pub open spec fn opens_group(ms: Seq<Message>, i: int) -> bool {
    i == 0 || ms[i - 1].sender.peer_id@ != ms[i].sender.peer_id@
}

/// The chat log as lines: each run of messages from one sender is headed by
/// the sender's name, runs are parted by a blank line, and each message is a
/// line of its own, indented by two spaces.
pub open spec fn chat_lines_spec(ms: Seq<Message>) -> Seq<ChatLineView>
    decreases ms.len(),
{
    if ms.len() == 0 {
        Seq::empty()
    } else {
        let before = chat_lines_spec(ms.drop_last());
        let m = ms.last();
        let headed = if opens_group(ms, ms.len() - 1) {
            (if before.len() > 0 {
                before.push(ChatLineView::Blank)
            } else {
                before
            }).push(ChatLineView::Sender(sender_label_spec(m)))
        } else {
            before
        };
        headed.push(ChatLineView::Body("  "@ + m.content@))
    }
}

/// The message lines among `lines`, in order, by their text.
pub open spec fn bodies(lines: Seq<ChatLineView>) -> Seq<Seq<char>>
    decreases lines.len(),
{
    if lines.len() == 0 {
        Seq::empty()
    } else {
        let rest = bodies(lines.drop_last());
        match lines.last() {
            ChatLineView::Body(t) => rest.push(t),
            _ => rest,
        }
    }
}

/// Appending a line to `lines` appends its text to the message lines when it
/// is a message line, and leaves them as they are otherwise.
proof fn lemma_bodies_push(lines: Seq<ChatLineView>, l: ChatLineView)
    ensures
        bodies(lines.push(l)) == match l {
            ChatLineView::Body(t) => bodies(lines).push(t),
            _ => bodies(lines),
        },
{
    assert(lines.push(l).drop_last() =~= lines);
}

/// Every message of the chat log is shown, in order, as exactly one line of
/// its own: the message lines are the messages, indented.
pub proof fn law_every_message_shown(ms: Seq<Message>)
    ensures
        bodies(chat_lines_spec(ms)) == ms.map_values(|m: Message| "  "@ + m.content@),
    decreases ms.len(),
{
    if ms.len() > 0 {
        let init = ms.drop_last();
        law_every_message_shown(init);
        let before = chat_lines_spec(init);
        let m = ms.last();
        let headed = if opens_group(ms, ms.len() - 1) {
            (if before.len() > 0 {
                before.push(ChatLineView::Blank)
            } else {
                before
            }).push(ChatLineView::Sender(sender_label_spec(m)))
        } else {
            before
        };
        if opens_group(ms, ms.len() - 1) {
            if before.len() > 0 {
                lemma_bodies_push(before, ChatLineView::Blank);
                lemma_bodies_push(before.push(ChatLineView::Blank), ChatLineView::Sender(sender_label_spec(m)));
            } else {
                lemma_bodies_push(before, ChatLineView::Sender(sender_label_spec(m)));
            }
        }
        assert(bodies(headed) == bodies(before));
        lemma_bodies_push(headed, ChatLineView::Body("  "@ + m.content@));
        assert(ms.map_values(|m: Message| "  "@ + m.content@) =~= init.map_values(|m: Message| "  "@ + m.content@).push(
            "  "@ + m.content@,
        ));
    } else {
        assert(ms.map_values(|m: Message| "  "@ + m.content@) =~= Seq::<Seq<char>>::empty());
    }
}

/// The name over a sender's messages.
pub fn sender_label(m: &Message) -> (r: String)
    ensures
        r@ == sender_label_spec(*m),
        r@ == match (m.sender.central_name, m.sender.provided_name) {
            (Some(n), _) => if n.content@.len() > 0 {
                n.content@
            } else {
                m.sender.peer_id@
            },
            (None, Some(n)) => if n.content@.len() > 0 {
                n.content@
            } else {
                m.sender.peer_id@
            },
            (None, None) => m.sender.peer_id@,
        },
{
    match m.sender.display_name() {
        Some(n) => if n.as_str().is_empty() {
            m.sender.peer_id.clone()
        } else {
            n
        },
        None => m.sender.peer_id.clone(),
    }
}

/// The chat log as the lines that are shown.
pub fn chat_lines(messages: &Vec<Message>) -> (r: Vec<ChatLine>)
    ensures
        lines_view(r@) == chat_lines_spec(messages@),
{
    let mut lines: Vec<ChatLine> = Vec::new();
    let mut i: usize = 0;
    while i < messages.len()
        invariant
            i <= messages@.len(),
            lines_view(lines@) == chat_lines_spec(messages@.subrange(0, i as int)),
        decreases messages@.len() - i,
    {
        let ghost pre = messages@.subrange(0, i as int);
        let ghost cur = messages@.subrange(0, i + 1);
        proof {
            assert(cur.drop_last() =~= pre);
            assert(cur.last() == messages@[i as int]);
            if i > 0 {
                assert(cur[i - 1] == messages@[i - 1]);
            }
        }
        let m = &messages[i];
        let opens = i == 0 || messages[i - 1].sender.peer_id != m.sender.peer_id;
        if opens {
            if lines.len() > 0 {
                lines.push(ChatLine::Blank);
            }
            lines.push(ChatLine::Sender(sender_label(m)));
        }
        lines.push(ChatLine::Body(String::from_str("  ").concat(m.content.as_str())));
        i = i + 1;
        proof {
            let expected = chat_lines_spec(cur);
            assert(lines_view(lines@) =~= expected);
        }
    }
    proof {
        assert(messages@.subrange(0, messages@.len() as int) =~= messages@);
    }
    lines
}

/// How far the chat log is scrolled so that its last lines are shown: the
/// lines that do not fit above the bottom, cut to 16 bits as the widget takes
/// it.
pub fn chat_scroll(line_count: usize, visible_height: u16) -> (r: u16)
    ensures
        r == (if line_count > visible_height {
            (line_count - visible_height) as u16
        } else {
            0u16
        }),
{
    let over: usize = line_count.saturating_sub(visible_height as usize);
    over as u16
}

/// A contact as the contact list shows it: its name, or its peer id when the
/// name is empty.
pub fn contact_label(c: &ListedContact) -> (r: &String)
    ensures
        r@ == if c.name@.len() == 0 {
            c.peer_id@
        } else {
            c.name@
        },
{
    if c.name.as_str().is_empty() {
        &c.peer_id
    } else {
        &c.name
    }
}

/// The title of the chat panel: "Chat with @" and the selected contact.
pub fn chat_title(app: &App) -> (r: String)
    ensures
        r@ == "Chat with @"@ + app.selected_contact_name_spec(),
{
    String::from_str("Chat with @").concat(app.selected_contact_name())
}

/// What the input field shows: the message being written, or, when it is
/// empty and not being edited, a placeholder naming the selected contact.
/// The flag says whether the placeholder is shown.
pub fn input_text(app: &App) -> (r: (String, bool))
    ensures
        r.1 == (app.input@.len() == 0 && app.input_mode == InputMode::Normal),
        r.1 ==> r.0@ == "Message @"@ + app.selected_contact_name_spec(),
        !r.1 ==> r.0@ == app.input@,
{
    if app.input.as_str().is_empty() && app.input_mode == InputMode::Normal {
        (String::from_str("Message @").concat(app.selected_contact_name()), true)
    } else {
        (app.input.clone(), false)
    }
}

/// The two texts of the status bar: the username, or "unknown" when it is not
/// known, and the relay's address, or "not connected" when there is none.
pub fn status_texts(app: &App) -> (r: (String, String))
    ensures
        r.0@ == if app.username@.len() == 0 {
            "unknown"@
        } else {
            app.username@
        },
        r.1@ == if app.relay_addr@.len() == 0 {
            "not connected"@
        } else {
            app.relay_addr@
        },
{
    let user = if app.username.as_str().is_empty() {
        String::from_str("unknown")
    } else {
        app.username.clone()
    };
    let relay = if app.relay_addr.as_str().is_empty() {
        String::from_str("not connected")
    } else {
        app.relay_addr.clone()
    };
    (user, relay)
}

} // verus!
