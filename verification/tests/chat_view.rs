use p2pchat::chat_tui::{handle_write_event, App, InputMode};
use p2pchat::chat_view::{chat_lines, chat_scroll, chat_title, contact_label, input_text, sender_label, status_texts, ChatLine};
use p2pchat::api::WriteEvent;
use p2pchat::tui::types::Contact;
use p2pchat::types::{Contact as StoredContact, DiscoveryType, Message, Name};

fn msg(peer: &str, name: Option<&str>, text: &str) -> Message {
    Message {
        content: text.to_string(),
        id: 0,
        sender: StoredContact {
            peer_id: peer.to_string(),
            central_name: None,
            provided_name: name.map(|n| Name { content: n.to_string(), ttl: 0 }),
            channel_id: 0,
        },
        created_at: 0,
    }
}

#[test]
fn messages_are_grouped_by_sender() {
    let log = vec![msg("a", Some("ann"), "hi"), msg("a", Some("ann"), "there"), msg("b", None, "yo"), msg("a", Some("ann"), "!")];
    assert_eq!(
        chat_lines(&log),
        vec![
            ChatLine::Sender("ann".to_string()),
            ChatLine::Body("  hi".to_string()),
            ChatLine::Body("  there".to_string()),
            ChatLine::Blank,
            ChatLine::Sender("b".to_string()),
            ChatLine::Body("  yo".to_string()),
            ChatLine::Blank,
            ChatLine::Sender("ann".to_string()),
            ChatLine::Body("  !".to_string()),
        ]
    );
    assert!(chat_lines(&vec![]).is_empty());
}

#[test]
fn sender_label_falls_back_to_peer_id() {
    assert_eq!(sender_label(&msg("peer", Some(""), "x")), "peer");
    assert_eq!(sender_label(&msg("peer", None, "x")), "peer");
    assert_eq!(sender_label(&msg("peer", Some("pat"), "x")), "pat");
}

#[test]
fn scrolling_shows_the_last_lines() {
    assert_eq!(chat_scroll(10, 4), 6);
    assert_eq!(chat_scroll(3, 4), 0);
    assert_eq!(chat_scroll(70000, 0), 4464);
}

#[test]
fn contact_labels() {
    let named = Contact { peer_id: "p".to_string(), name: "n".to_string(), discovery_type: DiscoveryType::Mdns };
    assert_eq!(contact_label(&named), "n");
    let unnamed = Contact { name: String::new(), ..named };
    assert_eq!(contact_label(&unnamed), "p");
}

#[test]
fn titles_and_status_bar() {
    let mut app = App::new();
    assert_eq!(chat_title(&app), "Chat with @nobody");
    assert_eq!(input_text(&app), ("Message @nobody".to_string(), true));
    assert_eq!(status_texts(&app), ("unknown".to_string(), "not connected".to_string()));
    handle_write_event(&mut app, WriteEvent::DiscoverMdnsContact { peer_id: "p".to_string(), name: Some("ann".to_string()) });
    assert_eq!(chat_title(&app), "Chat with @ann");
    app.input_mode = InputMode::Editing;
    assert_eq!(input_text(&app), (String::new(), false));
    app.input = "draft".to_string();
    app.input_mode = InputMode::Normal;
    assert_eq!(input_text(&app), ("draft".to_string(), false));
    app.username = "me".to_string();
    app.relay_addr = "/ip4/1.1.1.1".to_string();
    assert_eq!(status_texts(&app), ("me".to_string(), "/ip4/1.1.1.1".to_string()));
}
