//! A peer-to-peer chat: the wire formats, settings, data model and the
//! decision logic of the chat daemon and its terminal interfaces.
pub mod codec;
pub mod types;
pub mod api;
pub mod network;
pub mod tracker;
pub mod bridge;
pub mod settings;
pub mod setup_tui;
pub mod tui;
pub mod chat_tui;
pub mod chat_view;
pub mod db;
pub mod signable;
pub mod setup;
