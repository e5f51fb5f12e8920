//! Core logic of a small client/server text chat: the message protocol, the
//! server's request handlers as resumable decision procedures, the client's
//! state machine, and the text helpers both sides use.

pub mod auth;
pub mod client;
pub mod client_laws;
pub mod client_net;
pub mod client_ui;
pub mod clock;
pub mod connection;
pub mod dispatch;
pub mod effects;
pub mod errors;
pub mod handlers;
pub mod keys;
pub mod protocol;
pub mod screen;
pub mod server_laws;
pub mod subtitle;
pub mod text;
pub mod timefmt;
