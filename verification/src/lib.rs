//! Verified core of the AI Assistant Client: the local page server's request
//! handling, the desktop launcher's and the Windows installer's decisions, the
//! folder layout they share, and the chat-completion request/reply rules.

pub mod text;
pub mod wide;
pub mod http;
pub mod folders;
pub mod cli;
pub mod desktop;
pub mod chat;
pub mod installer;
pub mod panel;
