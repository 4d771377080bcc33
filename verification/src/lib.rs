//! The state of a command-line chat client: the settings a user keeps
//! between runs, the conversation held so far, and the rules by which one
//! question becomes one request and one reply changes the conversation.
//!
//! Nothing here touches the disk or the network. The caller reads the saved
//! record, sends the request and hands back what came of it.
pub mod config;
pub mod error;
pub mod gpt;
pub mod header;
pub mod store;
