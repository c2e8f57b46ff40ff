//! Correlation and classification engine for recorded language-server
//! sessions.
//!
//! A session is a closed, time-ordered collection of JSON-RPC messages
//! exchanged between a client and a server. Individual messages carry no
//! tag saying which peer produced them or what they mean; this crate
//! reconstructs both after the fact. A [`conversation::Conversation`] is the
//! correlation index built once per session; [`classify::classify`] and
//! [`classify::get_source`] annotate each message with its semantic category
//! and its originating peer, degrading to `None` whenever the history is
//! incomplete or malformed.

pub mod classify;
pub mod conversation;
pub mod filter;
pub mod kind;
pub mod laws;
pub mod message;
pub mod payload;
pub mod session;
pub mod session_search;
pub mod tables;
pub mod text;
pub mod utils;
