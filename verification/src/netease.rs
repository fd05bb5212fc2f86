//! The Netease Cloud Music web API: what is sent and what the answers hold.
//! The HTTP transport itself is the caller's.

pub mod auth;
pub mod client;
pub mod crypto;
pub mod error;
pub mod playlist;
pub mod search;
pub mod track;
pub mod types;
pub mod user;
