//! Client library for a bookmark service's HTTP/JSON API: a verified wire
//! codec, request builders and the authorization state machine.

pub mod json;
pub mod wire;
pub mod url;
pub mod media;
pub mod items;
pub mod protocol;
pub mod responses;
pub mod requests;
pub mod actions;
pub mod client;
