//! The answers of the PeerTube API, as plain values.
pub mod common;
pub mod search;
pub mod video;
pub mod channels;
pub mod comments;
