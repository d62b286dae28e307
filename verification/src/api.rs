//! The PeerTube API: the requests to make, and what the answers become.
pub mod error;
pub mod common;
pub mod instance;
pub mod video;
pub mod channels;
pub mod comments;
