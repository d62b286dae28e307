//! A PeerTube command line browser: the verified core.
pub mod utils;
pub mod text;
pub mod parser;
pub mod dates;
pub mod helpers;
pub mod preloadable_list;
pub mod history;
pub mod url_parser;
pub mod config;
pub mod ser;
pub mod api;
pub mod error;
pub mod cli;
pub mod preloadables;
pub mod display;
pub mod layout;
pub mod input;
