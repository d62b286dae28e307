//! The answer to a search of channels.
use vstd::prelude::*;
use crate::dates::Timestamp;
use crate::ser::common::Avatar;

verus! {

/// A channel found by a search.
#[derive(Debug, Clone)]
pub struct Channel {
    pub id: i64,
    pub name: String,
    pub display_name: String,
    pub description: Option<String>,
    pub host: String,
    pub following_count: i64,
    pub followers_count: i64,
    pub created_at: Timestamp,
    pub owner_account: Account,
}

/// The account that owns a channel.
#[derive(Debug, Clone)]
pub struct Account {
    pub id: u64,
    pub name: String,
    pub display_name: String,
    pub description: Option<String>,
    pub host: String,
    pub avatar: Option<Avatar>,
    pub following_count: u64,
    pub followers_count: u64,
    pub created_at: String,
    pub updated_at: String,
}

/// A page of channels and the number of channels found.
#[derive(Debug, Clone)]
pub struct Channels {
    pub total: usize,
    pub data: Vec<Channel>,
}

} // verus!
