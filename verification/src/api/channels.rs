//! A channel found by a search.
use vstd::prelude::*;
use crate::ser;
use crate::dates::Timestamp;
use crate::text::{u64_to_string, decimal};
use crate::config::opt_str;

verus! {

broadcast use vstd::string::group_string_axioms;

/// A channel found by a search.
#[derive(Debug)]
pub struct Channel {
    /// The number of the channel, with the instance where that number holds.
    id: (String, u64),
    name: String,
    display_name: String,
    description: Option<String>,
    host: String,
    followers: u64,
    created_at: Timestamp,
}

/// The value of a [`Channel`].
pub struct ChannelView {
    pub id: (Seq<char>, u64),
    pub name: Seq<char>,
    pub display_name: Seq<char>,
    pub description: Option<Seq<char>>,
    pub host: Seq<char>,
    pub followers: u64,
    pub created_at: Timestamp,
}

impl View for Channel {
    type V = ChannelView;

    closed spec fn view(&self) -> ChannelView {
        ChannelView {
            id: (self.id.0@, self.id.1),
            name: self.name@,
            display_name: self.display_name@,
            description: opt_str(self.description),
            host: self.host@,
            followers: self.followers,
            created_at: self.created_at,
        }
    }
}

/// A count of the answer, negative counts taken as none.
pub open spec fn count_of(n: i64) -> u64 {
    if n > 0 {
        n as u64
    } else {
        0
    }
}

/// The channel that an answer of `source_instance` describes.
pub open spec fn channel_view_of(c: ser::channels::Channel, source_instance: Seq<char>) -> ChannelView {
    ChannelView {
        id: (source_instance, count_of(c.id)),
        name: c.name@,
        display_name: c.display_name@,
        description: opt_str(c.description),
        host: c.host@,
        followers: count_of(c.followers_count),
        created_at: c.created_at,
    }
}

impl Channel {
    /// The channel that an answer of `source_instance` describes.
    pub fn maybe_from(c: ser::channels::Channel, source_instance: String) -> (r: Option<Channel>)
        ensures
            r matches Some(ch) && ch@ == channel_view_of(c, source_instance@),
    {
        Some(Channel {
            id: if c.id > 0 {
                (source_instance, c.id as u64)
            } else {
                (source_instance, 0)
            },
            followers: if c.followers_count > 0 {
                c.followers_count as u64
            } else {
                0
            },
            name: c.name,
            display_name: c.display_name,
            description: c.description,
            created_at: c.created_at,
            host: c.host,
        })
    }

    /// The name of the channel.
    pub fn name(&self) -> (r: &str)
        ensures
            r@ == self@.name,
    {
        self.name.as_str()
    }

    /// The name the channel shows.
    pub fn display_name(&self) -> (r: &str)
        ensures
            r@ == self@.display_name,
    {
        self.display_name.as_str()
    }

    /// How many follow the channel.
    pub fn followers(&self) -> (r: u64)
        ensures
            r == self@.followers,
    {
        self.followers
    }

    /// The host of the channel.
    pub fn host(&self) -> (r: &str)
        ensures
            r@ == self@.host,
    {
        self.host.as_str()
    }

    /// The description of the channel.
    pub fn description(&self) -> (r: &Option<String>)
        ensures
            opt_str(*r) == self@.description,
    {
        &self.description
    }

    /// When the channel was created.
    pub fn created_at(&self) -> (r: Timestamp)
        ensures
            r == self@.created_at,
    {
        self.created_at
    }

    /// The handle of the channel: its name `@` its host.
    pub fn handle(&self) -> (r: String)
        ensures
            r@ == self@.name + "@"@ + self@.host,
    {
        let mut h = self.name.clone();
        h.append("@");
        h.append(self.host.as_str());
        h
    }

    /// The address of the RSS feed of the channel.
    pub fn rss(&self) -> (r: String)
        ensures
            r@ == self@.id.0 + "/feeds/videos.xml?videoChannelId="@ + decimal(self@.id.1 as nat),
    {
        let mut u = self.id.0.clone();
        u.append("/feeds/videos.xml?videoChannelId=");
        let n = u64_to_string(self.id.1);
        u.append(n.as_str());
        u
    }

    /// The address of the Atom feed of the channel.
    pub fn atom(&self) -> (r: String)
        ensures
            r@ == self@.id.0 + "/feeds/videos.atom?videoChannelId="@ + decimal(self@.id.1 as nat),
    {
        let mut u = self.id.0.clone();
        u.append("/feeds/videos.atom?videoChannelId=");
        let n = u64_to_string(self.id.1);
        u.append(n.as_str());
        u
    }
}

} // verus!
