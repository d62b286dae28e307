//! The owner of a video.
use vstd::prelude::*;
use vstd::std_specs::convert::FromSpecImpl;
use crate::ser;

verus! {

/// A channel or an account that owns a video.
#[derive(Clone, Debug)]
pub struct Channel {
    pub id: i64,
    pub name: String,
    pub display_name: String,
    pub url: Option<String>,
    pub host: String,
}

impl From<ser::common::Channel> for Channel {
    fn from(c: ser::common::Channel) -> (r: Channel) {
        Channel { id: c.id, name: c.name, display_name: c.display_name, url: c.url, host: c.host }
    }
}

impl FromSpecImpl<ser::common::Channel> for Channel {
    open spec fn obeys_from_spec() -> bool {
        true
    }

    open spec fn from_spec(c: ser::common::Channel) -> Channel {
        Channel { id: c.id, name: c.name, display_name: c.display_name, url: c.url, host: c.host }
    }
}

} // verus!
