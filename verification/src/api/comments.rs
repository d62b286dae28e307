//! A comment of a video.
use vstd::prelude::*;
use vstd::std_specs::convert::TryFromSpecImpl;
use crate::ser;
use crate::dates::Timestamp;
use crate::api::common::Channel;

verus! {

/// A comment that has not been deleted.
#[derive(Debug)]
pub struct Comment {
    content: String,
    url: String,
    created_at: Timestamp,
    author: Channel,
}

/// The value of a [`Comment`].
pub struct CommentView {
    pub content: Seq<char>,
    pub url: Seq<char>,
    pub created_at: Timestamp,
    pub author: Channel,
}

impl View for Comment {
    type V = CommentView;

    closed spec fn view(&self) -> CommentView {
        CommentView { content: self.content@, url: self.url@, created_at: self.created_at, author: self.author }
    }
}

/// The comment an answer describes: none when it was deleted, or has no
/// address or no author.
pub open spec fn comment_of(c: ser::comments::Comment) -> Option<CommentView> {
    match (c.is_deleted, c.url, c.account) {
        (false, Some(url), Some(account)) => Some(
            CommentView {
                content: c.text@,
                url: url@,
                created_at: c.created_at,
                author: Channel {
                    id: account.id,
                    name: account.name,
                    display_name: account.display_name,
                    url: account.url,
                    host: account.host,
                },
            },
        ),
        _ => None,
    }
}

impl TryFrom<ser::comments::Comment> for Comment {
    type Error = ();

    fn try_from(comment: ser::comments::Comment) -> (r: Result<Self, ()>) {
        match (comment.is_deleted, comment.url, comment.account) {
            (false, Some(url), Some(account)) => Ok(
                Comment { content: comment.text, url, created_at: comment.created_at, author: Channel::from(account) },
            ),
            _ => Err(()),
        }
    }
}

impl TryFromSpecImpl<ser::comments::Comment> for Comment {
    open spec fn obeys_try_from_spec() -> bool {
        true
    }

    closed spec fn try_from_spec(comment: ser::comments::Comment) -> Result<Comment, ()> {
        match (comment.is_deleted, comment.url, comment.account) {
            (false, Some(url), Some(account)) => Ok(
                Comment {
                    content: comment.text,
                    url,
                    created_at: comment.created_at,
                    author: Channel {
                        id: account.id,
                        name: account.name,
                        display_name: account.display_name,
                        url: account.url,
                        host: account.host,
                    },
                },
            ),
            _ => Err(()),
        }
    }
}

impl Comment {
    /// The comment an answer describes, if it stands.
    pub fn from_answer(comment: ser::comments::Comment) -> (r: Option<Comment>)
        ensures
            (match r {
                Some(c) => comment_of(comment) == Some(c@),
                None => comment_of(comment) is None,
            }),
    {
        match Comment::try_from(comment) {
            Ok(c) => Some(c),
            Err(_) => None,
        }
    }

    /// The text of the comment.
    pub fn content(&self) -> (r: &str)
        ensures
            r@ == self@.content,
    {
        self.content.as_str()
    }

    /// The address of the comment.
    pub fn url(&self) -> (r: &str)
        ensures
            r@ == self@.url,
    {
        self.url.as_str()
    }

    /// The name the author shows.
    pub fn author_display_name(&self) -> (r: &str)
        ensures
            r@ == self@.author.display_name@,
    {
        self.author.display_name.as_str()
    }

    /// The host of the author.
    pub fn author_host(&self) -> (r: &str)
        ensures
            r@ == self@.author.host@,
    {
        self.author.host.as_str()
    }

    /// When the comment was written.
    pub fn created_at(&self) -> (r: Timestamp)
        ensures
            r == self@.created_at,
    {
        self.created_at
    }
}

} // verus!
