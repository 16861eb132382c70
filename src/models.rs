use vstd::prelude::*;

verus! {

/// A UTC instant: whole seconds since the Unix epoch and the nanoseconds
/// past that second.
#[derive(Clone, Copy, Debug, PartialEq, Eq, Structural)]
pub struct Timestamp {
    pub secs: i64,
    pub nanos: u32,
}

/// What a post holds, as mathematical values.
pub struct PostView {
    pub title: Seq<char>,
    pub body: Seq<char>,
    pub author: Seq<char>,
    pub datetime: Timestamp,
    pub uuid: u128,
}

/// A blog post: title, body and author text, the instant it was written,
/// and its 128-bit identifier.  Nothing changes a post once it is built.
#[derive(Debug)]
pub struct Post {
    title: String,
    body: String,
    author: String,
    datetime: Timestamp,
    uuid: u128,
}

impl View for Post {
    type V = PostView;

    closed spec fn view(&self) -> PostView {
        PostView {
            title: self.title@,
            body: self.body@,
            author: self.author@,
            datetime: self.datetime,
            uuid: self.uuid,
        }
    }
}

impl Post {
    pub fn new(title: &str, body: &str, author: &str, datetime: Timestamp, uuid: u128) -> (r: Post)
        ensures
            r@ == (PostView { title: title@, body: body@, author: author@, datetime, uuid }),
    {
        Post {
            title: title.to_string(),
            body: body.to_string(),
            author: author.to_string(),
            datetime,
            uuid,
        }
    }

    /// The identifier, the post's one lookup key.
    pub fn uuid(&self) -> (r: u128)
        ensures
            r == self@.uuid,
    {
        self.uuid
    }

    pub fn title(&self) -> (r: &str)
        ensures
            r@ == self@.title,
    {
        self.title.as_str()
    }

    pub fn body(&self) -> (r: &str)
        ensures
            r@ == self@.body,
    {
        self.body.as_str()
    }

    pub fn author(&self) -> (r: &str)
        ensures
            r@ == self@.author,
    {
        self.author.as_str()
    }

    pub fn datetime(&self) -> (r: Timestamp)
        ensures
            r == self@.datetime,
    {
        self.datetime
    }

    /// A field-for-field copy of the post.
    pub fn duplicate(&self) -> (r: Post)
        ensures
            r@ == self@,
    {
        Post {
            title: self.title.clone(),
            body: self.body.clone(),
            author: self.author.clone(),
            datetime: self.datetime,
            uuid: self.uuid,
        }
    }
}

} // verus!
