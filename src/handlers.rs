use crate::database::{
    first_with_id, ids_unique, lemma_first_with_id_absent, lemma_first_with_id_finds, views, Database,
};
use crate::models::{Post, PostView};
use vstd::prelude::*;

verus! {

/// What `uuid::Uuid::parse_str` makes of a text: the identifier as a 128-bit
/// integer, or the text of the parse error.
pub uninterp spec fn uuid_parse_of(s: Seq<char>) -> Result<u128, Seq<char>>;

/// Relies on `uuid::Uuid::parse_str` to read an identifier in any of the
/// forms that crate accepts, and on its error's `Display` for the message.
#[verifier::external_body]
fn parse_uuid(s: &str) -> (r: Result<u128, String>)
    ensures
        match r {
            Ok(v) => uuid_parse_of(s@) == Ok::<u128, Seq<char>>(v),
            Err(m) => uuid_parse_of(s@) == Err::<u128, Seq<char>>(m@),
        },
{
    uuid::Uuid::parse_str(s).map(|u| u.as_u128()).map_err(|e| e.to_string())
}

/// The status of a reply.
#[derive(Clone, Copy, Debug, PartialEq, Eq, Structural)]
pub enum Status {
    Success,
    Created,
    BadRequest,
    NotFound,
    InternalServerError,
}

impl Status {
    /// The HTTP status code.
    pub fn code(&self) -> (r: u16)
        ensures
            r == match *self {
                Status::Success => 200u16,
                Status::Created => 201u16,
                Status::BadRequest => 400u16,
                Status::NotFound => 404u16,
                Status::InternalServerError => 500u16,
            },
    {
        match self {
            Status::Success => 200,
            Status::Created => 201,
            Status::BadRequest => 400,
            Status::NotFound => 404,
            Status::InternalServerError => 500,
        }
    }
}

/// What a reply holds, as mathematical values.
pub struct ReplyView {
    pub status: Status,
    pub body: Seq<char>,
    pub content_type: Option<Seq<char>>,
}

/// A reply to one request: its status, its body text, and its content type
/// once one has been set.
#[derive(Debug)]
pub struct Reply {
    pub status: Status,
    pub body: String,
    pub content_type: Option<String>,
}

impl View for Reply {
    type V = ReplyView;

    open spec fn view(&self) -> ReplyView {
        ReplyView {
            status: self.status,
            body: self.body@,
            content_type: match self.content_type {
                Some(c) => Some(c@),
                None => None,
            },
        }
    }
}

/// A reply with the given status and body and no content type yet.
pub open spec fn plain_reply(status: Status, body: Seq<char>) -> ReplyView {
    ReplyView { status, body, content_type: None }
}

impl Reply {
    pub fn new(status: Status, body: String) -> (r: Reply)
        ensures
            r@ == plain_reply(status, body@),
    {
        Reply { status, body, content_type: None }
    }
}

/// The reply of a route whose result was serialized: the text with success,
/// or the serialization error with an internal error.
pub open spec fn payload_reply_spec(payload: Result<Seq<char>, Seq<char>>) -> ReplyView {
    match payload {
        Ok(s) => plain_reply(Status::Success, s),
        Err(m) => plain_reply(Status::InternalServerError, m),
    }
}

pub open spec fn text_result(r: Result<String, String>) -> Result<Seq<char>, Seq<char>> {
    match r {
        Ok(s) => Ok(s@),
        Err(m) => Err(m@),
    }
}

/// The reply of the feed route, given the serialized feed.
pub fn payload_reply(payload: Result<String, String>) -> (r: Reply)
    ensures
        r@ == payload_reply_spec(text_result(payload)),
{
    match payload {
        Ok(s) => Reply::new(Status::Success, s),
        Err(m) => Reply::new(Status::InternalServerError, m),
    }
}


/// The content type stamped on every reply.
pub open spec fn json_content_type() -> Seq<char> {
    "application/json"@
}

/// Runs after every route and marks the reply as JSON.
pub struct JsonAfterMiddleware;

impl JsonAfterMiddleware {
    /// The content type this middleware sets.
    pub fn content_type(&self) -> (r: String)
        ensures
            r@ == json_content_type(),
    {
        "application/json".to_string()
    }

    /// The reply with its content type set to JSON; status and body are kept.
    pub fn after(&self, res: Reply) -> (r: Reply)
        ensures
            r@ == (ReplyView { content_type: Some(json_content_type()), ..res@ }),
    {
        Reply { status: res.status, body: res.body, content_type: Some(self.content_type()) }
    }
}

/// The outcome of a get-by-id request.
#[derive(Debug)]
pub enum Lookup {
    /// The route supplied no `id` parameter.
    MissingId,
    /// The parameter is not an identifier; the parse error's text.
    BadId(String),
    /// No post carries the identifier.
    NotFound,
    /// The first post that carries the identifier.
    Found(Post),
}

pub enum LookupView {
    MissingId,
    BadId(Seq<char>),
    NotFound,
    Found(PostView),
}

impl View for Lookup {
    type V = LookupView;

    open spec fn view(&self) -> LookupView {
        match self {
            Lookup::MissingId => LookupView::MissingId,
            Lookup::BadId(m) => LookupView::BadId(m@),
            Lookup::NotFound => LookupView::NotFound,
            Lookup::Found(p) => LookupView::Found(p@),
        }
    }
}

pub open spec fn opt_text(id: Option<&str>) -> Option<Seq<char>> {
    match id {
        Some(t) => Some(t@),
        None => None,
    }
}

/// Get-by-id against the posts `posts`, for the route parameter `id`.
pub open spec fn lookup_spec(posts: Seq<PostView>, id: Option<Seq<char>>) -> LookupView {
    match id {
        None => LookupView::MissingId,
        Some(t) => match uuid_parse_of(t) {
            Err(m) => LookupView::BadId(m),
            Ok(v) => match first_with_id(posts, v) {
                Some(p) => LookupView::Found(p),
                None => LookupView::NotFound,
            },
        },
    }
}

/// Reads the route parameter as an identifier; where that fails, the
/// outcome to report instead.
pub fn parse_id(id: Option<&str>) -> (r: Result<u128, Lookup>)
    ensures
        match r {
            Ok(v) => id is Some && uuid_parse_of(id->Some_0@) == Ok::<u128, Seq<char>>(v),
            Err(e) => e@ == lookup_spec(Seq::empty(), opt_text(id)) && (id is None || uuid_parse_of(
                id->Some_0@,
            ) is Err),
        },
{
    match id {
        None => Err(Lookup::MissingId),
        Some(t) => match parse_uuid(t) {
            Ok(v) => Ok(v),
            Err(m) => Err(Lookup::BadId(m)),
        },
    }
}

/// The reply to a get-by-id request: for a found post, the serialized post
/// decides it as for the feed; the other outcomes ignore `payload`.
pub open spec fn lookup_reply_spec(outcome: LookupView, payload: Result<Seq<char>, Seq<char>>) -> ReplyView {
    match outcome {
        LookupView::MissingId => plain_reply(Status::BadRequest, Seq::empty()),
        LookupView::BadId(m) => plain_reply(Status::BadRequest, m),
        LookupView::NotFound => plain_reply(Status::NotFound, Seq::empty()),
        LookupView::Found(_) => payload_reply_spec(payload),
    }
}

pub fn lookup_reply(outcome: &Lookup, payload: Result<String, String>) -> (r: Reply)
    ensures
        r@ == lookup_reply_spec(outcome@, text_result(payload)),
{
    match outcome {
        Lookup::MissingId => Reply::new(Status::BadRequest, String::new()),
        Lookup::BadId(m) => Reply::new(Status::BadRequest, m.clone()),
        Lookup::NotFound => Reply::new(Status::NotFound, String::new()),
        Lookup::Found(_) => payload_reply(payload),
    }
}

pub open spec fn post_result(parsed: Result<Post, String>) -> Result<PostView, Seq<char>> {
    match parsed {
        Ok(p) => Ok(p@),
        Err(m) => Err(m@),
    }
}

/// The store after a create request whose body was read as `parsed`.
pub open spec fn store_after_create(posts: Seq<PostView>, parsed: Result<PostView, Seq<char>>) -> Seq<PostView> {
    match parsed {
        Ok(p) => posts.push(p),
        Err(_) => posts,
    }
}

/// The reply to a create request: the request body echoed with created, or
/// the reason the body was refused with a client error.
pub open spec fn create_reply_spec(parsed: Result<PostView, Seq<char>>, payload: Seq<char>) -> ReplyView {
    match parsed {
        Ok(_) => plain_reply(Status::Created, payload),
        Err(m) => plain_reply(Status::BadRequest, m),
    }
}

/// Serves the whole feed.
pub struct PostFeedHandler;

/// Serves create requests.
pub struct PostPostHandler;

/// Serves get-by-id requests.
pub struct PostHandler;

/// The three handlers and the store they all serve.  Whoever runs them keeps
/// `database` behind one exclusive lock and hands it to each call.
pub struct Handlers {
    pub post_feed: PostFeedHandler,
    pub post_post: PostPostHandler,
    pub post: PostHandler,
    pub database: Database,
}

impl Handlers {
    /// The handlers around the store `db`.
    pub fn new(db: Database) -> (r: Handlers)
        ensures
            r.database@ == db@,
    {
        Handlers {
            post_feed: PostFeedHandler::new(),
            post_post: PostPostHandler::new(),
            post: PostHandler::new(),
            database: db,
        }
    }
}

impl PostFeedHandler {
    pub fn new() -> (r: PostFeedHandler) {
        PostFeedHandler
    }

    /// Every post in the store, oldest first; the store is only read, so two
    /// reads with no create between them give the same posts.
    pub fn handle(&self, db: &Database) -> (r: Vec<Post>)
        ensures
            views(r@) == db@,
    {
        db.snapshot()
    }
}

impl PostPostHandler {
    pub fn new() -> (r: PostPostHandler) {
        PostPostHandler
    }

    /// Create against the store `db`: `parsed` is the request body read as a
    /// post, or why it could not be; `payload` is the body itself.  A post is
    /// appended as it came, its identifier unchecked.
    pub fn handle(&self, db: &mut Database, parsed: Result<Post, String>, payload: String) -> (r: Reply)
        ensures
            final(db)@ == store_after_create(old(db)@, post_result(parsed)),
            r@ == create_reply_spec(post_result(parsed), payload@),
    {
        match parsed {
            Ok(p) => {
                db.add_post(p);
                Reply::new(Status::Created, payload)
            },
            Err(m) => Reply::new(Status::BadRequest, m),
        }
    }
}

impl PostHandler {
    pub fn new() -> (r: PostHandler) {
        PostHandler
    }

    /// The first post of the store, in insertion order, that carries `id`.
    pub fn find_post(&self, db: &Database, id: u128) -> (r: Option<Post>)
        ensures
            match r {
                Some(p) => first_with_id(db@, id) == Some(p@) && p@.uuid == id,
                None => first_with_id(db@, id) is None,
            },
    {
        db.find_post(id)
    }

    /// Get-by-id against the store `db`, for the route parameter `id`.
    pub fn handle(&self, db: &Database, id: Option<&str>) -> (r: Lookup)
        ensures
            r@ == lookup_spec(db@, opt_text(id)),
    {
        match parse_id(id) {
            Err(e) => e,
            Ok(v) => match self.find_post(db, v) {
                Some(p) => Lookup::Found(p),
                None => Lookup::NotFound,
            },
        }
    }
}

/// After a create whose body was the post `post`, the store holds every
/// earlier post unchanged and in order, followed by `post`; where no earlier
/// post carries its identifier, `post` stands there exactly once.
pub proof fn lemma_append_then_list(before: Seq<PostView>, post: PostView)
    requires
        forall|i: int| 0 <= i < before.len() ==> before[i].uuid != post.uuid,
    ensures
        ({
            let after = store_after_create(before, Ok(post));
            &&& after.len() == before.len() + 1
            &&& after.subrange(0, before.len() as int) == before
            &&& after[before.len() as int] == post
            &&& forall|i: int| 0 <= i < after.len() && after[i] == post ==> i == before.len()
        }),
{
    let after = store_after_create(before, Ok(post));
    assert(after.subrange(0, before.len() as int) =~= before);
}

/// A create whose body could not be read as a post is refused with a client
/// error and leaves the store as it was.
pub proof fn lemma_create_rejects_malformed(before: Seq<PostView>, reason: Seq<char>, payload: Seq<char>)
    ensures
        store_after_create(before, Err(reason)) == before,
        create_reply_spec(Err(reason), payload).status == Status::BadRequest,
{
}

/// In a store with unique identifiers, get-by-id with a text that reads as a
/// post's identifier finds that post; with one that reads as an identifier
/// no post carries it finds nothing; with one that is no identifier it is a
/// client error.
pub proof fn lemma_lookup_correct(posts: Seq<PostView>, text: Seq<char>)
    requires
        ids_unique(posts),
    ensures
        forall|k: int|
            0 <= k < posts.len() && uuid_parse_of(text) == Ok::<u128, Seq<char>>(#[trigger] posts[k].uuid)
                ==> lookup_spec(posts, Some(text)) == LookupView::Found(posts[k]),
        uuid_parse_of(text) is Ok && (forall|k: int|
            0 <= k < posts.len() ==> posts[k].uuid != uuid_parse_of(text)->Ok_0)
            ==> lookup_spec(posts, Some(text)) == LookupView::NotFound,
        uuid_parse_of(text) is Err ==> lookup_spec(posts, Some(text)) is BadId,
{
    assert forall|k: int|
        0 <= k < posts.len() && uuid_parse_of(text) == Ok::<u128, Seq<char>>(#[trigger] posts[k].uuid)
            implies lookup_spec(posts, Some(text)) == LookupView::Found(posts[k]) by {
        lemma_first_with_id_finds(posts, k);
    }
    if uuid_parse_of(text) is Ok && (forall|k: int|
        0 <= k < posts.len() ==> posts[k].uuid != uuid_parse_of(text)->Ok_0) {
        lemma_first_with_id_absent(posts, uuid_parse_of(text)->Ok_0);
    }
}

} // verus!
