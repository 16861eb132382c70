use blog_api::database::Database;
use blog_api::handlers::{
    lookup_reply, parse_id, payload_reply, Handlers, JsonAfterMiddleware, Lookup, PostFeedHandler,
    PostHandler, PostPostHandler, Reply, Status,
};
use blog_api::models::{Post, Timestamp};
use chrono::{DateTime, Utc};
use uuid::Uuid;

const A_ID: &str = "67e55044-10b1-426f-9247-bb680e5fe0c8";
const B_ID: &str = "550e8400-e29b-41d4-a716-446655440000";
const C_ID: &str = "a1a2a3a4-b1b2-c1c2-d1d2-d3d4d5d6d7d8";

fn id(text: &str) -> u128 {
    Uuid::parse_str(text).unwrap().as_u128()
}

fn post(title: &str, uuid: &str) -> Post {
    Post::new(
        title,
        "some text",
        "someone",
        Timestamp { secs: 1_500_000_000, nanos: 42 },
        id(uuid),
    )
}

fn seeded() -> Database {
    let mut db = Database::new();
    db.add_post(post("The First Post", A_ID));
    db.add_post(post("The next post is better", B_ID));
    db
}

fn titles(posts: &[Post]) -> Vec<String> {
    posts.iter().map(|p| p.title().to_string()).collect()
}

#[test]
fn post_new_keeps_fields() {
    let p = Post::new("t", "b", "a", Timestamp { secs: -5, nanos: 7 }, 99);
    assert_eq!(p.title(), "t");
    assert_eq!(p.body(), "b");
    assert_eq!(p.author(), "a");
    assert_eq!(p.datetime(), Timestamp { secs: -5, nanos: 7 });
    assert_eq!(p.uuid(), 99);
    let q = p.duplicate();
    assert_eq!(q.title(), "t");
    assert_eq!(q.uuid(), 99);
}

#[test]
fn new_store_is_empty() {
    assert!(Database::new().posts().is_empty());
    assert!(Database::new().snapshot().is_empty());
}

#[test]
fn feed_twice_gives_same_posts() {
    let db = seeded();
    let first = db.snapshot();
    let second = db.snapshot();
    assert_eq!(titles(&first), titles(&second));
    assert_eq!(titles(&first), vec!["The First Post", "The next post is better"]);
}

#[test]
fn append_then_list_puts_post_last_once() {
    let mut db = seeded();
    db.add_post(post("third", C_ID));
    let feed = db.snapshot();
    assert_eq!(titles(&feed), vec!["The First Post", "The next post is better", "third"]);
    assert_eq!(feed.iter().filter(|p| p.uuid() == id(C_ID)).count(), 1);
}

#[test]
fn duplicate_ids_are_accepted_and_first_wins() {
    let mut db = Database::new();
    db.add_post(post("one", A_ID));
    db.add_post(post("two", A_ID));
    assert_eq!(db.posts().len(), 2);
    assert_eq!(db.find_post(id(A_ID)).unwrap().title(), "one");
}

#[test]
fn find_post_misses_unknown_id() {
    assert!(seeded().find_post(0).is_none());
}

#[test]
fn lookup_finds_each_post() {
    let db = seeded();
    for (text, title) in [(A_ID, "The First Post"), (B_ID, "The next post is better")] {
        match PostHandler::new().handle(&db, Some(text)) {
            Lookup::Found(p) => {
                assert_eq!(p.title(), title);
                assert_eq!(p.uuid(), id(text));
            }
            other => panic!("expected a post, got {:?}", other),
        }
    }
}

#[test]
fn lookup_reads_other_uuid_forms() {
    let db = seeded();
    let simple = "550E8400E29B41D4A716446655440000";
    match PostHandler::new().handle(&db, Some(simple)) {
        Lookup::Found(p) => assert_eq!(p.title(), "The next post is better"),
        other => panic!("expected a post, got {:?}", other),
    }
}

#[test]
fn lookup_unused_id_is_not_found() {
    let db = seeded();
    assert!(matches!(
        PostHandler::new().handle(&db, Some("00000000-0000-0000-0000-000000000000")),
        Lookup::NotFound
    ));
}

#[test]
fn lookup_bad_id_is_client_error() {
    let db = seeded();
    match PostHandler::new().handle(&db, Some("not-a-uuid")) {
        Lookup::BadId(message) => assert!(!message.is_empty()),
        other => panic!("expected a parse error, got {:?}", other),
    }
    let reply = lookup_reply(&PostHandler::new().handle(&db, Some("not-a-uuid")), Ok(String::new()));
    assert_eq!(reply.status, Status::BadRequest);
    assert!(!reply.body.is_empty());
}

#[test]
fn lookup_missing_param_is_bad_request() {
    let db = seeded();
    assert!(matches!(PostHandler::new().handle(&db, None), Lookup::MissingId));
    let reply = lookup_reply(&Lookup::MissingId, Ok("ignored".to_string()));
    assert_eq!(reply.status, Status::BadRequest);
    assert_eq!(reply.body, "");
}

#[test]
fn parse_id_reads_identifier() {
    assert_eq!(parse_id(Some(B_ID)).unwrap(), 0x550e8400e29b41d4a716446655440000);
    assert!(matches!(parse_id(Some("")), Err(Lookup::BadId(_))));
    assert!(matches!(parse_id(None), Err(Lookup::MissingId)));
}

#[test]
fn lookup_reply_statuses() {
    let found = lookup_reply(&Lookup::Found(post("x", A_ID)), Ok("{}".to_string()));
    assert_eq!(found.status, Status::Success);
    assert_eq!(found.body, "{}");
    let broken = lookup_reply(&Lookup::Found(post("x", A_ID)), Err("bad".to_string()));
    assert_eq!(broken.status, Status::InternalServerError);
    assert_eq!(broken.body, "bad");
    let missing = lookup_reply(&Lookup::NotFound, Ok("{}".to_string()));
    assert_eq!(missing.status, Status::NotFound);
    assert_eq!(missing.body, "");
}

#[test]
fn payload_reply_statuses() {
    let ok = payload_reply(Ok("[]".to_string()));
    assert_eq!((ok.status, ok.body.as_str()), (Status::Success, "[]"));
    let err = payload_reply(Err("boom".to_string()));
    assert_eq!((err.status, err.body.as_str()), (Status::InternalServerError, "boom"));
}

#[test]
fn create_appends_and_echoes_body() {
    let mut db = seeded();
    let reply = PostPostHandler::new().handle(&mut db, Ok(post("third", C_ID)), "{\"title\":\"third\"}".to_string());
    assert_eq!(reply.status, Status::Created);
    assert_eq!(reply.body, "{\"title\":\"third\"}");
    assert_eq!(reply.content_type, None);
    assert_eq!(db.posts().len(), 3);
    assert_eq!(db.posts()[2].title(), "third");
}

#[test]
fn create_rejects_malformed_body() {
    let mut db = seeded();
    let reply = PostPostHandler::new().handle(&mut db, Err("missing field `title`".to_string()), "{}".to_string());
    assert_eq!(reply.status, Status::BadRequest);
    assert_eq!(reply.body, "missing field `title`");
    assert_eq!(db.posts().len(), 2);
}

#[test]
fn status_codes() {
    assert_eq!(Status::Success.code(), 200);
    assert_eq!(Status::Created.code(), 201);
    assert_eq!(Status::BadRequest.code(), 400);
    assert_eq!(Status::NotFound.code(), 404);
    assert_eq!(Status::InternalServerError.code(), 500);
}

#[test]
fn middleware_sets_json_content_type() {
    let m = JsonAfterMiddleware;
    let r = m.after(Reply::new(Status::NotFound, String::new()));
    assert_eq!(r.status, Status::NotFound);
    assert_eq!(r.body, "");
    assert_eq!(r.content_type.as_deref(), Some("application/json"));
    assert_eq!(m.content_type(), "application/json");
}

#[test]
fn seeded_routes_scenario() {
    let mut h = Handlers::new(seeded());
    assert_eq!(
        titles(&h.post_feed.handle(&h.database)),
        vec!["The First Post", "The next post is better"]
    );

    let created = h.post_post.handle(&mut h.database, Ok(post("C", C_ID)), "body of C".to_string());
    assert_eq!(created.status.code(), 201);
    assert_eq!(created.body, "body of C");
    assert_eq!(
        titles(&h.post_feed.handle(&h.database)),
        vec!["The First Post", "The next post is better", "C"]
    );

    match h.post.handle(&h.database, Some(B_ID)) {
        Lookup::Found(p) => assert_eq!(p.title(), "The next post is better"),
        other => panic!("expected B, got {:?}", other),
    }
    let miss = h.post.handle(&h.database, Some("00000000-0000-0000-0000-000000000000"));
    assert_eq!(lookup_reply(&miss, Ok(String::new())).status.code(), 404);
}

#[test]
fn handlers_reject_bad_create_and_bad_id() {
    let mut h = Handlers::new(seeded());
    let reply = h.post_post.handle(&mut h.database, Err("missing field".to_string()), "{}".to_string());
    assert_eq!(reply.status, Status::BadRequest);
    assert_eq!(h.post_feed.handle(&h.database).len(), 2);
    assert!(matches!(h.post.handle(&h.database, Some("zzz")), Lookup::BadId(_)));
    assert!(matches!(h.post.handle(&h.database, None), Lookup::MissingId));
    assert_eq!(h.post.find_post(&h.database, id(A_ID)).unwrap().title(), "The First Post");
}

#[test]
fn empty_store_gives_empty_feed() {
    let h = Handlers::new(Database::new());
    assert!(h.post_feed.handle(&h.database).is_empty());
    assert!(PostFeedHandler::new().handle(&Database::new()).is_empty());
}

#[test]
fn post_fields_round_trip_through_wire_types() {
    let when = DateTime::<Utc>::from_timestamp(1_700_000_123, 456_789_012).unwrap();
    let uuid = Uuid::parse_str(C_ID).unwrap();
    let p = Post::new(
        "title",
        "body",
        "author",
        Timestamp { secs: when.timestamp(), nanos: when.timestamp_subsec_nanos() },
        uuid.as_u128(),
    );
    let t = p.datetime();
    assert_eq!(DateTime::<Utc>::from_timestamp(t.secs, t.nanos).unwrap(), when);
    assert_eq!(Uuid::from_u128(p.uuid()).hyphenated().to_string(), C_ID);
    assert_eq!((p.title(), p.body(), p.author()), ("title", "body", "author"));
}
