//! An in-memory blog post store with its request handlers.
//!
//! `models` holds the post record, `database` the append-only store, and
//! `handlers` the decisions behind the feed, create and get-by-id routes.

pub mod database;
pub mod handlers;
pub mod models;
