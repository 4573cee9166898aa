//! The decision core of a federated relay: the actors it serves, the posts it
//! tracks, the state it keeps and the activities it fans out to followers.
//!
//! The library decides and computes; it never talks to the network or to a
//! durable store. Whoever runs the relay carries out the requests that the
//! library plans and hands the answers back.
pub mod text;
pub mod uri;
pub mod error;

pub mod post;
pub mod note;
pub mod order;
pub mod actor;
pub mod activitypub;

pub mod api;
pub mod replies;

pub mod store;
pub mod db;

pub mod signature;
pub mod send;

pub mod workers;
pub mod relay;
pub mod trends;
pub mod timeline;
pub mod descendants;
pub mod completion;
pub mod inbound;
