//! A small federated-style posting service: the live-update hub and the
//! deterministic population of simulated users that exercises it.
//!
//! The library holds the decisions; a program around it holds the clock, the
//! sockets and the locks.
//!
//! - [`Summit`] is the service: it hands posts to a store ([`db::Db`]) and
//!   publishes what was stored on the event hub ([`hub::EventHub`]), which
//!   keeps one small queue for each open event stream.
//! - [`web::handler::live::Connection`] is the life of one event stream, and
//!   [`web::shutdown::ShutdownSignal`] the signal that ends every loop.
//! - [`dev::fake::users::FakeUsers`] is a population of simulated users that
//!   write posts on a schedule of ticks. Everything about it follows from
//!   one seed: the contracts say which user is created and which post is
//!   written in terms of the draws of the seeded generator ([`rng`]).
//!
//! What is proved is proved of every input. What is taken on trust is the
//! behaviour of the crates underneath (`rand`, `fake`, `chrono`, `uuid7`,
//! `data_encoding`, `pulldown_cmark`) and of a few functions of `std`; each
//! such function is marked `external_body` and says above it what is claimed.

use crate::date_time::TimeZone;
use crate::db::{CreatePost, Db, DbError, Post};
use crate::hub::{accepting, published, Delivery, EventHub};
use crate::uuid::{RequestId, UserId};
use vstd::prelude::*;
use vstd::std_specs::convert::FromSpecImpl;

pub mod cli;
pub mod date_time;
pub mod db;
pub mod dev;
pub mod hub;
pub mod rng;
pub mod uuid;
pub mod web;

verus! {

/// Why the service could not do what it was asked. Each kind carries a
/// description for the log.
#[derive(Debug)]
pub enum Error {
    /// The store failed. The request is lost; the service goes on.
    Storage(String),
    /// Shared state was in use by someone else. Nothing is tried again.
    Lock(String),
    /// A queue was closed or full.
    Channel(String),
    /// An event could not be rendered.
    Render(String),
}

/// The error that a failure of the store is handed out as.
pub open spec fn storage_error(err: DbError) -> Error {
    match err {
        DbError::Other(description) => Error::Storage(description),
    }
}

/// What the store's answer to a request to store a post is handed out as:
/// the post as it is, a failure as [`Error::Storage`].
pub open spec fn created_as(stored: Result<Post, DbError>) -> Result<Post, Error> {
    match stored {
        Ok(post) => Ok(post),
        Err(err) => Err(storage_error(err)),
    }
}

/// Whether `created` is what comes of asking a store of kind `D` to store a
/// post that says `request`: the store was asked with such a request, and
/// its answer was handed out as [`created_as`] says.
pub open spec fn asked_to_store<D: Db>(
    request: crate::db::CreatePostView,
    created: Result<Post, Error>,
) -> bool {
    exists|stored: Result<Post, DbError>, db: &mut D, create_post: CreatePost|
        create_post@ == request && #[trigger] call_ensures(
            D::create_post,
            (db, create_post),
            stored,
        ) && created == created_as(stored)
}

/// What a listing of the store is handed out as: the posts as they are, a
/// failure as [`Error::Storage`].
pub open spec fn listed_as(listed: Result<Vec<Post>, DbError>) -> Result<Vec<Post>, Error> {
    match listed {
        Ok(list) => Ok(list),
        Err(err) => Err(storage_error(err)),
    }
}

impl From<DbError> for Error {
    fn from(err: DbError) -> (error: Self) {
        match err {
            DbError::Other(description) => Error::Storage(description),
        }
    }
}

impl FromSpecImpl<DbError> for Error {
    open spec fn obeys_from_spec() -> bool {
        true
    }

    open spec fn from_spec(err: DbError) -> Self {
        storage_error(err)
    }
}

/// The service: a store of posts, and the hub that tells open event streams
/// of each new post.
#[derive(Debug)]
pub struct Summit<D: Db> {
    pub db: D,
    pub hub: EventHub,
}

impl<D: Db> Summit<D> {
    /// The service over a store, with no event stream open.
    pub fn new(db: D) -> (summit: Self)
        ensures
            summit.db == db,
            summit.hub@.len() == 0,
    {
        Summit { db, hub: EventHub::new() }
    }

    /// Tells every open event stream of a new post. A stream that is closed
    /// or full misses it; the caller is never held up.
    pub fn send_post_event(&mut self, post: &Post) -> (delivery: Delivery)
        ensures
            final(self).db == old(self).db,
            final(self).hub@ == published(old(self).hub@, post@),
            delivery.delivered == accepting(old(self).hub@),
            delivery.delivered + delivery.dropped == old(self).hub@.len(),
    {
        self.hub.publish(post)
    }

    /// What follows the store's answer to a request to store a post: a stored
    /// post is published and handed out; a failure of the store is handed
    /// out as [`Error::Storage`] and nothing is published.
    pub fn after_create(&mut self, stored: Result<Post, DbError>) -> (created: Result<Post, Error>)
        ensures
            final(self).db == old(self).db,
            created == created_as(stored),
            final(self).hub@ == match stored {
                Ok(post) => published(old(self).hub@, post@),
                Err(_) => old(self).hub@,
            },
    {
        match stored {
            Ok(post) => {
                self.send_post_event(&post);
                Ok(post)
            },
            Err(err) => Err(Error::from(err)),
        }
    }

    /// Stores a post and publishes it. The store is asked once, with this
    /// request, and its answer is handed on as [`created_as`] says. Whether
    /// the store takes the post is the store's affair: if it does, the post
    /// holds what was asked for and every open stream with room gets it; if
    /// it does not, the hub is left as it was and the error says so.
    pub fn create_post(&mut self, create_post: CreatePost) -> (created: Result<Post, Error>)
        ensures
            exists|stored: Result<Post, DbError>, db: &mut D|
                *db == old(self).db && *final(db) == final(self).db && #[trigger] call_ensures(
                    D::create_post,
                    (db, create_post),
                    stored,
                ) && created == created_as(stored),
            asked_to_store::<D>(create_post@, created),
            match created {
                Ok(post) => post@.answers(create_post@) && final(self).hub@ == published(
                    old(self).hub@,
                    post@,
                ),
                Err(err) => err is Storage && final(self).hub@ == old(self).hub@,
            },
    {
        let stored = self.db.create_post(create_post);
        self.after_create(stored)
    }

    /// What follows the store's answer to a request for its posts: the posts
    /// as the store listed them, or its failure as [`Error::Storage`].
    pub fn after_posts(listed: Result<Vec<Post>, DbError>) -> (posts: Result<Vec<Post>, Error>)
        ensures
            posts == listed_as(listed),
    {
        match listed {
            Ok(list) => Ok(list),
            Err(err) => Err(Error::from(err)),
        }
    }

    /// The posts that the store lists. The store is asked once, and its
    /// answer is handed on: the posts as it listed them, or its failure as
    /// [`Error::Storage`]. What is known of the store's answers is thereby
    /// known of the result.
    pub fn posts(&self) -> (posts: Result<Vec<Post>, Error>)
        ensures
            exists|listed: Result<Vec<Post>, DbError>|
                call_ensures(D::posts, (&self.db,), listed) && posts == listed_as(listed),
            posts matches Err(err) ==> err is Storage,
    {
        let listed = self.db.posts();
        Self::after_posts(listed)
    }

    /// Opens the event stream of a user who names no request: the stream is
    /// registered under the user and the default request.
    pub fn user_events(&mut self, user_id: UserId) -> (handle: usize)
        ensures
            final(self).db == old(self).db,
            handle < final(self).hub@.len(),
            final(self).hub@[handle as int].has_key(user_id, RequestId(crate::uuid::Uuid(0))),
            crate::hub::is_registered(old(self).hub@, user_id, RequestId(crate::uuid::Uuid(0)))
                ==> final(self).hub@ == old(self).hub@,
            !crate::hub::is_registered(old(self).hub@, user_id, RequestId(crate::uuid::Uuid(0)))
                ==> final(self).hub@ == old(self).hub@.push(
                crate::hub::SubscriptionView::fresh(user_id, RequestId(crate::uuid::Uuid(0))),
            ) && handle == old(self).hub@.len(),
    {
        self.hub.open_event_stream(user_id, RequestId::default())
    }

    /// Opens the event stream of a user's request; see
    /// [`EventHub::open_event_stream`].
    pub fn open_event_stream(&mut self, user_id: UserId, req_id: RequestId) -> (handle: usize)
        ensures
            final(self).db == old(self).db,
            handle < final(self).hub@.len(),
            final(self).hub@[handle as int].has_key(user_id, req_id),
            crate::hub::is_registered(old(self).hub@, user_id, req_id) ==> final(self).hub@ == old(self).hub@,
            !crate::hub::is_registered(old(self).hub@, user_id, req_id) ==> final(self).hub@
                == old(self).hub@.push(crate::hub::SubscriptionView::fresh(user_id, req_id))
                && handle == old(self).hub@.len(),
    {
        self.hub.open_event_stream(user_id, req_id)
    }
}

/// A user of the service.
#[derive(Debug, Clone, Copy)]
pub struct User {
    pub time_zone: TimeZone,
}

} // verus!
