//! A store that keeps its posts in memory.

use crate::date_time::DateTime;
use crate::db::{post_views, CreatePost, Db, DbError, Post, PostView};
use vstd::prelude::*;

verus! {

/// The largest number of posts that one listing holds.
pub const LISTING_LIMIT: usize = 100;

/// An in-memory store. It keeps every post in the order of storing, stamps
/// each with a time that is no earlier than that of the post before it, and
/// never fails.
#[derive(Debug)]
pub struct DevDb {
    posts: Vec<Post>,
}

impl View for DevDb {
    type V = Seq<PostView>;

    closed spec fn view(&self) -> Seq<PostView> {
        post_views(self.posts@)
    }
}

/// Whether no post of the list was stored at an earlier time than a post
/// before it.
pub open spec fn stamped_in_order(posts: Seq<PostView>) -> bool {
    forall|i: int, j: int|
        0 <= i <= j < posts.len() ==> (#[trigger] posts[i]).created_on.spec_not_after(
            &(#[trigger] posts[j]).created_on,
        )
}

/// The newest `limit` posts at most, the newest first.
pub open spec fn newest_first(posts: Seq<PostView>, limit: nat) -> Seq<PostView> {
    Seq::new(
        if posts.len() < limit {
            posts.len()
        } else {
            limit
        },
        |i: int| posts[posts.len() - 1 - i],
    )
}

/// The time a post gets that is stored at `now` after `posts`: `now`, or the
/// time of the last post where the clock has fallen behind it.
pub open spec fn next_stamp(posts: Seq<PostView>, now: DateTime) -> DateTime {
    if posts.len() == 0 {
        now
    } else {
        now.spec_later(posts.last().created_on)
    }
}

impl DevDb {
    /// The store's invariant: its posts are stamped in the order of storing.
    #[verifier::type_invariant]
    closed spec fn stamped(&self) -> bool {
        stamped_in_order(post_views(self.posts@))
    }

    /// Lists the newest posts, the newest first, [`LISTING_LIMIT`] at most.
    pub fn newest(&self) -> (listed: Vec<Post>)
        ensures
            post_views(listed@) == newest_first(self@, LISTING_LIMIT as nat),
            listed@.len() == if self@.len() < LISTING_LIMIT {
                self@.len()
            } else {
                LISTING_LIMIT as nat
            },
            forall|i: int|
                0 <= i < listed@.len() ==> (#[trigger] listed@[i])@ == self@[self@.len() - 1 - i],
            stamped_in_order(self@),
    {
        proof {
            use_type_invariant(self);
        }
        let total = self.posts.len();
        let count = if total < LISTING_LIMIT {
            total
        } else {
            LISTING_LIMIT
        };
        let mut listed: Vec<Post> = Vec::new();
        let mut i: usize = 0;
        while i < count
            invariant
                i <= count <= total,
                total == self.posts@.len(),
                listed@.len() == i,
                forall|k: int| 0 <= k < i ==> (#[trigger] listed@[k])@ == self.posts@[total - 1 - k]@,
            decreases count - i,
        {
            listed.push(self.posts[total - 1 - i].clone());
            i += 1;
        }
        assert(post_views(listed@) =~= newest_first(self@, LISTING_LIMIT as nat));
        listed
    }

    /// Stores a post at the time `now` and hands it back. Should the clock
    /// have fallen behind the last post, the new post gets that post's time.
    pub fn store(&mut self, create_post: CreatePost, now: DateTime) -> (post: Post)
        ensures
            stamped_in_order(final(self)@),
            post@.answers(create_post@),
            post@.created_on == next_stamp(old(self)@, now),
            final(self)@ == old(self)@.push(post@),
    {
        proof {
            use_type_invariant(&*self);
        }
        let count = self.posts.len();
        let created_on = if count == 0 {
            now
        } else {
            now.later(self.posts[count - 1].created_on)
        };
        let CreatePost { author, title, body } = create_post;
        let post = Post { author, created_on, title, body };
        let ghost before = self@;
        let mut taken = DevDb { posts: Vec::new() };
        std::mem::swap(self, &mut taken);
        let DevDb { posts: mut posts } = taken;
        posts.push(post.clone());
        proof {
            assert(post_views(posts@) =~= before.push(post@));
            assert forall|i: int, j: int| 0 <= i <= j < posts@.len() implies (#[trigger] post_views(
                posts@,
            )[i]).created_on.spec_not_after(&(#[trigger] post_views(posts@)[j]).created_on) by {
                if j == before.len() && i < j {
                    assert(before[i].created_on.spec_not_after(&before.last().created_on));
                }
            }
        }
        *self = DevDb { posts };
        post
    }
}

impl Default for DevDb {
    fn default() -> (db: Self)
        ensures
            db@.len() == 0,
    {
        DevDb { posts: Vec::new() }
    }
}

impl Db for DevDb {
    fn posts(&self) -> (listed: Result<Vec<Post>, DbError>)
        ensures
            listed matches Ok(posts) && post_views(posts@) == newest_first(
                self@,
                LISTING_LIMIT as nat,
            ),
    {
        Ok(self.newest())
    }

    fn create_post(&mut self, create_post: CreatePost) -> (stored: Result<Post, DbError>)
        ensures
            stored matches Ok(post) && final(self)@ == old(self)@.push(post@),
            stamped_in_order(final(self)@),
    {
        let now = DateTime::now();
        Ok(self.store(create_post, now))
    }
}

} // verus!
