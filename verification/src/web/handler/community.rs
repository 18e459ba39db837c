//! The community page.

use crate::date_time::{DateTime, TimeZone};
use crate::db::{Author, Post, PostView};
use vstd::prelude::*;

verus! {

/// A post as the community page shows it: the post, and the zone to show
/// its time in.
#[derive(Debug)]
pub struct CommunityPost {
    pub user_tz: TimeZone,
    pub author: Author,
    pub created_on: DateTime,
    pub title: String,
    pub body: String,
}

impl CommunityPost {
    /// The post that is shown.
    pub open spec fn post(&self) -> PostView {
        PostView {
            author: self.author@,
            created_on: self.created_on,
            title: self.title@,
            body: self.body@,
        }
    }

    /// A post, to be shown in a reader's zone.
    pub fn new(user_tz: TimeZone, post: Post) -> (shown: Self)
        ensures
            shown.user_tz == user_tz,
            shown.post() == post@,
    {
        let Post { author, created_on, title, body } = post;
        CommunityPost { user_tz, author, created_on, title, body }
    }
}

/// The posts of a page, each to be shown in the reader's zone, in the order
/// given.
pub fn community_posts(user_tz: TimeZone, posts: Vec<Post>) -> (shown: Vec<CommunityPost>)
    ensures
        shown@.len() == posts@.len(),
        forall|i: int|
            0 <= i < shown@.len() ==> (#[trigger] shown@[i]).user_tz == user_tz && shown@[i].post()
                == posts@[i]@,
{
    let mut posts = posts;
    let ghost all = posts@;
    let mut shown: Vec<CommunityPost> = Vec::new();
    while posts.len() > 0
        invariant
            shown@.len() + posts@.len() == all.len(),
            forall|i: int| 0 <= i < posts@.len() ==> posts@[i] == all[shown@.len() + i],
            forall|i: int|
                0 <= i < shown@.len() ==> (#[trigger] shown@[i]).user_tz == user_tz
                    && shown@[i].post() == all[i]@,
        decreases posts@.len(),
    {
        let post = posts.remove(0);
        shown.push(CommunityPost::new(user_tz, post));
    }
    shown
}

} // verus!
