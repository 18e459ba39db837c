//! The event hub: one bounded queue of new posts for each open event
//! stream.
//!
//! A stream is registered under the user and the request it belongs to.
//! Publishing a post offers it to every registered stream; a stream that is
//! closed or whose queue is full misses it, and nobody else is held up.
//! Registrations are never removed.

use crate::db::{post_views, Post, PostView};
use crate::uuid::{RequestId, UserId};
use vstd::prelude::*;

verus! {

/// The number of posts that may wait in the queue of one stream.
pub const STREAM_CAPACITY: usize = 2;

/// One registered event stream.
#[derive(Debug)]
pub struct Subscription {
    pub user_id: UserId,
    pub request_id: RequestId,
    pub queue: Vec<Post>,
    pub open: bool,
}

/// What a [`Subscription`] holds.
pub struct SubscriptionView {
    pub user_id: UserId,
    pub request_id: RequestId,
    pub queue: Seq<PostView>,
    pub open: bool,
}

impl View for Subscription {
    type V = SubscriptionView;

    open spec fn view(&self) -> SubscriptionView {
        SubscriptionView {
            user_id: self.user_id,
            request_id: self.request_id,
            queue: post_views(self.queue@),
            open: self.open,
        }
    }
}

impl SubscriptionView {
    /// A stream that was just opened: nothing waits in it.
    pub open spec fn fresh(user_id: UserId, request_id: RequestId) -> SubscriptionView {
        SubscriptionView { user_id, request_id, queue: Seq::empty(), open: true }
    }

    /// Whether the stream is registered under this user and request.
    pub open spec fn has_key(&self, user_id: UserId, request_id: RequestId) -> bool {
        self.user_id == user_id && self.request_id == request_id
    }

    /// Whether the stream takes one more post: it is open and its queue is
    /// not full.
    pub open spec fn accepts(&self) -> bool {
        self.open && self.queue.len() < STREAM_CAPACITY
    }

    /// The stream after a post was offered to it.
    pub open spec fn offered(self, post: PostView) -> SubscriptionView {
        if self.accepts() {
            SubscriptionView { queue: self.queue.push(post), ..self }
        } else {
            self
        }
    }

    /// The stream after its first waiting post was taken.
    pub open spec fn taken(self) -> SubscriptionView {
        SubscriptionView { queue: self.queue.drop_first(), ..self }
    }

    /// The stream after its reader went away: closed, with nothing waiting.
    pub open spec fn closed(self) -> SubscriptionView {
        SubscriptionView { queue: Seq::empty(), open: false, ..self }
    }
}

/// The views of a list of subscriptions.
pub open spec fn subscription_views(subscriptions: Seq<Subscription>) -> Seq<SubscriptionView> {
    Seq::new(subscriptions.len(), |i: int| subscriptions[i]@)
}

/// Whether some stream of the list is registered under this user and
/// request.
pub open spec fn is_registered(
    streams: Seq<SubscriptionView>,
    user_id: UserId,
    request_id: RequestId,
) -> bool {
    exists|i: int| 0 <= i < streams.len() && (#[trigger] streams[i]).has_key(user_id, request_id)
}

/// The hub's invariant: no two streams share a user and request, and no
/// queue holds more than [`STREAM_CAPACITY`] posts.
pub open spec fn well_formed(streams: Seq<SubscriptionView>) -> bool {
    &&& forall|i: int, j: int|
        0 <= i < j < streams.len() ==> !(#[trigger] streams[i]).has_key(
            (#[trigger] streams[j]).user_id,
            streams[j].request_id,
        )
    &&& forall|i: int| 0 <= i < streams.len() ==> (#[trigger] streams[i]).queue.len() <= STREAM_CAPACITY
}

/// The streams after a post was offered to each of them.
pub open spec fn published(streams: Seq<SubscriptionView>, post: PostView) -> Seq<
    SubscriptionView,
> {
    Seq::new(streams.len(), |i: int| streams[i].offered(post))
}

/// The streams after each post of a list was published in turn.
pub open spec fn published_all(streams: Seq<SubscriptionView>, posts: Seq<PostView>) -> Seq<
    SubscriptionView,
>
    decreases posts.len(),
{
    if posts.len() == 0 {
        streams
    } else {
        published(published_all(streams, posts.drop_last()), posts.last())
    }
}

/// The number of streams of the list that take one more post.
pub open spec fn accepting(streams: Seq<SubscriptionView>) -> nat
    decreases streams.len(),
{
    if streams.len() == 0 {
        0
    } else {
        accepting(streams.drop_last()) + if streams.last().accepts() {
            1nat
        } else {
            0nat
        }
    }
}

/// Publishing reaches every stream that is open and has room, and what
/// happens to one stream is nothing to another: two such streams both get
/// the post at the end of their queues, and closing the one beforehand
/// changes nothing for the other, while the closed one gets nothing.
pub proof fn lemma_fan_out_is_isolated(
    streams: Seq<SubscriptionView>,
    post: PostView,
    one: int,
    other: int,
)
    requires
        0 <= one < streams.len(),
        0 <= other < streams.len(),
        one != other,
        streams[one].accepts(),
        streams[other].accepts(),
    ensures
        published(streams, post)[one].queue == streams[one].queue.push(post),
        published(streams, post)[other].queue == streams[other].queue.push(post),
        published(streams.update(one, streams[one].closed()), post)[other].queue
            == streams[other].queue.push(post),
        published(streams.update(one, streams[one].closed()), post)[one] == streams[one].closed(),
        published(streams, post).len() == streams.len(),
{
}

/// How one publication went: how many streams took the post, and how many
/// missed it because they were closed or full.
#[derive(Debug, Clone, Copy, PartialEq, Eq, Structural)]
pub struct Delivery {
    pub delivered: usize,
    pub dropped: usize,
}

/// What a stream has for its reader.
#[derive(Debug)]
pub enum StreamPoll {
    /// The post that waited longest; it has left the queue.
    Event(Post),
    /// Nothing waits; the stream is open.
    Empty,
    /// The stream is closed, or no stream has this handle.
    Closed,
}

/// The registry of event streams.
#[derive(Debug)]
pub struct EventHub {
    subscriptions: Vec<Subscription>,
}

impl View for EventHub {
    type V = Seq<SubscriptionView>;

    closed spec fn view(&self) -> Seq<SubscriptionView> {
        subscription_views(self.subscriptions@)
    }
}

impl EventHub {
    #[verifier::type_invariant]
    closed spec fn inv(&self) -> bool {
        well_formed(subscription_views(self.subscriptions@))
    }

    /// A hub with no streams.
    pub fn new() -> (hub: Self)
        ensures
            hub@.len() == 0,
    {
        EventHub { subscriptions: Vec::new() }
    }

    /// The number of registered streams, open or closed. The hub is well
    /// formed at all times.
    pub fn len(&self) -> (count: usize)
        ensures
            count == self@.len(),
            well_formed(self@),
    {
        proof {
            use_type_invariant(self);
        }
        self.subscriptions.len()
    }

    /// Takes the subscriptions out, leaving the hub empty.
    fn take(&mut self) -> (subscriptions: Vec<Subscription>)
        ensures
            subscription_views(subscriptions@) == old(self)@,
            well_formed(old(self)@),
            final(self)@.len() == 0,
    {
        proof {
            use_type_invariant(&*self);
        }
        let mut taken = EventHub { subscriptions: Vec::new() };
        std::mem::swap(self, &mut taken);
        let EventHub { subscriptions } = taken;
        subscriptions
    }

    /// Opens the event stream of a user's request and hands out its handle.
    /// The first call for a user and request registers a fresh stream after
    /// all the others; every later call finds that stream again and changes
    /// nothing.
    pub fn open_event_stream(&mut self, user_id: UserId, request_id: RequestId) -> (handle: usize)
        ensures
            well_formed(final(self)@),
            handle < final(self)@.len(),
            final(self)@[handle as int].has_key(user_id, request_id),
            forall|i: int|
                0 <= i < old(self)@.len() && (#[trigger] old(self)@[i]).has_key(user_id, request_id)
                    ==> handle == i,
            is_registered(old(self)@, user_id, request_id) ==> final(self)@ == old(self)@,
            !is_registered(old(self)@, user_id, request_id) ==> final(self)@ == old(self)@.push(
                SubscriptionView::fresh(user_id, request_id),
            ) && handle == old(self)@.len(),
    {
        let mut subscriptions = self.take();
        let ghost before = subscription_views(subscriptions@);
        let mut i: usize = 0;
        let mut found: Option<usize> = None;
        while i < subscriptions.len()
            invariant_except_break
                found is None,
                forall|k: int| 0 <= k < i ==> !(#[trigger] before[k]).has_key(user_id, request_id),
            invariant
                i <= subscriptions.len(),
                subscription_views(subscriptions@) == before,
            ensures
                subscription_views(subscriptions@) == before,
                match found {
                    Some(at) => at < before.len() && before[at as int].has_key(
                        user_id,
                        request_id,
                    ),
                    None => !is_registered(before, user_id, request_id),
                },
            decreases subscriptions.len() - i,
        {
            if subscriptions[i].user_id == user_id && subscriptions[i].request_id == request_id {
                assert(before[i as int] == subscriptions@[i as int]@);
                found = Some(i);
                break ;
            }
            assert(before[i as int] == subscriptions@[i as int]@);
            i += 1;
        }
        let handle = match found {
            Some(at) => at,
            None => {
                let at = subscriptions.len();
                subscriptions.push(
                    Subscription { user_id, request_id, queue: Vec::new(), open: true },
                );
                proof {
                    let fresh = SubscriptionView::fresh(user_id, request_id);
                    assert(post_views(Seq::<Post>::empty()) =~= Seq::<PostView>::empty());
                    assert(subscription_views(subscriptions@) =~= before.push(fresh));
                    let after = subscription_views(subscriptions@);
                    assert forall|a: int, b: int| 0 <= a < b < after.len() implies !(
                    #[trigger] after[a]).has_key((#[trigger] after[b]).user_id, after[b].request_id) by {
                        if b == before.len() {
                            assert(!before[a].has_key(user_id, request_id));
                        } else {
                            assert(!before[a].has_key(before[b].user_id, before[b].request_id));
                        }
                    }
                }
                at
            },
        };
        *self = EventHub { subscriptions };
        handle
    }

    /// Publishes a post: every stream that is open and has room gets a copy
    /// at the end of its queue; every other stream misses it. Says how many
    /// took it and how many missed it.
    pub fn publish(&mut self, post: &Post) -> (delivery: Delivery)
        ensures
            well_formed(final(self)@),
            final(self)@ == published(old(self)@, post@),
            delivery.delivered == accepting(old(self)@),
            delivery.delivered + delivery.dropped == old(self)@.len(),
    {
        let mut subscriptions = self.take();
        let ghost before = subscription_views(subscriptions@);
        let mut delivered: usize = 0;
        let mut i: usize = 0;
        assert(before.take(0) =~= Seq::empty());
        while i < subscriptions.len()
            invariant
                i <= subscriptions.len(),
                well_formed(before),
                subscriptions@.len() == before.len(),
                delivered == accepting(before.take(i as int)),
                delivered <= i,
                forall|k: int|
                    0 <= k < i ==> (#[trigger] subscriptions@[k])@ == before[k].offered(post@),
                forall|k: int| i <= k < before.len() ==> (#[trigger] subscriptions@[k])@ == before[k],
            decreases subscriptions.len() - i,
        {
            assert(before.take(i + 1).drop_last() =~= before.take(i as int));
            assert(subscriptions@[i as int]@ == before[i as int]);
            if subscriptions[i].open && subscriptions[i].queue.len() < STREAM_CAPACITY {
                let ghost queue_before = subscriptions@[i as int].queue@;
                subscriptions[i].queue.push(post.clone());
                assert(post_views(subscriptions@[i as int].queue@) =~= post_views(
                    queue_before,
                ).push(post@));
                delivered += 1;
            }
            i += 1;
        }
        assert(before.take(before.len() as int) =~= before);
        let dropped = subscriptions.len() - delivered;
        proof {
            let after = subscription_views(subscriptions@);
            assert(after =~= published(before, post@));
            assert forall|a: int, b: int| 0 <= a < b < after.len() implies !(#[trigger] after[a])
                .has_key((#[trigger] after[b]).user_id, after[b].request_id) by {
                assert(!before[a].has_key(before[b].user_id, before[b].request_id));
            }
        }
        *self = EventHub { subscriptions };
        Delivery { delivered, dropped }
    }

    /// Takes the post that waited longest in a stream. A closed stream, and
    /// a handle that no stream has, give [`StreamPoll::Closed`]; an open
    /// stream with nothing waiting gives [`StreamPoll::Empty`]. Only the
    /// stream asked changes, and only when a post is taken.
    pub fn next_event(&mut self, handle: usize) -> (poll: StreamPoll)
        ensures
            well_formed(final(self)@),
            handle >= old(self)@.len() || !old(self)@[handle as int].open ==> poll is Closed
                && final(self)@ == old(self)@,
            handle < old(self)@.len() && old(self)@[handle as int].open && old(self)@[handle as int].queue.len() == 0 ==> poll is Empty && final(self)@ == old(self)@,
            handle < old(self)@.len() && old(self)@[handle as int].open && old(self)@[handle as int].queue.len() > 0 ==> (poll matches StreamPoll::Event(post) && post@
                == old(self)@[handle as int].queue[0]) && final(self)@ == old(self)@.update(
                handle as int,
                old(self)@[handle as int].taken(),
            ),
    {
        let mut subscriptions = self.take();
        let ghost before = subscription_views(subscriptions@);
        let poll = if handle >= subscriptions.len() {
            StreamPoll::Closed
        } else {
            assert(subscriptions@[handle as int]@ == before[handle as int]);
            if !subscriptions[handle].open {
                StreamPoll::Closed
            } else if subscriptions[handle].queue.len() == 0 {
                StreamPoll::Empty
            } else {
                let ghost queue_before = subscriptions@[handle as int].queue@;
                let post = subscriptions[handle].queue.remove(0);
                proof {
                    assert(post_views(subscriptions@[handle as int].queue@) =~= post_views(
                        queue_before,
                    ).drop_first());
                    let after = subscription_views(subscriptions@);
                    assert(after =~= before.update(handle as int, before[handle as int].taken()));
                    assert forall|a: int, b: int| 0 <= a < b < after.len() implies !(
                    #[trigger] after[a]).has_key((#[trigger] after[b]).user_id, after[b].request_id) by {
                        assert(!before[a].has_key(before[b].user_id, before[b].request_id));
                    }
                }
                StreamPoll::Event(post)
            }
        };
        *self = EventHub { subscriptions };
        poll
    }

    /// Closes a stream, as when its reader goes away: what waits in it is
    /// dropped, and it takes no more posts. The registration stays. A handle
    /// that no stream has changes nothing.
    pub fn close_stream(&mut self, handle: usize)
        ensures
            well_formed(final(self)@),
            handle < old(self)@.len() ==> final(self)@ == old(self)@.update(
                handle as int,
                old(self)@[handle as int].closed(),
            ),
            handle >= old(self)@.len() ==> final(self)@ == old(self)@,
    {
        let mut subscriptions = self.take();
        let ghost before = subscription_views(subscriptions@);
        if handle < subscriptions.len() {
            assert(subscriptions@[handle as int]@ == before[handle as int]);
            subscriptions[handle].open = false;
            subscriptions[handle].queue = Vec::new();
            proof {
                assert(post_views(Seq::<Post>::empty()) =~= Seq::<PostView>::empty());
                let after = subscription_views(subscriptions@);
                assert(after =~= before.update(handle as int, before[handle as int].closed()));
                assert forall|a: int, b: int| 0 <= a < b < after.len() implies !(
                #[trigger] after[a]).has_key((#[trigger] after[b]).user_id, after[b].request_id) by {
                    assert(!before[a].has_key(before[b].user_id, before[b].request_id));
                }
            }
        }
        *self = EventHub { subscriptions };
    }
}

impl Default for EventHub {
    fn default() -> (hub: Self)
        ensures
            hub@.len() == 0,
    {
        EventHub::new()
    }
}

} // verus!
