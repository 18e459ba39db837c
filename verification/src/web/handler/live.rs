//! The life of one live event stream.
//!
//! A stream is open until the server shuts down or its queue in the hub is
//! closed. While it is open, each post that reaches its queue is rendered
//! and sent to the reader. When it closes, the cause is recorded, once.

use crate::db::Post;
use crate::hub::{EventHub, StreamPoll, SubscriptionView};
use crate::uuid::{RequestId, UserId};
use crate::Error;
use vstd::prelude::*;

verus! {

/// The name under which a new post is sent to the reader.
pub const NEW_POST_EVENT: &'static str = "newCommunityPost";

/// Where a stream is in its life.
#[derive(Debug, Clone, Copy, PartialEq, Eq, Structural)]
pub enum ConnectionState {
    Open,
    ClosedViaShutdown,
    ClosedViaError,
}

/// The record of a stream's closing.
#[derive(Debug, Clone, Copy, PartialEq, Eq, Structural)]
pub struct ConnectionGuard {
    pub closed_via_shutdown_signal: bool,
}

/// What is sent to the reader: a named event and its payload.
#[derive(Debug)]
pub struct SseEvent {
    pub event: String,
    pub data: String,
}

/// What a stream found when it looked for work.
#[derive(Debug, Clone, Copy, PartialEq, Eq, Structural)]
pub enum Found {
    /// A post waits in the queue.
    Post,
    /// Nothing waits.
    Nothing,
    /// The queue is closed.
    Closed,
}

/// What a stream does at one step.
#[derive(Debug, Clone, Copy, PartialEq, Eq, Structural)]
pub enum StepKind {
    /// It takes a post from its queue, to be rendered and sent.
    Render,
    /// It waits for the next post or for the shutdown signal.
    Idle,
    /// It closes, and the closing is recorded.
    Close,
    /// Nothing: it closed at an earlier step.
    Closed,
}

impl ConnectionState {
    /// The state after a step at which the shutdown signal is as given and
    /// the queue holds what was found. The shutdown signal goes before
    /// anything that waits in the queue.
    pub open spec fn after(self, shutdown: bool, found: Found) -> ConnectionState {
        if self != ConnectionState::Open {
            self
        } else if shutdown {
            ConnectionState::ClosedViaShutdown
        } else if found == Found::Closed {
            ConnectionState::ClosedViaError
        } else {
            ConnectionState::Open
        }
    }

    /// What the stream does at such a step.
    pub open spec fn step_kind(self, shutdown: bool, found: Found) -> StepKind {
        if self != ConnectionState::Open {
            StepKind::Closed
        } else if shutdown || found == Found::Closed {
            StepKind::Close
        } else if found == Found::Post {
            StepKind::Render
        } else {
            StepKind::Idle
        }
    }
}

/// What a stream's queue holds for it.
pub open spec fn found_in(streams: Seq<SubscriptionView>, handle: usize) -> Found {
    if handle >= streams.len() || !streams[handle as int].open {
        Found::Closed
    } else if streams[handle as int].queue.len() == 0 {
        Found::Nothing
    } else {
        Found::Post
    }
}

/// What a stream does at one step.
#[derive(Debug)]
pub enum ConnectionStep {
    /// A post has left the queue: render it and send what
    /// [`Connection::rendered`] makes of the result.
    Render(Post),
    /// Nothing waits: wait for the next post or for the shutdown signal.
    Idle,
    /// The stream has just closed: record the closing and end the stream.
    Close(ConnectionGuard),
    /// The stream closed at an earlier step: there is nothing to do.
    Closed,
}

impl ConnectionStep {
    /// The kind of the step.
    pub open spec fn kind(&self) -> StepKind {
        match self {
            ConnectionStep::Render(_) => StepKind::Render,
            ConnectionStep::Idle => StepKind::Idle,
            ConnectionStep::Close(_) => StepKind::Close,
            ConnectionStep::Closed => StepKind::Closed,
        }
    }
}

/// One live event stream.
#[derive(Debug, Clone, Copy, PartialEq, Eq, Structural)]
pub struct Connection {
    pub handle: usize,
    pub state: ConnectionState,
}

impl Connection {
    /// Opens the stream of a user's request, registering its queue with the
    /// hub unless it is registered already.
    pub fn open(hub: &mut EventHub, user_id: UserId, request_id: RequestId) -> (connection: Self)
        ensures
            connection.state == ConnectionState::Open,
            connection.handle < final(hub)@.len(),
            final(hub)@[connection.handle as int].has_key(user_id, request_id),
            crate::hub::is_registered(old(hub)@, user_id, request_id) ==> final(hub)@ == old(hub)@,
            !crate::hub::is_registered(old(hub)@, user_id, request_id) ==> final(hub)@ == old(hub)@.push(SubscriptionView::fresh(user_id, request_id)) && connection.handle == old(hub)@.len(),
    {
        let handle = hub.open_event_stream(user_id, request_id);
        Connection { handle, state: ConnectionState::Open }
    }

    /// One step of the stream.
    ///
    /// A closed stream does nothing. An open stream closes when the shutdown
    /// signal is up, whatever waits in its queue, and when its queue is
    /// closed; its queue in the hub is closed with it, and the step carries
    /// the record of the closing. Otherwise it takes the post that waited
    /// longest, if there is one.
    pub fn poll(&mut self, hub: &mut EventHub, shutdown: bool) -> (step: ConnectionStep)
        ensures
            final(self).handle == old(self).handle,
            final(self).state == old(self).state.after(
                shutdown,
                found_in(old(hub)@, old(self).handle),
            ),
            step.kind() == old(self).state.step_kind(
                shutdown,
                found_in(old(hub)@, old(self).handle),
            ),
            step matches ConnectionStep::Close(guard) ==> guard.closed_via_shutdown_signal
                == shutdown,
            step matches ConnectionStep::Render(post) ==> post@ == old(hub)@[old(self).handle as int].queue[0],
            final(hub)@ == match step.kind() {
                StepKind::Render => old(hub)@.update(
                    old(self).handle as int,
                    old(hub)@[old(self).handle as int].taken(),
                ),
                StepKind::Close => if old(self).handle < old(hub)@.len() {
                    old(hub)@.update(
                        old(self).handle as int,
                        old(hub)@[old(self).handle as int].closed(),
                    )
                } else {
                    old(hub)@
                },
                _ => old(hub)@,
            },
    {
        match self.state {
            ConnectionState::Open => {},
            _ => {
                return ConnectionStep::Closed;
            },
        }
        if shutdown {
            self.state = ConnectionState::ClosedViaShutdown;
            hub.close_stream(self.handle);
            return ConnectionStep::Close(ConnectionGuard { closed_via_shutdown_signal: true });
        }
        match hub.next_event(self.handle) {
            StreamPoll::Event(post) => ConnectionStep::Render(post),
            StreamPoll::Empty => ConnectionStep::Idle,
            StreamPoll::Closed => {
                self.state = ConnectionState::ClosedViaError;
                hub.close_stream(self.handle);
                ConnectionStep::Close(ConnectionGuard { closed_via_shutdown_signal: false })
            },
        }
    }

    /// What is sent for a post once it was rendered: the markup under the
    /// name [`NEW_POST_EVENT`], or nothing where rendering failed. The stream
    /// stays open either way.
    pub fn rendered(rendered: Result<String, Error>) -> (event: Option<SseEvent>)
        ensures
            match rendered {
                Ok(markup) => event matches Some(sent) && sent.event@ == NEW_POST_EVENT@
                    && sent.data == markup,
                Err(_) => event is None,
            },
    {
        match rendered {
            Ok(markup) => Some(SseEvent { event: String::from_str(NEW_POST_EVENT), data: markup }),
            Err(_) => None,
        }
    }
}

/// The steps of a stream that starts in `state` and meets the given
/// shutdown signals and queue findings, one pair at each step.
pub open spec fn steps_of(state: ConnectionState, inputs: Seq<(bool, Found)>) -> Seq<StepKind>
    decreases inputs.len(),
{
    if inputs.len() == 0 {
        Seq::empty()
    } else {
        seq![state.step_kind(inputs[0].0, inputs[0].1)] + steps_of(
            state.after(inputs[0].0, inputs[0].1),
            inputs.drop_first(),
        )
    }
}

/// The number of steps of a list at which the stream closes.
pub open spec fn closings(steps: Seq<StepKind>) -> nat
    decreases steps.len(),
{
    if steps.len() == 0 {
        0
    } else {
        closings(steps.drop_first()) + if steps[0] == StepKind::Close {
            1nat
        } else {
            0nat
        }
    }
}

/// A stream that is closed stays closed and does nothing more, whatever it
/// meets.
pub proof fn lemma_closed_is_final(state: ConnectionState, inputs: Seq<(bool, Found)>)
    requires
        state != ConnectionState::Open,
    ensures
        forall|i: int|
            0 <= i < inputs.len() ==> (#[trigger] steps_of(state, inputs)[i]) == StepKind::Closed,
        steps_of(state, inputs).len() == inputs.len(),
        closings(steps_of(state, inputs)) == 0,
    decreases inputs.len(),
{
    if inputs.len() > 0 {
        lemma_closed_is_final(state, inputs.drop_first());
        let rest = steps_of(state, inputs.drop_first());
        let all = steps_of(state, inputs);
        assert(all.drop_first() =~= rest);
        assert forall|i: int| 0 <= i < inputs.len() implies (#[trigger] all[i])
            == StepKind::Closed by {
            if i > 0 {
                assert(all[i] == rest[i - 1]);
            }
        }
    }
}

/// The closing of a stream is recorded once at most, whatever the stream
/// meets; and once the stream has closed, no post is taken.
pub proof fn lemma_closes_once(state: ConnectionState, inputs: Seq<(bool, Found)>)
    ensures
        steps_of(state, inputs).len() == inputs.len(),
        closings(steps_of(state, inputs)) <= 1,
        forall|i: int, j: int|
            0 <= i < j < inputs.len() && (#[trigger] steps_of(state, inputs)[i]) == StepKind::Close
                ==> (#[trigger] steps_of(state, inputs)[j]) == StepKind::Closed,
    decreases inputs.len(),
{
    if inputs.len() > 0 {
        let next = state.after(inputs[0].0, inputs[0].1);
        let rest = steps_of(next, inputs.drop_first());
        let all = steps_of(state, inputs);
        lemma_closes_once(next, inputs.drop_first());
        assert(all.drop_first() =~= rest);
        if all[0] == StepKind::Close || state != ConnectionState::Open {
            lemma_closed_is_final(next, inputs.drop_first());
        }
        assert forall|i: int, j: int|
            0 <= i < j < inputs.len() && (#[trigger] all[i]) == StepKind::Close implies (
        #[trigger] all[j]) == StepKind::Closed by {
            assert(all[j] == rest[j - 1]);
            if i > 0 {
                assert(all[i] == rest[i - 1]);
            }
        }
    }
}

/// Once the shutdown signal is up, an open stream closes at its very next
/// step, taking no post, and the cause on record is the signal.
pub proof fn lemma_shutdown_closes_at_once(state: ConnectionState, found: Found)
    ensures
        state.after(true, found) != ConnectionState::Open,
        state.step_kind(true, found) != StepKind::Render,
        state.step_kind(true, found) != StepKind::Idle,
        state == ConnectionState::Open ==> state.after(true, found)
            == ConnectionState::ClosedViaShutdown,
{
}

} // verus!
