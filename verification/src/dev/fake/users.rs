//! The population of simulated users and the ticks that drive it.
//!
//! Everything a population does follows from the seed of its root generator,
//! its configuration and the calls made on it: each new user takes one
//! 64-bit draw from the root generator as the seed of a generator of their
//! own, and draws everything else from that.

use crate::db::{CreatePostView, Db, Post, PostView};
use crate::dev::fake::text::locale::Locale;
use crate::dev::fake::user::{
    lemma_fresh_user_writes, lemma_fresh_user_writes_at_least_once, lemma_tick_rate_bounds,
    FakeUserRt, FakeUserRtView, ACTION_FRACTION_END, ACTION_FRACTION_START, SPAM_CAP_STEP,
};
use crate::hub::{published, published_all, SubscriptionView};
use crate::rng::{draw_u64, drawn_u64, rng_from_seed, seeded_rng};
use crate::{asked_to_store, Error, Summit};
use rand::rngs::StdRng;
use vstd::prelude::*;

verus! {

/// How the simulated users are set up.
#[derive(Debug, Clone, Copy, PartialEq, Eq, Structural)]
pub struct FakeUserInitConfig {
    /// The number of users to create at startup.
    pub fake_count: u16,
    /// The delay before the users are created, in milliseconds.
    pub start_on_init_delay_ms: u64,
    /// The longest interval between two actions of a user.
    pub rate_of_actions_secs_max: u64,
    /// The number of ticks to run through at startup, without waiting.
    pub ff_ticks: u64,
    /// The time a tick takes at least, in milliseconds.
    pub tick_dur: u64,
    /// Whether to leave it at creating and fast-forwarding the users.
    pub dont_start_runtime: bool,
}

impl Default for FakeUserInitConfig {
    fn default() -> (config: Self)
        ensures
            config == (FakeUserInitConfig {
                fake_count: 0,
                start_on_init_delay_ms: 0,
                rate_of_actions_secs_max: 0,
                ff_ticks: 0,
                tick_dur: 0,
                dont_start_runtime: false,
            }),
    {
        FakeUserInitConfig {
            fake_count: 0,
            start_on_init_delay_ms: 0,
            rate_of_actions_secs_max: 0,
            ff_ticks: 0,
            tick_dur: 0,
            dont_start_runtime: false,
        }
    }
}

/// The request for one more user.
#[derive(Debug, Clone, Copy, PartialEq, Eq, Structural)]
pub struct NewFakeUser {
    pub config: FakeUserInitConfig,
    pub fake_user_index: u64,
}

/// The seed of the root generator of a population made with
/// [`FakeUsers::new`].
pub const ROOT_SEED: u64 = 0xDEADBEEF;

/// What the service answered to the posts that users wrote, in the order
/// they were written.
pub type Outcomes = Vec<Result<Post, Error>>;

/// The posts among the service's answers, in order.
pub open spec fn posted(outcomes: Seq<Result<Post, Error>>) -> Seq<PostView>
    decreases outcomes.len(),
{
    if outcomes.len() == 0 {
        Seq::empty()
    } else {
        posted(outcomes.drop_last()) + match outcomes.last() {
            Ok(post) => seq![post@],
            Err(_) => Seq::empty(),
        }
    }
}

/// Whether the answers are those of a store of kind `D` to the given posts:
/// one for each, in order; each is what came of asking the store to store
/// that post; wherever a post was stored it holds what was written, and
/// wherever it was not, the store is to blame.
pub open spec fn answer<D: Db>(
    outcomes: Seq<Result<Post, Error>>,
    writes: Seq<CreatePostView>,
) -> bool {
    &&& outcomes.len() == writes.len()
    &&& forall|i: int|
        0 <= i < outcomes.len() ==> match #[trigger] outcomes[i] {
            Ok(post) => post@.answers(writes[i]),
            Err(err) => err is Storage,
        }
    &&& forall|i: int|
        0 <= i < outcomes.len() ==> asked_to_store::<D>(writes[i], #[trigger] outcomes[i])
}

/// The users after `tick`: each has taken their own tick.
pub open spec fn users_ticked(users: Seq<FakeUserRtView>, tick: int) -> Seq<FakeUserRtView> {
    Seq::new(users.len(), |i: int| users[i].ticked(tick))
}

/// The posts written at `tick`: one by each user who is due, in the order
/// the users were created.
pub open spec fn tick_writes(users: Seq<FakeUserRtView>, tick: int) -> Seq<CreatePostView>
    decreases users.len(),
{
    if users.len() == 0 {
        Seq::empty()
    } else {
        tick_writes(users.drop_last(), tick) + if users.last().due(tick) {
            seq![users.last().write().0]
        } else {
            Seq::empty()
        }
    }
}

/// The users after the `count` ticks from `from` on, taken in rising order.
pub open spec fn users_after(users: Seq<FakeUserRtView>, from: int, count: nat) -> Seq<
    FakeUserRtView,
>
    decreases count,
{
    if count == 0 {
        users
    } else {
        users_ticked(users_after(users, from, (count - 1) as nat), from + count - 1)
    }
}

/// The posts written during the `count` ticks from `from` on, in the order
/// they were written.
pub open spec fn writes_during(users: Seq<FakeUserRtView>, from: int, count: nat) -> Seq<
    CreatePostView,
>
    decreases count,
{
    if count == 0 {
        Seq::empty()
    } else {
        writes_during(users, from, (count - 1) as nat) + tick_writes(
            users_after(users, from, (count - 1) as nat),
            from + count - 1,
        )
    }
}

/// Whether each user's interval is at least one tick, at most five ticks
/// for each user up to and including them, and no more than a configured
/// maximum of one tick or more.
pub open spec fn intervals_bounded(users: Seq<FakeUserRtView>, config: FakeUserInitConfig) -> bool {
    forall|i: int|
        0 <= i < users.len() ==> {
            &&& 1 <= (#[trigger] users[i]).fake_user.tick_rate <= SPAM_CAP_STEP * (i + 1)
            &&& config.rate_of_actions_secs_max >= 1 ==> users[i].fake_user.tick_rate
                <= config.rate_of_actions_secs_max
        }
}

/// The state of a population.
pub struct FakeUsersInner {
    pub user_creation_rng: StdRng,
    pub config: FakeUserInitConfig,
    pub count: u64,
    pub users: Vec<FakeUserRt>,
}

/// What a population holds.
pub struct FakeUsersView {
    pub user_creation_rng: StdRng,
    pub config: FakeUserInitConfig,
    pub count: u64,
    pub users: Seq<FakeUserRtView>,
}

/// The views of a list of users.
pub open spec fn user_views(users: Seq<FakeUserRt>) -> Seq<FakeUserRtView> {
    Seq::new(users.len(), |i: int| users[i]@)
}

impl View for FakeUsersInner {
    type V = FakeUsersView;

    open spec fn view(&self) -> FakeUsersView {
        FakeUsersView {
            user_creation_rng: self.user_creation_rng,
            config: self.config,
            count: self.count,
            users: user_views(self.users@),
        }
    }
}

impl FakeUsersView {
    /// The population with no user yet, its root generator made from `seed`.
    pub open spec fn seeded(seed: u64, config: FakeUserInitConfig) -> FakeUsersView {
        FakeUsersView {
            user_creation_rng: seeded_rng(seed),
            config,
            count: 0,
            users: Seq::empty(),
        }
    }

    /// The user that is created next: their ordinal index is the number of
    /// users so far, and their generator is seeded with the next 64-bit draw
    /// of the root generator.
    pub open spec fn next_user(self) -> FakeUserRtView {
        FakeUserRtView::created(
            NewFakeUser { config: self.config, fake_user_index: self.count },
            seeded_rng(drawn_u64(self.user_creation_rng).0),
        )
    }

    /// The population with one more user.
    pub open spec fn with_new_user(self) -> FakeUsersView {
        FakeUsersView {
            user_creation_rng: drawn_u64(self.user_creation_rng).1,
            count: (self.count + 1) as u64,
            users: self.users.push(self.next_user()),
            ..self
        }
    }

    /// The population with `count` more users.
    pub open spec fn with_new_users(self, count: nat) -> FakeUsersView
        decreases count,
    {
        if count == 0 {
            self
        } else {
            self.with_new_users((count - 1) as nat).with_new_user()
        }
    }

    /// The population after the `count` ticks from `from` on.
    pub open spec fn after_ticks(self, from: int, count: nat) -> FakeUsersView {
        FakeUsersView { users: users_after(self.users, from, count), ..self }
    }

    /// The population's invariant: it has counted its users, and their
    /// intervals are within bounds.
    pub open spec fn wf(self) -> bool {
        &&& self.count == self.users.len()
        &&& intervals_bounded(self.users, self.config)
    }
}

impl FakeUsersInner {
    /// The population's invariant; see [`FakeUsersView::wf`].
    pub open spec fn wf(&self) -> bool {
        self@.wf()
    }

    /// Creates the next user and adds them after all the others.
    pub fn new_user(&mut self)
        requires
            old(self).wf(),
        ensures
            final(self).wf(),
            final(self)@ == old(self)@.with_new_user(),
    {
        let fake_user_index = self.count;
        let new_user_seed = draw_u64(&mut self.user_creation_rng);
        let user = FakeUserRt::new(
            rng_from_seed(new_user_seed),
            NewFakeUser { config: self.config, fake_user_index },
        );
        let ghost before = user_views(self.users@);
        self.users.push(user);
        let len = self.users.len();
        assert(self.count == len - 1);
        self.count = self.count + 1;
        proof {
            assert(user_views(self.users@) =~= before.push(user@));
        }
    }

    /// One tick of every user, in the order they were created. Each user
    /// who is due writes one post and hands it to the service; the service's
    /// answers come back in that order. A failure of the service stops
    /// nobody.
    pub fn tick_users<D: Db>(&mut self, tick: u64, summit: &mut Summit<D>) -> (outcomes: Outcomes)
        requires
            old(self).wf(),
        ensures
            final(self).wf(),
            final(self)@ == old(self)@.after_ticks(tick as int, 1),
            answer::<D>(outcomes@, tick_writes(old(self)@.users, tick as int)),
            final(summit).hub@ == published_all(old(summit).hub@, posted(outcomes@)),
            tick_writes(old(self)@.users, tick as int).len() == 0 ==> *final(summit) == *old(
                summit,
            ),
    {
        let ghost before = user_views(self.users@);
        let ghost hub_before = summit.hub@;
        let mut outcomes: Outcomes = Vec::new();
        let mut i: usize = 0;
        proof {
            assert(before.take(0) =~= Seq::<FakeUserRtView>::empty());
        }
        while i < self.users.len()
            invariant
                i <= self.users@.len(),
                self.users@.len() == before.len(),
                self.user_creation_rng == old(self).user_creation_rng,
                self.config == old(self).config,
                self.count == old(self).count,
                before == old(self)@.users,
                forall|k: int| 0 <= k < i ==> (#[trigger] self.users@[k])@ == before[k].ticked(
                    tick as int,
                ),
                forall|k: int| i <= k < before.len() ==> (#[trigger] self.users@[k])@ == before[k],
                answer::<D>(outcomes@, tick_writes(before.take(i as int), tick as int)),
                summit.hub@ == published_all(hub_before, posted(outcomes@)),
                tick_writes(before.take(i as int), tick as int).len() == 0 ==> *summit == *old(
                    summit,
                ),
            decreases self.users@.len() - i,
        {
            let ghost outcomes_before = outcomes@;
            let ghost user_before = self.users@[i as int]@;
            proof {
                assert(user_before == before[i as int]);
                assert(before.take(i + 1) =~= before.take(i as int).push(user_before));
                lemma_tick_writes_push(before.take(i as int), user_before, tick as int);
            }
            let outcome = self.users[i].tick(tick, summit);
            match outcome {
                Some(outcome) => {
                    proof {
                        lemma_posted_push(outcomes_before, outcome);
                        if outcome is Ok {
                            lemma_published_all_push(
                                hub_before,
                                posted(outcomes_before),
                                outcome->Ok_0@,
                            );
                        } else {
                            assert(posted(outcomes_before) + Seq::<PostView>::empty() =~= posted(
                                outcomes_before,
                            ));
                        }
                    }
                    outcomes.push(outcome);
                },
                None => {
                    proof {
                        assert(tick_writes(before.take(i as int), tick as int) + Seq::<
                            CreatePostView,
                        >::empty() =~= tick_writes(before.take(i as int), tick as int));
                    }
                },
            }
            i += 1;
        }
        proof {
            assert(before.take(before.len() as int) =~= before);
            assert(user_views(self.users@) =~= users_ticked(before, tick as int));
            assert(users_after(before, tick as int, 0) == before);
            assert forall|k: int| 0 <= k < before.len() implies (#[trigger] users_ticked(
                before,
                tick as int,
            )[k]).fake_user == before[k].fake_user by {}
        }
        outcomes
    }
}

/// The number of posts that the users write during the `count` ticks from
/// `from` on, each user counted for themselves.
pub open spec fn writes_of_all(users: Seq<FakeUserRtView>, from: int, count: nat) -> nat
    decreases users.len(),
{
    if users.len() == 0 {
        0
    } else {
        writes_of_all(users.drop_last(), from, count) + users.last().writes_during(from, count)
    }
}

/// Ticks do not mix the users up: after any ticks, each user of a
/// population is where they would be had they taken the ticks alone.
pub proof fn lemma_users_after_is_each_user_after(
    users: Seq<FakeUserRtView>,
    from: int,
    count: nat,
)
    ensures
        users_after(users, from, count).len() == users.len(),
        forall|i: int|
            0 <= i < users.len() ==> (#[trigger] users_after(users, from, count)[i])
                == users[i].after_ticks(from, count),
    decreases count,
{
    if count > 0 {
        lemma_users_after_is_each_user_after(users, from, (count - 1) as nat);
    }
}

/// One user more in a population is one user more after any ticks.
pub proof fn lemma_users_after_push(
    users: Seq<FakeUserRtView>,
    user: FakeUserRtView,
    from: int,
    count: nat,
)
    ensures
        users_after(users.push(user), from, count) == users_after(users, from, count).push(
            user.after_ticks(from, count),
        ),
{
    lemma_users_after_is_each_user_after(users, from, count);
    lemma_users_after_is_each_user_after(users.push(user), from, count);
    let more = users_after(users.push(user), from, count);
    let fewer = users_after(users, from, count).push(user.after_ticks(from, count));
    assert forall|i: int| 0 <= i < more.len() implies more[i] == fewer[i] by {
        if i < users.len() {
            assert(users.push(user)[i] == users[i]);
        } else {
            assert(users.push(user)[i] == user);
        }
    }
    assert(more =~= fewer);
}

/// The posts written at a tick are as many as there are users due.
pub proof fn lemma_writes_of_all_step(users: Seq<FakeUserRtView>, from: int, count: nat)
    requires
        count > 0,
    ensures
        writes_of_all(users, from, count) == writes_of_all(users, from, (count - 1) as nat)
            + tick_writes(
            users_after(users, from, (count - 1) as nat),
            from + count - 1,
        ).len(),
    decreases users.len(),
{
    let ticks = (count - 1) as nat;
    lemma_users_after_is_each_user_after(users, from, ticks);
    if users.len() == 0 {
        assert(users_after(users, from, ticks).len() == 0);
    } else {
        let init = users.drop_last();
        let last = users.last();
        assert(users =~= init.push(last));
        lemma_writes_of_all_step(init, from, count);
        lemma_users_after_push(init, last, from, ticks);
        lemma_tick_writes_push(
            users_after(init, from, ticks),
            last.after_ticks(from, ticks),
            from + count - 1,
        );
    }
}

/// The posts written during a run of ticks are as many as the users write
/// between them, each counted for themselves.
pub proof fn lemma_writes_during_is_sum(users: Seq<FakeUserRtView>, from: int, count: nat)
    ensures
        writes_during(users, from, count).len() == writes_of_all(users, from, count),
    decreases count,
{
    if count == 0 {
        lemma_no_ticks_no_writes(users, from);
    } else {
        lemma_writes_during_is_sum(users, from, (count - 1) as nat);
        lemma_writes_of_all_step(users, from, count);
    }
}

/// During no ticks nobody writes.
pub proof fn lemma_no_ticks_no_writes(users: Seq<FakeUserRtView>, from: int)
    ensures
        writes_of_all(users, from, 0) == 0,
    decreases users.len(),
{
    if users.len() > 0 {
        lemma_no_ticks_no_writes(users.drop_last(), from);
    }
}

/// The posts among a list of answers and one more answer.
pub proof fn lemma_posted_push(outcomes: Seq<Result<Post, Error>>, outcome: Result<Post, Error>)
    ensures
        posted(outcomes.push(outcome)) == posted(outcomes) + match outcome {
            Ok(post) => seq![post@],
            Err(_) => Seq::empty(),
        },
{
    assert(outcomes.push(outcome).drop_last() =~= outcomes);
}

/// Publishing a list of posts and one more is publishing the list, then the
/// one.
pub proof fn lemma_published_all_push(
    streams: Seq<SubscriptionView>,
    posts: Seq<PostView>,
    post: PostView,
)
    ensures
        published_all(streams, posts + seq![post]) == published(
            published_all(streams, posts),
            post,
        ),
{
    assert((posts + seq![post]).drop_last() =~= posts);
}

/// The posts written at a tick by a list of users and one more user.
pub proof fn lemma_tick_writes_push(users: Seq<FakeUserRtView>, user: FakeUserRtView, tick: int)
    ensures
        tick_writes(users.push(user), tick) == tick_writes(users, tick) + if user.due(tick) {
            seq![user.write().0]
        } else {
            Seq::empty()
        },
{
    assert(users.push(user).drop_last() =~= users);
}

/// Publishing two lists of posts one after the other is publishing the one
/// list made of both.
pub proof fn lemma_published_all_concat(
    streams: Seq<SubscriptionView>,
    first: Seq<PostView>,
    second: Seq<PostView>,
)
    ensures
        published_all(streams, first + second) == published_all(
            published_all(streams, first),
            second,
        ),
    decreases second.len(),
{
    if second.len() == 0 {
        assert(first + second =~= first);
    } else {
        lemma_published_all_concat(streams, first, second.drop_last());
        assert((first + second).drop_last() =~= first + second.drop_last());
        assert((first + second).last() == second.last());
    }
}

/// The posts among two lists of answers are those of the first list, then
/// those of the second.
pub proof fn lemma_posted_concat(
    first: Seq<Result<Post, Error>>,
    second: Seq<Result<Post, Error>>,
)
    ensures
        posted(first + second) == posted(first) + posted(second),
    decreases second.len(),
{
    if second.len() == 0 {
        assert(first + second =~= first);
        assert(posted(first) + posted(second) =~= posted(first));
    } else {
        lemma_posted_concat(first, second.drop_last());
        assert((first + second).drop_last() =~= first + second.drop_last());
        assert((first + second).last() == second.last());
        let tail = match second.last() {
            Ok(post) => seq![post@],
            Err(_) => Seq::<PostView>::empty(),
        };
        assert(posted(first) + (posted(second.drop_last()) + tail) =~= (posted(first) + posted(
            second.drop_last(),
        )) + tail);
    }
}

/// A population of simulated users.
pub struct FakeUsers(pub FakeUsersInner);

impl View for FakeUsers {
    type V = FakeUsersView;

    open spec fn view(&self) -> FakeUsersView {
        self.0@
    }
}

/// What a running population does next.
#[derive(Debug)]
pub enum RuntimeStep {
    /// One tick was taken; these are the service's answers. The next tick
    /// is to start once the tick's time is up.
    Ticked(Outcomes),
    /// The runtime has stopped: it was told to shut down, or it has run out
    /// of ticks. Nothing was done, and nothing will be.
    Stopped,
}

/// The clock of a running population: the tick to take next, the time a
/// tick takes at least, and whether the runtime has stopped.
#[derive(Debug, Clone, Copy, PartialEq, Eq, Structural)]
pub struct Runtime {
    pub tick: u64,
    pub tick_rate_ms: u64,
    pub stopped: bool,
}

/// How long to wait before the next tick, in milliseconds, when the last
/// tick started `elapsed_ms` ago: what is left of the tick's time, or `None`
/// where the tick has used it up and the next one starts at once. Time lost
/// is never made up for.
pub fn tick_wait(tick_rate_ms: u64, elapsed_ms: u64) -> (wait: Option<u64>)
    ensures
        wait == if elapsed_ms <= tick_rate_ms {
            Some((tick_rate_ms - elapsed_ms) as u64)
        } else {
            None
        },
{
    tick_rate_ms.checked_sub(elapsed_ms)
}

impl Runtime {
    /// The clock after one step: stopped where it was stopped or is told to
    /// shut down; else one tick further, and stopped after the last tick
    /// there is.
    pub open spec fn stepped(self, shutdown: bool) -> Runtime {
        if self.stopped || shutdown {
            Runtime { stopped: true, ..self }
        } else if self.tick == u64::MAX {
            Runtime { stopped: true, ..self }
        } else {
            Runtime { tick: (self.tick + 1) as u64, ..self }
        }
    }

    /// Whether a step takes a tick.
    pub open spec fn runs(self, shutdown: bool) -> bool {
        !self.stopped && !shutdown
    }

    /// How long to wait before the next step; see [`tick_wait`].
    pub fn wait_ms(&self, elapsed_ms: u64) -> (wait: Option<u64>)
        ensures
            wait == if elapsed_ms <= self.tick_rate_ms {
                Some((self.tick_rate_ms - elapsed_ms) as u64)
            } else {
                None
            },
    {
        tick_wait(self.tick_rate_ms, elapsed_ms)
    }
}

/// The users after `steps` steps of a runtime whose clock shows `clock` and
/// that is not told to shut down.
pub open spec fn users_after_steps(users: Seq<FakeUserRtView>, clock: Runtime, steps: nat) -> Seq<
    FakeUserRtView,
>
    decreases steps,
{
    if steps == 0 {
        users
    } else if clock.runs(false) {
        users_after_steps(
            users_ticked(users, clock.tick as int),
            clock.stepped(false),
            (steps - 1) as nat,
        )
    } else {
        users
    }
}

/// Taking ticks one after the other is taking them all: the users after
/// `count + 1` ticks from `from` on are the users after the tick `from`,
/// after the `count` ticks that follow.
pub proof fn lemma_users_after_first(users: Seq<FakeUserRtView>, from: int, count: nat)
    ensures
        users_after(users, from, count + 1) == users_after(
            users_ticked(users, from),
            from + 1,
            count,
        ),
    decreases count,
{
    if count == 0 {
        assert(users_after(users, from, 1) == users_ticked(users_after(users, from, 0), from));
        assert(users_after(users_ticked(users, from), from + 1, 0) == users_ticked(users, from));
    } else {
        lemma_users_after_first(users, from, (count - 1) as nat);
        assert(users_after(users, from, count + 1) == users_ticked(
            users_after(users, from, count),
            from + count,
        ));
        assert(users_after(users_ticked(users, from), from + 1, count) == users_ticked(
            users_after(users_ticked(users, from), from + 1, (count - 1) as nat),
            from + count,
        ));
    }
}

/// Fast-forwarding through `steps` ticks leaves the users as `steps` steps
/// of a runtime that starts at tick 0 do: in particular each user is due
/// next at the same tick either way.
pub proof fn lemma_fastforward_is_runtime(
    users: Seq<FakeUserRtView>,
    tick_rate_ms: u64,
    steps: nat,
)
    requires
        steps <= u64::MAX,
    ensures
        users_after_steps(users, Runtime { tick: 0, tick_rate_ms, stopped: false }, steps)
            == users_after(users, 0, steps),
        forall|i: int|
            0 <= i < users.len() ==> (#[trigger] users_after_steps(
                users,
                Runtime { tick: 0, tick_rate_ms, stopped: false },
                steps,
            )[i]).next_tick == users_after(users, 0, steps)[i].next_tick,
{
    lemma_steps_from(users, Runtime { tick: 0, tick_rate_ms, stopped: false }, steps);
}

/// The users after `steps` steps of a running clock are the users after the
/// `steps` ticks from the clock's tick on, as long as there are that many.
pub proof fn lemma_steps_from(users: Seq<FakeUserRtView>, clock: Runtime, steps: nat)
    requires
        !clock.stopped,
        clock.tick + steps <= u64::MAX,
    ensures
        users_after_steps(users, clock, steps) == users_after(users, clock.tick as int, steps),
    decreases steps,
{
    if steps > 0 {
        lemma_steps_from(
            users_ticked(users, clock.tick as int),
            clock.stepped(false),
            (steps - 1) as nat,
        );
        lemma_users_after_first(users, clock.tick as int, (steps - 1) as nat);
    }
}

impl FakeUsers {
    /// The population's invariant; see [`FakeUsersView::wf`].
    pub open spec fn wf(&self) -> bool {
        self@.wf()
    }

    /// Whether the population's invariant holds.
    pub fn is_wf(&self) -> (ok: bool)
        ensures
            ok == self.wf(),
    {
        let users = &self.0.users;
        let max = self.0.config.rate_of_actions_secs_max;
        if users.len() as u64 != self.0.count {
            return false;
        }
        let mut i: usize = 0;
        while i < users.len()
            invariant
                i <= users@.len(),
                users@ == self.0.users@,
                max == self.0.config.rate_of_actions_secs_max,
                intervals_bounded(self@.users.take(i as int), self@.config),
            decreases users@.len() - i,
        {
            let rate = users[i].fake_user.tick_rate;
            let cap: u128 = SPAM_CAP_STEP as u128 * (i as u128 + 1);
            assert(self@.users[i as int] == users@[i as int]@);
            if rate < 1 || rate as u128 > cap || (max >= 1 && rate > max) {
                return false;
            }
            proof {
                let longer = self@.users.take(i + 1);
                assert forall|k: int| 0 <= k < longer.len() implies {
                    &&& 1 <= (#[trigger] longer[k]).fake_user.tick_rate <= SPAM_CAP_STEP * (k + 1)
                    &&& self@.config.rate_of_actions_secs_max >= 1 ==> longer[k].fake_user.tick_rate
                        <= self@.config.rate_of_actions_secs_max
                } by {
                    if k < i {
                        assert(longer[k] == self@.users.take(i as int)[k]);
                    }
                }
            }
            i += 1;
        }
        proof {
            assert(self@.users.take(users@.len() as int) =~= self@.users);
        }
        true
    }

    /// A population with no user yet, its root generator seeded with
    /// [`ROOT_SEED`].
    pub fn new(config: &FakeUserInitConfig) -> (users: Self)
        ensures
            users.wf(),
            users@ == FakeUsersView::seeded(ROOT_SEED, *config),
    {
        Self::with_seed(ROOT_SEED, config)
    }

    /// A population with no user yet, its root generator seeded with `seed`.
    pub fn with_seed(seed: u64, config: &FakeUserInitConfig) -> (users: Self)
        ensures
            users.wf(),
            users@ == FakeUsersView::seeded(seed, *config),
    {
        let users = FakeUsers(
            FakeUsersInner {
                user_creation_rng: rng_from_seed(seed),
                config: *config,
                count: 0,
                users: Vec::new(),
            },
        );
        proof {
            assert(user_views(users.0.users@) =~= Seq::<FakeUserRtView>::empty());
        }
        users
    }

    /// Creates the next user and adds them after all the others.
    pub fn new_user(&mut self)
        requires
            old(self).wf(),
        ensures
            final(self).wf(),
            final(self)@ == old(self)@.with_new_user(),
    {
        self.0.new_user()
    }

    /// Takes the ticks `0` to `ff_by_ticks - 1`, one after the other and
    /// without waiting. The service's answers to the posts written come
    /// back in the order of writing.
    pub fn fastforward_runtime<D: Db>(&mut self, ff_by_ticks: u64, summit: &mut Summit<D>) -> (outcomes:
        Outcomes)
        requires
            old(self).wf(),
        ensures
            final(self).wf(),
            final(self)@ == old(self)@.after_ticks(0, ff_by_ticks as nat),
            answer::<D>(outcomes@, writes_during(old(self)@.users, 0, ff_by_ticks as nat)),
            final(summit).hub@ == published_all(old(summit).hub@, posted(outcomes@)),
            writes_during(old(self)@.users, 0, ff_by_ticks as nat).len() == 0 ==> *final(summit)
                == *old(summit),
            ff_by_ticks == 0 ==> *final(summit) == *old(summit) && final(self)@ == old(self)@
                && outcomes@.len() == 0,
    {
        let ghost before = self@.users;
        let ghost hub_before = summit.hub@;
        let mut outcomes: Outcomes = Vec::new();
        let mut tick: u64 = 0;
        while tick < ff_by_ticks
            invariant
                tick <= ff_by_ticks,
                self.wf(),
                self@ == old(self)@.after_ticks(0, tick as nat),
                before == old(self)@.users,
                answer::<D>(outcomes@, writes_during(before, 0, tick as nat)),
                summit.hub@ == published_all(hub_before, posted(outcomes@)),
                writes_during(before, 0, tick as nat).len() == 0 ==> *summit == *old(summit),
            decreases ff_by_ticks - tick,
        {
            let ghost outcomes_before = outcomes@;
            let mut of_tick = self.0.tick_users(tick, summit);
            proof {
                let users_before = users_after(before, 0, tick as nat);
                assert(users_after(users_before, tick as int, 1) == users_ticked(
                    users_after(users_before, tick as int, 0),
                    tick as int,
                ));
                lemma_posted_concat(outcomes_before, of_tick@);
                lemma_published_all_concat(hub_before, posted(outcomes_before), posted(of_tick@));
            }
            outcomes.append(&mut of_tick);
            tick += 1;
        }
        outcomes
    }

    /// The clock of a runtime that takes a tick every `tick_rate_ms`
    /// milliseconds at most, about to take tick 0.
    pub fn start_runtime(&self, tick_rate_ms: u64) -> (clock: Runtime)
        ensures
            clock == (Runtime { tick: 0, tick_rate_ms, stopped: false }),
    {
        Runtime { tick: 0, tick_rate_ms, stopped: false }
    }

    /// One step of the runtime. Told to shut down, or stopped already, it
    /// stops for good and touches neither the users nor the service.
    /// Otherwise it takes the clock's tick with every user and moves the
    /// clock on.
    pub fn step_runtime<D: Db>(
        &mut self,
        clock: &mut Runtime,
        shutdown: bool,
        summit: &mut Summit<D>,
    ) -> (step: RuntimeStep)
        requires
            old(self).wf(),
        ensures
            final(self).wf(),
            *final(clock) == old(clock).stepped(shutdown),
            !old(clock).runs(shutdown) ==> step is Stopped && final(self)@ == old(self)@ && *final(summit) == *old(summit),
            old(clock).runs(shutdown) ==> (step matches RuntimeStep::Ticked(outcomes) && answer::<D>(
                outcomes@,
                tick_writes(old(self)@.users, old(clock).tick as int),
            ) && final(summit).hub@ == published_all(old(summit).hub@, posted(outcomes@)))
                && final(self)@ == old(self)@.after_ticks(old(clock).tick as int, 1),
            tick_writes(old(self)@.users, old(clock).tick as int).len() == 0 ==> *final(summit)
                == *old(summit),
    {
        if clock.stopped || shutdown {
            clock.stopped = true;
            return RuntimeStep::Stopped;
        }
        let outcomes = self.0.tick_users(clock.tick, summit);
        if clock.tick == u64::MAX {
            clock.stopped = true;
        } else {
            clock.tick = clock.tick + 1;
        }
        RuntimeStep::Ticked(outcomes)
    }
}

/// What setting up the simulated users gave.
pub struct Started {
    /// The population, created and fast-forwarded.
    pub users: FakeUsers,
    /// The service's answers to the posts written while fast-forwarding.
    pub outcomes: Outcomes,
    /// The clock to run the population by, unless it is to stay as it is.
    pub runtime: Option<Runtime>,
}

impl FakeUserInitConfig {
    /// The population that this configuration asks for.
    pub open spec fn population(&self) -> FakeUsersView {
        FakeUsersView::seeded(ROOT_SEED, *self).with_new_users(self.fake_count as nat)
    }

    /// The clock to run the population by: none where no user is asked for
    /// or the configuration says to leave it at setting the users up.
    pub open spec fn spec_runtime(&self) -> Option<Runtime> {
        if self.fake_count == 0 || self.dont_start_runtime {
            None
        } else {
            Some(Runtime { tick: 0, tick_rate_ms: self.tick_dur, stopped: false })
        }
    }

    /// Creates the population that this configuration asks for. The service
    /// has no part in it.
    pub fn populate(&self) -> (users: FakeUsers)
        ensures
            users.wf(),
            users@ == self.population(),
    {
        let mut users = FakeUsers::new(self);
        let mut created: u16 = 0;
        while created < self.fake_count
            invariant
                created <= self.fake_count,
                users.wf(),
                users@ == FakeUsersView::seeded(ROOT_SEED, *self).with_new_users(created as nat),
            decreases self.fake_count - created,
        {
            users.new_user();
            created += 1;
        }
        users
    }

    /// The clock to run the population by, if it is to run.
    pub fn runtime(&self) -> (clock: Option<Runtime>)
        ensures
            clock == self.spec_runtime(),
    {
        if self.fake_count == 0 || self.dont_start_runtime {
            None
        } else {
            Some(Runtime { tick: 0, tick_rate_ms: self.tick_dur, stopped: false })
        }
    }

    /// Sets up the simulated users over a service in one go: creates as
    /// many as asked for, takes them through the ticks to fast-forward and,
    /// unless the configuration says otherwise, hands out the clock to run
    /// them by. Where no user is asked for, nothing is fast-forwarded and
    /// there is no clock.
    pub fn init<D: Db>(&self, summit: &mut Summit<D>) -> (started: Started)
        ensures
            started.users.wf(),
            self.fake_count == 0 ==> started.users@ == FakeUsersView::seeded(ROOT_SEED, *self)
                && started.outcomes@.len() == 0 && started.runtime is None && *final(summit)
                == *old(summit),
            self.fake_count > 0 ==> started.users@ == self.population().after_ticks(
                0,
                self.ff_ticks as nat,
            ),
            self.fake_count > 0 ==> answer::<D>(
                started.outcomes@,
                writes_during(self.population().users, 0, self.ff_ticks as nat),
            ),
            self.fake_count > 0 ==> final(summit).hub@ == published_all(
                old(summit).hub@,
                posted(started.outcomes@),
            ),
            started.runtime == self.spec_runtime(),
            writes_during(self.population().users, 0, self.ff_ticks as nat).len() == 0 ==> *final(summit) == *old(summit),
    {
        let mut users = self.populate();
        if self.fake_count == 0 {
            return Started { users, outcomes: Vec::new(), runtime: None };
        }
        let outcomes = users.fastforward_runtime(self.ff_ticks, summit);
        Started { users, outcomes, runtime: self.runtime() }
    }
}

/// A population is a function of its seed, its configuration and the
/// number of users created: two populations that agree on those hold the
/// same users in the same order (the same people, the same intervals,
/// generators in the same state), and write the same posts during the same
/// ticks.
pub proof fn lemma_population_is_deterministic(
    seed: u64,
    config: FakeUserInitConfig,
    count: nat,
    one: FakeUsersView,
    other: FakeUsersView,
    from: int,
    ticks: nat,
)
    requires
        one == FakeUsersView::seeded(seed, config).with_new_users(count),
        other == FakeUsersView::seeded(seed, config).with_new_users(count),
    ensures
        one.users.len() == other.users.len(),
        forall|i: int|
            0 <= i < one.users.len() ==> (#[trigger] one.users[i]).fake_user
                == other.users[i].fake_user && one.users[i].write() == other.users[i].write(),
        writes_during(one.users, from, ticks) == writes_during(other.users, from, ticks),
        one.after_ticks(from, ticks) == other.after_ticks(from, ticks),
{
}

/// Who a new user is does not depend on what the users before them have
/// done: creating a user after any number of ticks gives the same user as
/// creating them before, and leaves the root generator in the same state.
pub proof fn lemma_new_user_is_independent_of_ticks(users: FakeUsersView, from: int, ticks: nat)
    ensures
        users.after_ticks(from, ticks).next_user() == users.next_user(),
        users.after_ticks(from, ticks).with_new_user().user_creation_rng
            == users.with_new_user().user_creation_rng,
        users.after_ticks(from, ticks).with_new_user().users.last()
            == users.with_new_user().users.last(),
{
}

/// Creating users adds them after those who are there and changes nobody:
/// the user created as number `k` of the new ones is the one that the
/// population with `k` new users creates next.
pub proof fn lemma_with_new_users(base: FakeUsersView, count: nat)
    ensures
        base.with_new_users(count).users.len() == base.users.len() + count,
        base.with_new_users(count).config == base.config,
        forall|i: int|
            0 <= i < base.users.len() ==> (#[trigger] base.with_new_users(count).users[i])
                == base.users[i],
        forall|k: int|
            0 <= k < count ==> (#[trigger] base.with_new_users(count).users[base.users.len() + k])
                == base.with_new_users(k as nat).next_user(),
        base.count + count <= u64::MAX ==> base.with_new_users(count).count == base.count + count,
    decreases count,
{
    if count > 0 {
        let fewer = (count - 1) as nat;
        lemma_with_new_users(base, fewer);
        let before = base.with_new_users(fewer);
        let after = base.with_new_users(count);
        assert(after == before.with_new_user());
        assert forall|k: int| 0 <= k < count implies (#[trigger] after.users[base.users.len() + k])
            == base.with_new_users(k as nat).next_user() by {
            if k < fewer {
                assert(after.users[base.users.len() + k] == before.users[base.users.len() + k]);
            }
        }
    }
}

/// Every user of a new population is new: the user with ordinal index `i`
/// is due first one interval after the start, and the interval is at least
/// one tick and at most five ticks for each user up to and including them.
/// The very first user speaks [`Locale::EnBob`].
pub proof fn lemma_population_users_are_fresh(
    seed: u64,
    config: FakeUserInitConfig,
    count: nat,
    i: int,
)
    requires
        0 <= i < count,
        SPAM_CAP_STEP * (i + 1) <= u64::MAX,
    ensures
        FakeUsersView::seeded(seed, config).with_new_users(count).users[i].is_fresh(),
        FakeUsersView::seeded(seed, config).with_new_users(count).users[i].fake_user.tick_rate
            <= SPAM_CAP_STEP * (i + 1),
        i == 0 ==> FakeUsersView::seeded(seed, config).with_new_users(count).users[i].fake_user.locale
            == Locale::EnBob,
{
    let base = FakeUsersView::seeded(seed, config);
    lemma_with_new_users(base, count);
    lemma_with_new_users(base, i as nat);
    let before = base.with_new_users(i as nat);
    let user = base.with_new_users(count).users[i];
    assert(user == base.with_new_users(count).users[base.users.len() + i]);
    assert(user == before.next_user());
    assert(before.count == i);
    assert(before.config == config);
    let request = NewFakeUser { config, fake_user_index: i as u64 };
    let child = seeded_rng(drawn_u64(before.user_creation_rng).0);
    assert(user == FakeUserRtView::created(request, child));
    let any = Locale::drawn(child);
    let locale = if request.fake_user_index == 0 {
        Locale::EnBob
    } else {
        any.0
    };
    let author = crate::db::Author::drawn(locale, any.1);
    let share = crate::rng::drawn_in_range(author.1, ACTION_FRACTION_START, ACTION_FRACTION_END);
    lemma_tick_rate_bounds(config.rate_of_actions_secs_max, share.0, i as u64);
}

/// How often a user of a new population writes follows from their interval
/// alone: during the ticks `0` to `ticks - 1` the user with ordinal index
/// `i` writes the whole part of `(ticks - 1) / interval` posts. The first
/// user, whose interval is five ticks at most, writes between one and nine
/// posts during the first ten ticks.
pub proof fn lemma_population_user_writes(
    seed: u64,
    config: FakeUserInitConfig,
    count: nat,
    i: int,
    ticks: nat,
)
    requires
        0 <= i < count,
        ticks >= 1,
        ticks + SPAM_CAP_STEP * (i + 1) <= u64::MAX,
    ensures
        FakeUsersView::seeded(seed, config).with_new_users(count).users[i].writes_during(0, ticks)
            == (ticks - 1) / (FakeUsersView::seeded(seed, config).with_new_users(
            count,
        ).users[i].fake_user.tick_rate as int),
        FakeUsersView::seeded(seed, config).with_new_users(count).users[i].writes_during(0, ticks)
            <= ticks - 1,
        i == 0 && ticks == 10 ==> 1 <= FakeUsersView::seeded(seed, config).with_new_users(
            count,
        ).users[i].writes_during(0, ticks) <= 9,
        users_after(FakeUsersView::seeded(seed, config).with_new_users(count).users, 0, ticks)[i]
            == FakeUsersView::seeded(seed, config).with_new_users(count).users[i].after_ticks(
            0,
            ticks,
        ),
{
    let users = FakeUsersView::seeded(seed, config).with_new_users(count).users;
    lemma_with_new_users(FakeUsersView::seeded(seed, config), count);
    lemma_population_users_are_fresh(seed, config, count, i);
    lemma_fresh_user_writes(users[i], ticks);
    lemma_fresh_user_writes_at_least_once(users[i], ticks);
    lemma_users_after_is_each_user_after(users, 0, ticks);
}

/// Told to shut down, a runtime stops at its very next step without taking
/// a tick, and stays stopped: no later step takes a tick either.
pub proof fn lemma_shutdown_stops_runtime(clock: Runtime, later: bool)
    ensures
        !clock.runs(true),
        clock.stepped(true).stopped,
        !clock.stepped(true).runs(later),
        clock.stepped(true).stepped(later) == clock.stepped(true),
{
}

} // verus!
