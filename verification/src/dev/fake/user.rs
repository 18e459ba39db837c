//! One simulated user: who they are, how often they act, and what they do
//! when their tick has come.

use crate::db::{Author, AuthorView, CreatePost, CreatePostView, Db, FediAddr, FediAddrView, Post};
use crate::dev::fake::text::locale::Locale;
use crate::dev::fake::text::markdown::{
    paragraph_markdown, sentence_markdown, Paragraph, Sentence,
};
use crate::dev::fake::text::{FediHostName, FediUserName};
use crate::dev::fake::users::NewFakeUser;
use crate::hub::published;
use crate::rng::{draw_in_range, drawn_in_range};
use crate::{asked_to_store, Error, Summit};
use rand::rngs::StdRng;
use vstd::prelude::*;

verus! {

impl FediAddr {
    /// The address drawn for a locale by a generator in state `rng`: first
    /// the user name, then the host name.
    pub open spec fn drawn(locale: Locale, rng: StdRng) -> (FediAddrView, StdRng) {
        let user = FediUserName(locale).drawn(rng);
        let host = FediHostName(locale).drawn(user.1);
        (FediAddrView { user: user.0, host: host.0 }, host.1)
    }

    /// Draws an address in the words of a locale.
    pub fn dummy_with_rng(locale: &Locale, rng: &mut StdRng) -> (addr: FediAddr)
        ensures
            addr@ == FediAddr::drawn(*locale, *old(rng)).0,
            *final(rng) == FediAddr::drawn(*locale, *old(rng)).1,
    {
        let user = FediUserName(*locale).fake_with_rng(rng);
        let host = FediHostName(*locale).fake_with_rng(rng);
        FediAddr { user, host }
    }
}

impl Author {
    /// The author drawn for a locale by a generator in state `rng`.
    pub open spec fn drawn(locale: Locale, rng: StdRng) -> (AuthorView, StdRng) {
        let addr = FediAddr::drawn(locale, rng);
        (AuthorView { fedi_addr: addr.0 }, addr.1)
    }

    /// Draws an author in the words of a locale.
    pub fn dummy_with_rng(locale: &Locale, rng: &mut StdRng) -> (author: Author)
        ensures
            author@ == Author::drawn(*locale, *old(rng)).0,
            *final(rng) == Author::drawn(*locale, *old(rng)).1,
    {
        Author { fedi_addr: FediAddr::dummy_with_rng(locale, rng) }
    }
}

/// The smallest share of the configured interval that a user may draw, in
/// thousandths.
pub const ACTION_FRACTION_START: usize = 10;

/// One more than the largest share of the configured interval that a user
/// may draw, in thousandths.
pub const ACTION_FRACTION_END: usize = 1000;

/// The number of ticks the cap on a user's interval grows by with each user
/// created before them.
pub const SPAM_CAP_STEP: u64 = 5;

/// The interval, in ticks, between two actions of the user with the given
/// ordinal index who drew `permille` thousandths of the configured maximum
/// `max`: that share of the maximum, but no less than one tick and no more
/// than [`SPAM_CAP_STEP`] ticks for each user up to and including this one.
pub open spec fn spec_tick_rate(max: u64, permille: usize, index: u64) -> int {
    let share = (max * permille) / 1000;
    let cap = SPAM_CAP_STEP * (index + 1);
    if share < 1 {
        1
    } else if share > cap {
        cap
    } else {
        share
    }
}

/// The later a user is created, the larger their interval may be: with the
/// same share of the same maximum, a higher ordinal index never gives a
/// shorter interval. Nor does a larger share or a larger maximum.
pub proof fn lemma_tick_rate_is_monotone(
    max: u64,
    permille: usize,
    index: u64,
    more_max: u64,
    more_permille: usize,
    later_index: u64,
)
    requires
        max <= more_max,
        permille <= more_permille,
        index <= later_index,
    ensures
        spec_tick_rate(max, permille, index) <= spec_tick_rate(
            more_max,
            more_permille,
            later_index,
        ),
{
    assert(max * permille <= more_max * more_permille) by (nonlinear_arith)
        requires
            0 <= max <= more_max,
            0 <= permille <= more_permille,
    ;
    assert((max * permille) / 1000 <= (more_max * more_permille) / 1000) by (nonlinear_arith)
        requires
            max * permille <= more_max * more_permille,
    ;
    assert(SPAM_CAP_STEP * (index + 1) <= SPAM_CAP_STEP * (later_index + 1));
}

/// An interval is at least one tick and at most the cap of the user's
/// ordinal index; and where the configured maximum is at least one tick, the
/// interval of a share below the whole does not exceed it.
pub proof fn lemma_tick_rate_bounds(max: u64, permille: usize, index: u64)
    ensures
        1 <= spec_tick_rate(max, permille, index) <= SPAM_CAP_STEP * (index + 1),
        permille < ACTION_FRACTION_END && max >= 1 ==> spec_tick_rate(max, permille, index) <= max,
{
    if permille < ACTION_FRACTION_END {
        assert((max * permille) / 1000 <= max) by (nonlinear_arith)
            requires
                0 <= permille < 1000,
                0 <= max,
        ;
    }
}

/// Computes the interval between two actions of a user; see
/// [`spec_tick_rate`].
pub fn tick_rate(max: u64, permille: usize, index: u64) -> (rate: u64)
    requires
        permille < ACTION_FRACTION_END,
    ensures
        rate == spec_tick_rate(max, permille, index),
        1 <= rate <= SPAM_CAP_STEP * (index + 1),
        max >= 1 ==> rate <= max,
{
    proof {
        lemma_tick_rate_bounds(max, permille, index);
        assert(max * permille <= u64::MAX * 1000) by (nonlinear_arith)
            requires
                0 <= permille < 1000,
                0 <= max <= u64::MAX,
        ;
        assert((max * permille) / 1000 <= max) by (nonlinear_arith)
            requires
                0 <= permille < 1000,
                0 <= max,
        ;
    }
    let share: u128 = (max as u128 * permille as u128) / 1000;
    let cap: u128 = SPAM_CAP_STEP as u128 * (index as u128 + 1);
    if share < 1 {
        1
    } else if share > cap {
        cap as u64
    } else {
        share as u64
    }
}

/// A simulated user.
#[derive(Debug)]
pub struct FakeUser {
    pub locale: Locale,
    pub user: Author,
    pub tick_rate: u64,
}

/// What a [`FakeUser`] holds.
pub struct FakeUserView {
    pub locale: Locale,
    pub user: AuthorView,
    pub tick_rate: u64,
}

impl View for FakeUser {
    type V = FakeUserView;

    open spec fn view(&self) -> FakeUserView {
        FakeUserView { locale: self.locale, user: self.user@, tick_rate: self.tick_rate }
    }
}

impl Default for FakeUser {
    fn default() -> (user: Self)
        ensures
            user.locale == Locale::En,
            user.tick_rate == 0,
    {
        FakeUser { locale: Locale::En, user: Author::default(), tick_rate: 0 }
    }
}

impl FakeUser {
    /// The user drawn for a request by a generator in state `rng`. A locale
    /// is always drawn, though the very first user speaks
    /// [`Locale::EnBob`] whatever was drawn; then the author is drawn in the
    /// user's locale, and last the share of the configured interval.
    pub open spec fn drawn(config: NewFakeUser, rng: StdRng) -> (FakeUserView, StdRng) {
        let any = Locale::drawn(rng);
        let locale = if config.fake_user_index == 0 {
            Locale::EnBob
        } else {
            any.0
        };
        let user = Author::drawn(locale, any.1);
        let share = drawn_in_range(user.1, ACTION_FRACTION_START, ACTION_FRACTION_END);
        (
            FakeUserView {
                locale,
                user: user.0,
                tick_rate: spec_tick_rate(
                    config.config.rate_of_actions_secs_max,
                    share.0,
                    config.fake_user_index,
                ) as u64,
            },
            share.1,
        )
    }

    /// Draws a user. The interval between two of their actions is at least
    /// one tick and at most five ticks for each user up to and including
    /// them; it does not exceed a configured maximum of one tick or more.
    pub fn dummy_with_rng(config: &NewFakeUser, rng: &mut StdRng) -> (user: FakeUser)
        ensures
            user@ == FakeUser::drawn(*config, *old(rng)).0,
            *final(rng) == FakeUser::drawn(*config, *old(rng)).1,
            1 <= user.tick_rate <= SPAM_CAP_STEP * (config.fake_user_index + 1),
            config.config.rate_of_actions_secs_max >= 1 ==> user.tick_rate
                <= config.config.rate_of_actions_secs_max,
    {
        let any = Locale::dummy_with_rng(rng);
        let locale = if config.fake_user_index == 0 {
            Locale::EnBob
        } else {
            any
        };
        let user = Author::dummy_with_rng(&locale, rng);
        let share = draw_in_range(rng, ACTION_FRACTION_START, ACTION_FRACTION_END);
        let tick_rate = tick_rate(
            config.config.rate_of_actions_secs_max,
            share,
            config.fake_user_index,
        );
        FakeUser { locale, user, tick_rate }
    }
}

/// The smallest number of sentences in a post's title.
pub const TITLE_RUN_START: usize = 1;

/// One more than the largest number of sentences in a post's title.
pub const TITLE_RUN_END: usize = 2;

/// The smallest number of paragraphs in a post's body.
pub const BODY_RUN_START: usize = 1;

/// One more than the largest number of paragraphs in a post's body.
pub const BODY_RUN_END: usize = 11;

/// A request for a post written by a simulated user.
#[derive(Debug)]
pub struct FakeCreatePost<'a>(pub &'a FakeUser);

impl CreatePost {
    /// The post that a user writes with a generator in state `rng`: a title
    /// of one sentence, then a body of one to ten paragraphs, both in the
    /// user's locale and under the user's name.
    pub open spec fn drawn(user: FakeUserView, rng: StdRng) -> (CreatePostView, StdRng) {
        let title = sentence_markdown(user.locale, TITLE_RUN_START, TITLE_RUN_END, rng);
        let body = paragraph_markdown(user.locale, BODY_RUN_START, BODY_RUN_END, title.1);
        (CreatePostView { author: user.user, title: title.0, body: body.0 }, body.1)
    }

    /// Draws the post that a user writes.
    pub fn dummy_with_rng(config: &FakeCreatePost<'_>, rng: &mut StdRng) -> (create_post:
        CreatePost)
        ensures
            create_post@ == CreatePost::drawn(config.0@, *old(rng)).0,
            *final(rng) == CreatePost::drawn(config.0@, *old(rng)).1,
    {
        let fake_user = config.0;
        let locale = fake_user.locale;
        let title = Sentence(locale, TITLE_RUN_START..TITLE_RUN_END).fake_string_with_rng(rng);
        let body = Paragraph(locale, BODY_RUN_START..BODY_RUN_END).fake_string_with_rng(rng);
        CreatePost { author: fake_user.user.clone(), title, body }
    }
}

/// A simulated user at run time: the user, their own generator, and the
/// tick at which they act next.
#[derive(Debug)]
pub struct FakeUserRt {
    pub rng: StdRng,
    pub fake_user: FakeUser,
    pub next_tick: u64,
}

/// What a [`FakeUserRt`] holds.
pub struct FakeUserRtView {
    pub rng: StdRng,
    pub fake_user: FakeUserView,
    pub next_tick: u64,
}

impl View for FakeUserRt {
    type V = FakeUserRtView;

    open spec fn view(&self) -> FakeUserRtView {
        FakeUserRtView { rng: self.rng, fake_user: self.fake_user@, next_tick: self.next_tick }
    }
}

impl FakeUserRtView {
    /// The user made for a request from a generator in state `rng`. Their
    /// first action is due one interval after the start.
    pub open spec fn created(request: NewFakeUser, rng: StdRng) -> FakeUserRtView {
        let user = FakeUser::drawn(request, rng);
        FakeUserRtView { rng: user.1, fake_user: user.0, next_tick: user.0.tick_rate }
    }

    /// Whether the user acts at `tick`.
    pub open spec fn due(self, tick: int) -> bool {
        tick >= self.next_tick
    }

    /// The post the user writes when they act next, and the state their
    /// generator is left in.
    pub open spec fn write(self) -> (CreatePostView, StdRng) {
        CreatePost::drawn(self.fake_user, self.rng)
    }

    /// The tick of the action after the next: one interval later, or the
    /// last tick there is where that would be past it.
    pub open spec fn next_due(self) -> u64 {
        if self.next_tick + self.fake_user.tick_rate > u64::MAX {
            u64::MAX
        } else {
            (self.next_tick + self.fake_user.tick_rate) as u64
        }
    }

    /// The user after `tick`: as before where they were not due; else with
    /// one post written and the next action one interval later.
    pub open spec fn ticked(self, tick: int) -> FakeUserRtView {
        if self.due(tick) {
            FakeUserRtView { rng: self.write().1, next_tick: self.next_due(), ..self }
        } else {
            self
        }
    }

    /// The user after the `count` ticks from `from` on, taken in rising
    /// order.
    pub open spec fn after_ticks(self, from: int, count: nat) -> FakeUserRtView
        decreases count,
    {
        if count == 0 {
            self
        } else {
            self.after_ticks(from, (count - 1) as nat).ticked(from + count - 1)
        }
    }

    /// The number of posts the user writes during the `count` ticks from
    /// `from` on: one at each tick at which they are due.
    pub open spec fn writes_during(self, from: int, count: nat) -> nat
        decreases count,
    {
        if count == 0 {
            0
        } else {
            self.writes_during(from, (count - 1) as nat) + if self.after_ticks(
                from,
                (count - 1) as nat,
            ).due(from + count - 1) {
                1nat
            } else {
                0nat
            }
        }
    }

    /// Whether the user has just been created: their first action is due
    /// one interval after the start, and the interval is a tick or more.
    pub open spec fn is_fresh(self) -> bool {
        self.next_tick == self.fake_user.tick_rate && self.fake_user.tick_rate >= 1
    }
}

/// A new user writes at every tick that is a multiple of their interval,
/// the tick 0 left out: during the ticks `0` to `count - 1` that makes the
/// whole part of `(count - 1) / interval` posts, and none during no ticks.
/// Afterwards the user is due at the next multiple of the interval. (The
/// ticks must leave room for one more interval below the largest tick there
/// is.)
pub proof fn lemma_fresh_user_writes(user: FakeUserRtView, count: nat)
    requires
        user.is_fresh(),
        count + user.fake_user.tick_rate <= u64::MAX,
    ensures
        user.writes_during(0, count) == if count == 0 {
            0
        } else {
            (count - 1) / (user.fake_user.tick_rate as int)
        },
        user.after_ticks(0, count).next_tick == user.fake_user.tick_rate * (user.writes_during(
            0,
            count,
        ) + 1),
        user.after_ticks(0, count).fake_user == user.fake_user,
    decreases count,
{
    let rate = user.fake_user.tick_rate as int;
    if count == 0 {
        assert(rate * 1 == rate);
    } else {
        let ticks = (count - 1) as nat;
        lemma_fresh_user_writes(user, ticks);
        let before = user.after_ticks(0, ticks);
        let written = user.writes_during(0, ticks) as int;
        assert(before.next_tick == rate * (written + 1));
        if ticks == 0 {
            assert(written == 0);
            assert(rate * 1 == rate);
            assert(!before.due(0));
            assert(0int / rate == 0) by (nonlinear_arith)
                requires
                    rate >= 1,
            ;
        } else {
            let rest = (ticks - 1) % rate;
            vstd::arithmetic::div_mod::lemma_fundamental_div_mod(ticks - 1, rate);
            vstd::arithmetic::div_mod::lemma_mod_bound(ticks - 1, rate);
            assert(ticks - 1 == rate * written + rest);
            assert(rate * (written + 1) == rate * written + rate) by (nonlinear_arith);
            if before.due(ticks as int) {
                assert(ticks == rate * (written + 1));
                assert(rate * (written + 2) == rate * (written + 1) + rate) by (nonlinear_arith);
                assert(ticks as int == (written + 1) * rate + 0) by (nonlinear_arith)
                    requires
                        ticks == rate * (written + 1),
                ;
                vstd::arithmetic::div_mod::lemma_fundamental_div_mod_converse(
                    ticks as int,
                    rate,
                    written + 1,
                    0,
                );
                assert(before.next_tick + rate <= u64::MAX);
            } else {
                assert(ticks as int == written * rate + (rest + 1)) by (nonlinear_arith)
                    requires
                        ticks - 1 == rate * written + rest,
                ;
                vstd::arithmetic::div_mod::lemma_fundamental_div_mod_converse(
                    ticks as int,
                    rate,
                    written,
                    rest + 1,
                );
            }
        }
    }
}

/// A new user whose interval is at most `count - 1` ticks writes at least
/// once during the ticks `0` to `count - 1`, and nobody writes more than
/// `count - 1` posts in that time. In particular the first user of a
/// population, whose interval is five ticks at most, writes between one and
/// nine posts during the first ten ticks.
pub proof fn lemma_fresh_user_writes_at_least_once(user: FakeUserRtView, count: nat)
    requires
        user.is_fresh(),
        count >= 1,
        count + user.fake_user.tick_rate <= u64::MAX,
    ensures
        user.writes_during(0, count) <= count - 1,
        user.fake_user.tick_rate <= count - 1 ==> user.writes_during(0, count) >= 1,
        user.fake_user.tick_rate > count - 1 ==> user.writes_during(0, count) == 0,
{
    let rate = user.fake_user.tick_rate as int;
    lemma_fresh_user_writes(user, count);
    let written = (count - 1) / rate;
    vstd::arithmetic::div_mod::lemma_fundamental_div_mod(count - 1, rate);
    vstd::arithmetic::div_mod::lemma_mod_bound(count - 1, rate);
    assert(count - 1 == rate * written + (count - 1) % rate);
    if written <= 0 {
        assert(rate * written <= 0) by (nonlinear_arith)
            requires
                rate >= 1,
                written <= 0,
        ;
    }
    if written >= 1 {
        assert(rate * written >= rate) by (nonlinear_arith)
            requires
                rate >= 1,
                written >= 1,
        ;
    }
    if written >= 0 {
        assert(rate * written >= written) by (nonlinear_arith)
            requires
                rate >= 1,
                written >= 0,
        ;
    }
}

impl FakeUserRt {
    /// Makes the user that a request asks for, drawing everything about them
    /// from `rng`, which the user keeps.
    pub fn new(rng: StdRng, new_fake_user: NewFakeUser) -> (user: Self)
        ensures
            user@ == FakeUserRtView::created(new_fake_user, rng),
            1 <= user.fake_user.tick_rate <= SPAM_CAP_STEP * (new_fake_user.fake_user_index + 1),
            new_fake_user.config.rate_of_actions_secs_max >= 1 ==> user.fake_user.tick_rate
                <= new_fake_user.config.rate_of_actions_secs_max,
    {
        let mut rng = rng;
        let fake_user = FakeUser::dummy_with_rng(&new_fake_user, &mut rng);
        let next_tick = fake_user.tick_rate;
        FakeUserRt { rng, fake_user, next_tick }
    }

    /// One tick of the user. A user who is not yet due does nothing, and
    /// `None` comes back. A user who is due writes one post, hands it to the
    /// service once, and is due again one interval later, whether or not
    /// the service took the post: its answer comes back for the log.
    pub fn tick<D: Db>(&mut self, tick: u64, summit: &mut Summit<D>) -> (outcome: Option<
        Result<Post, Error>,
    >)
        ensures
            final(self)@ == old(self)@.ticked(tick as int),
            !old(self)@.due(tick as int) ==> outcome is None && *final(summit) == *old(summit),
            old(self)@.due(tick as int) ==> outcome is Some && asked_to_store::<D>(
                old(self)@.write().0,
                outcome->0,
            ),
            old(self)@.due(tick as int) ==> outcome is Some && match outcome->0 {
                Ok(post) => post@.answers(old(self)@.write().0) && final(summit).hub@
                    == published(old(summit).hub@, post@),
                Err(err) => err is Storage && final(summit).hub@ == old(summit).hub@,
            },
    {
        if tick < self.next_tick {
            return None;
        }
        self.next_tick = self.next_tick.saturating_add(self.fake_user.tick_rate);
        Some(self.action(summit))
    }

    /// The user's action: writes one post and hands it to the service, once.
    pub fn action<D: Db>(&mut self, summit: &mut Summit<D>) -> (outcome: Result<Post, Error>)
        ensures
            asked_to_store::<D>(old(self)@.write().0, outcome),
            final(self).rng == old(self)@.write().1,
            final(self).fake_user == old(self).fake_user,
            final(self).next_tick == old(self).next_tick,
            match outcome {
                Ok(post) => post@.answers(old(self)@.write().0) && final(summit).hub@
                    == published(old(summit).hub@, post@),
                Err(err) => err is Storage && final(summit).hub@ == old(summit).hub@,
            },
    {
        let create_post = CreatePost::dummy_with_rng(
            &FakeCreatePost(&self.fake_user),
            &mut self.rng,
        );
        summit.create_post(create_post)
    }
}

} // verus!
