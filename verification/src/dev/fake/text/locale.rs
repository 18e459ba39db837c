//! Locales: the word lists that made-up text is drawn from.

use self::en::lorem::EnLorem;
use self::en::EnBob;
use crate::dev::fake::text::{join_strings, joined, texts, word_texts};
use crate::rng::{choose_item, chosen_index, draw_in_range, drawn_in_range};
use rand::rngs::StdRng;
use std::ops::Range;
use vstd::prelude::*;

pub mod en;

verus! {

/// The word lists of each sentence of a list of sentences.
pub open spec fn sentence_lists(sentences: Seq<&'static [&'static str]>) -> Seq<
    Seq<&'static str>,
> {
    Seq::new(sentences.len(), |i: int| sentences[i]@)
}

/// What a locale offers: word lists by part of speech, whole sentences, and
/// punctuation marks. Any list may be empty.
pub trait LocaleText: Sized + Copy {
    spec fn spec_words(&self) -> Seq<&'static str>;

    spec fn spec_adjectives(&self) -> Seq<&'static str>;

    spec fn spec_nouns(&self) -> Seq<&'static str>;

    spec fn spec_verbs(&self) -> Seq<&'static str>;

    spec fn spec_sentences(&self) -> Seq<Seq<&'static str>>;

    spec fn spec_punc(&self) -> Seq<&'static str>;

    fn words(&self) -> (list: &'static [&'static str])
        ensures
            list@ == self.spec_words(),
    ;

    fn adjectives(&self) -> (list: &'static [&'static str])
        ensures
            list@ == self.spec_adjectives(),
    ;

    fn nouns(&self) -> (list: &'static [&'static str])
        ensures
            list@ == self.spec_nouns(),
    ;

    fn verbs(&self) -> (list: &'static [&'static str])
        ensures
            list@ == self.spec_verbs(),
    ;

    fn sentences(&self) -> (list: &'static [&'static [&'static str]])
        ensures
            sentence_lists(list@) == self.spec_sentences(),
    ;

    fn punc(&self) -> (list: &'static [&'static str])
        ensures
            list@ == self.spec_punc(),
    ;

}

/// The locales a simulated user can speak.
#[derive(Debug, Clone, Copy, PartialEq, Eq, Structural)]
pub enum Locale {
    En,
    EnBob,
}

impl Default for Locale {
    fn default() -> (locale: Self)
        ensures
            locale == Locale::En,
    {
        Locale::En
    }
}

/// The number of locales.
pub const LOCALE_COUNT: usize = 2;

impl Locale {
    /// The locale with the given number; numbers past the last give the last.
    pub open spec fn from_index(index: usize) -> Locale {
        if index == 0 {
            Locale::En
        } else {
            Locale::EnBob
        }
    }

    /// The locale drawn from a generator in state `rng`, and the state the
    /// generator is left in.
    pub open spec fn drawn(rng: StdRng) -> (Locale, StdRng) {
        let draw = drawn_in_range(rng, 0, LOCALE_COUNT);
        (Locale::from_index(draw.0), draw.1)
    }

    /// Draws a locale, each with the same chance.
    pub fn dummy_with_rng(rng: &mut StdRng) -> (locale: Locale)
        ensures
            locale == Locale::drawn(*old(rng)).0,
            *final(rng) == Locale::drawn(*old(rng)).1,
    {
        let index = draw_in_range(rng, 0, LOCALE_COUNT);
        if index == 0 {
            Locale::En
        } else {
            Locale::EnBob
        }
    }
}

impl LocaleText for Locale {
    open spec fn spec_words(&self) -> Seq<&'static str> {
        match self {
            Locale::En => EnLorem.spec_words(),
            Locale::EnBob => EnBob.spec_words(),
        }
    }

    open spec fn spec_adjectives(&self) -> Seq<&'static str> {
        match self {
            Locale::En => EnLorem.spec_adjectives(),
            Locale::EnBob => EnBob.spec_adjectives(),
        }
    }

    open spec fn spec_nouns(&self) -> Seq<&'static str> {
        match self {
            Locale::En => EnLorem.spec_nouns(),
            Locale::EnBob => EnBob.spec_nouns(),
        }
    }

    open spec fn spec_verbs(&self) -> Seq<&'static str> {
        match self {
            Locale::En => EnLorem.spec_verbs(),
            Locale::EnBob => EnBob.spec_verbs(),
        }
    }

    open spec fn spec_sentences(&self) -> Seq<Seq<&'static str>> {
        match self {
            Locale::En => EnLorem.spec_sentences(),
            Locale::EnBob => EnBob.spec_sentences(),
        }
    }

    open spec fn spec_punc(&self) -> Seq<&'static str> {
        match self {
            Locale::En => EnLorem.spec_punc(),
            Locale::EnBob => EnBob.spec_punc(),
        }
    }

    fn words(&self) -> (list: &'static [&'static str]) {
        match self {
            Locale::En => EnLorem.words(),
            Locale::EnBob => EnBob.words(),
        }
    }

    fn adjectives(&self) -> (list: &'static [&'static str]) {
        match self {
            Locale::En => EnLorem.adjectives(),
            Locale::EnBob => EnBob.adjectives(),
        }
    }

    fn nouns(&self) -> (list: &'static [&'static str]) {
        match self {
            Locale::En => EnLorem.nouns(),
            Locale::EnBob => EnBob.nouns(),
        }
    }

    fn verbs(&self) -> (list: &'static [&'static str]) {
        match self {
            Locale::En => EnLorem.verbs(),
            Locale::EnBob => EnBob.verbs(),
        }
    }

    fn sentences(&self) -> (list: &'static [&'static [&'static str]]) {
        match self {
            Locale::En => EnLorem.sentences(),
            Locale::EnBob => EnBob.sentences(),
        }
    }

    fn punc(&self) -> (list: &'static [&'static str]) {
        match self {
            Locale::En => EnLorem.punc(),
            Locale::EnBob => EnBob.punc(),
        }
    }
}

/// A locale backed by another: each list is the primary's, unless that is
/// empty, in which case it is the fallback's.
#[derive(Debug, Clone, Copy)]
pub struct FallbackLocale<Outer: LocaleText, Inner: LocaleText> {
    pub primary: Outer,
    pub fallback: Inner,
}

/// `primary`, with `fallback` standing in for each list it lacks.
pub fn with_fallback<O: LocaleText, I: LocaleText>(primary: O, fallback: I) -> (both:
    FallbackLocale<O, I>)
    ensures
        both.primary == primary,
        both.fallback == fallback,
{
    FallbackLocale { primary, fallback }
}

/// `primary`, or `fallback` where `primary` is empty.
pub open spec fn spec_is_empty_then<T>(primary: Seq<T>, fallback: Seq<T>) -> Seq<T> {
    if primary.len() == 0 {
        fallback
    } else {
        primary
    }
}

/// `primary`, or `fallback` where `primary` is empty.
pub fn is_empty_then<T>(primary: &'static [T], fallback: &'static [T]) -> (list: &'static [T])
    ensures
        list@ == spec_is_empty_then(primary@, fallback@),
        list == if primary@.len() == 0 {
            fallback
        } else {
            primary
        },
{
    if primary.len() == 0 {
        fallback
    } else {
        primary
    }
}

impl<O: LocaleText, I: LocaleText> LocaleText for FallbackLocale<O, I> {
    open spec fn spec_words(&self) -> Seq<&'static str> {
        spec_is_empty_then(self.primary.spec_words(), self.fallback.spec_words())
    }

    open spec fn spec_adjectives(&self) -> Seq<&'static str> {
        spec_is_empty_then(self.primary.spec_adjectives(), self.fallback.spec_adjectives())
    }

    open spec fn spec_nouns(&self) -> Seq<&'static str> {
        spec_is_empty_then(self.primary.spec_nouns(), self.fallback.spec_nouns())
    }

    open spec fn spec_verbs(&self) -> Seq<&'static str> {
        spec_is_empty_then(self.primary.spec_verbs(), self.fallback.spec_verbs())
    }

    open spec fn spec_sentences(&self) -> Seq<Seq<&'static str>> {
        spec_is_empty_then(self.primary.spec_sentences(), self.fallback.spec_sentences())
    }

    open spec fn spec_punc(&self) -> Seq<&'static str> {
        spec_is_empty_then(self.primary.spec_punc(), self.fallback.spec_punc())
    }

    fn words(&self) -> (list: &'static [&'static str]) {
        is_empty_then(self.primary.words(), self.fallback.words())
    }

    fn adjectives(&self) -> (list: &'static [&'static str]) {
        is_empty_then(self.primary.adjectives(), self.fallback.adjectives())
    }

    fn nouns(&self) -> (list: &'static [&'static str]) {
        is_empty_then(self.primary.nouns(), self.fallback.nouns())
    }

    fn verbs(&self) -> (list: &'static [&'static str]) {
        is_empty_then(self.primary.verbs(), self.fallback.verbs())
    }

    fn sentences(&self) -> (list: &'static [&'static [&'static str]]) {
        let primary = self.primary.sentences();
        let fallback = self.fallback.sentences();
        proof {
            assert(sentence_lists(primary@).len() == primary@.len());
        }
        is_empty_then(primary, fallback)
    }

    fn punc(&self) -> (list: &'static [&'static str]) {
        is_empty_then(self.primary.punc(), self.fallback.punc())
    }
}

/// The item picked from `items` by a generator in state `rng`, if there is
/// any item, and the state the generator is left in.
pub open spec fn picked<T>(items: Seq<T>, rng: StdRng) -> (Option<T>, StdRng) {
    if items.len() == 0 {
        (None, rng)
    } else {
        let pick = chosen_index(rng, items.len() as usize);
        (Some(items[pick.0 as int]), pick.1)
    }
}

/// The word picked from `words`, or `default` where there is no word.
pub open spec fn picked_word(words: Seq<&'static str>, default: &'static str, rng: StdRng) -> (
    &'static str,
    StdRng,
) {
    let pick = picked(words, rng);
    (
        match pick.0 {
            Some(word) => word,
            None => default,
        },
        pick.1,
    )
}

/// Picks a word of `words`, or hands out `default` where there is no word.
pub fn pick_word(words: &'static [&'static str], default: &'static str, rng: &mut StdRng) -> (word:
    &'static str)
    ensures
        word == picked_word(words@, default, *old(rng)).0,
        *final(rng) == picked_word(words@, default, *old(rng)).1,
{
    match choose_item(words, rng) {
        Some(word) => word,
        None => default,
    }
}

/// A punctuation mark of a locale.
#[derive(Debug, Clone, Copy)]
pub struct Punc(pub Locale);

impl Punc {
    /// The mark drawn by a generator in state `rng`: one of the locale's
    /// marks, or a full stop where it has none.
    pub open spec fn drawn(&self, rng: StdRng) -> (&'static str, StdRng) {
        picked_word(self.0.spec_punc(), ".", rng)
    }

    /// Draws a punctuation mark of the locale.
    pub fn fake_with_rng(&self, rng: &mut StdRng) -> (mark: &'static str)
        ensures
            mark == self.drawn(*old(rng)).0,
            *final(rng) == self.drawn(*old(rng)).1,
    {
        pick_word(self.0.punc(), ".", rng)
    }
}

/// A piece of a sentence: a word or a punctuation mark.
#[derive(Debug, Clone, Copy, PartialEq, Eq, Structural)]
pub enum SentFrag {
    Word,
    Punc,
}

impl SentFrag {
    /// The kind of piece drawn by a generator in state `rng`.
    pub open spec fn drawn(rng: StdRng) -> (SentFrag, StdRng) {
        let draw = drawn_in_range(rng, 0, 2);
        (
            if draw.0 == 0 {
                SentFrag::Word
            } else {
                SentFrag::Punc
            },
            draw.1,
        )
    }

    /// Draws a kind of piece, each with the same chance.
    pub fn dummy_with_rng(rng: &mut StdRng) -> (frag: SentFrag)
        ensures
            frag == SentFrag::drawn(*old(rng)).0,
            *final(rng) == SentFrag::drawn(*old(rng)).1,
    {
        let index = draw_in_range(rng, 0, 2);
        if index == 0 {
            SentFrag::Word
        } else {
            SentFrag::Punc
        }
    }
}

/// The number of words in each run of loose words.
pub const WORDS_PER_RUN: usize = 12;

/// The words of `count` sentences, each picked from `sentences`, which holds
/// at least one.
pub open spec fn chosen_sentences(sentences: Seq<Seq<&'static str>>, count: nat, rng: StdRng) -> (
    Seq<Seq<char>>,
    StdRng,
)
    decreases count,
{
    if count == 0 {
        (Seq::empty(), rng)
    } else {
        let pick = chosen_index(rng, sentences.len() as usize);
        let rest = chosen_sentences(sentences, (count - 1) as nat, pick.1);
        (word_texts(sentences[pick.0 as int]) + rest.0, rest.1)
    }
}

/// `count` words, each picked from `words`, which holds at least one.
pub open spec fn chosen_words(words: Seq<&'static str>, count: nat, rng: StdRng) -> (
    Seq<Seq<char>>,
    StdRng,
)
    decreases count,
{
    if count == 0 {
        (Seq::empty(), rng)
    } else {
        let pick = chosen_index(rng, words.len() as usize);
        let rest = chosen_words(words, (count - 1) as nat, pick.1);
        (seq![words[pick.0 as int]@] + rest.0, rest.1)
    }
}

/// The words of a run of sentences in a locale: the number of sentences is
/// drawn from `start..end`; then each sentence is picked from the locale's
/// sentences or, where it has none, made of [`WORDS_PER_RUN`] of its words.
/// A locale with neither gives no words.
pub open spec fn sentence_words<L: LocaleText>(locale: L, start: usize, end: usize, rng: StdRng)
    -> (Seq<Seq<char>>, StdRng) {
    let limit = drawn_in_range(rng, start, end);
    if locale.spec_sentences().len() > 0 {
        chosen_sentences(locale.spec_sentences(), limit.0 as nat, limit.1)
    } else if locale.spec_words().len() > 0 {
        chosen_words(locale.spec_words(), (limit.0 * WORDS_PER_RUN) as nat, limit.1)
    } else {
        (Seq::empty(), limit.1)
    }
}

/// A run of sentences of a locale, as plain words. The range says how many
/// sentences there may be.
#[derive(Debug)]
pub struct Sentence<L>(pub L, pub Range<usize>);

/// One more than the largest number of sentences of a default run.
pub const DEFAULT_RANGE_END: usize = 6;

impl<L: LocaleText> Sentence<L> {
    /// Draws the words. The range must hold a number.
    pub fn fake_with_rng(&self, rng: &mut StdRng) -> (words: Vec<String>)
        requires
            self.1.start < self.1.end,
        ensures
            texts(words@) == sentence_words(self.0, self.1.start, self.1.end, *old(rng)).0,
            *final(rng) == sentence_words(self.0, self.1.start, self.1.end, *old(rng)).1,
    {
        let limit = draw_in_range(rng, self.1.start, self.1.end);
        let sentences = self.0.sentences();
        let mut words: Vec<String> = Vec::new();
        let ghost start_rng = *rng;
        assert(texts(words@) =~= Seq::empty());
        if sentences.len() > 0 {
            let ghost all = self.0.spec_sentences();
            assert(all.len() == sentences@.len());
            let mut i: usize = 0;
            while i < limit
                invariant
                    i <= limit,
                    sentences@.len() > 0,
                    sentence_lists(sentences@) == all,
                    chosen_sentences(all, limit as nat, start_rng) == (
                        texts(words@) + chosen_sentences(all, (limit - i) as nat, *rng).0,
                        chosen_sentences(all, (limit - i) as nat, *rng).1,
                    ),
                decreases limit - i,
            {
                let ghost rng_before = *rng;
                let ghost words_before = texts(words@);
                assert(all.len() == sentences@.len());
                let sentence: &'static [&'static str] = match choose_item(sentences, rng) {
                    Some(sentence) => sentence,
                    None => &[],
                };
                let ghost pick = chosen_index(rng_before, all.len() as usize);
                assert(sentence@ == all[pick.0 as int]);
                let mut j: usize = 0;
                while j < sentence.len()
                    invariant
                        j <= sentence.len(),
                        texts(words@) == words_before + word_texts(sentence@).take(j as int),
                    decreases sentence.len() - j,
                {
                    let ghost before = texts(words@);
                    words.push(String::from_str(sentence[j]));
                    assert(texts(words@) =~= before.push(sentence@[j as int]@));
                    assert(word_texts(sentence@).take(j + 1) =~= word_texts(sentence@).take(
                        j as int,
                    ).push(sentence@[j as int]@));
                    j += 1;
                }
                assert(word_texts(sentence@).take(sentence.len() as int) == word_texts(sentence@));
                i += 1;
                assert(texts(words@) + chosen_sentences(all, (limit - i) as nat, *rng).0
                    =~= words_before + (word_texts(sentence@) + chosen_sentences(
                    all,
                    (limit - i) as nat,
                    *rng,
                ).0));
            }
            assert(texts(words@) + Seq::<Seq<char>>::empty() =~= texts(words@));
        } else {
            let list = self.0.words();
            assert(self.0.spec_sentences().len() == sentences@.len());
            if list.len() > 0 {
                let ghost all = self.0.spec_words();
                let ghost total = (limit * WORDS_PER_RUN) as nat;
                let mut i: usize = 0;
                while i < limit
                    invariant
                        i <= limit,
                        list@ == all,
                        all.len() > 0,
                        total == limit * WORDS_PER_RUN,
                        chosen_words(all, total, start_rng) == (
                            texts(words@) + chosen_words(
                                all,
                                (total - i * WORDS_PER_RUN) as nat,
                                *rng,
                            ).0,
                            chosen_words(all, (total - i * WORDS_PER_RUN) as nat, *rng).1,
                        ),
                    decreases limit - i,
                {
                    let mut j: usize = 0;
                    while j < WORDS_PER_RUN
                        invariant
                            i < limit,
                            j <= WORDS_PER_RUN,
                            list@ == all,
                            all.len() > 0,
                            total == limit * WORDS_PER_RUN,
                            chosen_words(all, total, start_rng) == (
                                texts(words@) + chosen_words(
                                    all,
                                    (total - i * WORDS_PER_RUN - j) as nat,
                                    *rng,
                                ).0,
                                chosen_words(
                                    all,
                                    (total - i * WORDS_PER_RUN - j) as nat,
                                    *rng,
                                ).1,
                            ),
                        decreases WORDS_PER_RUN - j,
                    {
                        let ghost before = texts(words@);
                        let ghost left = (total - i * WORDS_PER_RUN - j) as nat;
                        let ghost rest = chosen_words(all, (left - 1) as nat, chosen_index(
                            *rng,
                            all.len() as usize,
                        ).1);
                        let word = pick_word(list, "", rng);
                        words.push(String::from_str(word));
                        assert(texts(words@) =~= before.push(word@));
                        j += 1;
                        assert(texts(words@) + rest.0 =~= before + (seq![word@] + rest.0));
                    }
                    i += 1;
                }
                assert(texts(words@) + Seq::<Seq<char>>::empty() =~= texts(words@));
            }
        }
        words
    }
}

/// The number of words at which a loose sentence is long enough.
pub const SENT_WORDS_END: usize = 14;

/// A loose sentence of lorem-ipsum words with punctuation marks of a locale
/// strewn in, ending in a full stop.
///
/// The sentence grows piece by piece until it holds [`SENT_WORDS_END`] words
/// or more: start with [`Sent::start`], call [`Sent::step`] until
/// [`SentDraft::is_done`], and end with [`Sent::finish`]. How many pieces
/// that takes depends on the draws.
#[derive(Debug, Clone, Copy)]
pub struct Sent(pub Locale);

/// A loose sentence in the making: the text so far, the number of words in
/// it, and the kind of the last piece.
#[derive(Debug)]
pub struct SentDraft {
    pub buf: String,
    pub words: usize,
    pub prev_frag: SentFrag,
}

/// What a [`SentDraft`] holds.
pub struct SentDraftView {
    pub buf: Seq<char>,
    pub words: usize,
    pub prev_frag: SentFrag,
}

impl View for SentDraft {
    type V = SentDraftView;

    open spec fn view(&self) -> SentDraftView {
        SentDraftView { buf: self.buf@, words: self.words, prev_frag: self.prev_frag }
    }
}

impl SentDraft {
    /// Whether the sentence is long enough.
    pub fn is_done(&self) -> (done: bool)
        ensures
            done == (self.words >= SENT_WORDS_END),
    {
        self.words >= SENT_WORDS_END
    }
}

impl Sent {
    /// The draft after one more piece, drawn by a generator in state `rng`.
    /// The kind of piece is drawn first. A punctuation mark after a run of
    /// words is a mark of the locale. Anything else is a run of lorem-ipsum
    /// words, their number drawn from none to thirteen, with blanks between
    /// them and a blank before them unless the draft holds no word yet.
    pub open spec fn stepped(&self, draft: SentDraftView, rng: StdRng) -> (SentDraftView, StdRng) {
        let frag = SentFrag::drawn(rng);
        if draft.prev_frag == SentFrag::Word && frag.0 == SentFrag::Punc {
            let mark = Punc(self.0).drawn(frag.1);
            (SentDraftView { buf: draft.buf + mark.0@, prev_frag: frag.0, ..draft }, mark.1)
        } else {
            let count = drawn_in_range(frag.1, 0, SENT_WORDS_END);
            let run = chosen_words(EnLorem.spec_words(), count.0 as nat, count.1);
            (
                SentDraftView {
                    buf: draft.buf + (if draft.words > 0 {
                        seq![' ']
                    } else {
                        Seq::empty()
                    }) + joined(run.0, seq![' ']),
                    words: (draft.words + run.0.len()) as usize,
                    prev_frag: frag.0,
                },
                run.1,
            )
        }
    }

    /// An empty draft. It counts as ending in a punctuation mark, so that
    /// the sentence starts with words.
    pub fn start(&self) -> (draft: SentDraft)
        ensures
            draft@ == (SentDraftView {
                buf: Seq::empty(),
                words: 0,
                prev_frag: SentFrag::Punc,
            }),
    {
        SentDraft { buf: String::new(), words: 0, prev_frag: SentFrag::Punc }
    }

    /// Adds one more piece to a draft that is not yet long enough.
    pub fn step(&self, draft: &mut SentDraft, rng: &mut StdRng)
        requires
            old(draft).words < SENT_WORDS_END,
        ensures
            final(draft)@ == self.stepped(old(draft)@, *old(rng)).0,
            *final(rng) == self.stepped(old(draft)@, *old(rng)).1,
    {
        let frag = SentFrag::dummy_with_rng(rng);
        let after_word = match draft.prev_frag {
            SentFrag::Word => true,
            SentFrag::Punc => false,
        };
        let is_punc = match frag {
            SentFrag::Word => false,
            SentFrag::Punc => true,
        };
        if after_word && is_punc {
            let mark = Punc(self.0).fake_with_rng(rng);
            draft.buf.append(mark);
        } else {
            if draft.words > 0 {
                proof {
                    reveal_strlit(" ");
                    assert(" "@ =~= seq![' ']);
                }
                draft.buf.append(" ");
            } else {
                assert(draft.buf@ + Seq::<char>::empty() =~= draft.buf@);
            }
            let count = draw_in_range(rng, 0, SENT_WORDS_END);
            let list = EnLorem.words();
            let ghost all = EnLorem.spec_words();
            let ghost start_rng = *rng;
            let mut words: Vec<String> = Vec::new();
            assert(texts(words@) =~= Seq::empty());
            let mut i: usize = 0;
            while i < count
                invariant
                    i <= count,
                    words@.len() == i,
                    list@ == all,
                    all.len() > 0,
                    chosen_words(all, count as nat, start_rng) == (
                        texts(words@) + chosen_words(all, (count - i) as nat, *rng).0,
                        chosen_words(all, (count - i) as nat, *rng).1,
                    ),
                decreases count - i,
            {
                let ghost before = texts(words@);
                let ghost rest = chosen_words(all, (count - i - 1) as nat, chosen_index(
                    *rng,
                    all.len() as usize,
                ).1);
                let word = pick_word(list, "", rng);
                words.push(String::from_str(word));
                assert(texts(words@) =~= before.push(word@));
                i += 1;
                assert(texts(words@) + rest.0 =~= before + (seq![word@] + rest.0));
            }
            proof {
                reveal_strlit(" ");
                assert(" "@ =~= seq![' ']);
                assert(texts(words@) + Seq::<Seq<char>>::empty() =~= texts(words@));
            }
            draft.words = draft.words + words.len();
            let text = join_strings(&words, " ");
            draft.buf.append(text.as_str());
        }
        draft.prev_frag = frag;
    }

    /// The finished sentence: the draft and a full stop.
    pub fn finish(&self, draft: SentDraft) -> (text: String)
        ensures
            text@ == draft@.buf + seq!['.'],
    {
        let mut text = draft.buf;
        proof {
            reveal_strlit(".");
            assert("."@ =~= seq!['.']);
        }
        text.append(".");
        text
    }
}

} // verus!
