//! English word lists.

use super::{sentence_lists, LocaleText};
use vstd::prelude::*;

pub mod lorem;

pub use self::lorem::EnLorem;

verus! {

/// The punctuation marks shared by the English locales.
pub const EN_PUNC: [&'static str; 5] = [".", ",", ";", ":", "!"];

/// The words of [`EnBob`], of any part of speech.
pub const BOB_WORDS: [&'static str; 24] = [
    "happy", "little", "tree", "cloud", "mountain", "river", "brush", "canvas", "quiet",
    "gentle", "almighty", "titanium", "white", "cabin", "friend", "meadow", "snow", "paint",
    "blend", "tap", "sky", "evergreen", "lake", "sunset",
];

/// The adjectives of [`EnBob`].
pub const BOB_ADJECTIVES: [&'static str; 12] = [
    "Happy", "little", "quiet", "gentle", "almighty", "bright", "misty", "soft", "distant",
    "lazy", "frosty", "warm",
];

/// The nouns of [`EnBob`].
pub const BOB_NOUNS: [&'static str; 12] = [
    "Tree", "cloud", "mountain", "river", "brush", "canvas", "cabin", "meadow", "lake",
    "sunset", "bush", "squirrel",
];

/// The verbs of [`EnBob`].
pub const BOB_VERBS: [&'static str; 8] = [
    "Paint", "blend", "tap", "wash", "brush", "scrape", "highlight", "wander",
];

/// A whole sentence of [`EnBob`], word by word.
pub const BOB_SENTENCE_ACCIDENTS: [&'static str; 7] = [
    "There", "are", "only", "happy", "little", "accidents", "here.",
];

/// A whole sentence of [`EnBob`], word by word.
pub const BOB_SENTENCE_TREE: [&'static str; 6] = [
    "Every", "tree", "needs", "a", "little", "friend.",
];

/// A whole sentence of [`EnBob`], word by word.
pub const BOB_SENTENCE_CLOUD: [&'static str; 8] = [
    "Let", "a", "quiet", "cloud", "drift", "across", "the", "sky.",
];

/// A whole sentence of [`EnBob`], word by word.
pub const BOB_SENTENCE_BRUSH: [&'static str; 5] = ["Just", "tap", "the", "brush", "gently."];

/// An English locale that only knows its punctuation.
#[derive(Debug, Clone, Copy)]
pub struct EnLocale;

impl Default for EnLocale {
    fn default() -> (locale: Self)
        ensures
            locale == EnLocale,
    {
        EnLocale
    }
}

impl LocaleText for EnLocale {
    open spec fn spec_words(&self) -> Seq<&'static str> {
        Seq::empty()
    }

    open spec fn spec_adjectives(&self) -> Seq<&'static str> {
        Seq::empty()
    }

    open spec fn spec_nouns(&self) -> Seq<&'static str> {
        Seq::empty()
    }

    open spec fn spec_verbs(&self) -> Seq<&'static str> {
        Seq::empty()
    }

    open spec fn spec_sentences(&self) -> Seq<Seq<&'static str>> {
        Seq::empty()
    }

    open spec fn spec_punc(&self) -> Seq<&'static str> {
        EN_PUNC@
    }

    fn words(&self) -> (list: &'static [&'static str]) {
        let list: &'static [&'static str] = &[];
        list
    }

    fn adjectives(&self) -> (list: &'static [&'static str]) {
        let list: &'static [&'static str] = &[];
        list
    }

    fn nouns(&self) -> (list: &'static [&'static str]) {
        let list: &'static [&'static str] = &[];
        list
    }

    fn verbs(&self) -> (list: &'static [&'static str]) {
        let list: &'static [&'static str] = &[];
        list
    }

    fn sentences(&self) -> (list: &'static [&'static [&'static str]]) {
        let list: &'static [&'static [&'static str]] = &[];
        assert(sentence_lists(list@) =~= Seq::empty());
        list
    }

    fn punc(&self) -> (list: &'static [&'static str]) {
        let list: &'static [&'static str] = &EN_PUNC;
        list
    }
}

/// A cheerful English locale with its own words and a few whole sentences.
/// The first simulated user always speaks it.
#[derive(Debug, Clone, Copy)]
pub struct EnBob;

impl Default for EnBob {
    fn default() -> (locale: Self)
        ensures
            locale == EnBob,
    {
        EnBob
    }
}

impl LocaleText for EnBob {
    open spec fn spec_words(&self) -> Seq<&'static str> {
        BOB_WORDS@
    }

    open spec fn spec_adjectives(&self) -> Seq<&'static str> {
        BOB_ADJECTIVES@
    }

    open spec fn spec_nouns(&self) -> Seq<&'static str> {
        BOB_NOUNS@
    }

    open spec fn spec_verbs(&self) -> Seq<&'static str> {
        BOB_VERBS@
    }

    open spec fn spec_sentences(&self) -> Seq<Seq<&'static str>> {
        seq![
            BOB_SENTENCE_ACCIDENTS@,
            BOB_SENTENCE_TREE@,
            BOB_SENTENCE_CLOUD@,
            BOB_SENTENCE_BRUSH@,
        ]
    }

    open spec fn spec_punc(&self) -> Seq<&'static str> {
        EN_PUNC@
    }

    fn words(&self) -> (list: &'static [&'static str]) {
        let list: &'static [&'static str] = &BOB_WORDS;
        list
    }

    fn adjectives(&self) -> (list: &'static [&'static str]) {
        let list: &'static [&'static str] = &BOB_ADJECTIVES;
        list
    }

    fn nouns(&self) -> (list: &'static [&'static str]) {
        let list: &'static [&'static str] = &BOB_NOUNS;
        list
    }

    fn verbs(&self) -> (list: &'static [&'static str]) {
        let list: &'static [&'static str] = &BOB_VERBS;
        list
    }

    fn sentences(&self) -> (list: &'static [&'static [&'static str]]) {
        let list: &'static [&'static [&'static str]] = &[
            &BOB_SENTENCE_ACCIDENTS,
            &BOB_SENTENCE_TREE,
            &BOB_SENTENCE_CLOUD,
            &BOB_SENTENCE_BRUSH,
        ];
        assert(sentence_lists(list@) =~= self.spec_sentences());
        list
    }

    fn punc(&self) -> (list: &'static [&'static str]) {
        let list: &'static [&'static str] = &EN_PUNC;
        list
    }
}

} // verus!
