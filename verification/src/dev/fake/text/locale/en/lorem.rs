//! The lorem-ipsum locale, whose words are those of `fake`.

use crate::dev::fake::text::locale::en::EN_PUNC;
use crate::dev::fake::text::locale::LocaleText;
use ::fake::locales::{Data, EN};
use vstd::prelude::*;

verus! {

/// Lorem ipsum: one list of Latin words for every part of speech, and no
/// whole sentences.
#[derive(Debug, Clone, Copy)]
pub struct EnLorem;

/// The number of words in the lorem-ipsum list of `fake`'s English locale.
pub const LOREM_WORD_COUNT: usize = 249;

/// The word at place `index` of the lorem-ipsum list of `fake`'s English
/// locale, counting from 0.
pub uninterp spec fn lorem_word(index: int) -> &'static str;

/// The lorem-ipsum list of `fake`'s English locale: its
/// [`LOREM_WORD_COUNT`] words in their order.
pub open spec fn lorem_words() -> Seq<&'static str> {
    Seq::new(LOREM_WORD_COUNT as nat, |index: int| lorem_word(index))
}

/// `fake::locales::EN::LOREM_WORD`, a constant of the `fake` crate: the list
/// has [`LOREM_WORD_COUNT`] words, and the word at each place is the same
/// at every call.
#[verifier::external_body]
fn lorem_word_list() -> (list: &'static [&'static str])
    ensures
        list@.len() == LOREM_WORD_COUNT,
        forall|index: int| 0 <= index < list@.len() ==> list@[index] == lorem_word(index),
{
    <EN as Data>::LOREM_WORD
}

/// The lorem-ipsum list, whole.
fn lorem_list() -> (list: &'static [&'static str])
    ensures
        list@ == lorem_words(),
        list@.len() > 0,
{
    let list = lorem_word_list();
    assert(list@ =~= lorem_words());
    list
}

impl Default for EnLorem {
    fn default() -> (locale: Self)
        ensures
            locale == EnLorem,
    {
        EnLorem
    }
}

impl LocaleText for EnLorem {
    open spec fn spec_words(&self) -> Seq<&'static str> {
        lorem_words()
    }

    open spec fn spec_adjectives(&self) -> Seq<&'static str> {
        lorem_words()
    }

    open spec fn spec_nouns(&self) -> Seq<&'static str> {
        lorem_words()
    }

    open spec fn spec_verbs(&self) -> Seq<&'static str> {
        lorem_words()
    }

    open spec fn spec_sentences(&self) -> Seq<Seq<&'static str>> {
        Seq::empty()
    }

    open spec fn spec_punc(&self) -> Seq<&'static str> {
        EN_PUNC@
    }

    fn words(&self) -> (list: &'static [&'static str])
        ensures
            list@.len() > 0,
    {
        lorem_list()
    }

    fn adjectives(&self) -> (list: &'static [&'static str]) {
        lorem_list()
    }

    fn nouns(&self) -> (list: &'static [&'static str]) {
        lorem_list()
    }

    fn verbs(&self) -> (list: &'static [&'static str]) {
        lorem_list()
    }

    fn sentences(&self) -> (list: &'static [&'static [&'static str]]) {
        let list: &'static [&'static [&'static str]] = &[];
        assert(super::super::sentence_lists(list@) =~= Seq::empty());
        list
    }

    fn punc(&self) -> (list: &'static [&'static str]) {
        let list: &'static [&'static str] = &EN_PUNC;
        list
    }
}

} // verus!
