//! Made-up text with a sprinkling of Markdown.

use crate::dev::fake::text::locale::{
    sentence_words, LocaleText, Sentence as PlainSentence, DEFAULT_RANGE_END,
};
use crate::dev::fake::text::{join_strings, joined, texts};
use crate::rng::{draw_in_range, drawn_in_range};
use rand::rngs::StdRng;
use std::ops::Range;
use vstd::prelude::*;

verus! {

/// The emphasis put on one word.
#[derive(Debug, Clone, Copy, PartialEq, Eq, Structural)]
pub enum WordMarkup {
    Plain,
    ItalicStar,
    ItalicUnderscore,
    BoldStar,
    BoldUnderscore,
    BoldItalicStar,
    BoldItalicUnderscore,
}

impl Default for WordMarkup {
    fn default() -> (markup: Self)
        ensures
            markup == WordMarkup::Plain,
    {
        WordMarkup::Plain
    }
}

/// How often words are marked up, in percent of the usual frequency: 100 is
/// the usual frequency, 90 a little less, 110 a little more.
#[derive(Debug, Clone, Copy, PartialEq, Eq, Structural)]
pub struct MarkupFreq(pub u32);

/// The largest frequency that is honoured, in percent; larger ones count as
/// this one.
pub const FREQ_CAP_WORD_MARKUP: u32 = 666;

/// The number of equally likely outcomes of the draw that decides on a
/// word's markup.
pub const MARKUP_DRAW_END: usize = 10_000_000;

/// The number of outcomes, of [`MARKUP_DRAW_END`], that give one kind of
/// markup at one percent of the usual frequency. At the usual frequency each
/// kind is drawn 625 times in 100 000.
pub const MARKUP_STEP: u32 = 625;

impl Default for MarkupFreq {
    fn default() -> (freq: Self)
        ensures
            freq == MarkupFreq(100),
    {
        MarkupFreq(100)
    }
}

impl MarkupFreq {
    /// The number of outcomes that give one kind of markup at this
    /// frequency.
    pub open spec fn step(&self) -> int {
        if self.0 < FREQ_CAP_WORD_MARKUP {
            MARKUP_STEP * self.0
        } else {
            MARKUP_STEP * FREQ_CAP_WORD_MARKUP
        }
    }

    /// The markup that the outcome `draw` stands for: the six kinds take one
    /// step of outcomes each, from the smallest outcome up, and the rest
    /// gives no markup.
    pub open spec fn markup_for(&self, draw: usize) -> WordMarkup {
        if draw < self.step() {
            WordMarkup::ItalicStar
        } else if draw < 2 * self.step() {
            WordMarkup::ItalicUnderscore
        } else if draw < 3 * self.step() {
            WordMarkup::BoldStar
        } else if draw < 4 * self.step() {
            WordMarkup::BoldUnderscore
        } else if draw < 5 * self.step() {
            WordMarkup::BoldItalicStar
        } else if draw < 6 * self.step() {
            WordMarkup::BoldItalicUnderscore
        } else {
            WordMarkup::Plain
        }
    }
}

impl WordMarkup {
    /// What is written on either side of a word.
    pub open spec fn marker(&self) -> Seq<char> {
        match self {
            WordMarkup::Plain => Seq::empty(),
            WordMarkup::ItalicStar => seq!['*'],
            WordMarkup::ItalicUnderscore => seq!['_'],
            WordMarkup::BoldStar => seq!['*', '*'],
            WordMarkup::BoldUnderscore => seq!['_', '_'],
            WordMarkup::BoldItalicStar => seq!['*', '*', '*'],
            WordMarkup::BoldItalicUnderscore => seq!['_', '_', '_'],
        }
    }

    /// A word with this markup around it.
    pub open spec fn spec_format(&self, text: Seq<char>) -> Seq<char> {
        self.marker() + text + self.marker()
    }

    /// Puts this markup around the word.
    pub fn format_string(&self, s: &mut String)
        ensures
            final(s)@ == self.spec_format(old(s)@),
    {
        let marker: &str = match self {
            WordMarkup::Plain => {
                assert(self.spec_format(s@) =~= s@);
                return ;
            },
            WordMarkup::ItalicStar => "*",
            WordMarkup::ItalicUnderscore => "_",
            WordMarkup::BoldStar => "**",
            WordMarkup::BoldUnderscore => "__",
            WordMarkup::BoldItalicStar => "***",
            WordMarkup::BoldItalicUnderscore => "___",
        };
        proof {
            reveal_strlit("*");
            reveal_strlit("_");
            reveal_strlit("**");
            reveal_strlit("__");
            reveal_strlit("***");
            reveal_strlit("___");
            assert(marker@ =~= self.marker());
        }
        let mut text = String::from_str(marker);
        text.append(s.as_str());
        text.append(marker);
        *s = text;
    }

    /// The markup drawn at the given frequency by a generator in state
    /// `rng`.
    pub open spec fn drawn(freq: MarkupFreq, rng: StdRng) -> (WordMarkup, StdRng) {
        let draw = drawn_in_range(rng, 0, MARKUP_DRAW_END);
        (freq.markup_for(draw.0), draw.1)
    }

    /// Draws the markup of one word at the given frequency.
    pub fn dummy_with_rng(freq: &MarkupFreq, rng: &mut StdRng) -> (markup: WordMarkup)
        ensures
            markup == WordMarkup::drawn(*freq, *old(rng)).0,
            *final(rng) == WordMarkup::drawn(*freq, *old(rng)).1,
    {
        let capped: u64 = if freq.0 < FREQ_CAP_WORD_MARKUP {
            freq.0 as u64
        } else {
            FREQ_CAP_WORD_MARKUP as u64
        };
        let step: u64 = MARKUP_STEP as u64 * capped;
        let draw = draw_in_range(rng, 0, MARKUP_DRAW_END) as u64;
        if draw < step {
            WordMarkup::ItalicStar
        } else if draw < 2 * step {
            WordMarkup::ItalicUnderscore
        } else if draw < 3 * step {
            WordMarkup::BoldStar
        } else if draw < 4 * step {
            WordMarkup::BoldUnderscore
        } else if draw < 5 * step {
            WordMarkup::BoldItalicStar
        } else if draw < 6 * step {
            WordMarkup::BoldItalicUnderscore
        } else {
            WordMarkup::Plain
        }
    }
}

/// The words from number `from` on, each with a markup drawn for it at the
/// usual frequency.
pub open spec fn marked_up(words: Seq<Seq<char>>, from: int, rng: StdRng) -> (
    Seq<Seq<char>>,
    StdRng,
)
    decreases words.len() - from,
{
    if from < 0 || from >= words.len() {
        (Seq::empty(), rng)
    } else {
        let markup = WordMarkup::drawn(MarkupFreq(100), rng);
        let rest = marked_up(words, from + 1, markup.1);
        (seq![markup.0.spec_format(words[from])] + rest.0, rest.1)
    }
}

/// The words of a run of sentences with markup: first all the words are
/// drawn as for a plain run, then a markup is drawn for each in turn.
pub open spec fn sentence_markdown_words<L: LocaleText>(
    locale: L,
    start: usize,
    end: usize,
    rng: StdRng,
) -> (Seq<Seq<char>>, StdRng) {
    let plain = sentence_words(locale, start, end, rng);
    marked_up(plain.0, 0, plain.1)
}

/// A run of sentences with markup, as one text: its words with a blank
/// between neighbours.
pub open spec fn sentence_markdown<L: LocaleText>(
    locale: L,
    start: usize,
    end: usize,
    rng: StdRng,
) -> (Seq<char>, StdRng) {
    let words = sentence_markdown_words(locale, start, end, rng);
    (joined(words.0, seq![' ']), words.1)
}

/// A run of sentences of a locale with markup on some words. The range says
/// how many sentences there may be.
#[derive(Debug)]
pub struct Sentence<L>(pub L, pub Range<usize>);

impl<L: LocaleText> Sentence<L> {
    /// A run of the default length: up to five sentences, possibly none.
    pub fn locale(locale: L) -> (sentence: Self)
        ensures
            sentence.0 == locale,
            sentence.1.start == 0,
            sentence.1.end == DEFAULT_RANGE_END,
    {
        Sentence(locale, 0..DEFAULT_RANGE_END)
    }

    /// Draws the words. The range must hold a number.
    pub fn fake_with_rng(&self, rng: &mut StdRng) -> (words: Vec<String>)
        requires
            self.1.start < self.1.end,
        ensures
            texts(words@) == sentence_markdown_words(
                self.0,
                self.1.start,
                self.1.end,
                *old(rng),
            ).0,
            *final(rng) == sentence_markdown_words(self.0, self.1.start, self.1.end, *old(rng)).1,
    {
        let plain = PlainSentence(self.0, self.1.start..self.1.end).fake_with_rng(rng);
        let ghost start_rng = *rng;
        let ghost all = texts(plain@);
        let mut words: Vec<String> = Vec::new();
        assert(texts(words@) =~= Seq::empty());
        let mut i: usize = 0;
        while i < plain.len()
            invariant
                i <= plain.len(),
                all == texts(plain@),
                marked_up(all, 0, start_rng) == (
                    texts(words@) + marked_up(all, i as int, *rng).0,
                    marked_up(all, i as int, *rng).1,
                ),
            decreases plain.len() - i,
        {
            let ghost before = texts(words@);
            let ghost rest = marked_up(all, i + 1, WordMarkup::drawn(MarkupFreq(100), *rng).1);
            let markup = WordMarkup::dummy_with_rng(&MarkupFreq(100), rng);
            let mut word = plain[i].clone();
            markup.format_string(&mut word);
            words.push(word);
            assert(texts(words@) =~= before.push(markup.spec_format(all[i as int])));
            assert(texts(words@) + rest.0 =~= before + (seq![markup.spec_format(all[i as int])]
                + rest.0));
            i += 1;
        }
        assert(texts(words@) + Seq::<Seq<char>>::empty() =~= texts(words@));
        words
    }

    /// Draws the words and joins them with blanks. The range must hold a
    /// number.
    pub fn fake_string_with_rng(&self, rng: &mut StdRng) -> (text: String)
        requires
            self.1.start < self.1.end,
        ensures
            text@ == sentence_markdown(self.0, self.1.start, self.1.end, *old(rng)).0,
            *final(rng) == sentence_markdown(self.0, self.1.start, self.1.end, *old(rng)).1,
    {
        let words = self.fake_with_rng(rng);
        proof {
            reveal_strlit(" ");
            assert(" "@ =~= seq![' ']);
        }
        join_strings(&words, " ")
    }
}

/// The smallest number of sentences in a run of a paragraph's text.
pub const PARAGRAPH_RUN_START: usize = 2;

/// One more than the largest number of sentences in a run of a paragraph's
/// text.
pub const PARAGRAPH_RUN_END: usize = 11;

/// The words of `count` runs of sentences of the default length, one run
/// after the other.
pub open spec fn paragraph_words<L: LocaleText>(locale: L, count: nat, rng: StdRng) -> (
    Seq<Seq<char>>,
    StdRng,
)
    decreases count,
{
    if count == 0 {
        (Seq::empty(), rng)
    } else {
        let run = sentence_markdown_words(locale, 0, DEFAULT_RANGE_END, rng);
        let rest = paragraph_words(locale, (count - 1) as nat, run.1);
        (run.0 + rest.0, rest.1)
    }
}

/// `count` runs of two to ten sentences, each run as one text.
pub open spec fn paragraph_runs<L: LocaleText>(locale: L, count: nat, rng: StdRng) -> (
    Seq<Seq<char>>,
    StdRng,
)
    decreases count,
{
    if count == 0 {
        (Seq::empty(), rng)
    } else {
        let run = sentence_markdown(locale, PARAGRAPH_RUN_START, PARAGRAPH_RUN_END, rng);
        let rest = paragraph_runs(locale, (count - 1) as nat, run.1);
        (seq![run.0] + rest.0, rest.1)
    }
}

/// The words of paragraphs: their number is drawn from `start..end`, then
/// each is drawn as a run of sentences of the default length.
pub open spec fn paragraph_markdown_words<L: LocaleText>(
    locale: L,
    start: usize,
    end: usize,
    rng: StdRng,
) -> (Seq<Seq<char>>, StdRng) {
    let limit = drawn_in_range(rng, start, end);
    paragraph_words(locale, limit.0 as nat, limit.1)
}

/// Paragraphs as one text: their number is drawn from `start..end`, then each
/// is drawn as a run of two to ten sentences, and a blank line stands between
/// neighbours.
pub open spec fn paragraph_markdown<L: LocaleText>(
    locale: L,
    start: usize,
    end: usize,
    rng: StdRng,
) -> (Seq<char>, StdRng) {
    let limit = drawn_in_range(rng, start, end);
    let runs = paragraph_runs(locale, limit.0 as nat, limit.1);
    (joined(runs.0, seq!['\n', '\n']), runs.1)
}

/// Paragraphs of text in a locale. The range says how many there may be.
#[derive(Debug)]
pub struct Paragraph<L>(pub L, pub Range<usize>);

impl<L: LocaleText> Paragraph<L> {
    /// Draws the paragraphs as one list of words. The range must hold a
    /// number.
    pub fn fake_with_rng(&self, rng: &mut StdRng) -> (words: Vec<String>)
        requires
            self.1.start < self.1.end,
        ensures
            texts(words@) == paragraph_markdown_words(
                self.0,
                self.1.start,
                self.1.end,
                *old(rng),
            ).0,
            *final(rng) == paragraph_markdown_words(self.0, self.1.start, self.1.end, *old(rng)).1,
    {
        let limit = draw_in_range(rng, self.1.start, self.1.end);
        let ghost start_rng = *rng;
        let mut words: Vec<String> = Vec::new();
        assert(texts(words@) =~= Seq::empty());
        let mut i: usize = 0;
        while i < limit
            invariant
                i <= limit,
                paragraph_words(self.0, limit as nat, start_rng) == (
                    texts(words@) + paragraph_words(self.0, (limit - i) as nat, *rng).0,
                    paragraph_words(self.0, (limit - i) as nat, *rng).1,
                ),
            decreases limit - i,
        {
            let ghost before = texts(words@);
            let ghost run = sentence_markdown_words(self.0, 0, DEFAULT_RANGE_END, *rng);
            let ghost rest = paragraph_words(self.0, (limit - i - 1) as nat, run.1);
            let sentence = Sentence::locale(self.0).fake_with_rng(rng);
            let mut j: usize = 0;
            while j < sentence.len()
                invariant
                    j <= sentence.len(),
                    texts(words@) == before + texts(sentence@).take(j as int),
                decreases sentence.len() - j,
            {
                let ghost so_far = texts(words@);
                words.push(sentence[j].clone());
                assert(texts(words@) =~= so_far.push(sentence@[j as int]@));
                assert(texts(sentence@).take(j + 1) =~= texts(sentence@).take(j as int).push(
                    sentence@[j as int]@,
                ));
                j += 1;
            }
            assert(texts(sentence@).take(sentence.len() as int) == texts(sentence@));
            assert(texts(words@) + rest.0 =~= before + (run.0 + rest.0));
            i += 1;
        }
        assert(texts(words@) + Seq::<Seq<char>>::empty() =~= texts(words@));
        words
    }

    /// Draws the paragraphs as one text. The range must hold a number.
    pub fn fake_string_with_rng(&self, rng: &mut StdRng) -> (text: String)
        requires
            self.1.start < self.1.end,
        ensures
            text@ == paragraph_markdown(self.0, self.1.start, self.1.end, *old(rng)).0,
            *final(rng) == paragraph_markdown(self.0, self.1.start, self.1.end, *old(rng)).1,
    {
        let limit = draw_in_range(rng, self.1.start, self.1.end);
        let ghost start_rng = *rng;
        let mut runs: Vec<String> = Vec::new();
        assert(texts(runs@) =~= Seq::empty());
        let mut i: usize = 0;
        while i < limit
            invariant
                i <= limit,
                paragraph_runs(self.0, limit as nat, start_rng) == (
                    texts(runs@) + paragraph_runs(self.0, (limit - i) as nat, *rng).0,
                    paragraph_runs(self.0, (limit - i) as nat, *rng).1,
                ),
            decreases limit - i,
        {
            let ghost before = texts(runs@);
            let ghost run = sentence_markdown(
                self.0,
                PARAGRAPH_RUN_START,
                PARAGRAPH_RUN_END,
                *rng,
            );
            let ghost rest = paragraph_runs(self.0, (limit - i - 1) as nat, run.1);
            let sentence = Sentence(
                self.0,
                PARAGRAPH_RUN_START..PARAGRAPH_RUN_END,
            ).fake_string_with_rng(rng);
            runs.push(sentence);
            assert(texts(runs@) =~= before.push(run.0));
            assert(texts(runs@) + rest.0 =~= before + (seq![run.0] + rest.0));
            i += 1;
        }
        assert(texts(runs@) + Seq::<Seq<char>>::empty() =~= texts(runs@));
        proof {
            reveal_strlit("\n\n");
            assert("\n\n"@ =~= seq!['\n', '\n']);
        }
        join_strings(&runs, "\n\n")
    }
}

} // verus!
