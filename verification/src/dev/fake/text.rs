//! Made-up names and text.

use self::locale::{pick_word, picked, picked_word, Locale, LocaleText};
use crate::rng::{
    choose_item, draw_bool, draw_in_range, draw_name, drawn_bool, drawn_in_range, drawn_name,
};
use rand::rngs::StdRng;
use vstd::prelude::*;

pub mod locale;
pub mod markdown;

verus! {

/// The text of each string of a list.
pub open spec fn texts(strings: Seq<String>) -> Seq<Seq<char>> {
    Seq::new(strings.len(), |i: int| strings[i]@)
}

/// The text of each word of a word list.
pub open spec fn word_texts(words: Seq<&'static str>) -> Seq<Seq<char>> {
    Seq::new(words.len(), |i: int| words[i]@)
}

/// The parts written one after another, with `sep` between neighbours.
pub open spec fn joined(parts: Seq<Seq<char>>, sep: Seq<char>) -> Seq<char>
    decreases parts.len(),
{
    if parts.len() == 0 {
        Seq::empty()
    } else if parts.len() == 1 {
        parts[0]
    } else {
        joined(parts.drop_last(), sep) + sep + parts.last()
    }
}

/// Writes the strings one after another, with `sep` between neighbours.
pub fn join_strings(parts: &Vec<String>, sep: &str) -> (text: String)
    ensures
        text@ == joined(texts(parts@), sep@),
{
    let mut text = String::new();
    let mut i: usize = 0;
    while i < parts.len()
        invariant
            i <= parts.len(),
            text@ == joined(texts(parts@).take(i as int), sep@),
        decreases parts.len() - i,
    {
        let ghost before = texts(parts@).take(i as int);
        let ghost after = texts(parts@).take(i + 1);
        assert(after.drop_last() == before);
        assert(after.last() == parts@[i as int]@);
        if i > 0 {
            text.append(sep);
        } else {
            assert(before.len() == 0);
            assert(text@ + parts@[i as int]@ == parts@[i as int]@);
        }
        text.append(parts[i].as_str());
        i += 1;
    }
    assert(texts(parts@).take(parts.len() as int) == texts(parts@));
    text
}

/// The lower-case form of a text, as `str::to_lowercase` gives it.
pub uninterp spec fn lowercase(text: Seq<char>) -> Seq<char>;

/// The upper-case form of a character, as `char::to_uppercase` gives it; it
/// may be more than one character long.
pub uninterp spec fn uppercase(c: char) -> Seq<char>;

/// `str::to_lowercase`: the lower-case form depends on the text alone.
#[verifier::external_body]
fn to_lowercase(text: &str) -> (lower: String)
    ensures
        lower@ == lowercase(text@),
{
    text.to_lowercase()
}

/// `char::to_uppercase`, collected into a string: the upper-case form
/// depends on the character alone.
#[verifier::external_body]
fn to_uppercase(c: char) -> (upper: String)
    ensures
        upper@ == uppercase(c),
{
    c.to_uppercase().collect()
}

/// A text with its first character in upper case.
pub open spec fn capitalized(text: Seq<char>) -> Seq<char> {
    if text.len() == 0 {
        Seq::empty()
    } else {
        uppercase(text[0]) + text.skip(1)
    }
}

/// A made-up personal name.
#[derive(Debug, Clone, Copy)]
pub struct Name(pub Locale);

impl Name {
    /// Draws a name. Every locale uses English names.
    pub fn fake_with_rng(&self, rng: &mut StdRng) -> (name: String)
        ensures
            name@ == drawn_name(*old(rng)).0,
            *final(rng) == drawn_name(*old(rng)).1,
    {
        match self.0 {
            Locale::En => draw_name(rng),
            Locale::EnBob => draw_name(rng),
        }
    }
}

/// How the words of a user or host name are cased and joined.
#[derive(Debug, Clone, Copy, PartialEq, Eq, Structural)]
pub enum NameJoinStyle {
    AllLowercase,
    CamelCase,
    AllLowerHyphen,
    AllLowerUnderscore,
    CamelHyphen,
    CamelUnderscore,
    /// Any of the casings above, drawn anew for each word.
    Random,
}

/// The number of join styles.
pub const NAME_JOIN_STYLE_COUNT: usize = 7;

impl NameJoinStyle {
    /// The style with the given number; numbers past the last give
    /// [`NameJoinStyle::Random`].
    pub open spec fn from_index(index: usize) -> NameJoinStyle {
        if index == 0 {
            NameJoinStyle::AllLowercase
        } else if index == 1 {
            NameJoinStyle::CamelCase
        } else if index == 2 {
            NameJoinStyle::AllLowerHyphen
        } else if index == 3 {
            NameJoinStyle::AllLowerUnderscore
        } else if index == 4 {
            NameJoinStyle::CamelHyphen
        } else if index == 5 {
            NameJoinStyle::CamelUnderscore
        } else {
            NameJoinStyle::Random
        }
    }

    /// The style drawn by a generator in state `rng`.
    pub open spec fn drawn(rng: StdRng) -> (NameJoinStyle, StdRng) {
        let draw = drawn_in_range(rng, 0, NAME_JOIN_STYLE_COUNT);
        (NameJoinStyle::from_index(draw.0), draw.1)
    }

    /// Draws a style, each with the same chance.
    pub fn dummy_with_rng(rng: &mut StdRng) -> (style: NameJoinStyle)
        ensures
            style == NameJoinStyle::drawn(*old(rng)).0,
            *final(rng) == NameJoinStyle::drawn(*old(rng)).1,
    {
        let index = draw_in_range(rng, 0, NAME_JOIN_STYLE_COUNT);
        if index == 0 {
            NameJoinStyle::AllLowercase
        } else if index == 1 {
            NameJoinStyle::CamelCase
        } else if index == 2 {
            NameJoinStyle::AllLowerHyphen
        } else if index == 3 {
            NameJoinStyle::AllLowerUnderscore
        } else if index == 4 {
            NameJoinStyle::CamelHyphen
        } else if index == 5 {
            NameJoinStyle::CamelUnderscore
        } else {
            NameJoinStyle::Random
        }
    }

    /// Whether the style writes its words in lower case throughout.
    pub open spec fn is_lower(&self) -> bool {
        *self == NameJoinStyle::AllLowercase || *self == NameJoinStyle::AllLowerHyphen || *self
            == NameJoinStyle::AllLowerUnderscore
    }

    /// What stands between two words: a hyphen for
    /// [`NameJoinStyle::AllLowerHyphen`], an underscore for the other three
    /// styles with a separator in their name, nothing for the rest.
    pub open spec fn separator(&self) -> Seq<char> {
        match self {
            NameJoinStyle::AllLowerHyphen => seq!['-'],
            NameJoinStyle::AllLowerUnderscore
            | NameJoinStyle::CamelHyphen
            | NameJoinStyle::CamelUnderscore => seq!['_'],
            _ => Seq::empty(),
        }
    }

    /// One word in this style. [`NameJoinStyle::Random`] first draws the
    /// style to use; should that draw be `Random` again, the word is
    /// capitalized. A lower-case style gives the word in lower case, any
    /// other gives it with its first character in upper case.
    pub open spec fn spec_fmt(&self, text: Seq<char>, rng: StdRng) -> (Seq<char>, StdRng) {
        let used = if *self == NameJoinStyle::Random {
            NameJoinStyle::drawn(rng)
        } else {
            (*self, rng)
        };
        (
            if used.0.is_lower() {
                lowercase(text)
            } else {
                capitalized(text)
            },
            used.1,
        )
    }

    /// Writes one word in this style.
    pub fn fmt(&self, s: &str, rng: &mut StdRng) -> (text: String)
        ensures
            text@ == self.spec_fmt(s@, *old(rng)).0,
            *final(rng) == self.spec_fmt(s@, *old(rng)).1,
    {
        let style = match self {
            NameJoinStyle::Random => NameJoinStyle::dummy_with_rng(rng),
            _ => *self,
        };
        match style {
            NameJoinStyle::CamelHyphen
            | NameJoinStyle::CamelUnderscore
            | NameJoinStyle::CamelCase
            | NameJoinStyle::Random => {
                let len = s.unicode_len();
                if len == 0 {
                    String::new()
                } else {
                    let mut text = to_uppercase(s.get_char(0));
                    text.append(s.substring_char(1, len));
                    assert(s@.subrange(1, len as int) == s@.skip(1));
                    text
                }
            },
            NameJoinStyle::AllLowerHyphen
            | NameJoinStyle::AllLowerUnderscore
            | NameJoinStyle::AllLowercase => to_lowercase(s),
        }
    }

    /// The words from number `from` on, each in this style, with the
    /// separator before every word but the very first.
    pub open spec fn spec_join_from(&self, strs: Seq<&str>, from: int, rng: StdRng) -> (
        Seq<char>,
        StdRng,
    )
        decreases strs.len() - from,
    {
        if from < 0 || from >= strs.len() {
            (Seq::empty(), rng)
        } else {
            let word = self.spec_fmt(strs[from]@, rng);
            let rest = self.spec_join_from(strs, from + 1, word.1);
            (
                (if from == 0 {
                    Seq::empty()
                } else {
                    self.separator()
                }) + word.0 + rest.0,
                rest.1,
            )
        }
    }

    /// The words, each in this style, joined by the style's separator.
    pub open spec fn spec_join(&self, strs: Seq<&str>, rng: StdRng) -> (Seq<char>, StdRng) {
        self.spec_join_from(strs, 0, rng)
    }

    /// Joins the words into one name: each word is written in this style
    /// (see [`NameJoinStyle::spec_fmt`]), and the style's separator stands
    /// between neighbours. Only [`NameJoinStyle::Random`] draws from the
    /// generator, once for each word.
    pub fn join(&self, strs: &[&str], rng: &mut StdRng) -> (name: String)
        ensures
            name@ == self.spec_join(strs@, *old(rng)).0,
            *final(rng) == self.spec_join(strs@, *old(rng)).1,
    {
        let sep: &str = match self {
            NameJoinStyle::AllLowerHyphen => "-",
            NameJoinStyle::AllLowerUnderscore
            | NameJoinStyle::CamelHyphen
            | NameJoinStyle::CamelUnderscore => "_",
            _ => "",
        };
        proof {
            reveal_strlit("-");
            reveal_strlit("_");
            reveal_strlit("");
            assert(sep@ =~= self.separator());
        }
        let ghost start_rng = *rng;
        let mut name = String::new();
        let mut i: usize = 0;
        while i < strs.len()
            invariant
                i <= strs.len(),
                sep@ == self.separator(),
                self.spec_join(strs@, start_rng) == (
                    name@ + self.spec_join_from(strs@, i as int, *rng).0,
                    self.spec_join_from(strs@, i as int, *rng).1,
                ),
            decreases strs.len() - i,
        {
            let ghost before = name@;
            let ghost word = self.spec_fmt(strs@[i as int]@, *rng);
            let ghost rest = self.spec_join_from(strs@, i + 1, word.1);
            if i > 0 {
                name.append(sep);
            }
            let text = self.fmt(strs[i], rng);
            name.append(text.as_str());
            assert(name@ + rest.0 =~= before + ((if i == 0 {
                Seq::empty()
            } else {
                self.separator()
            }) + word.0 + rest.0));
            i += 1;
        }
        assert(name@ + Seq::<char>::empty() =~= name@);
        name
    }
}

/// The user part of a fediverse address.
#[derive(Debug, Clone, Copy)]
pub struct FediUserName(pub Locale);

impl FediUserName {
    /// The user name drawn by a generator in state `rng`: an adjective, a
    /// noun and a verb of the locale (an empty word where a list is empty),
    /// joined in a style that is drawn after the three words.
    pub open spec fn drawn(&self, rng: StdRng) -> (Seq<char>, StdRng) {
        let adj = picked_word(self.0.spec_adjectives(), "", rng);
        let noun = picked_word(self.0.spec_nouns(), "", adj.1);
        let verb = picked_word(self.0.spec_verbs(), "", noun.1);
        let style = NameJoinStyle::drawn(verb.1);
        style.0.spec_join(seq![adj.0, noun.0, verb.0], style.1)
    }

    /// Draws a user name.
    pub fn fake_with_rng(&self, rng: &mut StdRng) -> (name: String)
        ensures
            name@ == self.drawn(*old(rng)).0,
            *final(rng) == self.drawn(*old(rng)).1,
    {
        let adj = pick_word(self.0.adjectives(), "", rng);
        let noun = pick_word(self.0.nouns(), "", rng);
        let verb = pick_word(self.0.verbs(), "", rng);
        let style = NameJoinStyle::dummy_with_rng(rng);
        let parts: [&str; 3] = [adj, noun, verb];
        assert(parts@ =~= seq![adj, noun, verb]);
        style.join(&parts, rng)
    }
}

/// The host part of a fediverse address.
#[derive(Debug, Clone, Copy)]
pub struct FediHostName(pub Locale);

impl FediHostName {
    /// The host name drawn by a generator in state `rng`: an adjective and a
    /// noun of the locale in lower case, joined by a hyphen or an underscore
    /// as a coin says, then a dot and a verb of the locale in lower case
    /// (`example` where it has no verbs).
    pub open spec fn drawn(&self, rng: StdRng) -> (Seq<char>, StdRng) {
        let adj = picked_word(self.0.spec_adjectives(), "", rng);
        let noun = picked_word(self.0.spec_nouns(), "", adj.1);
        let verb = picked(self.0.spec_verbs(), noun.1);
        let suffix = match verb.0 {
            Some(word) => lowercase(word@),
            None => "example"@,
        };
        let coin = drawn_bool(verb.1);
        let style = if coin.0 {
            NameJoinStyle::AllLowerHyphen
        } else {
            NameJoinStyle::AllLowerUnderscore
        };
        let host = style.spec_join(seq![adj.0, noun.0], coin.1);
        (host.0 + seq!['.'] + suffix, host.1)
    }

    /// Draws a host name.
    pub fn fake_with_rng(&self, rng: &mut StdRng) -> (name: String)
        ensures
            name@ == self.drawn(*old(rng)).0,
            *final(rng) == self.drawn(*old(rng)).1,
    {
        let adj = pick_word(self.0.adjectives(), "", rng);
        let noun = pick_word(self.0.nouns(), "", rng);
        let suffix = match choose_item(self.0.verbs(), rng) {
            Some(word) => to_lowercase(word),
            None => String::from_str("example"),
        };
        let style = if draw_bool(rng) {
            NameJoinStyle::AllLowerHyphen
        } else {
            NameJoinStyle::AllLowerUnderscore
        };
        let parts: [&str; 2] = [adj, noun];
        assert(parts@ =~= seq![adj, noun]);
        let mut name = style.join(&parts, rng);
        proof {
            reveal_strlit(".");
            assert("."@ =~= seq!['.']);
        }
        name.append(".");
        name.append(suffix.as_str());
        name
    }
}

} // verus!
