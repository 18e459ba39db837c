use fake::locales::{Data, EN};
use fake::Fake;
use rand::rngs::StdRng;
use rand::seq::SliceRandom;
use rand::SeedableRng;
use summit::dev::fake::text::locale::en::lorem::EnLorem;
use summit::dev::fake::text::locale::en::{EnBob, EnLocale};
use summit::dev::fake::text::locale::{
    is_empty_then, with_fallback, Locale, LocaleText, Punc, SentFrag, Sentence as PlainSentence,
};
use summit::dev::fake::text::markdown::{MarkupFreq, Paragraph, Sentence, WordMarkup};
use summit::dev::fake::text::{join_strings, FediHostName, FediUserName, Name, NameJoinStyle};

fn rng(seed: u64) -> StdRng {
    StdRng::seed_from_u64(seed)
}

fn strip_markup(text: &str) -> String {
    text.chars().filter(|c| *c != '*' && *c != '_').collect()
}

#[test]
fn join_all_lowercase_lowers_and_concatenates() {
    let mut rng = rng(1);
    let name = NameJoinStyle::AllLowercase.join(&["Happy", "LITTLE", "tree"], &mut rng);
    assert_eq!(name, "happylittletree");
}

#[test]
fn join_camel_case_capitalizes_each_word() {
    let mut rng = rng(1);
    let name = NameJoinStyle::CamelCase.join(&["happy", "little", "tree"], &mut rng);
    assert_eq!(name, "HappyLittleTree");
}

#[test]
fn join_lower_hyphen_and_underscore() {
    let mut rng = rng(1);
    assert_eq!(NameJoinStyle::AllLowerHyphen.join(&["Happy", "Tree"], &mut rng), "happy-tree");
    assert_eq!(NameJoinStyle::AllLowerUnderscore.join(&["Happy", "Tree"], &mut rng), "happy_tree");
}

#[test]
fn join_camel_styles_use_an_underscore() {
    let mut rng = rng(1);
    assert_eq!(NameJoinStyle::CamelHyphen.join(&["happy", "tree"], &mut rng), "Happy_Tree");
    assert_eq!(NameJoinStyle::CamelUnderscore.join(&["happy", "tree"], &mut rng), "Happy_Tree");
}

#[test]
fn join_of_nothing_is_empty() {
    let mut rng = rng(1);
    let none: [&str; 0] = [];
    assert_eq!(NameJoinStyle::CamelHyphen.join(&none, &mut rng), "");
}

#[test]
fn join_leaves_the_generator_alone_unless_random() {
    let mut used = rng(5);
    NameJoinStyle::CamelCase.join(&["a", "b"], &mut used);
    assert_eq!(used, rng(5));
    let mut random = rng(5);
    NameJoinStyle::Random.join(&["a", "b"], &mut random);
    assert_ne!(random, rng(5));
}

#[test]
fn join_random_draws_one_style_for_each_word() {
    let mut ours = rng(11);
    let name = NameJoinStyle::Random.join(&["happy", "tree"], &mut ours);
    let mut theirs = rng(11);
    let mut expected = String::new();
    for word in ["happy", "tree"] {
        let index: usize = (0..7).fake_with_rng(&mut theirs);
        if index == 0 || index == 2 || index == 3 {
            expected.push_str(&word.to_lowercase());
        } else {
            let mut chars = word.chars();
            let first = chars.next().unwrap();
            expected.extend(first.to_uppercase());
            expected.push_str(chars.as_str());
        }
    }
    assert_eq!(name, expected);
    assert_eq!(ours, theirs);
}

#[test]
fn fmt_capitalizes_only_the_first_character() {
    let mut rng = rng(1);
    assert_eq!(NameJoinStyle::CamelCase.fmt("tREE", &mut rng), "TREE");
    assert_eq!(NameJoinStyle::CamelCase.fmt("", &mut rng), "");
    assert_eq!(NameJoinStyle::AllLowercase.fmt("TrEE", &mut rng), "tree");
}

#[test]
fn fmt_handles_characters_with_a_long_upper_case() {
    let mut rng = rng(1);
    assert_eq!(NameJoinStyle::CamelCase.fmt("\u{df}a", &mut rng), "SSa");
}

#[test]
fn join_strings_puts_the_separator_between() {
    let parts = vec!["a".to_string(), "b".to_string(), "c".to_string()];
    assert_eq!(join_strings(&parts, ", "), "a, b, c");
    assert_eq!(join_strings(&vec!["a".to_string()], ", "), "a");
    assert_eq!(join_strings(&Vec::new(), ", "), "");
}

#[test]
fn format_string_wraps_the_word() {
    let cases = [
        (WordMarkup::Plain, "word"),
        (WordMarkup::ItalicStar, "*word*"),
        (WordMarkup::ItalicUnderscore, "_word_"),
        (WordMarkup::BoldStar, "**word**"),
        (WordMarkup::BoldUnderscore, "__word__"),
        (WordMarkup::BoldItalicStar, "***word***"),
        (WordMarkup::BoldItalicUnderscore, "___word___"),
    ];
    for (markup, expected) in cases {
        let mut word = String::from("word");
        markup.format_string(&mut word);
        assert_eq!(word, expected);
    }
}

#[test]
fn markup_follows_the_draw() {
    for seed in 0..200u64 {
        let mut ours = rng(seed);
        let markup = WordMarkup::dummy_with_rng(&MarkupFreq(100), &mut ours);
        let mut theirs = rng(seed);
        let draw: usize = (0..10_000_000).fake_with_rng(&mut theirs);
        let expected = match draw / 62_500 {
            0 => WordMarkup::ItalicStar,
            1 => WordMarkup::ItalicUnderscore,
            2 => WordMarkup::BoldStar,
            3 => WordMarkup::BoldUnderscore,
            4 => WordMarkup::BoldItalicStar,
            5 => WordMarkup::BoldItalicUnderscore,
            _ => WordMarkup::Plain,
        };
        assert_eq!(markup, expected);
        assert_eq!(ours, theirs);
    }
}

#[test]
fn markup_frequency_zero_never_marks_up() {
    for seed in 0..50u64 {
        let mut rng = rng(seed);
        assert_eq!(WordMarkup::dummy_with_rng(&MarkupFreq(0), &mut rng), WordMarkup::Plain);
    }
}

#[test]
fn markup_frequency_is_capped() {
    for seed in 0..200u64 {
        let mut capped = rng(seed);
        let mut huge = rng(seed);
        assert_eq!(
            WordMarkup::dummy_with_rng(&MarkupFreq(666), &mut capped),
            WordMarkup::dummy_with_rng(&MarkupFreq(u32::MAX), &mut huge)
        );
    }
}

#[test]
fn markup_defaults() {
    assert_eq!(WordMarkup::default(), WordMarkup::Plain);
    assert_eq!(MarkupFreq::default(), MarkupFreq(100));
}

#[test]
fn locale_default_is_en() {
    assert_eq!(Locale::default(), Locale::En);
}

#[test]
fn locale_follows_the_draw() {
    for seed in 0..50u64 {
        let mut ours = rng(seed);
        let locale = Locale::dummy_with_rng(&mut ours);
        let mut theirs = rng(seed);
        let index: usize = (0..2).fake_with_rng(&mut theirs);
        assert_eq!(locale, if index == 0 { Locale::En } else { Locale::EnBob });
        assert_eq!(ours, theirs);
    }
}

#[test]
fn sent_frag_follows_the_draw() {
    for seed in 0..50u64 {
        let mut ours = rng(seed);
        let frag = SentFrag::dummy_with_rng(&mut ours);
        let mut theirs = rng(seed);
        let index: usize = (0..2).fake_with_rng(&mut theirs);
        assert_eq!(frag, if index == 0 { SentFrag::Word } else { SentFrag::Punc });
    }
}

#[test]
fn lorem_words_are_those_of_fake() {
    assert_eq!(summit::dev::fake::text::locale::en::lorem::LOREM_WORD_COUNT, 249);
    assert_eq!(EN::LOREM_WORD.len(), 249);
    assert_eq!(EnLorem.words().len(), 249);
    assert_eq!(EnLorem.words(), EN::LOREM_WORD);
    assert_eq!(EnLorem.nouns(), EN::LOREM_WORD);
    assert_eq!(EnLorem.verbs(), EN::LOREM_WORD);
    assert_eq!(EnLorem.adjectives(), EN::LOREM_WORD);
    assert!(EnLorem.sentences().is_empty());
    assert_eq!(EnLorem.punc(), [".", ",", ";", ":", "!"]);
}

#[test]
fn locale_hands_out_the_lists_of_its_language() {
    assert_eq!(Locale::En.words(), EnLorem.words());
    assert_eq!(Locale::EnBob.words(), EnBob.words());
    assert_eq!(Locale::EnBob.sentences(), EnBob.sentences());
    assert_eq!(Locale::EnBob.sentences().len(), 4);
    assert!(EnLocale.words().is_empty());
    assert_eq!(EnLocale.punc(), [".", ",", ";", ":", "!"]);
}

#[test]
fn fallback_stands_in_for_empty_lists_only() {
    let both = with_fallback(EnLocale, EnBob);
    assert_eq!(both.words(), EnBob.words());
    assert_eq!(both.sentences(), EnBob.sentences());
    assert_eq!(both.punc(), EnLocale.punc());
    let other = with_fallback(EnBob, EnLorem);
    assert_eq!(other.words(), EnBob.words());
    assert_eq!(other.nouns(), EnBob.nouns());
}

#[test]
fn is_empty_then_picks_the_fallback_for_an_empty_list() {
    let empty: &'static [u8] = &[];
    let full: &'static [u8] = &[1, 2];
    let other: &'static [u8] = &[3];
    assert_eq!(is_empty_then(empty, full), full);
    assert_eq!(is_empty_then(full, other), full);
}

#[test]
fn punc_is_one_of_the_marks() {
    for seed in 0..20u64 {
        let mut ours = rng(seed);
        let mark = Punc(Locale::En).fake_with_rng(&mut ours);
        let mut theirs = rng(seed);
        let expected = [".", ",", ";", ":", "!"].choose(&mut theirs).copied().unwrap();
        assert_eq!(mark, expected);
    }
}

#[test]
fn name_is_the_name_fake_draws() {
    let mut ours = rng(3);
    let name = Name(Locale::En).fake_with_rng(&mut ours);
    let mut theirs = rng(3);
    let expected: String = fake::faker::name::en::Name().fake_with_rng(&mut theirs);
    assert_eq!(name, expected);
    assert_eq!(ours, theirs);
}

#[test]
fn plain_sentence_of_lorem_has_twelve_words_for_each_sentence() {
    for seed in 0..20u64 {
        let mut ours = rng(seed);
        let words = PlainSentence(Locale::En, 1..4).fake_with_rng(&mut ours);
        let mut theirs = rng(seed);
        let limit: usize = (1..4).fake_with_rng(&mut theirs);
        assert_eq!(words.len(), limit * 12);
        let list = EnLorem.words();
        for word in &words {
            assert_eq!(word, list.choose(&mut theirs).unwrap());
        }
        assert_eq!(ours, theirs);
    }
}

#[test]
fn plain_sentence_of_bob_is_made_of_whole_sentences() {
    for seed in 0..20u64 {
        let mut ours = rng(seed);
        let words = PlainSentence(Locale::EnBob, 2..3).fake_with_rng(&mut ours);
        let mut theirs = rng(seed);
        let _limit: usize = (2..3).fake_with_rng(&mut theirs);
        let sentences = EnBob.sentences();
        let mut expected: Vec<String> = Vec::new();
        for _ in 0..2 {
            let sentence = sentences.choose(&mut theirs).unwrap();
            expected.extend(sentence.iter().map(|word| word.to_string()));
        }
        assert_eq!(words, expected);
        assert_eq!(ours, theirs);
    }
}

#[test]
fn plain_sentence_of_a_locale_without_words_is_empty() {
    let mut ours = rng(9);
    let words = PlainSentence(EnLocale, 3..4).fake_with_rng(&mut ours);
    assert!(words.is_empty());
    let mut theirs = rng(9);
    let _limit: usize = (3..4).fake_with_rng(&mut theirs);
    assert_eq!(ours, theirs);
}

#[test]
fn markdown_sentence_marks_up_plain_words() {
    for seed in 0..20u64 {
        let mut ours = rng(seed);
        let marked = Sentence(Locale::En, 1..2).fake_with_rng(&mut ours);
        let mut theirs = rng(seed);
        let plain = PlainSentence(Locale::En, 1..2).fake_with_rng(&mut theirs);
        assert_eq!(marked.len(), plain.len());
        for (word, plain) in marked.iter().zip(plain.iter()) {
            let mut expected = plain.clone();
            WordMarkup::dummy_with_rng(&MarkupFreq(100), &mut theirs).format_string(&mut expected);
            assert_eq!(word, &expected);
        }
        assert_eq!(ours, theirs);
    }
}

#[test]
fn markdown_sentence_text_joins_with_blanks() {
    let mut ours = rng(4);
    let text = Sentence(Locale::En, 1..2).fake_string_with_rng(&mut ours);
    let mut theirs = rng(4);
    let words = Sentence(Locale::En, 1..2).fake_with_rng(&mut theirs);
    assert_eq!(text, words.join(" "));
    assert_eq!(text.split(' ').count(), 12);
}

#[test]
fn default_sentence_run_has_up_to_five_sentences() {
    let sentence = Sentence::locale(Locale::En);
    assert_eq!(sentence.1, 0..6);
    for seed in 0..20u64 {
        let mut rng = rng(seed);
        let words = sentence.fake_with_rng(&mut rng);
        assert!(words.len() % 12 == 0 && words.len() <= 60);
    }
}

#[test]
fn paragraph_text_has_one_to_ten_paragraphs() {
    for seed in 0..10u64 {
        let mut ours = rng(seed);
        let text = Paragraph(Locale::En, 1..11).fake_string_with_rng(&mut ours);
        let mut theirs = rng(seed);
        let limit: usize = (1..11).fake_with_rng(&mut theirs);
        let paragraphs: Vec<&str> = text.split("\n\n").collect();
        assert_eq!(paragraphs.len(), limit);
        for paragraph in paragraphs {
            let expected = Sentence(Locale::En, 2..11).fake_string_with_rng(&mut theirs);
            assert_eq!(paragraph, expected);
            let count = strip_markup(paragraph).split(' ').count();
            assert!(count % 12 == 0 && (24..=120).contains(&count));
        }
        assert_eq!(ours, theirs);
    }
}

#[test]
fn paragraph_words_are_runs_of_default_sentences() {
    let mut ours = rng(8);
    let words = Paragraph(Locale::EnBob, 2..3).fake_with_rng(&mut ours);
    let mut theirs = rng(8);
    let _limit: usize = (2..3).fake_with_rng(&mut theirs);
    let mut expected = Sentence::locale(Locale::EnBob).fake_with_rng(&mut theirs);
    expected.extend(Sentence::locale(Locale::EnBob).fake_with_rng(&mut theirs));
    assert_eq!(words, expected);
}

#[test]
fn fedi_user_name_joins_adjective_noun_and_verb() {
    for seed in 0..30u64 {
        let mut ours = rng(seed);
        let name = FediUserName(Locale::EnBob).fake_with_rng(&mut ours);
        let mut theirs = rng(seed);
        let adj = EnBob.adjectives().choose(&mut theirs).copied().unwrap();
        let noun = EnBob.nouns().choose(&mut theirs).copied().unwrap();
        let verb = EnBob.verbs().choose(&mut theirs).copied().unwrap();
        let style = NameJoinStyle::dummy_with_rng(&mut theirs);
        let expected = style.join(&[adj, noun, verb], &mut theirs);
        assert_eq!(name, expected);
        assert_eq!(ours, theirs);
    }
}

#[test]
fn fedi_host_name_is_lower_case_with_a_suffix() {
    for seed in 0..30u64 {
        let mut ours = rng(seed);
        let name = FediHostName(Locale::EnBob).fake_with_rng(&mut ours);
        let mut theirs = rng(seed);
        let adj = EnBob.adjectives().choose(&mut theirs).copied().unwrap();
        let noun = EnBob.nouns().choose(&mut theirs).copied().unwrap();
        let suffix = EnBob.verbs().choose(&mut theirs).unwrap().to_lowercase();
        let hyphen: bool = fake::Faker.fake_with_rng(&mut theirs);
        let sep = if hyphen { "-" } else { "_" };
        let expected =
            format!("{}{}{}.{}", adj.to_lowercase(), sep, noun.to_lowercase(), suffix);
        assert_eq!(name, expected);
        assert_eq!(name, name.to_lowercase());
        assert_eq!(ours, theirs);
    }
}

#[test]
fn name_join_style_follows_the_draw() {
    let styles = [
        NameJoinStyle::AllLowercase,
        NameJoinStyle::CamelCase,
        NameJoinStyle::AllLowerHyphen,
        NameJoinStyle::AllLowerUnderscore,
        NameJoinStyle::CamelHyphen,
        NameJoinStyle::CamelUnderscore,
        NameJoinStyle::Random,
    ];
    for seed in 0..50u64 {
        let mut ours = rng(seed);
        let style = NameJoinStyle::dummy_with_rng(&mut ours);
        let mut theirs = rng(seed);
        let index: usize = (0..7).fake_with_rng(&mut theirs);
        assert_eq!(style, styles[index]);
    }
}
